use homenis::gateway::{route, ConnectionState, Envelope, RouterAction};
use homenis::handler::{negotiate, HeartbeatScheduler, HomenisHandler, TimerEvent};
use homenis::protocol::Handshake;
use homenis::session::SessionState;

fn frame(op: u64) -> Envelope {
    Envelope { op, s: None, t: None, heartbeat_interval: None, session_id: None }
}

fn hello(interval: u64) -> Envelope {
    Envelope { heartbeat_interval: Some(interval), ..frame(10) }
}

fn ready(seq: u64, id: &str) -> Envelope {
    Envelope { s: Some(seq), t: Some("READY".to_string()), session_id: Some(id.to_string()), ..frame(0) }
}

#[test]
fn hello_ready_close_then_resume() {
    let mut session = SessionState::new();
    let mut handler = HomenisHandler::new("tok");
    let first = handler.on_open(&session);
    assert!(matches!(first, Handshake::Identify(_)));
    assert_eq!(handler.on_message(&mut session, hello(5000)), RouterAction::StartHeartbeat(5000));
    assert_eq!(handler.on_message(&mut session, ready(3, "abc")), RouterAction::Nothing);
    assert_eq!(session.sequence, Some(3));
    assert_eq!(session.session_id.as_deref(), Some("abc"));
    let plan = handler.on_close(&session);
    assert!(plan.resume);
    let next = HomenisHandler::new("tok");
    let hs = next.on_open(&session);
    assert!(matches!(hs, Handshake::Resume(_)));
    assert_eq!(hs.encode(), r#"{"op":6,"d":{"token":"tok","session_id":"abc","seq":3}}"#);
}

#[test]
fn invalid_session_then_identify() {
    let mut session = SessionState::new();
    session.store_session_id("abc".to_string());
    session.observe_sequence(7);
    let mut handler = HomenisHandler::new("tok");
    assert_eq!(handler.on_message(&mut session, frame(9)), RouterAction::Close);
    assert!(session.session_id.is_none());
    assert_eq!(session.sequence, Some(7));
    assert!(!handler.on_close(&session).resume);
    let hs = HomenisHandler::new("tok").on_open(&session);
    assert!(matches!(hs, Handshake::Identify(_)));
    assert_eq!(
        hs.encode(),
        r#"{"op":2,"d":{"token":"tok","properties":{"$os":"linux","$browser":"homenis","$device":"homenis"}}}"#
    );
}

#[test]
fn sequence_never_decreases() {
    let mut session = SessionState::new();
    let mut conn = ConnectionState::new();
    let mut f = frame(0);
    f.s = Some(5);
    route(&mut session, &mut conn, f);
    assert_eq!(session.sequence, Some(5));
    let mut g = frame(0);
    g.s = Some(2);
    route(&mut session, &mut conn, g);
    assert_eq!(session.sequence, Some(5));
    let mut h = frame(0);
    h.s = Some(9);
    route(&mut session, &mut conn, h);
    assert_eq!(session.sequence, Some(9));
}

#[test]
fn sequence_applied_on_reconnect_frame() {
    let mut session = SessionState::new();
    let mut conn = ConnectionState::new();
    let mut f = frame(7);
    f.s = Some(4);
    session.store_session_id("abc".to_string());
    assert_eq!(route(&mut session, &mut conn, f), RouterAction::Close);
    assert_eq!(session.sequence, Some(4));
    assert_eq!(session.session_id.as_deref(), Some("abc"));
}

#[test]
fn hello_starts_heartbeat_once() {
    let mut session = SessionState::new();
    let mut conn = ConnectionState::new();
    assert_eq!(route(&mut session, &mut conn, hello(5000)), RouterAction::StartHeartbeat(5000));
    assert_eq!(route(&mut session, &mut conn, hello(5000)), RouterAction::Nothing);
    assert!(conn.heartbeat_started);
}

#[test]
fn hello_without_interval_does_nothing() {
    let mut session = SessionState::new();
    let mut conn = ConnectionState::new();
    assert_eq!(route(&mut session, &mut conn, frame(10)), RouterAction::Nothing);
    assert!(!conn.heartbeat_started);
}

#[test]
fn heartbeat_ack_is_counted() {
    let mut session = SessionState::new();
    let mut conn = ConnectionState::new();
    assert_eq!(route(&mut session, &mut conn, frame(11)), RouterAction::Nothing);
    assert_eq!(conn.acks, 1);
}

#[test]
fn ready_on_other_opcode_is_ignored() {
    let mut session = SessionState::new();
    let mut conn = ConnectionState::new();
    let mut f = ready(1, "abc");
    f.op = 11;
    route(&mut session, &mut conn, f);
    assert!(session.session_id.is_none());
}

#[test]
fn non_ready_dispatch_keeps_session() {
    let mut session = SessionState::new();
    let mut conn = ConnectionState::new();
    let mut f = ready(2, "xyz");
    f.t = Some("MESSAGE_CREATE".to_string());
    route(&mut session, &mut conn, f);
    assert!(session.session_id.is_none());
    assert_eq!(session.sequence, Some(2));
}

#[test]
fn negotiate_resume_without_sequence() {
    let mut session = SessionState::new();
    session.store_session_id("s1".to_string());
    let hs = negotiate("t", &session);
    assert_eq!(hs.encode(), r#"{"op":6,"d":{"token":"t","session_id":"s1","seq":null}}"#);
}

#[test]
fn heartbeat_every_tick_until_close() {
    let mut sched = HeartbeatScheduler::start(5000);
    assert_eq!(sched.interval, 5000);
    let a = sched.on_event(TimerEvent::Tick(None)).unwrap();
    assert_eq!(a.encode(), r#"{"op":1,"d":null}"#);
    let b = sched.on_event(TimerEvent::Tick(Some(3))).unwrap();
    assert_eq!(b.encode(), r#"{"op":1,"d":3}"#);
    assert!(sched.on_event(TimerEvent::Closed).is_none());
    assert!(sched.on_event(TimerEvent::Tick(Some(4))).is_none());
    assert!(sched.on_tick(Some(4)).is_none());
}
