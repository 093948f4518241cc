use vstd::prelude::*;
use crate::gateway::{ConnectionState, Envelope, RouterAction, route, sequence_after, session_id_after, action_for};
use crate::protocol::{Handshake, Heatbeat, IdentifyRequest, ResumeData, ResumeRequest};
use crate::session::{SessionState, id_view};

verus! {

/// Whether the handshake chosen for a session is a Resume carrying `id`,
/// `token` and `seq`, or, when no identifier is held, an Identify carrying `token`.
pub open spec fn handshake_for(token: Seq<char>, id: Option<Seq<char>>, seq: Option<u64>, h: Handshake) -> bool {
    match id {
        Some(i) => match h {
            Handshake::Resume(r) => r.op == 6 && r.d.token@ == token && r.d.session_id@ == i
                && r.d.seq == seq,
            Handshake::Identify(_) => false,
        },
        None => match h {
            Handshake::Identify(r) => r.op == 2 && r.d.token@ == token
                && r.d.properties.os@ == "linux"@ && r.d.properties.browser@ == "homenis"@
                && r.d.properties.device@ == "homenis"@,
            Handshake::Resume(_) => false,
        },
    }
}

/// The Identify request for a credential.
pub fn identify(token: &str) -> (r: IdentifyRequest)
    ensures
        handshake_for(token@, None, None, Handshake::Identify(r)),
{
    let mut req = IdentifyRequest::default();
    req.token(token);
    req
}

/// Chooses the one handshake of a new connection: Resume when the session
/// holds an identifier, Identify otherwise.
pub fn negotiate(token: &str, session: &SessionState) -> (r: Handshake)
    ensures
        handshake_for(token@, id_view(session.session_id), session.sequence, r),
{
    match &session.session_id {
        Some(id) => {
            let d = ResumeData { token: String::from_str(token), session_id: id.clone(), seq: session.sequence };
            Handshake::Resume(ResumeRequest { op: 6, d })
        },
        None => Handshake::Identify(identify(token)),
    }
}

impl Handshake {
    /// The handshake as a JSON text frame.
    pub fn encode(&self) -> (r: String)
        ensures
            r@ == match *self {
                Handshake::Identify(i) => crate::protocol::identify_text(i),
                Handshake::Resume(q) => crate::protocol::resume_text(q),
            },
    {
        match self {
            Handshake::Identify(i) => i.encode(),
            Handshake::Resume(q) => q.encode(),
        }
    }
}

/// The handshake of a new connection is Resume exactly when the session holds
/// an identifier, and Identify exactly when it does not.
pub proof fn lemma_handshake_follows_session(token: Seq<char>, id: Option<Seq<char>>, seq: Option<u64>, h: Handshake)
    requires
        handshake_for(token, id, seq, h),
    ensures
        id.is_some() <==> h is Resume,
        id.is_none() <==> h is Identify,
{
}

/// After an invalid-session frame the session holds no identifier, so the
/// following connection is not planned as a resume and its handshake is Identify.
pub proof fn lemma_invalid_session_forces_identify(
    prior: Option<Seq<char>>,
    f: Envelope,
    token: Seq<char>,
    seq: Option<u64>,
    h: Handshake,
)
    requires
        f.op == crate::gateway::OP_INVALID_SESSION,
        handshake_for(token, session_id_after(prior, f), seq, h),
    ensures
        session_id_after(prior, f).is_none(),
        action_for(false, f) == RouterAction::Close,
        action_for(true, f) == RouterAction::Close,
        h is Identify,
{
}

/// The periodic liveness task of one connection. It runs from the hello frame
/// until the connection closes or a send fails.
pub struct HeartbeatScheduler {
    pub interval: u64,
    pub running: bool,
}

impl HeartbeatScheduler {
    /// A running scheduler with the interval, in milliseconds, that the server gave.
    pub fn start(interval: u64) -> (r: HeartbeatScheduler)
        ensures
            r.interval == interval,
            r.running,
    {
        HeartbeatScheduler { interval, running: true }
    }

    /// One interval has passed: a heartbeat carrying `seq` is due while the
    /// connection lives, none once it is gone.
    pub fn on_tick(&self, seq: Option<u64>) -> (r: Option<Heatbeat>)
        ensures
            r == heartbeat_due(self.running, seq),
    {
        if self.running {
            Some(Heatbeat::new(seq))
        } else {
            None
        }
    }

    /// Handles one event: a tick sends a heartbeat while the task runs, a close
    /// stops it for good.
    pub fn on_event(&mut self, ev: TimerEvent) -> (r: Option<Heatbeat>)
        ensures
            final(self).interval == old(self).interval,
            match ev {
                TimerEvent::Tick(seq) => r == heartbeat_due(old(self).running, seq)
                    && final(self).running == old(self).running,
                TimerEvent::Closed => r.is_none() && !final(self).running,
            },
    {
        match ev {
            TimerEvent::Tick(seq) => self.on_tick(seq),
            TimerEvent::Closed => {
                self.stop();
                None
            },
        }
    }

    /// The connection closed or refused a frame: the task ends for good.
    pub fn stop(&mut self)
        ensures
            final(self).interval == old(self).interval,
            !final(self).running,
    {
        self.running = false;
    }
}

/// What the liveness task of a connection is told.
pub enum TimerEvent {
    /// One interval passed; the last sequence number seen is this.
    Tick(Option<u64>),
    /// The connection closed, or refused a frame.
    Closed,
}

/// The heartbeat that a tick calls for, if any.
pub open spec fn heartbeat_due(running: bool, seq: Option<u64>) -> Option<Heatbeat> {
    if running { Some(Heatbeat { op: 1, d: seq }) } else { None }
}

/// The heartbeats sent over a run of events, by a task that starts running or stopped.
pub open spec fn heartbeats_sent(running: bool, events: Seq<TimerEvent>) -> Seq<Heatbeat>
    decreases events.len(),
{
    if events.len() == 0 {
        Seq::empty()
    } else {
        match events[0] {
            TimerEvent::Tick(seq) => {
                let rest = heartbeats_sent(running, events.drop_first());
                match heartbeat_due(running, seq) {
                    Some(h) => seq![h] + rest,
                    None => rest,
                }
            },
            TimerEvent::Closed => heartbeats_sent(false, events.drop_first()),
        }
    }
}

/// The number of ticks before the first close.
pub open spec fn ticks_before_close(events: Seq<TimerEvent>) -> nat
    decreases events.len(),
{
    if events.len() == 0 {
        0
    } else {
        match events[0] {
            TimerEvent::Tick(_) => 1 + ticks_before_close(events.drop_first()),
            TimerEvent::Closed => 0,
        }
    }
}

/// A running task sends exactly one heartbeat per tick until the connection
/// closes, and a stopped one sends none.
pub proof fn lemma_one_heartbeat_per_tick(running: bool, events: Seq<TimerEvent>)
    ensures
        heartbeats_sent(false, events).len() == 0,
        running ==> heartbeats_sent(running, events).len() == ticks_before_close(events),
    decreases events.len(),
{
    if events.len() > 0 {
        lemma_one_heartbeat_per_tick(running, events.drop_first());
        lemma_one_heartbeat_per_tick(false, events.drop_first());
    }
}

/// How the next connection is to be made after a close.
#[derive(PartialEq, Eq, Structural, Clone, Copy, Debug)]
pub struct ConnectPlan {
    pub resume: bool,
}

/// The lifecycle of one gateway connection: its credential and what it has
/// seen. The socket itself belongs to the caller.
pub struct HomenisHandler {
    pub token: String,
    pub conn: ConnectionState,
}

impl HomenisHandler {
    /// The handler of a connection that is about to open.
    pub fn new(token: &str) -> (r: HomenisHandler)
        ensures
            r.token@ == token@,
            !r.conn.heartbeat_started,
            r.conn.acks == 0,
    {
        HomenisHandler { token: String::from_str(token), conn: ConnectionState::new() }
    }

    /// The connection opened: the one handshake frame to send.
    pub fn on_open(&self, session: &SessionState) -> (r: Handshake)
        ensures
            handshake_for(self.token@, id_view(session.session_id), session.sequence, r),
    {
        negotiate(self.token.as_str(), session)
    }

    /// An inbound frame arrived: the session and the connection are updated
    /// and the action to take is returned.
    pub fn on_message(&mut self, session: &mut SessionState, frame: Envelope) -> (r: RouterAction)
        ensures
            final(session).sequence == sequence_after(old(session).sequence, frame),
            id_view(final(session).session_id) == session_id_after(id_view(old(session).session_id), frame),
            r == action_for(old(self).conn.heartbeat_started, frame),
            final(self).conn.heartbeat_started == (old(self).conn.heartbeat_started || r is StartHeartbeat),
            final(self).token == old(self).token,
    {
        route(session, &mut self.conn, frame)
    }

    /// The connection closed, cleanly or not: the next one is made at once,
    /// resuming exactly when the session still holds an identifier.
    pub fn on_close(&self, session: &SessionState) -> (r: ConnectPlan)
        ensures
            r.resume == session.session_id.is_some(),
    {
        ConnectPlan { resume: session.can_resume() }
    }
}

} // verus!
