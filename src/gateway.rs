use vstd::prelude::*;
use crate::session::{SessionState, merged_sequence, id_view};

verus! {

pub const OP_DISPATCH: u64 = 0;
pub const OP_RECONNECT: u64 = 7;
pub const OP_INVALID_SESSION: u64 = 9;
pub const OP_HELLO: u64 = 10;
pub const OP_HEARTBEAT_ACK: u64 = 11;

/// An inbound gateway frame `{op, d, s?, t?}`, holding the parts of `d` that
/// the client reads: `heartbeat_interval` and `session_id`.
pub struct Envelope {
    pub op: u64,
    pub s: Option<u64>,
    pub t: Option<String>,
    pub heartbeat_interval: Option<u64>,
    pub session_id: Option<String>,
}

/// What one connection has seen so far.
pub struct ConnectionState {
    pub heartbeat_started: bool,
    pub acks: u64,
}

/// What the connection must do after an inbound frame.
#[derive(PartialEq, Eq, Structural, Clone, Copy, Debug)]
pub enum RouterAction {
    Nothing,
    Close,
    StartHeartbeat(u64),
}

/// Whether an event type names the READY event.
pub open spec fn is_ready(t: Option<String>) -> bool {
    match t {
        Some(s) => s@ == "READY"@,
        None => false,
    }
}

/// The sequence number after a frame: the larger of the two when it carries one.
pub open spec fn sequence_after(prior: Option<u64>, f: Envelope) -> Option<u64> {
    match f.s {
        Some(n) => Some(merged_sequence(prior, n)),
        None => prior,
    }
}

/// The session identifier after a frame: set by a READY dispatch that carries
/// one, cleared by an invalid-session frame, kept otherwise.
pub open spec fn session_id_after(prior: Option<Seq<char>>, f: Envelope) -> Option<Seq<char>> {
    if f.op == OP_INVALID_SESSION {
        None
    } else if f.op == OP_DISPATCH && is_ready(f.t) && f.session_id.is_some() {
        Some(f.session_id.unwrap()@)
    } else {
        prior
    }
}

/// The action that a frame calls for on a connection whose heartbeat has or
/// has not been started.
pub open spec fn action_for(started: bool, f: Envelope) -> RouterAction {
    if f.op == OP_RECONNECT || f.op == OP_INVALID_SESSION {
        RouterAction::Close
    } else if f.op == OP_HELLO && !started && f.heartbeat_interval.is_some() {
        RouterAction::StartHeartbeat(f.heartbeat_interval.unwrap())
    } else {
        RouterAction::Nothing
    }
}

impl ConnectionState {
    /// A connection that has just opened.
    pub fn new() -> (r: ConnectionState)
        ensures
            !r.heartbeat_started,
            r.acks == 0,
    {
        ConnectionState { heartbeat_started: false, acks: 0 }
    }
}

/// Whether an optional event type is READY.
fn event_is_ready(t: &Option<String>) -> (r: bool)
    ensures
        r == is_ready(*t),
{
    match t {
        Some(s) => {
            let ready = String::from_str("READY");
            *s == ready
        },
        None => false,
    }
}

/// Applies one inbound frame to the session and the connection, and says what
/// the connection must do next. The sequence number is taken from the frame
/// before anything else.
pub fn route(session: &mut SessionState, conn: &mut ConnectionState, frame: Envelope) -> (r: RouterAction)
    ensures
        final(session).sequence == sequence_after(old(session).sequence, frame),
        id_view(final(session).session_id) == session_id_after(id_view(old(session).session_id), frame),
        r == action_for(old(conn).heartbeat_started, frame),
        final(conn).heartbeat_started == (old(conn).heartbeat_started || r is StartHeartbeat),
        final(conn).acks == if frame.op == OP_HEARTBEAT_ACK && old(conn).acks < u64::MAX {
            (old(conn).acks + 1) as u64
        } else {
            old(conn).acks
        },
{
    if let Some(n) = frame.s {
        session.observe_sequence(n);
    }
    if frame.op == OP_DISPATCH {
        let ready = event_is_ready(&frame.t);
        if ready {
            if let Some(id) = frame.session_id {
                session.store_session_id(id);
            }
        }
        RouterAction::Nothing
    } else if frame.op == OP_RECONNECT {
        RouterAction::Close
    } else if frame.op == OP_INVALID_SESSION {
        session.invalidate();
        RouterAction::Close
    } else if frame.op == OP_HELLO {
        if conn.heartbeat_started {
            RouterAction::Nothing
        } else {
            match frame.heartbeat_interval {
                Some(interval) => {
                    conn.heartbeat_started = true;
                    RouterAction::StartHeartbeat(interval)
                },
                None => RouterAction::Nothing,
            }
        }
    } else if frame.op == OP_HEARTBEAT_ACK {
        if conn.acks < u64::MAX {
            conn.acks = conn.acks + 1;
        }
        RouterAction::Nothing
    } else {
        RouterAction::Nothing
    }
}

/// A frame that carries a sequence number leaves the larger of the prior
/// sequence number and its own: the sequence number never decreases.
pub proof fn lemma_sequence_is_max(prior: Option<u64>, f: Envelope)
    requires
        f.s.is_some(),
    ensures
        sequence_after(prior, f) == Some(match prior {
            Some(p) => if p >= f.s.unwrap() { p } else { f.s.unwrap() },
            None => f.s.unwrap(),
        }),
        prior.is_some() ==> sequence_after(prior, f).unwrap() >= prior.unwrap(),
        sequence_after(prior, f).unwrap() >= f.s.unwrap(),
{
}

} // verus!
