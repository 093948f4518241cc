use vstd::prelude::*;

verus! {

/// Largest of the sequence number already held and a newly seen one.
pub open spec fn merged_sequence(prior: Option<u64>, seen: u64) -> u64 {
    match prior {
        Some(p) => if p >= seen { p } else { seen },
        None => seen,
    }
}

/// The session identifier as text, if one is held.
pub open spec fn id_view(id: Option<String>) -> Option<Seq<char>> {
    match id {
        Some(s) => Some(s@),
        None => None,
    }
}

/// What a client remembers of its gateway session across connections:
/// the last sequence number seen and the identifier of a resumable session.
pub struct SessionState {
    pub sequence: Option<u64>,
    pub session_id: Option<String>,
}

impl SessionState {
    /// A session state as it stands at process start: nothing seen yet.
    pub fn new() -> (r: SessionState)
        ensures
            r.sequence.is_none(),
            r.session_id.is_none(),
    {
        SessionState { sequence: None, session_id: None }
    }

    /// Records a sequence number carried by an inbound frame; it never regresses.
    pub fn observe_sequence(&mut self, seen: u64)
        ensures
            final(self).sequence == Some(merged_sequence(old(self).sequence, seen)),
            id_view(final(self).session_id) == id_view(old(self).session_id),
    {
        let next: u64 = match self.sequence {
            Some(p) => if p >= seen { p } else { seen },
            None => seen,
        };
        self.sequence = Some(next);
    }

    /// Stores the identifier of the session that the server confirmed.
    pub fn store_session_id(&mut self, id: String)
        ensures
            final(self).sequence == old(self).sequence,
            id_view(final(self).session_id) == Some(id@),
    {
        self.session_id = Some(id);
    }

    /// Forgets the session identifier: the server will not resume this session.
    /// The sequence number is kept.
    pub fn invalidate(&mut self)
        ensures
            final(self).sequence == old(self).sequence,
            final(self).session_id.is_none(),
    {
        self.session_id = None;
    }

    /// Whether the next connection can resume the session.
    pub fn can_resume(&self) -> (r: bool)
        ensures
            r == self.session_id.is_some(),
    {
        self.session_id.is_some()
    }
}

} // verus!
