use vstd::prelude::*;

verus! {

/// What came of one chat message.
pub enum DispatchState {
    /// A registered command ran and produced this reply.
    Complete(String),
    /// The message names a command: the one registered at this index, with this body.
    Matched(usize, String),
    /// The message names a command that is not registered.
    NotFound,
    /// The message is no command.
    Ignore,
}

/// The groups `command` and `body` of the command pattern's leftmost match in a
/// message, each where it took part, or none where the pattern does not match.
pub uninterp spec fn command_match(msg: Seq<char>) -> Option<(Option<Seq<char>>, Option<Seq<char>>)>;

pub open spec fn opt_view(s: Option<String>) -> Option<Seq<char>> {
    match s {
        Some(v) => Some(v@),
        None => None,
    }
}

/// Relies on regex's `Regex::new` and `Regex::captures` for the pattern
/// `!(?P<command>\s+(?<body>.+))`: the text of the named groups of the leftmost
/// match. The pattern is fixed and valid, so compiling it does not fail.
#[verifier::external_body]
fn capture_command(msg: &str) -> (r: Option<(Option<String>, Option<String>)>)
    ensures
        match r {
            Some(p) => command_match(msg@) == Some((opt_view(p.0), opt_view(p.1))),
            None => command_match(msg@).is_none(),
        },
{
    let re = regex::Regex::new(r"!(?P<command>\s+(?<body>.+))").unwrap();
    re.captures(msg).map(|c| (
        c.name("command").map(|m| m.as_str().to_string()),
        c.name("body").map(|m| m.as_str().to_string()),
    ))
}

/// The reply owed for a message to a table of command names, given what the
/// command pattern captured in it.
pub open spec fn dispatched(
    jobs: Seq<Seq<char>>,
    captured: Option<(Option<Seq<char>>, Option<Seq<char>>)>,
    r: Result<DispatchState, String>,
) -> bool {
    match captured {
        None => r matches Ok(DispatchState::Ignore),
        Some((None, _)) => r matches Err(e) && e@ == "failed to get command"@,
        Some((Some(_), None)) => r matches Err(e) && e@ == "failed to get body"@,
        Some((Some(c), Some(b))) => match r {
            Ok(DispatchState::Matched(i, body)) => i < jobs.len() && jobs[i as int] == c && body@ == b
                && forall|j: int| 0 <= j < i ==> jobs[j] != c,
            Ok(DispatchState::NotFound) => forall|j: int| 0 <= j < jobs.len() ==> jobs[j] != c,
            _ => false,
        },
    }
}

/// The inbound command dispatcher: a table of command names, each standing for
/// the handler that the caller keeps at the same index.
pub struct DispatchService {
    pub jobs: Vec<String>,
}

impl DispatchService {
    pub open spec fn names(&self) -> Seq<Seq<char>> {
        self.jobs@.map_values(|s: String| s@)
    }

    /// An empty table.
    pub fn new() -> (r: Self)
        ensures
            r.names().len() == 0,
    {
        Self { jobs: Vec::new() }
    }

    /// Adds a command name at the end of the table and returns its index.
    pub fn register(&mut self, command: String) -> (r: usize)
        requires
            old(self).jobs.len() < usize::MAX,
        ensures
            final(self).names() == old(self).names().push(command@),
            r == old(self).names().len(),
    {
        let r = self.jobs.len();
        self.jobs.push(command);
        assert(self.names() =~= old(self).names().push(command@));
        r
    }

    /// Matches a message against the command pattern and looks its command up.
    pub fn parse_and_exec(&self, msg: &str) -> (r: Result<DispatchState, String>)
        ensures
            dispatched(self.names(), command_match(msg@), r),
    {
        let captured = capture_command(msg);
        match captured {
            None => Ok(DispatchState::Ignore),
            Some(groups) => {
                let (command, body) = groups;
                match (command, body) {
                    (None, _) => Err(String::from_str("failed to get command")),
                    (Some(_), None) => Err(String::from_str("failed to get body")),
                    (Some(command), Some(body)) => {
                        let mut i: usize = 0;
                        while i < self.jobs.len()
                            invariant
                                i <= self.jobs.len(),
                                command_match(msg@) == Some((Some(command@), Some(body@))),
                                forall|j: int| 0 <= j < i ==> self.names()[j] != command@,
                            decreases self.jobs.len() - i,
                        {
                            assert(self.names()[i as int] == self.jobs@[i as int]@);
                            if self.jobs[i] == command {
                                return Ok(DispatchState::Matched(i, body));
                            }
                            i = i + 1;
                        }
                        Ok(DispatchState::NotFound)
                    },
                }
            },
        }
    }
}

} // verus!
