//! The closed set of command tokens the backend accepts.

use vstd::prelude::*;

verus! {

/// A command accepted by the backend's validation.
///
/// Only the ASCII token of a command ever crosses the channel; a `Command`
/// value has no identity beyond its token.
#[derive(Debug, Clone, Copy, PartialEq, Eq, Structural)]
pub enum Command {
    /// Begin recording.
    Start,
    /// End recording.
    Stop,
    /// Ask the backend to flip its own recording state.
    Toggle,
}

impl Command {
    /// The token transmitted on the wire for this command.
    pub open spec fn token_spec(self) -> Seq<char> {
        match self {
            Command::Start => "start"@,
            Command::Stop => "stop"@,
            Command::Toggle => "toggle"@,
        }
    }

    /// The ASCII token for this command, exactly the bytes the driver writes.
    pub fn token(self) -> (t: &'static str)
        ensures
            t@ == self.token_spec(),
    {
        match self {
            Command::Start => "start",
            Command::Stop => "stop",
            Command::Toggle => "toggle",
        }
    }
}

/// The tokens that validation accepts: exactly `start`, `stop` and `toggle`.
pub open spec fn is_valid_token(s: Seq<char>) -> bool {
    s == "start"@ || s == "stop"@ || s == "toggle"@
}

/// Which command a token denotes; `None` exactly on invalid tokens.
pub open spec fn parse_spec(s: Seq<char>) -> Option<Command> {
    if s == "start"@ {
        Some(Command::Start)
    } else if s == "stop"@ {
        Some(Command::Stop)
    } else if s == "toggle"@ {
        Some(Command::Toggle)
    } else {
        None
    }
}

/// Validates a raw token: the three accepted tokens parse to their command,
/// anything else is refused.
pub fn parse_command(s: &str) -> (r: Option<Command>)
    ensures
        r == parse_spec(s@),
        r is Some <==> is_valid_token(s@),
{
    let owned = s.to_owned();
    if owned.eq(&String::from_str("start")) {
        Some(Command::Start)
    } else if owned.eq(&String::from_str("stop")) {
        Some(Command::Stop)
    } else if owned.eq(&String::from_str("toggle")) {
        Some(Command::Toggle)
    } else {
        None
    }
}

} // verus!
