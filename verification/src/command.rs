//! The commands, and what every command needs before it runs.
use vstd::prelude::*;

use crate::agent::cmd::AgentOptions;
use crate::error::Error;
use crate::note::cmd::NoteOptions;
use crate::options::Options;
use crate::ticket::cmd::TicketOptions;

verus! {

/// A command and its options.
pub enum Command {
    /// Agent identifiers.
    Agent(AgentOptions),
    /// Tickets.
    Ticket(TicketOptions),
    /// Notes.
    Note(NoteOptions),
}

/// The agent a command runs as: none for the agent commands, which create
/// identifiers; for every other command the agent given, and an argument
/// error when none was given.
pub fn required_agent<'a>(opts: &'a Options, command: &Command) -> (r: Result<Option<&'a str>, Error>)
    ensures
        match command {
            Command::Agent(_) => r matches Ok(None),
            _ => match opts.agent {
                Some(a) => r matches Ok(Some(s)) && s@ == a@,
                None => r matches Err(Error::ArgumentError(m)) && m@
                    == "an agent identifier is required: pass --agent or set NEXUS_AGENT"@,
            },
        },
{
    match command {
        Command::Agent(_) => Ok(None),
        _ => match opts.agent() {
            Ok(a) => Ok(Some(a)),
            Err(e) => Err(e),
        },
    }
}

} // verus!
