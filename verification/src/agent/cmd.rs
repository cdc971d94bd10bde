//! The agent commands.
use vstd::prelude::*;

verus! {

/// The agent command and its options.
pub struct AgentOptions {
    pub command: AgentCommand,
}

/// The agent commands.
pub enum AgentCommand {
    /// Create a new agent identifier.
    Create(CreateAgentOptions),
}

/// Options of `agent new`.
pub struct CreateAgentOptions {
    /// The agent's role, if it has one.
    pub role: Option<String>,
}

/// The line `agent new` writes for the identifier it created.
pub fn created_line(id: &str) -> (s: String)
    ensures
        s@ == "role: "@ + id@,
{
    let mut s = "role: ".to_owned();
    s.append(id);
    s
}

} // verus!
