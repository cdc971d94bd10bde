//! The options that hold for every command.
use vstd::prelude::*;

use crate::cli::Format;
use crate::error::Error;

verus! {

/// Options given before the command.
pub struct Options {
    /// Show the statements that are run.
    pub debug: bool,
    /// Include detail in listings.
    pub verbose: bool,
    /// The root of the project.
    pub project: Option<String>,
    /// The database file.
    pub database: Option<String>,
    /// The output format; JSON when not given.
    pub format: Option<Format>,
    /// The identifier of the agent that runs the command.
    pub agent: Option<String>,
}

impl Options {
    /// The output format: the one given, or JSON.
    pub fn format(&self) -> (f: Format)
        ensures
            f == (match self.format {
                Some(g) => g,
                None => Format::JSON,
            }),
    {
        match &self.format {
            Some(g) => *g,
            None => Format::JSON,
        }
    }

    /// The agent that runs the command; an argument error when none was
    /// given.
    pub fn agent(&self) -> (r: Result<&str, Error>)
        ensures
            match self.agent {
                Some(a) => r matches Ok(s) && s@ == a@,
                None => r matches Err(Error::ArgumentError(m)) && m@
                    == "an agent identifier is required: pass --agent or set NEXUS_AGENT"@,
            },
    {
        match &self.agent {
            Some(a) => Ok(a.as_str()),
            None => Err(
                Error::ArgumentError(
                    "an agent identifier is required: pass --agent or set NEXUS_AGENT".to_owned(),
                ),
            ),
        }
    }

    /// Whether the project root has to be found on disk: when neither the
    /// database nor the project is given.
    pub fn needs_project_discovery(&self) -> (b: bool)
        ensures
            b == (self.database is None && self.project is None),
    {
        self.database.is_none() && self.project.is_none()
    }

    /// The database file: the one given, else `.nexus/data.db` under the
    /// project root given, else under the discovered root.
    pub fn database_path(&self, discovered: &str) -> (s: String)
        ensures
            s@ == (match self.database {
                Some(d) => d@,
                None => match self.project {
                    Some(p) => database_under(p@),
                    None => database_under(discovered@),
                },
            }),
    {
        match &self.database {
            Some(d) => d.clone(),
            None => match &self.project {
                Some(p) => path_under(p.as_str()),
                None => path_under(discovered),
            },
        }
    }
}

/// The database file under a project root, joined as a path: no separator
/// is added to an empty root or to one that already ends in `/`.
pub open spec fn database_under(root: Seq<char>) -> Seq<char> {
    if root.len() == 0 {
        ".nexus/data.db"@
    } else if root.last() == '/' {
        root + ".nexus/data.db"@
    } else {
        root + "/.nexus/data.db"@
    }
}

fn path_under(root: &str) -> (s: String)
    ensures
        s@ == database_under(root@),
{
    let n = root.unicode_len();
    if n == 0 {
        ".nexus/data.db".to_owned()
    } else {
        let mut s = root.to_owned();
        if root.get_char(n - 1) == '/' {
            s.append(".nexus/data.db");
        } else {
            s.append("/.nexus/data.db");
        }
        s
    }
}

} // verus!
