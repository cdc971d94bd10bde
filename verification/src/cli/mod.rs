//! Output formats and where command input comes from.
use vstd::prelude::*;

use crate::text::{signed_decimal, signed_decimal_string};

verus! {

/// How records are written out.
#[derive(Debug, Clone, Copy, PartialEq, Eq, Structural)]
pub enum Format {
    Text,
    JSON,
}

impl Format {
    /// The name of the format on the command line.
    pub open spec fn label(self) -> Seq<char> {
        match self {
            Format::Text => "text"@,
            Format::JSON => "json"@,
        }
    }

    /// The name of the format on the command line.
    pub fn name(&self) -> (s: String)
        ensures
            s@ == self.label(),
    {
        match self {
            Format::Text => "text".to_owned(),
            Format::JSON => "json".to_owned(),
        }
    }

    /// Reads a format from its name; the error names the text that was given.
    pub fn from_str(input: &str) -> (r: Result<Format, String>)
        ensures
            match r {
                Ok(f) => format_named(input@) == Some(f),
                Err(m) => format_named(input@) is None && m@ == "Invalid format: "@ + input@,
            },
    {
        if crate::text::str_eq(input, "text") {
            Ok(Format::Text)
        } else if crate::text::str_eq(input, "json") {
            Ok(Format::JSON)
        } else {
            let mut m = "Invalid format: ".to_owned();
            m.append(input);
            Err(m)
        }
    }
}

/// The format with the given name, if any.
pub open spec fn format_named(s: Seq<char>) -> Option<Format> {
    if s == "text"@ {
        Some(Format::Text)
    } else if s == "json"@ {
        Some(Format::JSON)
    } else {
        None
    }
}

/// Reading the name of a format gives the format back.
pub proof fn law_format_name_round_trip(f: Format)
    ensures
        format_named(f.label()) == Some(f),
{
    reveal_strlit("text");
    reveal_strlit("json");
    assert("text"@ != "json"@) by {
        assert("text"@[0] != "json"@[0]);
    }
}

/// A record together with the format it is to be written in.
pub struct Formatted<'a, T> {
    pub value: &'a T,
    pub format: &'a Format,
}

impl<'a, T> Formatted<'a, T> {
    /// Pairs a record with a format.
    pub fn new(value: &'a T, format: &'a Format) -> (r: Self)
        ensures
            r.value == value,
            r.format == format,
    {
        Formatted { value, format }
    }
}

/// Where the text of an input comes from.
#[derive(Debug, PartialEq)]
pub enum InputSource {
    /// The standard input stream, named `-`.
    Stdin,
    /// The file at the given path.
    File(String),
}

/// Where an optional input named on the command line is to be read from.
pub fn input_source(from: &Option<String>) -> (r: Option<InputSource>)
    ensures
        match from {
            None => r is None,
            Some(path) => if path@ == "-"@ {
                r == Some(InputSource::Stdin)
            } else {
                r matches Some(InputSource::File(p)) && p@ == path@
            },
        },
{
    match from {
        None => None,
        Some(path) => {
            if crate::text::str_eq(path.as_str(), "-") {
                Some(InputSource::Stdin)
            } else {
                Some(InputSource::File(path.clone()))
            }
        },
    }
}

/// The closing line of a listing of `n` records: written for text output
/// only.
pub fn found_line(format: &Format, n: i32) -> (r: Option<String>)
    ensures
        match format {
            Format::Text => r matches Some(s) && s@ == signed_decimal(n as int) + " found"@,
            Format::JSON => r is None,
        },
{
    match format {
        Format::Text => {
            let mut s = signed_decimal_string(n as i64);
            s.append(" found");
            Some(s)
        },
        Format::JSON => None,
    }
}

} // verus!
