//! The errors a command can end with.
use vstd::prelude::*;

verus! {

/// Why a command failed. Each variant carries the message that describes
/// the failure.
#[derive(Debug, PartialEq)]
pub enum Error {
    /// Reading or writing a file or a stream failed.
    IOError(String),
    /// Bytes were not valid UTF-8.
    Utf8Error(String),
    /// An owned byte buffer was not valid UTF-8.
    FromUtf8Error(String),
    /// Text did not hold an integer.
    ParseIntError(String),
    /// The database refused a statement.
    RusqliteError(String),
    /// The command was given, or got back, something it cannot work with.
    ArgumentError(String),
    /// The command ran but did not achieve what was asked.
    CommandError(String),
}

impl Error {
    /// The message the error carries.
    pub open spec fn message_text(&self) -> Seq<char> {
        match self {
            Error::IOError(m) => m@,
            Error::Utf8Error(m) => m@,
            Error::FromUtf8Error(m) => m@,
            Error::ParseIntError(m) => m@,
            Error::RusqliteError(m) => m@,
            Error::ArgumentError(m) => m@,
            Error::CommandError(m) => m@,
        }
    }

    /// The message shown for the error.
    pub fn message(&self) -> (s: String)
        ensures
            s@ == self.message_text(),
    {
        match self {
            Error::IOError(m) => m.clone(),
            Error::Utf8Error(m) => m.clone(),
            Error::FromUtf8Error(m) => m.clone(),
            Error::ParseIntError(m) => m.clone(),
            Error::RusqliteError(m) => m.clone(),
            Error::ArgumentError(m) => m.clone(),
            Error::CommandError(m) => m.clone(),
        }
    }
}

} // verus!
