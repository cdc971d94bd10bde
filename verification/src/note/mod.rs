//! Notes: free-form records agents leave for each other.
use vstd::prelude::*;

use crate::cli::{Format, Formatted};
use crate::clock::Timestamp;
use crate::ticket::id_text;

pub mod cmd;

verus! {

/// Writes a note identifier as `#` and its decimal digits.
pub fn format_id(id: i32) -> (s: String)
    ensures
        s@ == id_text(id),
{
    crate::ticket::format_id(id)
}

/// A note as a listing shows it.
pub struct NoteSummary<'a> {
    pub id: i32,
    pub creator_id: &'a String,
    pub commit_sha: &'a Option<String>,
    pub summary: &'a String,
    pub detail: &'a Option<String>,
    pub created_at: &'a Timestamp,
    pub updated_at: &'a Timestamp,
}

impl<'a> NoteSummary<'a> {
    /// Pairs the summary with an output format.
    pub fn formatted<'b>(&'b self, format: &'b Format) -> (r: Formatted<'b, NoteSummary<'b>>)
        ensures
            *r.value == *self,
            r.format == format,
    {
        Formatted { value: self, format }
    }

    /// The text line of the summary: its identifier and its summary.
    pub fn fmt_text(&self) -> (s: String)
        ensures
            s@ == id_text(self.id) + ". "@ + self.summary@,
    {
        let mut s = format_id(self.id);
        s.append(". ");
        s.append(self.summary.as_str());
        s
    }
}

impl<'a> Formatted<'a, NoteSummary<'a>> {
    /// The text written for the summary when the format is text; JSON is
    /// written by the caller.
    pub fn text(&self) -> (r: Option<String>)
        ensures
            match self.format {
                Format::Text => r matches Some(s) && s@ == id_text(self.value.id) + ". "@
                    + self.value.summary@,
                Format::JSON => r is None,
            },
    {
        match self.format {
            Format::Text => Some(self.value.fmt_text()),
            Format::JSON => None,
        }
    }
}

/// A note.
pub struct Note {
    pub id: i32,
    /// The agent that wrote the note.
    pub creator_id: String,
    /// The commit the note is about, if any.
    pub commit_sha: Option<String>,
    pub summary: String,
    pub detail: Option<String>,
    pub data: Option<Vec<u8>>,
    pub created_at: Timestamp,
    pub updated_at: Timestamp,
}

impl Note {
    /// The fields a listing shows.
    pub fn summary(&self) -> (s: NoteSummary<'_>)
        ensures
            s.id == self.id,
            *s.creator_id == self.creator_id,
            *s.commit_sha == self.commit_sha,
            *s.summary == self.summary,
            *s.detail == self.detail,
            *s.created_at == self.created_at,
            *s.updated_at == self.updated_at,
    {
        NoteSummary {
            id: self.id,
            creator_id: &self.creator_id,
            commit_sha: &self.commit_sha,
            summary: &self.summary,
            detail: &self.detail,
            created_at: &self.created_at,
            updated_at: &self.updated_at,
        }
    }

    /// Pairs the note with an output format.
    pub fn formatted<'a>(&'a self, format: &'a Format) -> (r: Formatted<'a, Note>)
        ensures
            *r.value == *self,
            r.format == format,
    {
        Formatted { value: self, format }
    }

    /// The text line of the note: its identifier and its summary.
    pub fn fmt_text(&self) -> (s: String)
        ensures
            s@ == id_text(self.id) + ". "@ + self.summary@,
    {
        let mut s = format_id(self.id);
        s.append(". ");
        s.append(self.summary.as_str());
        s
    }
}

impl<'a> Formatted<'a, Note> {
    /// The text written for the note when the format is text; JSON is
    /// written by the caller.
    pub fn text(&self) -> (r: Option<String>)
        ensures
            match self.format {
                Format::Text => r matches Some(s) && s@ == id_text(self.value.id) + ". "@
                    + self.value.summary@,
                Format::JSON => r is None,
            },
    {
        match self.format {
            Format::Text => Some(self.value.fmt_text()),
            Format::JSON => None,
        }
    }
}

} // verus!
