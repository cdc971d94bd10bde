//! Tickets: units of work that one agent at a time owns and advances.
use vstd::prelude::*;
use vstd::utf8::{decode_utf8, encode_utf8, valid_utf8};

use crate::cli::{Format, Formatted};
use crate::clock::Timestamp;
use crate::sqlx::{SqlData, SqlValue, ToSqlValue};
use crate::text::{signed_decimal, signed_decimal_string, str_eq};

pub mod cmd;

verus! {

/// Where a ticket stands in its workflow.
#[derive(Debug, Clone, Copy, PartialEq, Eq, Structural)]
pub enum State {
    Available,
    InProgress,
    Done,
}

/// The state with the given name, if any.
pub open spec fn state_named(s: Seq<char>) -> Option<State> {
    if s == "available"@ {
        Some(State::Available)
    } else if s == "in_progress"@ {
        Some(State::InProgress)
    } else if s == "done"@ {
        Some(State::Done)
    } else {
        None
    }
}

/// Why stored text is not a state.
#[derive(Debug, Clone, Copy, PartialEq, Eq, Structural)]
pub enum StateTextError {
    /// The bytes are not valid UTF-8.
    Utf8Error,
    /// The text names no state.
    InvalidType,
}

/// Decodes UTF-8 text through `std::str::from_utf8`.
///
/// The standard library returns the text when the bytes are valid UTF-8
/// and an error otherwise; the text is the decoding of the bytes.
#[verifier::external_body]
fn utf8_text(bytes: &[u8]) -> (r: Option<&str>)
    ensures
        r is Some <==> valid_utf8(bytes@),
        r matches Some(s) ==> s@ == decode_utf8(bytes@),
{
    std::str::from_utf8(bytes).ok()
}

impl State {
    /// The name of the state, as written to the database and shown.
    pub open spec fn label(self) -> Seq<char> {
        match self {
            State::Available => "available"@,
            State::InProgress => "in_progress"@,
            State::Done => "done"@,
        }
    }

    /// The name of the state, as written to the database and shown.
    pub fn name(&self) -> (s: String)
        ensures
            s@ == self.label(),
    {
        match self {
            State::Available => "available".to_owned(),
            State::InProgress => "in_progress".to_owned(),
            State::Done => "done".to_owned(),
        }
    }

    /// Reads a state from its name; the error names the text that was given.
    pub fn from_str(input: &str) -> (r: Result<State, String>)
        ensures
            match r {
                Ok(s) => state_named(input@) == Some(s),
                Err(m) => state_named(input@) is None && m@ == "Invalid state: "@ + input@,
            },
    {
        if str_eq(input, "available") {
            Ok(State::Available)
        } else if str_eq(input, "in_progress") {
            Ok(State::InProgress)
        } else if str_eq(input, "done") {
            Ok(State::Done)
        } else {
            let mut m = "Invalid state: ".to_owned();
            m.append(input);
            Err(m)
        }
    }

    /// Reads a state from the bytes of a stored text value.
    pub fn from_text(text: &[u8]) -> (r: Result<State, StateTextError>)
        ensures
            match r {
                Ok(s) => valid_utf8(text@) && state_named(decode_utf8(text@)) == Some(s),
                Err(StateTextError::Utf8Error) => !valid_utf8(text@),
                Err(StateTextError::InvalidType) => valid_utf8(text@) && state_named(
                    decode_utf8(text@),
                ) is None,
            },
    {
        let text = match utf8_text(text) {
            Some(t) => t,
            None => return Err(StateTextError::Utf8Error),
        };
        match State::from_str(text) {
            Ok(state) => Ok(state),
            Err(_) => Err(StateTextError::InvalidType),
        }
    }
}

/// A state is bound to a statement as its name.
impl ToSqlValue for State {
    open spec fn sql_value(&self) -> SqlData {
        SqlData::Text(self.label())
    }

    fn to_sql_value(&self) -> (v: SqlValue) {
        SqlValue::Text(self.name())
    }
}

/// A state written to the database as its name reads back as the same
/// state: the UTF-8 bytes of its name decode to a name that is parsed to it.
pub proof fn law_state_text_round_trip(s: State)
    ensures
        valid_utf8(encode_utf8(s.label())),
        decode_utf8(encode_utf8(s.label())) == s.label(),
        state_named(decode_utf8(encode_utf8(s.label()))) == Some(s),
{
    vstd::utf8::encode_utf8_valid_utf8(s.label());
    vstd::utf8::encode_utf8_decode_utf8(s.label());
    reveal_strlit("available");
    reveal_strlit("in_progress");
    reveal_strlit("done");
    assert("available"@[0] != "in_progress"@[0]);
    assert("available"@[0] != "done"@[0]);
    assert("in_progress"@[0] != "done"@[0]);
}

/// `#` followed by the identifier in decimal.
pub open spec fn id_text(id: i32) -> Seq<char> {
    seq!['#'] + signed_decimal(id as int)
}

/// The identifiers as `#` texts separated by `, `.
pub open spec fn ids_text(ids: Seq<i32>) -> Seq<char>
    decreases ids.len(),
{
    if ids.len() == 0 {
        Seq::empty()
    } else if ids.len() == 1 {
        id_text(ids[0])
    } else {
        ids_text(ids.drop_last()) + ", "@ + id_text(ids.last())
    }
}

/// Writes a ticket identifier as `#` and its decimal digits.
pub fn format_id(id: i32) -> (s: String)
    ensures
        s@ == id_text(id),
{
    let mut s = "#".to_owned();
    let digits = signed_decimal_string(id as i64);
    s.append(digits.as_str());
    proof {
        reveal_strlit("#");
        assert(s@ =~= id_text(id));
    }
    s
}

/// Writes ticket identifiers separated by `, `.
pub fn format_ids(ids: &[i32]) -> (s: String)
    ensures
        s@ == ids_text(ids@),
{
    let mut buf = String::new();
    let n = ids.len();
    let mut i: usize = 0;
    while i < n
        invariant
            n == ids@.len(),
            i <= n,
            buf@ == ids_text(ids@.take(i as int)),
        decreases n - i,
    {
        if i > 0 {
            buf.append(", ");
        }
        let next = format_id(ids[i]);
        buf.append(next.as_str());
        proof {
            let taken = ids@.take(i + 1);
            assert(taken.drop_last() =~= ids@.take(i as int));
            assert(taken.last() == ids@[i as int]);
            if i == 0 {
                assert(ids@.take(0) =~= Seq::<i32>::empty());
                assert(buf@ =~= ids_text(taken));
            } else {
                assert(buf@ =~= ids_text(taken));
            }
        }
        i = i + 1;
    }
    assert(ids@.take(n as int) =~= ids@);
    buf
}

/// A ticket as a listing shows it.
pub struct TicketSummary<'a> {
    pub id: i32,
    pub fence: i32,
    pub state: &'a State,
    pub roles: &'a Option<Vec<String>>,
    pub summary: &'a String,
    pub owner_id: &'a Option<String>,
    pub created_at: &'a Timestamp,
    pub updated_at: &'a Timestamp,
}

impl<'a> TicketSummary<'a> {
    /// Pairs the summary with an output format.
    pub fn formatted<'b>(&'b self, format: &'b Format) -> (r: Formatted<'b, TicketSummary<'b>>)
        ensures
            *r.value == *self,
            r.format == format,
    {
        Formatted { value: self, format }
    }

    /// The text line of the summary: its identifier and its summary.
    pub fn fmt_text(&self) -> (s: String)
        ensures
            s@ == id_text(self.id) + ". "@ + self.summary@,
    {
        let mut s = format_id(self.id);
        s.append(". ");
        s.append(self.summary.as_str());
        s
    }
}

impl<'a> Formatted<'a, TicketSummary<'a>> {
    /// The text written for the summary when the format is text; JSON is
    /// written by the caller.
    pub fn text(&self) -> (r: Option<String>)
        ensures
            match self.format {
                Format::Text => r matches Some(s) && s@ == id_text(self.value.id) + ". "@
                    + self.value.summary@,
                Format::JSON => r is None,
            },
    {
        match self.format {
            Format::Text => Some(self.value.fmt_text()),
            Format::JSON => None,
        }
    }
}

/// A unit of work.
pub struct Ticket {
    pub id: i32,
    /// Advances with every change of the ticket; an update names the value
    /// it was based on.
    pub fence: i32,
    pub state: State,
    /// The roles that may work on the ticket.
    pub roles: Option<Vec<String>>,
    pub summary: String,
    pub detail: Option<String>,
    pub data: Option<Vec<u8>>,
    /// The agent that works on the ticket.
    pub owner_id: Option<String>,
    /// Tickets this one refers to.
    pub references: Option<Vec<i32>>,
    pub created_at: Timestamp,
    pub updated_at: Timestamp,
}

impl Ticket {
    /// The fields a listing shows.
    pub fn summary(&self) -> (s: TicketSummary<'_>)
        ensures
            s.id == self.id,
            s.fence == self.fence,
            *s.state == self.state,
            *s.roles == self.roles,
            *s.summary == self.summary,
            *s.owner_id == self.owner_id,
            *s.created_at == self.created_at,
            *s.updated_at == self.updated_at,
    {
        TicketSummary {
            id: self.id,
            fence: self.fence,
            state: &self.state,
            roles: &self.roles,
            summary: &self.summary,
            owner_id: &self.owner_id,
            created_at: &self.created_at,
            updated_at: &self.updated_at,
        }
    }

    /// Pairs the ticket with an output format.
    pub fn formatted<'a>(&'a self, format: &'a Format) -> (r: Formatted<'a, Ticket>)
        ensures
            *r.value == *self,
            r.format == format,
    {
        Formatted { value: self, format }
    }

    /// The text line of the ticket: its identifier and its summary.
    pub fn fmt_text(&self) -> (s: String)
        ensures
            s@ == id_text(self.id) + ". "@ + self.summary@,
    {
        let mut s = format_id(self.id);
        s.append(". ");
        s.append(self.summary.as_str());
        s
    }
}

impl<'a> Formatted<'a, Ticket> {
    /// The text written for the ticket when the format is text; JSON is
    /// written by the caller.
    pub fn text(&self) -> (r: Option<String>)
        ensures
            match self.format {
                Format::Text => r matches Some(s) && s@ == id_text(self.value.id) + ". "@
                    + self.value.summary@,
                Format::JSON => r is None,
            },
    {
        match self.format {
            Format::Text => Some(self.value.fmt_text()),
            Format::JSON => None,
        }
    }
}

} // verus!
