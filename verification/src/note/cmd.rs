//! The note commands: the records they write, the statements they run,
//! and how they judge what the database answered.
use vstd::prelude::*;

use crate::clock::{now, Timestamp};
use crate::error::Error;
use crate::note::Note;
use crate::options::Options;
use crate::sqlx::clauses::{
    bound_filter, concat, filters_of, given, lemma_concat_comparison, lemma_concat_filters,
    lemma_concat_mentions, lemma_opt_in_filter, lemma_opt_time_filter, lemma_texts, mentions,
    lemma_opt_params, lemma_texts_params, opt_texts, opt_time,
};
use crate::sqlx::{
    lemma_params_append, lemma_params_of_list, lemma_params_text, params,
    filter_count, compare_filter, list_pieces, opt_in_filter, opt_len, opt_time_filter,
    sql_values, Piece, Query, SqlData, SqlValue, ToSqlValue,
};
use crate::text::{clone_opt_string, decimal, decimal_string};
use crate::ticket::cmd::clock_error_text;

verus! {

/// The note command and its options.
pub struct NoteOptions {
    pub command: NoteCommand,
}

/// The note commands.
pub enum NoteCommand {
    Create(CreateNoteOptions),
    List(ListNoteOptions),
    Fetch(FetchNoteOptions),
    Update(UpdateNoteOptions),
    Delete(DeleteNoteOptions),
}

/// Options of `note new`.
pub struct CreateNoteOptions {
    /// A brief summary of the note.
    pub summary: String,
    /// Where to read the note's content from; `-` for the standard input.
    pub detail: Option<String>,
    /// The commit the note refers to.
    pub commit: Option<String>,
}

/// Options of `note list`: each filter that is given narrows the listing.
pub struct ListNoteOptions {
    /// Only notes written by one of these agents.
    pub creator: Option<Vec<String>>,
    /// Only notes about one of these commits.
    pub commit: Option<Vec<String>>,
    pub created_before: Option<Timestamp>,
    pub created_after: Option<Timestamp>,
    pub updated_before: Option<Timestamp>,
    pub updated_after: Option<Timestamp>,
}

/// Options of `note get`.
pub struct FetchNoteOptions {
    /// The notes to show.
    pub id: Vec<i32>,
}

/// Options of `note update`: what is given replaces what the note holds.
pub struct UpdateNoteOptions {
    /// The note to update.
    pub id: i32,
    pub summary: Option<String>,
    /// Where to read the note's content from; `-` for the standard input.
    pub detail: Option<String>,
    pub commit: Option<String>,
}

/// Options of `note delete`.
pub struct DeleteNoteOptions {
    /// The note to delete.
    pub id: i32,
}

// ---------------------------------------------------------------- create

/// The note `note new` records before the database gives it an identifier.
pub fn note_record(
    creator_id: &str,
    create: &CreateNoteOptions,
    detail: Option<String>,
    created_at: Timestamp,
    updated_at: Timestamp,
) -> (n: Note)
    ensures
        n.id == 0,
        n.creator_id@ == creator_id@,
        n.commit_sha == create.commit,
        n.summary == create.summary,
        n.detail == detail,
        n.data is None,
        n.created_at == created_at,
        n.updated_at == updated_at,
{
    Note {
        id: 0,
        creator_id: creator_id.to_owned(),
        commit_sha: clone_opt_string(&create.commit),
        summary: create.summary.clone(),
        detail,
        data: None,
        created_at,
        updated_at,
    }
}

/// The note `note new` records for the agent, stamped with the current
/// time; an I/O error when the system clock reads a time that cannot be
/// recorded.
pub fn new_note(agent: &str, create: &CreateNoteOptions, detail: Option<String>) -> (r: Result<
    Note,
    Error,
>)
    ensures
        match r {
            Ok(n) => {
                &&& n.creator_id@ == agent@
                &&& n.id == 0
                &&& n.commit_sha == create.commit
                &&& n.summary == create.summary
                &&& n.detail == detail
                &&& n.data is None
                &&& n.created_at.nanos < 1_000_000_000
                &&& n.updated_at.nanos < 1_000_000_000
            },
            Err(e) => e matches Error::IOError(m) && m@ == clock_error_text(),
        },
{
    let created_at = match now() {
        Some(t) => t,
        None => return Err(Error::IOError("the system clock reads a time that cannot be recorded".to_owned())),
    };
    let updated_at = match now() {
        Some(t) => t,
        None => return Err(Error::IOError("the system clock reads a time that cannot be recorded".to_owned())),
    };
    Ok(note_record(agent, create, detail, created_at, updated_at))
}

/// The values a new note row is inserted with.
pub open spec fn note_insert_values(n: Note) -> Seq<SqlData> {
    seq![
        n.creator_id.sql_value(),
        n.commit_sha.sql_value(),
        n.summary.sql_value(),
        n.detail.sql_value(),
        n.data.sql_value(),
        n.created_at.sql_value(),
        n.updated_at.sql_value(),
    ]
}

/// The statement that inserts a note and returns its identifier.
pub open spec fn insert_note_pieces(n: Note) -> Seq<Piece> {
    seq![
        Piece::Text(
            "INSERT INTO note (creator_id, commit_sha, summary, detail, data, created_at, updated_at) VALUES "@,
        ),
    ] + list_pieces(note_insert_values(n)) + seq![Piece::Text(" RETURNING id"@)]
}

/// The statement that inserts a note and returns its identifier.
pub fn insert_note_query(val: &Note) -> (q: Query)
    ensures
        q.wf(),
        q@ == insert_note_pieces(*val),
{
    let mut values: Vec<SqlValue> = Vec::new();
    values.push(val.creator_id.to_sql_value());
    values.push(val.commit_sha.to_sql_value());
    values.push(val.summary.to_sql_value());
    values.push(val.detail.to_sql_value());
    values.push(val.data.to_sql_value());
    values.push(val.created_at.to_sql_value());
    values.push(val.updated_at.to_sql_value());
    assert(sql_values(values@) =~= note_insert_values(*val));
    let mut q = Query::new();
    q.push(
        "INSERT INTO note (creator_id, commit_sha, summary, detail, data, created_at, updated_at) VALUES ",
    ).push_list(values.as_slice()).push(" RETURNING id");
    assert(q@ =~= seq![
        Piece::Text(
            "INSERT INTO note (creator_id, commit_sha, summary, detail, data, created_at, updated_at) VALUES "@,
        ),
    ] + list_pieces(note_insert_values(*val)) + seq![Piece::Text(" RETURNING id"@)]);
    q
}

/// The note INSERT lists the columns `creator_id, commit_sha, summary,
/// detail, data, created_at, updated_at` and binds, in that order, the note's
/// fields of those names: the k-th placeholder carries the k-th column's
/// value, an absent optional field as NULL.
pub proof fn law_note_insert_columns(n: Note)
    ensures
        insert_note_pieces(n)[0] == Piece::Text(
            "INSERT INTO note (creator_id, commit_sha, summary, detail, data, created_at, updated_at) VALUES "@,
        ),
        params(insert_note_pieces(n)) == seq![
            SqlData::Text(n.creator_id@),
            match n.commit_sha {
                Some(c) => SqlData::Text(c@),
                None => SqlData::Null,
            },
            SqlData::Text(n.summary@),
            match n.detail {
                Some(d) => SqlData::Text(d@),
                None => SqlData::Null,
            },
            match n.data {
                Some(b) => SqlData::Blob(b@),
                None => SqlData::Null,
            },
            SqlData::Time(n.created_at),
            SqlData::Time(n.updated_at),
        ],
{
    let head = seq![
        Piece::Text(
            "INSERT INTO note (creator_id, commit_sha, summary, detail, data, created_at, updated_at) VALUES "@,
        ),
    ];
    let tail = seq![Piece::Text(" RETURNING id"@)];
    lemma_params_text(
        "INSERT INTO note (creator_id, commit_sha, summary, detail, data, created_at, updated_at) VALUES "@,
    );
    lemma_params_text(" RETURNING id"@);
    lemma_params_of_list(note_insert_values(n));
    lemma_params_append(head, list_pieces(note_insert_values(n)));
    lemma_params_append(head + list_pieces(note_insert_values(n)), tail);
    assert(params(insert_note_pieces(n)) =~= note_insert_values(n));
}

/// The note with the identifier the database returned for it; an argument
/// error when none came back.
pub fn with_inserted_id(val: Note, id: Option<i32>) -> (r: Result<Note, Error>)
    ensures
        match id {
            Some(i) => r == Ok::<Note, Error>(Note { id: i, ..val }),
            None => r matches Err(Error::ArgumentError(m)) && m@ == "No identifier returned"@,
        },
{
    match id {
        Some(i) => {
            let mut val = val;
            val.id = i;
            Ok(val)
        },
        None => Err(Error::ArgumentError("No identifier returned".to_owned())),
    }
}

// ------------------------------------------------------------------ list

/// The columns of a note row up to its detail.
pub open spec fn note_head_columns() -> Seq<char> {
    "SELECT id, creator_id, commit_sha, summary, "@
}

/// The columns of a note row after its detail.
pub open spec fn note_tail_columns() -> Seq<char> {
    ", data, created_at, updated_at FROM note"@
}

/// The statement `note list` runs: the detail is read only when verbose,
/// and notes come in the order they were created.
pub open spec fn list_note_pieces(verbose: bool, list: ListNoteOptions) -> Seq<Piece> {
    seq![
        Piece::Text(note_head_columns()),
        Piece::Text(
            if verbose {
                "detail"@
            } else {
                "NULL"@
            },
        ),
        Piece::Text(note_tail_columns()),
    ] + opt_in_filter("creator_id IN "@, list.creator) + opt_in_filter(
        "commit_sha IN "@,
        list.commit,
    ) + opt_time_filter("created_at < "@, list.created_before) + opt_time_filter(
        "updated_at < "@,
        list.updated_before,
    ) + opt_time_filter("created_at > "@, list.created_after) + opt_time_filter(
        "updated_at > "@,
        list.updated_after,
    ) + seq![Piece::Text(" ORDER BY created_at"@)]
}

/// The statement `note list` runs.
pub fn list_note_query(opts: &Options, list: &ListNoteOptions) -> (q: Query)
    requires
        opt_len(list.creator) + opt_len(list.commit) + 8 < usize::MAX,
    ensures
        q.wf(),
        q@ == list_note_pieces(opts.verbose, *list),
{
    let mut q = Query::new();
    q.push("SELECT id, creator_id, commit_sha, summary, ").push(
        if opts.verbose {
            "detail"
        } else {
            "NULL"
        },
    ).push(", data, created_at, updated_at FROM note");
    let ghost head = q@;
    assert(head =~= seq![
        Piece::Text(note_head_columns()),
        Piece::Text(
            if opts.verbose {
                "detail"@
            } else {
                "NULL"@
            },
        ),
        Piece::Text(note_tail_columns()),
    ]);
    q.push_in_filter("creator_id IN ", &list.creator);
    q.push_in_filter("commit_sha IN ", &list.commit);
    q.push_time_filter("created_at < ", &list.created_before);
    q.push_time_filter("updated_at < ", &list.updated_before);
    q.push_time_filter("created_at > ", &list.created_after);
    q.push_time_filter("updated_at > ", &list.updated_after);
    let ghost filtered = q@;
    q.push(" ORDER BY created_at");
    assert(q@ =~= filtered + seq![Piece::Text(" ORDER BY created_at"@)]);
    q
}

/// What `note list` reads and filters: the detail column only when
/// verbose, in creation order; each time bound that is given is a filter
/// clause comparing the column it names in the direction its name says
/// (before is `<`, after is `>`) with a placeholder bound to that time, and a
/// bound that is not given writes no such comparison. The statement opens
/// exactly one filter clause per filter given.
pub proof fn law_note_list_filters(verbose: bool, list: ListNoteOptions)
    ensures
        ({
            let p = list_note_pieces(verbose, list);
            &&& p.len() > 1 && p[1] == Piece::Text(
                if verbose {
                    "detail"@
                } else {
                    "NULL"@
                },
            )
            &&& p.last() == Piece::Text(" ORDER BY created_at"@)
            &&& bound_filter(p, "created_at < "@, list.created_before)
            &&& bound_filter(p, "created_at > "@, list.created_after)
            &&& bound_filter(p, "updated_at < "@, list.updated_before)
            &&& bound_filter(p, "updated_at > "@, list.updated_after)
            &&& filter_count(p) == given(list.creator) + given(list.commit) + given(
                list.created_before,
            ) + given(list.created_after) + given(list.updated_before) + given(list.updated_after)
        }),
{
    let head = seq![
        Piece::Text(note_head_columns()),
        Piece::Text(
            if verbose {
                "detail"@
            } else {
                "NULL"@
            },
        ),
        Piece::Text(note_tail_columns()),
    ];
    let order = seq![Piece::Text(" ORDER BY created_at"@)];
    let parts = seq![
        head,
        opt_in_filter("creator_id IN "@, list.creator),
        opt_in_filter("commit_sha IN "@, list.commit),
        opt_time_filter("created_at < "@, list.created_before),
        opt_time_filter("updated_at < "@, list.updated_before),
        opt_time_filter("created_at > "@, list.created_after),
        opt_time_filter("updated_at > "@, list.updated_after),
        order,
    ];
    let p = list_note_pieces(verbose, list);
    assert(p =~= concat(parts)) by {
        reveal_with_fuel(concat, 9);
    }
    lemma_concat_filters(parts);
    assert(filters_of(parts) == filter_count(head) + filter_count(parts[1]) + filter_count(parts[2])
        + filter_count(parts[3]) + filter_count(parts[4]) + filter_count(parts[5]) + filter_count(
        parts[6],
    ) + filter_count(order)) by {
        reveal_with_fuel(filters_of, 9);
    }
    reveal_strlit("SELECT id, creator_id, commit_sha, summary, ");
    reveal_strlit(", data, created_at, updated_at FROM note");
    reveal_strlit("detail");
    reveal_strlit("NULL");
    reveal_strlit(" ORDER BY created_at");
    reveal_strlit("creator_id IN ");
    reveal_strlit("commit_sha IN ");
    reveal_strlit("(");
    reveal_strlit(")");
    reveal_strlit(", ");
    reveal_strlit("created_at < ");
    reveal_strlit("created_at > ");
    reveal_strlit("updated_at < ");
    reveal_strlit("updated_at > ");
    let conds = seq!["created_at < "@, "updated_at < "@, "created_at > "@, "updated_at > "@];
    let bounds = seq![list.created_before, list.updated_before, list.created_after, list.updated_after];
    assert forall|k: int| 0 <= k < 4 implies #[trigger] bound_filter(p, conds[k], bounds[k]) by {
        let c = conds[k];
        assert(c.len() == 13);
        assert(c[0] != 'c' ==> c[0] == 'u');
        assert forall|m: int| 0 <= m < 4 && m != k implies conds[m] != c by {
            assert(conds[m][0] != c[0] || conds[m][11] != c[11]);
        }
        lemma_texts(head, c);
        lemma_texts(order, c);
        lemma_opt_in_filter("creator_id IN "@, list.creator, c);
        lemma_opt_in_filter("commit_sha IN "@, list.commit, c);
        assert(parts[3 + k] == opt_time_filter(c, bounds[k]));
        assert forall|m: int| 0 <= m < 4 implies #[trigger] parts[3 + m] == opt_time_filter(
            conds[m],
            bounds[m],
        ) by {}
        assert forall|m: int| 0 <= m < 4 && m != k implies !mentions(#[trigger] parts[3 + m], c) by {
            lemma_opt_time_filter(conds[m], bounds[m], c);
        }
        lemma_opt_time_filter(c, bounds[k], c);
        match bounds[k] {
            Some(t) => {
                lemma_concat_comparison(parts, 3 + k, c, SqlData::Time(t));
            },
            None => {
                assert forall|i: int| 0 <= i < parts.len() implies !mentions(#[trigger] parts[i], c) by {
                    if 3 <= i < 7 {
                        assert(parts[3 + (i - 3)] == parts[i]);
                    }
                }
                lemma_concat_mentions(parts, c);
            },
        }
    }
    assert(bound_filter(p, conds[0], bounds[0]));
    assert(bound_filter(p, conds[1], bounds[1]));
    assert(bound_filter(p, conds[2], bounds[2]));
    assert(bound_filter(p, conds[3], bounds[3]));
    let c = "created_at < "@;
    assert(c.len() == 13);
    lemma_texts(head, c);
    lemma_texts(order, c);
    lemma_opt_in_filter("creator_id IN "@, list.creator, c);
    lemma_opt_in_filter("commit_sha IN "@, list.commit, c);
    lemma_opt_time_filter("created_at < "@, list.created_before, c);
    lemma_opt_time_filter("updated_at < "@, list.updated_before, c);
    lemma_opt_time_filter("created_at > "@, list.created_after, c);
    lemma_opt_time_filter("updated_at > "@, list.updated_after, c);
}

/// The values `note list` binds, in the order of its placeholders: the
/// creators asked for, then the commits, then each time bound given, in the
/// order created before, updated before, created after, updated after.
pub proof fn law_note_list_binds(verbose: bool, list: ListNoteOptions)
    ensures
        params(list_note_pieces(verbose, list)) == opt_texts(list.creator) + opt_texts(list.commit)
            + opt_time(list.created_before) + opt_time(list.updated_before) + opt_time(
            list.created_after,
        ) + opt_time(list.updated_after),
{
    let head = seq![
        Piece::Text(note_head_columns()),
        Piece::Text(
            if verbose {
                "detail"@
            } else {
                "NULL"@
            },
        ),
        Piece::Text(note_tail_columns()),
    ];
    let order = seq![Piece::Text(" ORDER BY created_at"@)];
    let a = opt_in_filter("creator_id IN "@, list.creator);
    let b = opt_in_filter("commit_sha IN "@, list.commit);
    let c = opt_time_filter("created_at < "@, list.created_before);
    let d = opt_time_filter("updated_at < "@, list.updated_before);
    let e = opt_time_filter("created_at > "@, list.created_after);
    let f = opt_time_filter("updated_at > "@, list.updated_after);
    lemma_texts_params(head);
    lemma_texts_params(order);
    lemma_opt_params("creator_id IN "@, list.creator, "created_at < "@, list.created_before);
    lemma_opt_params("commit_sha IN "@, list.commit, "updated_at < "@, list.updated_before);
    lemma_opt_params("commit_sha IN "@, list.commit, "created_at > "@, list.created_after);
    lemma_opt_params("commit_sha IN "@, list.commit, "updated_at > "@, list.updated_after);
    lemma_params_append(head, a);
    lemma_params_append(head + a, b);
    lemma_params_append(head + a + b, c);
    lemma_params_append(head + a + b + c, d);
    lemma_params_append(head + a + b + c + d, e);
    lemma_params_append(head + a + b + c + d + e, f);
    lemma_params_append(head + a + b + c + d + e + f, order);
    match list.creator {
        Some(v) => {
            assert(sql_values(v@) =~= opt_texts(list.creator));
        },
        None => {},
    }
    match list.commit {
        Some(v) => {
            assert(sql_values(v@) =~= opt_texts(list.commit));
        },
        None => {},
    }
    assert(params(list_note_pieces(verbose, list)) =~= opt_texts(list.creator) + opt_texts(
        list.commit,
    ) + opt_time(list.created_before) + opt_time(list.updated_before) + opt_time(list.created_after)
        + opt_time(list.updated_after));
}

// ----------------------------------------------------------------- fetch

/// The statement that reads one note.
pub fn fetch_note_query(id: i32) -> (q: Query)
    ensures
        q.wf(),
        q@ == seq![
            Piece::Text(note_head_columns()),
            Piece::Text("detail"@),
            Piece::Text(note_tail_columns()),
        ] + compare_filter("id = "@, SqlData::Integer(id as i64)),
{
    let mut q = Query::new();
    q.push("SELECT id, creator_id, commit_sha, summary, ").push("detail").push(
        ", data, created_at, updated_at FROM note",
    );
    let ghost head = q@;
    assert(head =~= seq![
        Piece::Text(note_head_columns()),
        Piece::Text("detail"@),
        Piece::Text(note_tail_columns()),
    ]);
    q.push_compare("id = ", id);
    q
}

// ---------------------------------------------------------------- update

/// The note after `note update`: what the update gives replaces what the
/// note held, and the rest stays.
pub fn updated_note(val: Note, update: &UpdateNoteOptions, detail: Option<String>, now: Timestamp) -> (n:
    Note)
    ensures
        n.id == val.id,
        n.creator_id == val.creator_id,
        n.commit_sha == (match update.commit {
            Some(c) => Some(c),
            None => val.commit_sha,
        }),
        n.summary == (match update.summary {
            Some(s) => s,
            None => val.summary,
        }),
        n.detail == (match detail {
            Some(d) => Some(d),
            None => val.detail,
        }),
        n.data == val.data,
        n.created_at == val.created_at,
        n.updated_at == now,
{
    let mut val = val;
    if update.commit.is_some() {
        val.commit_sha = clone_opt_string(&update.commit);
    }
    if let Some(summary) = &update.summary {
        val.summary = summary.clone();
    }
    if detail.is_some() {
        val.detail = detail;
    }
    val.updated_at = now;
    val
}

/// The note after `note update`, stamped with the current time; an I/O
/// error when the system clock reads a time that cannot be recorded.
pub fn apply_note_update(val: Note, update: &UpdateNoteOptions, detail: Option<String>) -> (r: Result<
    Note,
    Error,
>)
    ensures
        match r {
            Ok(n) => {
                &&& n.id == val.id
                &&& n.creator_id == val.creator_id
                &&& n.commit_sha == (match update.commit {
                    Some(c) => Some(c),
                    None => val.commit_sha,
                })
                &&& n.summary == (match update.summary {
                    Some(s) => s,
                    None => val.summary,
                })
                &&& n.detail == (match detail {
                    Some(d) => Some(d),
                    None => val.detail,
                })
                &&& n.data == val.data
                &&& n.created_at == val.created_at
                &&& n.updated_at.nanos < 1_000_000_000
            },
            Err(e) => e matches Error::IOError(m) && m@ == clock_error_text(),
        },
{
    match now() {
        Some(t) => Ok(updated_note(val, update, detail, t)),
        None => Err(Error::IOError("the system clock reads a time that cannot be recorded".to_owned())),
    }
}

/// The statement `note update` runs.
pub open spec fn update_note_pieces(val: Note, id: i32) -> Seq<Piece> {
    seq![
        Piece::Text("UPDATE note SET"@),
        Piece::Text("  commit_sha = "@),
        Piece::Param(val.commit_sha.sql_value()),
        Piece::Text(", summary = "@),
        Piece::Param(SqlData::Text(val.summary@)),
        Piece::Text(", detail = "@),
        Piece::Param(val.detail.sql_value()),
        Piece::Text(", updated_at = "@),
        Piece::Param(SqlData::Time(val.updated_at)),
    ] + compare_filter("id = "@, SqlData::Integer(id as i64))
}

/// The statement `note update` runs.
pub fn update_note_query(val: &Note, id: i32) -> (q: Query)
    ensures
        q.wf(),
        q@ == update_note_pieces(*val, id),
{
    let mut q = Query::new();
    q.push("UPDATE note SET").push("  commit_sha = ").push_var(clone_opt_string(&val.commit_sha)).push(
        ", summary = ",
    ).push_var(val.summary.clone()).push(", detail = ").push_var(clone_opt_string(&val.detail)).push(
        ", updated_at = ",
    ).push_var(val.updated_at);
    let ghost head = q@;
    q.push_compare("id = ", id);
    assert(head =~= seq![
        Piece::Text("UPDATE note SET"@),
        Piece::Text("  commit_sha = "@),
        Piece::Param(val.commit_sha.sql_value()),
        Piece::Text(", summary = "@),
        Piece::Param(SqlData::Text(val.summary@)),
        Piece::Text(", detail = "@),
        Piece::Param(val.detail.sql_value()),
        Piece::Text(", updated_at = "@),
        Piece::Param(SqlData::Time(val.updated_at)),
    ]);
    q
}

// ---------------------------------------------------------------- delete

/// The statement `note delete` runs.
pub fn delete_note_query(id: i32) -> (q: Query)
    ensures
        q.wf(),
        q@ == seq![Piece::Text("DELETE FROM note"@)] + compare_filter(
            "id = "@,
            SqlData::Integer(id as i64),
        ),
{
    let mut q = Query::new();
    q.push("DELETE FROM note");
    q.push_compare("id = ", id);
    q
}

/// The line `note delete` writes: how many notes were deleted.
pub fn deleted_line(count: usize) -> (s: String)
    ensures
        s@ == "deleted "@ + decimal(count as nat) + " note"@,
{
    let mut s = "deleted ".to_owned();
    let digits = decimal_string(count as u64);
    s.append(digits.as_str());
    s.append(" note");
    s
}

} // verus!
