//! The ticket commands: the records they write, the statements they run,
//! and how they judge what the database answered.
use vstd::prelude::*;

use crate::clock::{now, Timestamp};
use crate::error::Error;
use crate::sqlx::{
    assign, compare_filter, lemma_filter_count_append, lemma_params_append, lemma_params_assign, lemma_params_compare,
    lemma_params_text, lemma_push_piece, params, filter_count, in_filter, list_pieces, opt_in_filter, opt_len,
    opt_time_filter, render, lemma_params_of_list, sql_values, Piece, Query, SqlData, SqlValue, ToSqlValue,
};
use crate::sqlx::clauses::{
    bound_filter, concat, filters_of, given, lemma_compare_filter_count, lemma_compare_mentions,
    lemma_concat_comparison, lemma_concat_filters, lemma_concat_mentions, lemma_in_filter_count,
    lemma_in_filter_mentions, lemma_mentions_append, lemma_opt_in_filter, lemma_opt_time_filter,
    lemma_texts, mentions, lemma_bound_in_parts, lemma_opt_params, lemma_texts_params, opt_texts,
    opt_time, has_comparison, lemma_concat_comparison_within, lemma_same_shape_render, same_shape,
};
use crate::sqlx::results::{law_nothing_missing, missing, missing_from, missing_one};
use crate::text::{clone_opt_string, clone_opt_strings, seq_of};
use crate::ticket::{format_id, format_ids, id_text, ids_text, State, Ticket};

verus! {

/// The ticket command and its options.
pub struct TicketOptions {
    pub command: TicketCommand,
}

/// The ticket commands.
pub enum TicketCommand {
    Create(CreateTicketOptions),
    List(ListTicketOptions),
    Fetch(FetchTicketOptions),
    Update(UpdateTicketOptions),
    Take(TakeTicketOptions),
    Abandon(AbandonTicketOptions),
}

/// Options of `ticket new`.
pub struct CreateTicketOptions {
    /// The roles that may work on the ticket.
    pub role: Option<Vec<String>>,
    /// A brief summary of the ticket.
    pub summary: String,
    /// Where to read the detail from; `-` for the standard input.
    pub detail: Option<String>,
}

/// Options of `ticket list`: each filter that is given narrows the listing.
pub struct ListTicketOptions {
    /// Only tickets owned by one of these agents.
    pub owner: Option<Vec<String>>,
    /// Only tickets that one of these roles may work on.
    pub role: Option<Vec<String>>,
    /// Only tickets in one of these states.
    pub state: Option<Vec<State>>,
    /// Only tickets owned by the agent that asks.
    pub mine: bool,
    /// Only available tickets that nobody else owns.
    pub available: bool,
    pub created_before: Option<Timestamp>,
    pub created_after: Option<Timestamp>,
    pub updated_before: Option<Timestamp>,
    pub updated_after: Option<Timestamp>,
}

/// Options of `ticket get`.
pub struct FetchTicketOptions {
    /// The tickets to show.
    pub id: Vec<i32>,
}

/// Options of `ticket update`: what is given replaces what the ticket holds.
pub struct UpdateTicketOptions {
    /// The ticket to update.
    pub id: i32,
    /// The fence the caller read from the ticket.
    pub fence: i32,
    pub role: Option<Vec<String>>,
    pub state: Option<State>,
    pub summary: Option<String>,
    /// Where to read the detail from; `-` for the standard input.
    pub detail: Option<String>,
}

/// Options of `ticket take`.
pub struct TakeTicketOptions {
    /// The tickets to take.
    pub id: Vec<i32>,
    /// Take tickets that another agent owns.
    pub force: bool,
}

/// Options of `ticket abandon`.
pub struct AbandonTicketOptions {
    /// The tickets to give up; every ticket the agent owns when none are
    /// named.
    pub id: Option<Vec<i32>>,
}

/// The columns of a ticket row, in the order they are read.
pub open spec fn ticket_columns() -> Seq<char> {
    "id, fence, state, summary, detail, data, owner_id, created_at, updated_at"@
}

// ---------------------------------------------------------------- create

/// The ticket `ticket new` records before the database gives it an
/// identifier.
pub fn ticket_record(
    create: &CreateTicketOptions,
    detail: Option<String>,
    created_at: Timestamp,
    updated_at: Timestamp,
) -> (t: Ticket)
    ensures
        t.id == 0,
        t.fence == 0,
        t.state == State::Available,
        seq_of(t.roles) == seq_of(create.role),
        t.summary == create.summary,
        t.detail == detail,
        t.data is None,
        t.owner_id is None,
        t.references is None,
        t.created_at == created_at,
        t.updated_at == updated_at,
{
    Ticket {
        id: 0,
        fence: 0,
        state: State::Available,
        roles: clone_opt_strings(&create.role),
        summary: create.summary.clone(),
        detail,
        data: None,
        owner_id: None,
        references: None,
        created_at,
        updated_at,
    }
}

/// Why a record could not be stamped with the current time.
pub open spec fn clock_error_text() -> Seq<char> {
    "the system clock reads a time that cannot be recorded"@
}

/// The ticket `ticket new` records, stamped with the current time; an I/O
/// error when the system clock reads a time that cannot be recorded.
pub fn new_ticket(create: &CreateTicketOptions, detail: Option<String>) -> (r: Result<Ticket, Error>)
    ensures
        match r {
            Ok(t) => {
                &&& t.id == 0
                &&& t.fence == 0
                &&& t.state == State::Available
                &&& seq_of(t.roles) == seq_of(create.role)
                &&& t.summary == create.summary
                &&& t.detail == detail
                &&& t.data is None
                &&& t.owner_id is None
                &&& t.references is None
                &&& t.created_at.nanos < 1_000_000_000
                &&& t.updated_at.nanos < 1_000_000_000
            },
            Err(e) => e matches Error::IOError(m) && m@ == clock_error_text(),
        },
{
    let created_at = match now() {
        Some(t) => t,
        None => return Err(Error::IOError("the system clock reads a time that cannot be recorded".to_owned())),
    };
    let updated_at = match now() {
        Some(t) => t,
        None => return Err(Error::IOError("the system clock reads a time that cannot be recorded".to_owned())),
    };
    Ok(ticket_record(create, detail, created_at, updated_at))
}

/// The values a new ticket row is inserted with.
pub open spec fn ticket_insert_values(t: Ticket) -> Seq<SqlData> {
    seq![
        t.state.sql_value(),
        t.summary.sql_value(),
        t.detail.sql_value(),
        t.data.sql_value(),
        t.owner_id.sql_value(),
        t.created_at.sql_value(),
        t.updated_at.sql_value(),
    ]
}

/// The statement that inserts a ticket and returns its identifier.
pub fn insert_ticket_query(val: &Ticket) -> (q: Query)
    ensures
        q.wf(),
        q@ == seq![
            Piece::Text(
                "INSERT INTO ticket (state, summary, detail, data, owner_id, created_at, updated_at) VALUES "@,
            ),
        ] + list_pieces(ticket_insert_values(*val)) + seq![Piece::Text(" RETURNING id"@)],
{
    let mut values: Vec<SqlValue> = Vec::new();
    values.push(val.state.to_sql_value());
    values.push(val.summary.to_sql_value());
    values.push(val.detail.to_sql_value());
    values.push(val.data.to_sql_value());
    values.push(val.owner_id.to_sql_value());
    values.push(val.created_at.to_sql_value());
    values.push(val.updated_at.to_sql_value());
    assert(sql_values(values@) =~= ticket_insert_values(*val));
    let mut q = Query::new();
    q.push(
        "INSERT INTO ticket (state, summary, detail, data, owner_id, created_at, updated_at) VALUES ",
    ).push_list(values.as_slice()).push(" RETURNING id");
    assert(q@ =~= seq![
        Piece::Text(
            "INSERT INTO ticket (state, summary, detail, data, owner_id, created_at, updated_at) VALUES "@,
        ),
    ] + list_pieces(ticket_insert_values(*val)) + seq![Piece::Text(" RETURNING id"@)]);
    q
}

/// The ticket with the identifier the database returned for it; an
/// argument error when none came back.
pub fn with_inserted_id(val: Ticket, id: Option<i32>) -> (r: Result<Ticket, Error>)
    ensures
        match id {
            Some(i) => r == Ok::<Ticket, Error>(Ticket { id: i, ..val }),
            None => r matches Err(Error::ArgumentError(m)) && m@ == "No identifier returned"@,
        },
{
    match id {
        Some(i) => {
            let mut val = val;
            val.id = i;
            Ok(val)
        },
        None => Err(Error::ArgumentError("No identifier returned".to_owned())),
    }
}

/// The statement that records that a role may work on a ticket.
pub open spec fn insert_role_pieces(ticket_id: i32, role: Seq<char>) -> Seq<Piece> {
    seq![
        Piece::Text("INSERT INTO ticket_role (ticket_id, role) VALUES ("@),
        Piece::Param(SqlData::Integer(ticket_id as i64)),
        Piece::Text(", "@),
        Piece::Param(SqlData::Text(role)),
        Piece::Text(")"@),
    ]
}

/// The statement that records that a role may work on a ticket.
pub fn insert_role_query(ticket_id: i32, role: &String) -> (q: Query)
    ensures
        q.wf(),
        q@ == insert_role_pieces(ticket_id, role@),
{
    let mut q = Query::new();
    q.push("INSERT INTO ticket_role (ticket_id, role) VALUES (").push_var(ticket_id).push(
        ", ",
    ).push_var(role.clone()).push(")");
    assert(q@ =~= insert_role_pieces(ticket_id, role@));
    q
}

/// The statements that record each of the roles for a ticket, in order.
pub open spec fn role_inserts(ticket_id: i32, roles: Seq<String>) -> Seq<Seq<Piece>> {
    roles.map_values(|r: String| insert_role_pieces(ticket_id, r@))
}

/// The statements that record the roles, if any, of a new ticket.
pub fn insert_roles_queries(ticket_id: i32, roles: &Option<Vec<String>>) -> (qs: Vec<Query>)
    ensures
        forall|i: int| 0 <= i < qs@.len() ==> (#[trigger] qs@[i]).wf(),
        qs@.map_values(|q: Query| q@) == (match roles {
            Some(rs) => role_inserts(ticket_id, rs@),
            None => Seq::empty(),
        }),
{
    let mut qs: Vec<Query> = Vec::new();
    if let Some(rs) = roles {
        let n = rs.len();
        let mut i: usize = 0;
        while i < n
            invariant
                n == rs@.len(),
                i <= n,
                forall|k: int| 0 <= k < qs@.len() ==> (#[trigger] qs@[k]).wf(),
                qs@.map_values(|q: Query| q@) == role_inserts(ticket_id, rs@.take(i as int)),
            decreases n - i,
        {
            let q = insert_role_query(ticket_id, &rs[i]);
            let ghost before = qs@;
            qs.push(q);
            proof {
                assert(qs@ =~= before.push(q));
                assert(rs@.take(i + 1) =~= rs@.take(i as int).push(rs@[i as int]));
                assert(role_inserts(ticket_id, rs@.take(i + 1)) =~= role_inserts(
                    ticket_id,
                    rs@.take(i as int),
                ).push(insert_role_pieces(ticket_id, rs@[i as int]@)));
                assert(qs@.map_values(|q: Query| q@) =~= before.map_values(|q: Query| q@).push(q@));
            }
            i = i + 1;
        }
        assert(rs@.take(n as int) =~= rs@);
    } else {
        assert(qs@.map_values(|q: Query| q@) =~= Seq::<Seq<Piece>>::empty());
    }
    qs
}

// ------------------------------------------------------------------ list

/// The filter that holds a ticket that is unowned or owned by the agent.
pub open spec fn unowned_or_owned_by(agent: Seq<char>) -> Seq<Piece> {
    seq![
        Piece::Filter,
        Piece::Text("(owner_id IS NULL OR owner_id = "@),
        Piece::Param(SqlData::Text(agent)),
        Piece::Text(")"@),
    ]
}

/// The filter on ownership and state that `--mine` and `--available` ask
/// for.
pub open spec fn ownership_filter(agent: Seq<char>, mine: bool, available: bool) -> Seq<Piece> {
    let owner_is = compare_filter("owner_id = "@, SqlData::Text(agent));
    let is_available = compare_filter("state = "@, SqlData::Text("available"@));
    if mine && available {
        owner_is + is_available
    } else if mine {
        owner_is
    } else if available {
        unowned_or_owned_by(agent) + is_available
    } else {
        Seq::empty()
    }
}

/// The filter on the roles that may work on a ticket, when roles are asked
/// for: each ticket is selected once, however many of its roles match.
pub open spec fn role_filter(role: Option<Vec<String>>) -> Seq<Piece> {
    match role {
        Some(r) => in_filter(
            "id IN (SELECT ticket_id FROM ticket_role WHERE role IN "@,
            sql_values(r@),
        ) + seq![Piece::Text(")"@)],
        None => Seq::empty(),
    }
}

/// The statement `ticket list` runs.
pub open spec fn list_ticket_pieces(agent: Seq<char>, list: ListTicketOptions) -> Seq<Piece> {
    seq![Piece::Text("SELECT "@ + ticket_columns() + " FROM ticket"@)] + role_filter(list.role)
        + ownership_filter(agent, list.mine, list.available) + opt_in_filter(
        "owner_id IN "@,
        list.owner,
    ) + opt_in_filter("state IN "@, list.state) + opt_time_filter(
        "created_at < "@,
        list.created_before,
    ) + opt_time_filter("updated_at < "@, list.updated_before) + opt_time_filter(
        "created_at > "@,
        list.created_after,
    ) + opt_time_filter("updated_at > "@, list.updated_after) + seq![
        Piece::Text(" ORDER BY updated_at DESC"@),
    ]
}

fn select_tickets() -> (q: Query)
    ensures
        q.wf(),
        q@ == seq![Piece::Text("SELECT "@ + ticket_columns() + " FROM ticket"@)],
        q.args@.len() == 0,
        filter_count(q@) == 0,
{
    let mut q = Query::new();
    q.push("SELECT id, fence, state, summary, detail, data, owner_id, created_at, updated_at FROM ticket");
    proof {
        reveal_strlit("SELECT ");
        reveal_strlit(" FROM ticket");
        reveal_strlit("id, fence, state, summary, detail, data, owner_id, created_at, updated_at");
        reveal_strlit("SELECT id, fence, state, summary, detail, data, owner_id, created_at, updated_at FROM ticket");
        assert("SELECT id, fence, state, summary, detail, data, owner_id, created_at, updated_at FROM ticket"@ =~= "SELECT "@ + ticket_columns() + " FROM ticket"@);
        assert(q@ =~= seq![Piece::Text("SELECT "@ + ticket_columns() + " FROM ticket"@)]);
    }
    q
}

fn push_role_filter(q: &mut Query, role: &Option<Vec<String>>)
    requires
        old(q).wf(),
        filter_count(old(q)@) + 1 < usize::MAX,
        old(q).args@.len() + opt_len(*role) < usize::MAX,
    ensures
        final(q).wf(),
        final(q)@ == old(q)@ + role_filter(*role),
        final(q).args@.len() == old(q).args@.len() + opt_len(*role),
        filter_count(final(q)@) <= filter_count(old(q)@) + 1,
{
    let ghost start = q@;
    if let Some(roles) = role {
        q.push_where("id IN (SELECT ticket_id FROM ticket_role WHERE role IN ").push_list(
            roles.as_slice(),
        ).push(")");
        assert(q@ =~= start + role_filter(*role));
    } else {
        assert(q@ =~= start + role_filter(*role));
    }
}

fn push_ownership_filter(q: &mut Query, agent: &str, mine: bool, available: bool)
    requires
        old(q).wf(),
        filter_count(old(q)@) + 2 < usize::MAX,
        old(q).args@.len() + 2 < usize::MAX,
    ensures
        final(q).wf(),
        final(q)@ == old(q)@ + ownership_filter(agent@, mine, available),
        final(q).args@.len() <= old(q).args@.len() + 2,
        filter_count(final(q)@) <= filter_count(old(q)@) + 2,
{
    let ghost start = q@;
    if mine {
        q.push_compare("owner_id = ", agent.to_owned());
    } else if available {
        q.push_where("(owner_id IS NULL OR owner_id = ").push_var(agent.to_owned()).push(")");
    }
    let ghost mid = q@;
    if available {
        q.push_compare("state = ", State::Available);
    }
    proof {
        if available {
            assert(q@ == mid + compare_filter("state = "@, SqlData::Text("available"@)));
        }
    }
    assert(q@ =~= start + ownership_filter(agent@, mine, available));
}

/// The statement `ticket list` runs for the agent.
pub fn list_ticket_query(agent: &str, list: &ListTicketOptions) -> (q: Query)
    requires
        opt_len(list.owner) + opt_len(list.role) + opt_len(list.state) + 16 < usize::MAX,
    ensures
        q.wf(),
        q@ == list_ticket_pieces(agent@, *list),
{
    let mut q = select_tickets();
    push_role_filter(&mut q, &list.role);
    push_ownership_filter(&mut q, agent, list.mine, list.available);
    q.push_in_filter("owner_id IN ", &list.owner);
    q.push_in_filter("state IN ", &list.state);
    q.push_time_filter("created_at < ", &list.created_before);
    q.push_time_filter("updated_at < ", &list.updated_before);
    q.push_time_filter("created_at > ", &list.created_after);
    q.push_time_filter("updated_at > ", &list.updated_after);
    let ghost before_order = q@;
    q.push(" ORDER BY updated_at DESC");
    assert(q@ =~= before_order + seq![Piece::Text(" ORDER BY updated_at DESC"@)]);
    q
}

proof fn lemma_ownership_filter(agent: Seq<char>, mine: bool, available: bool, t: Seq<char>)
    requires
        t != "owner_id = "@,
        t != "state = "@,
        t != "(owner_id IS NULL OR owner_id = "@,
        t != ")"@,
    ensures
        !mentions(ownership_filter(agent, mine, available), t),
        filter_count(ownership_filter(agent, mine, available)) == (if mine || available {
            1nat
        } else {
            0nat
        }) + (if available {
            1nat
        } else {
            0nat
        }),
{
    let owner_is = compare_filter("owner_id = "@, SqlData::Text(agent));
    let is_available = compare_filter("state = "@, SqlData::Text("available"@));
    let unowned = unowned_or_owned_by(agent);
    lemma_compare_mentions("owner_id = "@, SqlData::Text(agent), t);
    lemma_compare_mentions("state = "@, SqlData::Text("available"@), t);
    lemma_compare_filter_count("owner_id = "@, SqlData::Text(agent));
    lemma_compare_filter_count("state = "@, SqlData::Text("available"@));
    let start = Seq::<Piece>::empty();
    let p1 = start.push(Piece::Filter);
    let p2 = p1.push(Piece::Text("(owner_id IS NULL OR owner_id = "@));
    let p3 = p2.push(Piece::Param(SqlData::Text(agent)));
    let p4 = p3.push(Piece::Text(")"@));
    lemma_push_piece(start, Piece::Filter);
    lemma_push_piece(p1, Piece::Text("(owner_id IS NULL OR owner_id = "@));
    lemma_push_piece(p2, Piece::Param(SqlData::Text(agent)));
    lemma_push_piece(p3, Piece::Text(")"@));
    assert(unowned =~= p4);
    assert(filter_count(start) == 0);
    if mentions(unowned, t) {
        let j = choose|j: int| 0 <= j < unowned.len() && #[trigger] unowned[j] == Piece::Text(t);
        assert(unowned[0] == Piece::Filter);
        assert(unowned[1] == Piece::Text("(owner_id IS NULL OR owner_id = "@));
        assert(unowned[2] == Piece::Param(SqlData::Text(agent)));
        assert(unowned[3] == Piece::Text(")"@));
    }
    lemma_mentions_append(owner_is, is_available, t);
    lemma_mentions_append(unowned, is_available, t);
    lemma_filter_count_append(owner_is, is_available);
    lemma_filter_count_append(unowned, is_available);
    if !mine && !available {
        assert(filter_count(Seq::<Piece>::empty()) == 0);
    }
}

proof fn lemma_role_filter(role: Option<Vec<String>>, t: Seq<char>)
    requires
        t != "id IN (SELECT ticket_id FROM ticket_role WHERE role IN "@,
        t != "("@,
        t != ")"@,
        t != ", "@,
    ensures
        !mentions(role_filter(role), t),
        filter_count(role_filter(role)) == given(role),
{
    match role {
        Some(r) => {
            let f = in_filter(
                "id IN (SELECT ticket_id FROM ticket_role WHERE role IN "@,
                sql_values(r@),
            );
            let close = seq![Piece::Text(")"@)];
            lemma_in_filter_mentions(
                "id IN (SELECT ticket_id FROM ticket_role WHERE role IN "@,
                sql_values(r@),
                t,
            );
            lemma_in_filter_count(
                "id IN (SELECT ticket_id FROM ticket_role WHERE role IN "@,
                sql_values(r@),
            );
            lemma_texts(close, t);
            lemma_mentions_append(f, close, t);
            lemma_filter_count_append(f, close);
        },
        None => {
            assert(filter_count(Seq::<Piece>::empty()) == 0);
        },
    }
}

spec fn ticket_list_parts(agent: Seq<char>, list: ListTicketOptions) -> Seq<Seq<Piece>> {
    seq![
        seq![Piece::Text("SELECT "@ + ticket_columns() + " FROM ticket"@)],
        role_filter(list.role),
        ownership_filter(agent, list.mine, list.available),
        opt_in_filter("owner_id IN "@, list.owner),
        opt_in_filter("state IN "@, list.state),
        opt_time_filter("created_at < "@, list.created_before),
        opt_time_filter("updated_at < "@, list.updated_before),
        opt_time_filter("created_at > "@, list.created_after),
        opt_time_filter("updated_at > "@, list.updated_after),
        seq![Piece::Text(" ORDER BY updated_at DESC"@)],
    ]
}

proof fn lemma_ticket_list_parts(agent: Seq<char>, list: ListTicketOptions)
    ensures
        list_ticket_pieces(agent, list) == concat(ticket_list_parts(agent, list)),
{
    assert(list_ticket_pieces(agent, list) =~= concat(ticket_list_parts(agent, list))) by {
        reveal_with_fuel(concat, 11);
    }
}

/// No part of the listing but the comparison itself writes the condition
/// of a time bound.
proof fn lemma_ticket_list_texts(agent: Seq<char>, list: ListTicketOptions, i: int, c: Seq<char>)
    requires
        5 <= i < 9,
        c == seq!["created_at < "@, "updated_at < "@, "created_at > "@, "updated_at > "@][i - 5],
    ensures
        forall|m: int|
            0 <= m < 10 && m != i ==> !mentions(#[trigger] ticket_list_parts(agent, list)[m], c),
{
    let parts = ticket_list_parts(agent, list);
    reveal_strlit("SELECT ");
    reveal_strlit(" FROM ticket");
    reveal_strlit("id, fence, state, summary, detail, data, owner_id, created_at, updated_at");
    reveal_strlit(" ORDER BY updated_at DESC");
    reveal_strlit("id IN (SELECT ticket_id FROM ticket_role WHERE role IN ");
    reveal_strlit("owner_id = ");
    reveal_strlit("state = ");
    reveal_strlit("(owner_id IS NULL OR owner_id = ");
    reveal_strlit("owner_id IN ");
    reveal_strlit("state IN ");
    reveal_strlit("(");
    reveal_strlit(")");
    reveal_strlit(", ");
    reveal_strlit("created_at < ");
    reveal_strlit("created_at > ");
    reveal_strlit("updated_at < ");
    reveal_strlit("updated_at > ");
    let conds = seq!["created_at < "@, "updated_at < "@, "created_at > "@, "updated_at > "@];
    assert(c.len() == 13);
    lemma_texts(parts[0], c);
    lemma_texts(parts[9], c);
    lemma_role_filter(list.role, c);
    lemma_ownership_filter(agent, list.mine, list.available, c);
    lemma_opt_in_filter("owner_id IN "@, list.owner, c);
    lemma_opt_in_filter("state IN "@, list.state, c);
    assert forall|m: int| 5 <= m < 9 && m != i implies !mentions(#[trigger] parts[m], c) by {
        assert(conds[m - 5][0] != c[0] || conds[m - 5][11] != c[11]);
        assert(parts[m] == opt_time_filter(conds[m - 5], parts_bound(list, m - 5)));
        lemma_opt_time_filter(conds[m - 5], parts_bound(list, m - 5), c);
    }
}

spec fn parts_bound(list: ListTicketOptions, k: int) -> Option<Timestamp> {
    seq![list.created_before, list.updated_before, list.created_after, list.updated_after][k]
}

proof fn lemma_ticket_list_count(agent: Seq<char>, list: ListTicketOptions)
    ensures
        filter_count(list_ticket_pieces(agent, list)) == given(list.role) + (if list.mine
            || list.available {
            1nat
        } else {
            0nat
        }) + (if list.available {
            1nat
        } else {
            0nat
        }) + given(list.owner) + given(list.state) + given(list.created_before) + given(
            list.created_after,
        ) + given(list.updated_before) + given(list.updated_after),
{
    let parts = ticket_list_parts(agent, list);
    lemma_ticket_list_parts(agent, list);
    lemma_concat_filters(parts);
    assert(filters_of(parts) == filter_count(parts[0]) + filter_count(parts[1]) + filter_count(
        parts[2],
    ) + filter_count(parts[3]) + filter_count(parts[4]) + filter_count(parts[5]) + filter_count(
        parts[6],
    ) + filter_count(parts[7]) + filter_count(parts[8]) + filter_count(parts[9])) by {
        reveal_with_fuel(filters_of, 11);
    }
    reveal_strlit("created_at < ");
    reveal_strlit("owner_id = ");
    reveal_strlit("state = ");
    reveal_strlit("(owner_id IS NULL OR owner_id = ");
    reveal_strlit("id IN (SELECT ticket_id FROM ticket_role WHERE role IN ");
    reveal_strlit("(");
    reveal_strlit(")");
    reveal_strlit(", ");
    reveal_strlit("SELECT ");
    reveal_strlit(" FROM ticket");
    reveal_strlit("id, fence, state, summary, detail, data, owner_id, created_at, updated_at");
    reveal_strlit(" ORDER BY updated_at DESC");
    let c = "created_at < "@;
    assert(c.len() == 13);
    lemma_texts(parts[0], c);
    lemma_texts(parts[9], c);
    lemma_role_filter(list.role, c);
    lemma_ownership_filter(agent, list.mine, list.available, c);
    lemma_opt_in_filter("owner_id IN "@, list.owner, c);
    lemma_opt_in_filter("state IN "@, list.state, c);
    lemma_opt_time_filter("created_at < "@, list.created_before, c);
    lemma_opt_time_filter("updated_at < "@, list.updated_before, c);
    lemma_opt_time_filter("created_at > "@, list.created_after, c);
    lemma_opt_time_filter("updated_at > "@, list.updated_after, c);
}

/// The time bounds of `ticket list`: each bound that is given is a filter
/// clause comparing the column it names in the direction its name says
/// (before is `<`, after is `>`) with a placeholder bound to that time, and a
/// bound that is not given writes no such comparison, whatever the other
/// options. The statement opens one filter clause per role, owner, state
/// and time filter given, one for `--mine` or `--available`, and one more
/// for `--available`.
pub proof fn law_ticket_list_filters(agent: Seq<char>, list: ListTicketOptions)
    ensures
        ({
            let p = list_ticket_pieces(agent, list);
            &&& bound_filter(p, "created_at < "@, list.created_before)
            &&& bound_filter(p, "created_at > "@, list.created_after)
            &&& bound_filter(p, "updated_at < "@, list.updated_before)
            &&& bound_filter(p, "updated_at > "@, list.updated_after)
            &&& filter_count(p) == given(list.role) + (if list.mine || list.available {
                1nat
            } else {
                0nat
            }) + (if list.available {
                1nat
            } else {
                0nat
            }) + given(list.owner) + given(list.state) + given(list.created_before) + given(
                list.created_after,
            ) + given(list.updated_before) + given(list.updated_after)
        }),
{
    let parts = ticket_list_parts(agent, list);
    let conds = seq!["created_at < "@, "updated_at < "@, "created_at > "@, "updated_at > "@];
    lemma_ticket_list_parts(agent, list);
    lemma_ticket_list_count(agent, list);
    lemma_ticket_list_texts(agent, list, 5, conds[0]);
    lemma_bound_in_parts(parts, 5, conds[0], list.created_before);
    lemma_ticket_list_texts(agent, list, 6, conds[1]);
    lemma_bound_in_parts(parts, 6, conds[1], list.updated_before);
    lemma_ticket_list_texts(agent, list, 7, conds[2]);
    lemma_bound_in_parts(parts, 7, conds[2], list.created_after);
    lemma_ticket_list_texts(agent, list, 8, conds[3]);
    lemma_bound_in_parts(parts, 8, conds[3], list.updated_after);
}

/// What `--mine` and `--available` ask of `ticket list`, and its order:
/// `--mine` keeps the tickets whose owner is the agent, `--available` the
/// tickets in the available state and, without `--mine`, only those that
/// are unowned or the agent's; the listing is ordered by the latest update
/// first.
pub proof fn law_ticket_list_ownership(agent: Seq<char>, list: ListTicketOptions)
    ensures
        ({
            let p = list_ticket_pieces(agent, list);
            &&& list.mine ==> has_comparison(p, "owner_id = "@, SqlData::Text(agent))
            &&& list.available ==> has_comparison(p, "state = "@, SqlData::Text("available"@))
            &&& list.available && !list.mine ==> exists|j: int|
                0 <= j && j + 4 <= p.len() && #[trigger] p.subrange(j, j + 4) == seq![
                    Piece::Filter,
                    Piece::Text("(owner_id IS NULL OR owner_id = "@),
                    Piece::Param(SqlData::Text(agent)),
                    Piece::Text(")"@),
                ]
            &&& p.len() > 0 && p.last() == Piece::Text(" ORDER BY updated_at DESC"@)
        }),
{
    let parts = ticket_list_parts(agent, list);
    let p = list_ticket_pieces(agent, list);
    lemma_ticket_list_parts(agent, list);
    let owner_is = compare_filter("owner_id = "@, SqlData::Text(agent));
    let is_available = compare_filter("state = "@, SqlData::Text("available"@));
    let unowned = unowned_or_owned_by(agent);
    let e = Seq::<Piece>::empty();
    if list.mine {
        let y = if list.available {
            is_available
        } else {
            e
        };
        assert(parts[2] =~= e + owner_is + y);
        lemma_concat_comparison_within(parts, 2, e, "owner_id = "@, SqlData::Text(agent), y);
    }
    if list.available {
        let x = parts[2].take(parts[2].len() - 3);
        assert(parts[2] =~= x + is_available + e);
        lemma_concat_comparison_within(parts, 2, x, "state = "@, SqlData::Text("available"@), e);
    }
    let head = parts[0] + parts[1];
    let rest = parts[3] + parts[4] + parts[5] + parts[6] + parts[7] + parts[8] + parts[9];
    assert(p =~= head + parts[2] + rest);
    if list.available && !list.mine {
        assert(parts[2] =~= unowned + is_available);
        let j = head.len() as int;
        assert(p.subrange(j, j + 4) =~= unowned);
    }
    assert(p.last() == parts[9].last());
}

proof fn lemma_role_params(role: Option<Vec<String>>)
    ensures
        params(role_filter(role)) == opt_texts(role),
{
    match role {
        Some(v) => {
            let column = "id IN (SELECT ticket_id FROM ticket_role WHERE role IN "@;
            lemma_opt_params(column, role, "created_at < "@, None);
            lemma_params_text(")"@);
            lemma_params_append(in_filter(column, sql_values(v@)), seq![Piece::Text(")"@)]);
            assert(sql_values(v@) =~= opt_texts(role));
            assert(params(role_filter(role)) =~= opt_texts(role));
        },
        None => {
            assert(params(Seq::<Piece>::empty()) =~= Seq::<SqlData>::empty());
        },
    }
}

proof fn lemma_ownership_params(agent: Seq<char>, mine: bool, available: bool)
    ensures
        params(ownership_filter(agent, mine, available)) == (if mine || available {
            seq![SqlData::Text(agent)]
        } else {
            Seq::<SqlData>::empty()
        }) + (if available {
            seq![SqlData::Text("available"@)]
        } else {
            Seq::<SqlData>::empty()
        }),
{
    let owner_is = compare_filter("owner_id = "@, SqlData::Text(agent));
    let is_available = compare_filter("state = "@, SqlData::Text("available"@));
    lemma_params_compare("owner_id = "@, SqlData::Text(agent));
    lemma_params_compare("state = "@, SqlData::Text("available"@));
    lemma_params_unowned(agent);
    lemma_params_append(owner_is, is_available);
    lemma_params_append(unowned_or_owned_by(agent), is_available);
    if !mine && !available {
        assert(params(Seq::<Piece>::empty()) =~= Seq::<SqlData>::empty());
    }
    assert(params(ownership_filter(agent, mine, available)) =~= (if mine || available {
        seq![SqlData::Text(agent)]
    } else {
        Seq::<SqlData>::empty()
    }) + (if available {
        seq![SqlData::Text("available"@)]
    } else {
        Seq::<SqlData>::empty()
    }));
}

/// The values `ticket list` binds, in the order of its placeholders: the
/// roles asked for; the agent when the listing is restricted to its tickets
/// or to available ones, followed by the available state's name for
/// `--available`; the owners; the names of the states; then each time bound
/// given, in the order created before, updated before, created after,
/// updated after.
pub proof fn law_ticket_list_binds(agent: Seq<char>, list: ListTicketOptions)
    ensures
        params(list_ticket_pieces(agent, list)) == opt_texts(list.role) + (if list.mine
            || list.available {
            seq![SqlData::Text(agent)]
        } else {
            Seq::<SqlData>::empty()
        }) + (if list.available {
            seq![SqlData::Text("available"@)]
        } else {
            Seq::<SqlData>::empty()
        }) + opt_texts(list.owner) + (match list.state {
            Some(v) => v@.map_values(|x: State| SqlData::Text(x.label())),
            None => Seq::<SqlData>::empty(),
        }) + opt_time(list.created_before) + opt_time(list.updated_before) + opt_time(
            list.created_after,
        ) + opt_time(list.updated_after),
{
    let head = seq![Piece::Text("SELECT "@ + ticket_columns() + " FROM ticket"@)];
    let r = role_filter(list.role);
    let o = ownership_filter(agent, list.mine, list.available);
    let a = opt_in_filter("owner_id IN "@, list.owner);
    let b = opt_in_filter("state IN "@, list.state);
    let pre = head + r + o + a + b;
    let post = time_bounds_and_order(list);
    lemma_list_prefix_params(agent, list);
    lemma_time_bounds_params(list);
    lemma_assoc_tail(
        pre,
        opt_time_filter("created_at < "@, list.created_before),
        opt_time_filter("updated_at < "@, list.updated_before),
        opt_time_filter("created_at > "@, list.created_after),
        opt_time_filter("updated_at > "@, list.updated_after),
        seq![Piece::Text(" ORDER BY updated_at DESC"@)],
    );
    lemma_params_append(pre, post);
    lemma_assoc_four(
        params(pre),
        opt_time(list.created_before),
        opt_time(list.updated_before),
        opt_time(list.created_after),
        opt_time(list.updated_after),
    );
}

proof fn lemma_assoc_tail<A>(p: Seq<A>, c: Seq<A>, d: Seq<A>, e: Seq<A>, f: Seq<A>, g: Seq<A>)
    ensures
        p + c + d + e + f + g == p + (c + d + e + f + g),
{
    assert(p + c + d + e + f + g =~= p + (c + d + e + f + g));
}

proof fn lemma_assoc_four<A>(x: Seq<A>, c: Seq<A>, d: Seq<A>, e: Seq<A>, f: Seq<A>)
    ensures
        x + (c + d + e + f) == x + c + d + e + f,
{
    assert(x + (c + d + e + f) =~= x + c + d + e + f);
}

spec fn time_bounds_and_order(list: ListTicketOptions) -> Seq<Piece> {
    opt_time_filter("created_at < "@, list.created_before) + opt_time_filter(
        "updated_at < "@,
        list.updated_before,
    ) + opt_time_filter("created_at > "@, list.created_after) + opt_time_filter(
        "updated_at > "@,
        list.updated_after,
    ) + seq![Piece::Text(" ORDER BY updated_at DESC"@)]
}

proof fn lemma_time_bounds_params(list: ListTicketOptions)
    ensures
        params(time_bounds_and_order(list)) == opt_time(list.created_before) + opt_time(
            list.updated_before,
        ) + opt_time(list.created_after) + opt_time(list.updated_after),
{
    let order = seq![Piece::Text(" ORDER BY updated_at DESC"@)];
    let c = opt_time_filter("created_at < "@, list.created_before);
    let d = opt_time_filter("updated_at < "@, list.updated_before);
    let e = opt_time_filter("created_at > "@, list.created_after);
    let f = opt_time_filter("updated_at > "@, list.updated_after);
    lemma_texts_params(order);
    lemma_opt_params("state IN "@, list.state, "created_at < "@, list.created_before);
    lemma_opt_params("state IN "@, list.state, "updated_at < "@, list.updated_before);
    lemma_opt_params("state IN "@, list.state, "created_at > "@, list.created_after);
    lemma_opt_params("state IN "@, list.state, "updated_at > "@, list.updated_after);
    lemma_params_append(c, d);
    lemma_params_append(c + d, e);
    lemma_params_append(c + d + e, f);
    lemma_params_append(c + d + e + f, order);
    assert(params(time_bounds_and_order(list)) =~= opt_time(list.created_before) + opt_time(
        list.updated_before,
    ) + opt_time(list.created_after) + opt_time(list.updated_after));
}

proof fn lemma_list_prefix_params(agent: Seq<char>, list: ListTicketOptions)
    ensures
        params(
            seq![Piece::Text("SELECT "@ + ticket_columns() + " FROM ticket"@)] + role_filter(list.role)
                + ownership_filter(agent, list.mine, list.available) + opt_in_filter(
                "owner_id IN "@,
                list.owner,
            ) + opt_in_filter("state IN "@, list.state),
        ) == opt_texts(list.role) + (if list.mine || list.available {
            seq![SqlData::Text(agent)]
        } else {
            Seq::<SqlData>::empty()
        }) + (if list.available {
            seq![SqlData::Text("available"@)]
        } else {
            Seq::<SqlData>::empty()
        }) + opt_texts(list.owner) + (match list.state {
            Some(v) => v@.map_values(|x: State| SqlData::Text(x.label())),
            None => Seq::<SqlData>::empty(),
        }),
{
    let head = seq![Piece::Text("SELECT "@ + ticket_columns() + " FROM ticket"@)];
    let r = role_filter(list.role);
    let o = ownership_filter(agent, list.mine, list.available);
    let a = opt_in_filter("owner_id IN "@, list.owner);
    let b = opt_in_filter("state IN "@, list.state);
    lemma_texts_params(head);
    lemma_opt_params("owner_id IN "@, list.owner, "created_at < "@, list.created_before);
    lemma_opt_params("state IN "@, list.state, "created_at < "@, list.created_before);
    lemma_role_params(list.role);
    lemma_ownership_params(agent, list.mine, list.available);
    match list.owner {
        Some(v) => {
            assert(sql_values(v@) =~= opt_texts(list.owner));
        },
        None => {},
    }
    match list.state {
        Some(v) => {
            assert(sql_values(v@) =~= v@.map_values(|x: State| SqlData::Text(x.label())));
        },
        None => {},
    }
    lemma_params_append(head, r);
    lemma_params_append(head + r, o);
    lemma_params_append(head + r + o, a);
    lemma_params_append(head + r + o + a, b);
    assert(params(head + r + o + a + b) =~= opt_texts(list.role) + (if list.mine || list.available {
        seq![SqlData::Text(agent)]
    } else {
        Seq::<SqlData>::empty()
    }) + (if list.available {
        seq![SqlData::Text("available"@)]
    } else {
        Seq::<SqlData>::empty()
    }) + opt_texts(list.owner) + (match list.state {
        Some(v) => v@.map_values(|x: State| SqlData::Text(x.label())),
        None => Seq::<SqlData>::empty(),
    }));
}

// ----------------------------------------------------------------- fetch

/// The statement that reads one ticket.
pub fn fetch_ticket_query(id: i32) -> (q: Query)
    ensures
        q.wf(),
        q@ == seq![Piece::Text("SELECT "@ + ticket_columns() + " FROM ticket"@)] + compare_filter(
            "id = "@,
            SqlData::Integer(id as i64),
        ),
{
    let mut q = select_tickets();
    q.push_compare("id = ", id);
    q
}

/// The statement that reads the roles that may work on a ticket.
pub fn ticket_roles_query(id: i32) -> (q: Query)
    ensures
        q.wf(),
        q@ == seq![Piece::Text("SELECT role FROM ticket_role"@)] + compare_filter(
            "ticket_id = "@,
            SqlData::Integer(id as i64),
        ),
{
    let mut q = Query::new();
    q.push("SELECT role FROM ticket_role");
    q.push_compare("ticket_id = ", id);
    q
}

// ---------------------------------------------------------------- update

/// The ticket after `ticket update`: the fence advances past the one the
/// caller read, what the update gives replaces what the ticket held, and the
/// rest stays.
pub fn updated_ticket(
    val: Ticket,
    update: &UpdateTicketOptions,
    detail: Option<String>,
    now: Timestamp,
) -> (t: Ticket)
    requires
        update.fence < i32::MAX,
    ensures
        t.id == val.id,
        t.fence == update.fence + 1,
        seq_of(t.roles) == (match update.role {
            Some(r) => Some(r@),
            None => seq_of(val.roles),
        }),
        t.state == (match update.state {
            Some(s) => s,
            None => val.state,
        }),
        t.summary == (match update.summary {
            Some(s) => s,
            None => val.summary,
        }),
        t.detail == (match detail {
            Some(d) => Some(d),
            None => val.detail,
        }),
        t.data == val.data,
        t.owner_id == val.owner_id,
        t.references == val.references,
        t.created_at == val.created_at,
        t.updated_at == now,
{
    let mut val = val;
    val.fence = update.fence + 1;
    if update.role.is_some() {
        val.roles = clone_opt_strings(&update.role);
    }
    if let Some(state) = &update.state {
        val.state = *state;
    }
    if let Some(summary) = &update.summary {
        val.summary = summary.clone();
    }
    if detail.is_some() {
        val.detail = detail;
    }
    val.updated_at = now;
    val
}

/// The ticket after `ticket update`, stamped with the current time; an I/O
/// error when the system clock reads a time that cannot be recorded.
pub fn apply_ticket_update(val: Ticket, update: &UpdateTicketOptions, detail: Option<String>) -> (r:
    Result<Ticket, Error>)
    requires
        update.fence < i32::MAX,
    ensures
        match r {
            Ok(t) => {
                &&& t.id == val.id
                &&& t.fence == update.fence + 1
                &&& seq_of(t.roles) == (match update.role {
                    Some(r) => Some(r@),
                    None => seq_of(val.roles),
                })
                &&& t.state == (match update.state {
                    Some(s) => s,
                    None => val.state,
                })
                &&& t.summary == (match update.summary {
                    Some(s) => s,
                    None => val.summary,
                })
                &&& t.detail == (match detail {
                    Some(d) => Some(d),
                    None => val.detail,
                })
                &&& t.data == val.data
                &&& t.owner_id == val.owner_id
                &&& t.references == val.references
                &&& t.created_at == val.created_at
                &&& t.updated_at.nanos < 1_000_000_000
            },
            Err(e) => e matches Error::IOError(m) && m@ == clock_error_text(),
        },
{
    match now() {
        Some(t) => Ok(updated_ticket(val, update, detail, t)),
        None => Err(Error::IOError("the system clock reads a time that cannot be recorded".to_owned())),
    }
}

/// The statement `ticket update` runs: it writes the updated fields only
/// where the ticket still has the fence the caller read and is unowned or
/// owned by the caller, and returns the identifier of what it changed.
pub open spec fn update_ticket_pieces(val: Ticket, update: UpdateTicketOptions, agent: Seq<char>) -> Seq<
    Piece,
> {
    seq![Piece::Text("UPDATE ticket SET"@)] + assign(
        "  fence = "@,
        SqlData::Integer(val.fence as i64),
    ) + assign(", state = "@, SqlData::Text(val.state.label())) + assign(
        ", summary = "@,
        SqlData::Text(val.summary@),
    ) + assign(", detail = "@, val.detail.sql_value()) + assign(
        ", updated_at = "@,
        SqlData::Time(val.updated_at),
    ) + compare_filter("id = "@, SqlData::Integer(update.id as i64)) + compare_filter(
        "fence = "@,
        SqlData::Integer(update.fence as i64),
    ) + unowned_or_owned_by(agent) + seq![Piece::Text(" RETURNING id"@)]
}

/// The statement `ticket update` runs for the agent.
pub fn update_ticket_query(val: &Ticket, update: &UpdateTicketOptions, agent: &str) -> (q: Query)
    ensures
        q.wf(),
        q@ == update_ticket_pieces(*val, *update, agent@),
{
    let mut q = Query::new();
    q.push("UPDATE ticket SET").push("  fence = ").push_var(val.fence).push(", state = ").push_var(
        val.state,
    ).push(", summary = ").push_var(val.summary.clone()).push(", detail = ").push_var(
        clone_opt_string(&val.detail),
    ).push(", updated_at = ").push_var(val.updated_at);
    q.push_compare("id = ", update.id);
    q.push_compare("fence = ", update.fence);
    q.push_where("(owner_id IS NULL OR owner_id = ").push_var(agent.to_owned()).push(")").push(
        " RETURNING id",
    );
    assert(q@ =~= update_ticket_pieces(*val, *update, agent@));
    q
}

proof fn lemma_params_unowned(agent: Seq<char>)
    ensures
        params(unowned_or_owned_by(agent)) == seq![SqlData::Text(agent)],
{
    let start = Seq::<Piece>::empty();
    let p1 = start.push(Piece::Filter);
    let p2 = p1.push(Piece::Text("(owner_id IS NULL OR owner_id = "@));
    let p3 = p2.push(Piece::Param(SqlData::Text(agent)));
    let p4 = p3.push(Piece::Text(")"@));
    lemma_push_piece(start, Piece::Filter);
    lemma_push_piece(p1, Piece::Text("(owner_id IS NULL OR owner_id = "@));
    lemma_push_piece(p2, Piece::Param(SqlData::Text(agent)));
    lemma_push_piece(p3, Piece::Text(")"@));
    assert(unowned_or_owned_by(agent) =~= p4);
    assert(params(start) =~= Seq::<SqlData>::empty());
    assert(params(p4) =~= seq![SqlData::Text(agent)]);
}

/// The fencing rule of `ticket update`: the statement writes the fence one
/// past the one the caller read, and changes the ticket only where its
/// identifier is the one named, its fence is the one the caller read, and its
/// owner is unset or the caller.
pub proof fn law_update_fencing(val: Ticket, update: UpdateTicketOptions, agent: Seq<char>)
    requires
        update.fence < i32::MAX,
        val.fence == update.fence + 1,
    ensures
        ({
            let p = params(update_ticket_pieces(val, update, agent));
            &&& p.len() == 8
            &&& p[0] == SqlData::Integer((update.fence + 1) as i64)
            &&& p[5] == SqlData::Integer(update.id as i64)
            &&& p[6] == SqlData::Integer(update.fence as i64)
            &&& p[7] == SqlData::Text(agent)
        }),
{
    let c0 = seq![Piece::Text("UPDATE ticket SET"@)];
    let c1 = assign("  fence = "@, SqlData::Integer(val.fence as i64));
    let c2 = assign(", state = "@, SqlData::Text(val.state.label()));
    let c3 = assign(", summary = "@, SqlData::Text(val.summary@));
    let c4 = assign(", detail = "@, val.detail.sql_value());
    let c5 = assign(", updated_at = "@, SqlData::Time(val.updated_at));
    let c6 = compare_filter("id = "@, SqlData::Integer(update.id as i64));
    let c7 = compare_filter("fence = "@, SqlData::Integer(update.fence as i64));
    let c8 = unowned_or_owned_by(agent);
    let c9 = seq![Piece::Text(" RETURNING id"@)];
    lemma_params_text("UPDATE ticket SET"@);
    lemma_params_assign("  fence = "@, SqlData::Integer(val.fence as i64));
    lemma_params_assign(", state = "@, SqlData::Text(val.state.label()));
    lemma_params_assign(", summary = "@, SqlData::Text(val.summary@));
    lemma_params_assign(", detail = "@, val.detail.sql_value());
    lemma_params_assign(", updated_at = "@, SqlData::Time(val.updated_at));
    lemma_params_compare("id = "@, SqlData::Integer(update.id as i64));
    lemma_params_compare("fence = "@, SqlData::Integer(update.fence as i64));
    lemma_params_unowned(agent);
    lemma_params_text(" RETURNING id"@);
    lemma_params_append(c0, c1);
    lemma_params_append(c0 + c1, c2);
    lemma_params_append(c0 + c1 + c2, c3);
    lemma_params_append(c0 + c1 + c2 + c3, c4);
    lemma_params_append(c0 + c1 + c2 + c3 + c4, c5);
    lemma_params_append(c0 + c1 + c2 + c3 + c4 + c5, c6);
    lemma_params_append(c0 + c1 + c2 + c3 + c4 + c5 + c6, c7);
    lemma_params_append(c0 + c1 + c2 + c3 + c4 + c5 + c6 + c7, c8);
    lemma_params_append(c0 + c1 + c2 + c3 + c4 + c5 + c6 + c7 + c8, c9);
}

/// Every column the `ticket update` statement sets binds the field of the
/// updated ticket it names (the fence, the state's name, the summary, the
/// detail or NULL when there is none, the time of the update), and its
/// filter binds the ticket named, the fence the caller read and the caller.
pub proof fn law_update_binds_fields(val: Ticket, update: UpdateTicketOptions, agent: Seq<char>)
    ensures
        params(update_ticket_pieces(val, update, agent)) == seq![
            SqlData::Integer(val.fence as i64),
            SqlData::Text(val.state.label()),
            SqlData::Text(val.summary@),
            match val.detail {
                Some(d) => SqlData::Text(d@),
                None => SqlData::Null,
            },
            SqlData::Time(val.updated_at),
            SqlData::Integer(update.id as i64),
            SqlData::Integer(update.fence as i64),
            SqlData::Text(agent),
        ],
{
    let c0 = seq![Piece::Text("UPDATE ticket SET"@)];
    let c1 = assign("  fence = "@, SqlData::Integer(val.fence as i64));
    let c2 = assign(", state = "@, SqlData::Text(val.state.label()));
    let c3 = assign(", summary = "@, SqlData::Text(val.summary@));
    let c4 = assign(", detail = "@, val.detail.sql_value());
    let c5 = assign(", updated_at = "@, SqlData::Time(val.updated_at));
    let c6 = compare_filter("id = "@, SqlData::Integer(update.id as i64));
    let c7 = compare_filter("fence = "@, SqlData::Integer(update.fence as i64));
    let c8 = unowned_or_owned_by(agent);
    let c9 = seq![Piece::Text(" RETURNING id"@)];
    lemma_params_text("UPDATE ticket SET"@);
    lemma_params_assign("  fence = "@, SqlData::Integer(val.fence as i64));
    lemma_params_assign(", state = "@, SqlData::Text(val.state.label()));
    lemma_params_assign(", summary = "@, SqlData::Text(val.summary@));
    lemma_params_assign(", detail = "@, val.detail.sql_value());
    lemma_params_assign(", updated_at = "@, SqlData::Time(val.updated_at));
    lemma_params_compare("id = "@, SqlData::Integer(update.id as i64));
    lemma_params_compare("fence = "@, SqlData::Integer(update.fence as i64));
    lemma_params_unowned(agent);
    lemma_params_text(" RETURNING id"@);
    lemma_params_append(c0, c1);
    lemma_params_append(c0 + c1, c2);
    lemma_params_append(c0 + c1 + c2, c3);
    lemma_params_append(c0 + c1 + c2 + c3, c4);
    lemma_params_append(c0 + c1 + c2 + c3 + c4, c5);
    lemma_params_append(c0 + c1 + c2 + c3 + c4 + c5, c6);
    lemma_params_append(c0 + c1 + c2 + c3 + c4 + c5 + c6, c7);
    lemma_params_append(c0 + c1 + c2 + c3 + c4 + c5 + c6 + c7, c8);
    lemma_params_append(c0 + c1 + c2 + c3 + c4 + c5 + c6 + c7 + c8, c9);
    assert(update_ticket_pieces(val, update, agent) =~= c0 + c1 + c2 + c3 + c4 + c5 + c6 + c7 + c8
        + c9);
    assert(params(update_ticket_pieces(val, update, agent)) =~= seq![
        SqlData::Integer(val.fence as i64),
        SqlData::Text(val.state.label()),
        SqlData::Text(val.summary@),
        match val.detail {
            Some(d) => SqlData::Text(d@),
            None => SqlData::Null,
        },
        SqlData::Time(val.updated_at),
        SqlData::Integer(update.id as i64),
        SqlData::Integer(update.fence as i64),
        SqlData::Text(agent),
    ]);
}

/// What `ticket update` writes as the detail: the text read for `--detail`
/// when one was read, and otherwise the detail the ticket already held, so
/// an update without `--detail` never erases it.
pub proof fn law_update_writes_detail(
    before: Ticket,
    val: Ticket,
    update: UpdateTicketOptions,
    agent: Seq<char>,
    detail: Option<Seq<char>>,
)
    requires
        match detail {
            Some(d) => val.detail matches Some(x) && x@ == d,
            None => val.detail == before.detail,
        },
    ensures
        params(update_ticket_pieces(val, update, agent))[3] == match detail {
            Some(d) => SqlData::Text(d),
            None => match before.detail {
                Some(x) => SqlData::Text(x@),
                None => SqlData::Null,
            },
        },
{
    law_update_binds_fields(val, update, agent);
}

/// The statement that removes the roles recorded for a ticket.
pub open spec fn delete_roles_pieces(id: i32) -> Seq<Piece> {
    seq![Piece::Text("DELETE FROM ticket_role"@)] + compare_filter(
        "ticket_id = "@,
        SqlData::Integer(id as i64),
    )
}

/// The statement that removes the roles recorded for a ticket.
pub fn delete_roles_query(id: i32) -> (q: Query)
    ensures
        q.wf(),
        q@ == delete_roles_pieces(id),
{
    let mut q = Query::new();
    q.push("DELETE FROM ticket_role");
    q.push_compare("ticket_id = ", id);
    q
}

/// The statements that replace the roles of each updated ticket: for each,
/// in order, the removal of its roles and then the recording of every new
/// role.
pub open spec fn role_replacements(ids: Seq<i32>, roles: Seq<String>) -> Seq<Seq<Piece>>
    decreases ids.len(),
{
    if ids.len() == 0 {
        Seq::empty()
    } else {
        role_replacements(ids.drop_last(), roles).push(delete_roles_pieces(ids.last())) + role_inserts(
            ids.last(),
            roles,
        )
    }
}

/// The statements that give the updated tickets the new roles; none when
/// the update names no roles.
pub fn replace_roles_queries(updated: &[i32], roles: &Option<Vec<String>>) -> (qs: Vec<Query>)
    ensures
        forall|i: int| 0 <= i < qs@.len() ==> (#[trigger] qs@[i]).wf(),
        qs@.map_values(|q: Query| q@) == (match roles {
            Some(rs) => role_replacements(updated@, rs@),
            None => Seq::empty(),
        }),
{
    let mut qs: Vec<Query> = Vec::new();
    if roles.is_some() {
        let ghost rs = match roles {
            Some(rs) => rs@,
            None => Seq::empty(),
        };
        let n = updated.len();
        let mut i: usize = 0;
        while i < n
            invariant
                n == updated@.len(),
                i <= n,
                roles matches Some(v) && v@ == rs,
                forall|k: int| 0 <= k < qs@.len() ==> (#[trigger] qs@[k]).wf(),
                qs@.map_values(|q: Query| q@) == role_replacements(updated@.take(i as int), rs),
            decreases n - i,
        {
            let ghost before = qs@.map_values(|q: Query| q@);
            qs.push(delete_roles_query(updated[i]));
            let mut inserts = insert_roles_queries(updated[i], roles);
            let ghost ins = inserts@;
            qs.append(&mut inserts);
            proof {
                let taken = updated@.take(i + 1);
                assert(taken.drop_last() =~= updated@.take(i as int));
                assert(taken.last() == updated@[i as int]);
                assert(qs@.map_values(|q: Query| q@) =~= before.push(delete_roles_pieces(updated@[i as int]))
                    + ins.map_values(|q: Query| q@));
                assert forall|k: int| 0 <= k < qs@.len() implies (#[trigger] qs@[k]).wf() by {
                    if k >= before.len() + 1 {
                        assert(qs@[k] == ins[k - before.len() - 1]);
                    }
                }
            }
            i = i + 1;
        }
        assert(updated@.take(n as int) =~= updated@);
    } else {
        assert(qs@.map_values(|q: Query| q@) =~= Seq::<Seq<Piece>>::empty());
    }
    qs
}

/// Whether the update reached the ticket: a command error naming it when it
/// is not among the updated identifiers.
pub fn check_updated(id: i32, updated: &[i32]) -> (r: Result<(), Error>)
    ensures
        r is Ok <==> updated@.contains(id),
        r is Err ==> (r matches Err(Error::CommandError(m)) && m@ == "error: could not update: "@
            + id_text(id)),
{
    match missing_one(id, updated) {
        Some(missed) => {
            let mut m = "error: could not update: ".to_owned();
            let idt = format_id(missed);
            m.append(idt.as_str());
            Err(Error::CommandError(m))
        },
        None => Ok(()),
    }
}

// ------------------------------------------------------------------ take

/// The columns a changed ticket row is returned with.
pub open spec fn returning_ticket() -> Seq<char> {
    " RETURNING id, fence, state, summary, detail, data, owner_id, created_at, updated_at"@
}

/// The statement `ticket take` runs: the named tickets become the agent's,
/// and their fence advances, where they are unowned, already the agent's, or
/// the take is forced.
pub open spec fn take_ticket_pieces(agent: Seq<char>, take: TakeTicketOptions) -> Seq<Piece> {
    seq![
        Piece::Text("UPDATE ticket SET"@),
        Piece::Text("  owner_id = "@),
        Piece::Param(SqlData::Text(agent)),
        Piece::Text(", fence = fence + 1"@),
    ] + in_filter("id IN "@, sql_values(take.id@)) + seq![
        Piece::Filter,
        Piece::Text("(owner_id IS NULL OR owner_id = "@),
        Piece::Param(SqlData::Text(agent)),
        Piece::Text(" OR "@),
        Piece::Param(take.force.sql_value()),
        Piece::Text(" = TRUE)"@),
        Piece::Text(returning_ticket()),
    ]
}

/// The statement `ticket take` runs.
#[verifier::rlimit(40)]
pub fn take_ticket_query(agent: &str, take: &TakeTicketOptions) -> (q: Query)
    requires
        take.id@.len() + 8 < usize::MAX,
    ensures
        q.wf(),
        q@ == take_ticket_pieces(agent@, *take),
{
    let mut q = Query::new();
    q.push("UPDATE ticket SET").push("  owner_id = ").push_var(agent.to_owned()).push(
        ", fence = fence + 1",
    );
    let ghost head = q@;
    q.push_where("id IN ").push_list(take.id.as_slice());
    let ghost listed = q@;
    q.push_where("(owner_id IS NULL OR owner_id = ").push_var(agent.to_owned()).push(" OR ").push_var(
        take.force,
    ).push(" = TRUE)").push(
        " RETURNING id, fence, state, summary, detail, data, owner_id, created_at, updated_at",
    );
    proof {
        assert(head =~= seq![
            Piece::Text("UPDATE ticket SET"@),
            Piece::Text("  owner_id = "@),
            Piece::Param(SqlData::Text(agent@)),
            Piece::Text(", fence = fence + 1"@),
        ]);
        assert(listed =~= head + in_filter("id IN "@, sql_values(take.id@)));
        assert(q@ =~= listed + seq![
            Piece::Filter,
            Piece::Text("(owner_id IS NULL OR owner_id = "@),
            Piece::Param(SqlData::Text(agent@)),
            Piece::Text(" OR "@),
            Piece::Param(take.force.sql_value()),
            Piece::Text(" = TRUE)"@),
            Piece::Text(returning_ticket()),
        ]);
    }
    q
}

/// The text of the `ticket take` statement does not depend on whether the
/// take is forced: forcing changes only the value bound to a placeholder.
pub proof fn law_take_text_ignores_force(agent: Seq<char>, a: TakeTicketOptions, b: TakeTicketOptions)
    requires
        a.id@ == b.id@,
    ensures
        render(take_ticket_pieces(agent, a)) == render(take_ticket_pieces(agent, b)),
{
    let pa = take_ticket_pieces(agent, a);
    let pb = take_ticket_pieces(agent, b);
    assert(same_shape(pa, pb)) by {
        let n = in_filter("id IN "@, sql_values(a.id@)).len() as int;
        assert forall|j: int| 0 <= j < pa.len() implies (#[trigger] pa[j] == pb[j] || (pa[j] is Param
            && pb[j] is Param)) by {
            if j != 4 + n + 4 {
                assert(pa[j] == pb[j]);
            }
        }
    }
    lemma_same_shape_render(pa, pb);
}

/// The ownership clause of `ticket take`: the statement ends by requiring
/// the ticket to be unowned, owned by the agent, or the take to be forced,
/// where a forced take binds TRUE (1) and an unforced one FALSE (0) to the
/// placeholder compared with TRUE, so a forced take matches the named
/// tickets whatever their owner. Its placeholders bind the agent, the named
/// identifiers in order, the agent again and that flag.
pub proof fn law_take_ownership_clause(agent: Seq<char>, take: TakeTicketOptions)
    ensures
        ({
            let p = take_ticket_pieces(agent, take);
            &&& p.len() >= 7
            &&& p.skip(p.len() - 7) == seq![
                Piece::Filter,
                Piece::Text("(owner_id IS NULL OR owner_id = "@),
                Piece::Param(SqlData::Text(agent)),
                Piece::Text(" OR "@),
                Piece::Param(SqlData::Integer(if take.force { 1 } else { 0 })),
                Piece::Text(" = TRUE)"@),
                Piece::Text(
                    " RETURNING id, fence, state, summary, detail, data, owner_id, created_at, updated_at"@,
                ),
            ]
            &&& params(p) == seq![SqlData::Text(agent)] + take.id@.map_values(
                |i: i32| SqlData::Integer(i as i64),
            ) + seq![SqlData::Text(agent), SqlData::Integer(if take.force { 1 } else { 0 })]
        }),
{
    let p = take_ticket_pieces(agent, take);
    let head = seq![
        Piece::Text("UPDATE ticket SET"@),
        Piece::Text("  owner_id = "@),
        Piece::Param(SqlData::Text(agent)),
        Piece::Text(", fence = fence + 1"@),
    ];
    let ids = sql_values(take.id@);
    let filter = in_filter("id IN "@, ids);
    let tail = seq![
        Piece::Filter,
        Piece::Text("(owner_id IS NULL OR owner_id = "@),
        Piece::Param(SqlData::Text(agent)),
        Piece::Text(" OR "@),
        Piece::Param(take.force.sql_value()),
        Piece::Text(" = TRUE)"@),
        Piece::Text(returning_ticket()),
    ];
    assert(p =~= head + filter + tail);
    assert(p.skip(p.len() - 7) =~= tail);
    let start = Seq::<Piece>::empty();
    let h1 = start.push(head[0]);
    let h2 = h1.push(head[1]);
    let h3 = h2.push(head[2]);
    let h4 = h3.push(head[3]);
    lemma_push_piece(start, head[0]);
    lemma_push_piece(h1, head[1]);
    lemma_push_piece(h2, head[2]);
    lemma_push_piece(h3, head[3]);
    assert(h4 =~= head);
    assert(params(start) =~= Seq::<SqlData>::empty());
    assert(params(head) =~= seq![SqlData::Text(agent)]);
    let t1 = start.push(tail[0]);
    let t2 = t1.push(tail[1]);
    let t3 = t2.push(tail[2]);
    let t4 = t3.push(tail[3]);
    let t5 = t4.push(tail[4]);
    let t6 = t5.push(tail[5]);
    let t7 = t6.push(tail[6]);
    lemma_push_piece(start, tail[0]);
    lemma_push_piece(t1, tail[1]);
    lemma_push_piece(t2, tail[2]);
    lemma_push_piece(t3, tail[3]);
    lemma_push_piece(t4, tail[4]);
    lemma_push_piece(t5, tail[5]);
    lemma_push_piece(t6, tail[6]);
    assert(t7 =~= tail);
    assert(params(tail) =~= seq![SqlData::Text(agent), take.force.sql_value()]);
    let fhead = seq![Piece::Filter, Piece::Text("id IN "@)];
    lemma_push_piece(start, Piece::Filter);
    lemma_push_piece(start.push(Piece::Filter), Piece::Text("id IN "@));
    assert(fhead =~= start.push(Piece::Filter).push(Piece::Text("id IN "@)));
    assert(params(fhead) =~= Seq::<SqlData>::empty());
    lemma_params_of_list(ids);
    lemma_params_append(fhead, list_pieces(ids));
    assert(filter =~= fhead + list_pieces(ids));
    lemma_params_append(head, filter);
    lemma_params_append(head + filter, tail);
    assert(ids =~= take.id@.map_values(|i: i32| SqlData::Integer(i as i64)));
    assert(params(p) =~= seq![SqlData::Text(agent)] + take.id@.map_values(
        |i: i32| SqlData::Integer(i as i64),
    ) + seq![SqlData::Text(agent), SqlData::Integer(if take.force { 1 } else { 0 })]);
}

/// The text line written for each ticket taken.
pub fn taken_line(agent: &str, take: &TakeTicketOptions) -> (s: String)
    ensures
        s@ == agent@ + " owns ticket "@ + ids_text(take.id@),
{
    let mut s = agent.to_owned();
    s.append(" owns ticket ");
    let ids = format_ids(take.id.as_slice());
    s.append(ids.as_str());
    s
}

/// Whether every named ticket was taken: a command error naming those that
/// were not.
pub fn check_taken(take: &TakeTicketOptions, taken: &[i32]) -> (r: Result<(), Error>)
    ensures
        r is Ok <==> (forall|i: int|
            0 <= i < take.id@.len() ==> taken@.contains(#[trigger] take.id@[i])),
        r is Err ==> (r matches Err(Error::CommandError(m)) && m@ == "error: could not take: "@
            + ids_text(missing_from(take.id@, taken@))),
{
    let missed = missing(take.id.as_slice(), taken);
    let mut ids: Vec<i32> = Vec::new();
    let n = missed.len();
    let mut i: usize = 0;
    while i < n
        invariant
            n == missed@.len(),
            i <= n,
            ids@ == missed@.map_values(|x: &i32| *x).take(i as int),
        decreases n - i,
    {
        ids.push(*missed[i]);
        assert(ids@ =~= missed@.map_values(|x: &i32| *x).take(i + 1));
        i = i + 1;
    }
    assert(ids@ =~= missing_from(take.id@, taken@));
    proof {
        law_nothing_missing(take.id@, taken@);
    }
    if ids.len() > 0 {
        let mut m = "error: could not take: ".to_owned();
        let text = format_ids(ids.as_slice());
        m.append(text.as_str());
        Err(Error::CommandError(m))
    } else {
        Ok(())
    }
}

// --------------------------------------------------------------- abandon

/// The statement `ticket abandon` runs: the agent's tickets (those named,
/// when any are) lose their owner, and their fence advances.
pub open spec fn abandon_ticket_pieces(agent: Seq<char>, abandon: AbandonTicketOptions) -> Seq<
    Piece,
> {
    seq![
        Piece::Text("UPDATE ticket SET"@),
        Piece::Text("  owner_id = NULL"@),
        Piece::Text(", fence = fence + 1"@),
    ] + compare_filter("owner_id = "@, SqlData::Text(agent)) + opt_in_filter("id IN "@, abandon.id)
        + seq![Piece::Text(returning_ticket())]
}

/// The statement `ticket abandon` runs.
pub fn abandon_ticket_query(agent: &str, abandon: &AbandonTicketOptions) -> (q: Query)
    requires
        opt_len(abandon.id) + 8 < usize::MAX,
    ensures
        q.wf(),
        q@ == abandon_ticket_pieces(agent@, *abandon),
{
    let mut q = Query::new();
    q.push("UPDATE ticket SET").push("  owner_id = NULL").push(", fence = fence + 1");
    let ghost head = q@;
    q.push_compare("owner_id = ", agent.to_owned());
    q.push_in_filter("id IN ", &abandon.id);
    let ghost filtered = q@;
    q.push(" RETURNING id, fence, state, summary, detail, data, owner_id, created_at, updated_at");
    proof {
        assert(head =~= seq![
            Piece::Text("UPDATE ticket SET"@),
            Piece::Text("  owner_id = NULL"@),
            Piece::Text(", fence = fence + 1"@),
        ]);
        assert(q@ =~= filtered + seq![Piece::Text(returning_ticket())]);
    }
    q
}

/// The text line written for each ticket abandoned.
pub fn abandoned_line(id: i32) -> (s: String)
    ensures
        s@ == id_text(id) + " is abandoned"@,
{
    let mut s = format_id(id);
    s.append(" is abandoned");
    s
}

} // verus!
