//! Building parameterised SQL statements.
//!
//! A query is modelled by the sequence of pieces it was built from: text,
//! the keyword that opens a filter clause, and parameters with their values.
//! The SQL text and the argument list are both renderings of that sequence:
//! the k-th parameter is written `?k` and binds the k-th argument, and the
//! first filter clause opens with ` WHERE `, every later one with ` AND `.
use vstd::prelude::*;

use crate::clock::Timestamp;
use crate::text::{decimal, decimal_string};

pub mod results;
pub mod clauses;
pub mod scan;

verus! {

/// A value bound to a placeholder of a statement.
#[derive(Clone, Debug, PartialEq)]
pub enum SqlValue {
    Null,
    Integer(i64),
    Text(String),
    Blob(Vec<u8>),
    Time(Timestamp),
}

/// The mathematical content of a bound value.
pub enum SqlData {
    Null,
    Integer(i64),
    Text(Seq<char>),
    Blob(Seq<u8>),
    Time(Timestamp),
}

impl View for SqlValue {
    type V = SqlData;

    open spec fn view(&self) -> SqlData {
        match self {
            SqlValue::Null => SqlData::Null,
            SqlValue::Integer(i) => SqlData::Integer(*i),
            SqlValue::Text(s) => SqlData::Text(s@),
            SqlValue::Blob(b) => SqlData::Blob(b@),
            SqlValue::Time(t) => SqlData::Time(*t),
        }
    }
}

/// The contents of a list of bound values.
pub open spec fn data_of(args: Seq<SqlValue>) -> Seq<SqlData> {
    args.map_values(|v: SqlValue| v@)
}

/// Values that can be bound to a placeholder.
pub trait ToSqlValue {
    /// The content that is bound for `self`.
    spec fn sql_value(&self) -> SqlData;

    fn to_sql_value(&self) -> (v: SqlValue)
        ensures
            v@ == self.sql_value(),
    ;
}

impl ToSqlValue for String {
    open spec fn sql_value(&self) -> SqlData {
        SqlData::Text(self@)
    }

    fn to_sql_value(&self) -> (v: SqlValue) {
        SqlValue::Text(self.clone())
    }
}

impl ToSqlValue for i32 {
    open spec fn sql_value(&self) -> SqlData {
        SqlData::Integer(*self as i64)
    }

    fn to_sql_value(&self) -> (v: SqlValue) {
        SqlValue::Integer(*self as i64)
    }
}

impl ToSqlValue for bool {
    open spec fn sql_value(&self) -> SqlData {
        SqlData::Integer(if *self { 1 } else { 0 })
    }

    fn to_sql_value(&self) -> (v: SqlValue) {
        SqlValue::Integer(if *self { 1 } else { 0 })
    }
}

impl ToSqlValue for Timestamp {
    open spec fn sql_value(&self) -> SqlData {
        SqlData::Time(*self)
    }

    fn to_sql_value(&self) -> (v: SqlValue) {
        SqlValue::Time(*self)
    }
}

impl ToSqlValue for Option<String> {
    open spec fn sql_value(&self) -> SqlData {
        match self {
            Some(s) => SqlData::Text(s@),
            None => SqlData::Null,
        }
    }

    fn to_sql_value(&self) -> (v: SqlValue) {
        match self {
            Some(s) => SqlValue::Text(s.clone()),
            None => SqlValue::Null,
        }
    }
}

impl ToSqlValue for Option<Vec<u8>> {
    open spec fn sql_value(&self) -> SqlData {
        match self {
            Some(b) => SqlData::Blob(b@),
            None => SqlData::Null,
        }
    }

    fn to_sql_value(&self) -> (v: SqlValue) {
        match self {
            Some(b) => {
                let c = b.clone();
                assert(c@ =~= b@);
                SqlValue::Blob(c)
            },
            None => SqlValue::Null,
        }
    }
}

/// A value that is already bound is bound as it is.
impl ToSqlValue for SqlValue {
    open spec fn sql_value(&self) -> SqlData {
        self@
    }

    fn to_sql_value(&self) -> (v: SqlValue) {
        match self {
            SqlValue::Null => SqlValue::Null,
            SqlValue::Integer(i) => SqlValue::Integer(*i),
            SqlValue::Text(s) => SqlValue::Text(s.clone()),
            SqlValue::Blob(b) => {
                let c = b.clone();
                assert(c@ =~= b@);
                SqlValue::Blob(c)
            },
            SqlValue::Time(t) => SqlValue::Time(*t),
        }
    }
}

/// The values bound for the items of a list, in order.
pub open spec fn sql_values<T: ToSqlValue>(list: Seq<T>) -> Seq<SqlData> {
    list.map_values(|x: T| x.sql_value())
}

/// One step in the building of a query.
pub enum Piece {
    /// Literal SQL text.
    Text(Seq<char>),
    /// The keyword that opens a filter clause.
    Filter,
    /// A placeholder bound to a value.
    Param(SqlData),
}

/// The values of the parameters among `pieces`, in order.
pub open spec fn params(pieces: Seq<Piece>) -> Seq<SqlData>
    decreases pieces.len(),
{
    if pieces.len() == 0 {
        Seq::empty()
    } else {
        match pieces.last() {
            Piece::Param(v) => params(pieces.drop_last()).push(v),
            _ => params(pieces.drop_last()),
        }
    }
}

/// The number of filter clauses among `pieces`.
pub open spec fn filter_count(pieces: Seq<Piece>) -> nat
    decreases pieces.len(),
{
    if pieces.len() == 0 {
        0
    } else {
        filter_count(pieces.drop_last()) + (if pieces.last() is Filter {
            1nat
        } else {
            0nat
        })
    }
}

/// The text of one piece, given how many parameters and filter clauses
/// come before it.
pub open spec fn piece_text(p: Piece, params_before: nat, filters_before: nat) -> Seq<char> {
    match p {
        Piece::Text(s) => s,
        Piece::Filter => if filters_before == 0 {
            " WHERE "@
        } else {
            " AND "@
        },
        Piece::Param(_) => seq!['?'] + decimal(params_before + 1),
    }
}

/// The SQL text of a sequence of pieces.
pub open spec fn render(pieces: Seq<Piece>) -> Seq<char>
    decreases pieces.len(),
{
    if pieces.len() == 0 {
        Seq::empty()
    } else {
        let before = pieces.drop_last();
        render(before) + piece_text(pieces.last(), params(before).len(), filter_count(before))
    }
}

/// A list of values bound to comma-separated placeholders.
pub open spec fn joined_params(vals: Seq<SqlData>) -> Seq<Piece>
    decreases vals.len(),
{
    if vals.len() == 0 {
        Seq::empty()
    } else if vals.len() == 1 {
        seq![Piece::Param(vals[0])]
    } else {
        joined_params(vals.drop_last()) + seq![Piece::Text(", "@), Piece::Param(vals.last())]
    }
}

/// A parenthesised list of placeholders bound to `vals`.
pub open spec fn list_pieces(vals: Seq<SqlData>) -> Seq<Piece> {
    seq![Piece::Text("("@)] + joined_params(vals) + seq![Piece::Text(")"@)]
}

/// A filter clause that requires a column to be one of the listed values.
pub open spec fn in_filter(column: Seq<char>, vals: Seq<SqlData>) -> Seq<Piece> {
    seq![Piece::Filter, Piece::Text(column)] + list_pieces(vals)
}

/// A filter clause that compares a column with one value.
pub open spec fn compare_filter(condition: Seq<char>, v: SqlData) -> Seq<Piece> {
    seq![Piece::Filter, Piece::Text(condition), Piece::Param(v)]
}

/// A column set to one value, as in an `UPDATE` statement.
pub open spec fn assign(column: Seq<char>, v: SqlData) -> Seq<Piece> {
    seq![Piece::Text(column), Piece::Param(v)]
}

/// The filter clause of an optional list; nothing when there is no list.
pub open spec fn opt_in_filter<T: ToSqlValue>(column: Seq<char>, list: Option<Vec<T>>) -> Seq<
    Piece,
> {
    match list {
        Some(v) => in_filter(column, sql_values(v@)),
        None => Seq::empty(),
    }
}

/// The comparison with an optional point in time; nothing when there is
/// none.
pub open spec fn opt_time_filter(condition: Seq<char>, t: Option<Timestamp>) -> Seq<Piece> {
    match t {
        Some(t) => compare_filter(condition, SqlData::Time(t)),
        None => Seq::empty(),
    }
}

/// The number of items of an optional list.
pub open spec fn opt_len<T>(list: Option<Vec<T>>) -> nat {
    match list {
        Some(v) => v@.len(),
        None => 0,
    }
}

/// Literal text binds no parameter.
pub proof fn lemma_params_text(t: Seq<char>)
    ensures
        params(seq![Piece::Text(t)]) == Seq::<SqlData>::empty(),
{
    lemma_push_piece(Seq::empty(), Piece::Text(t));
    assert(seq![Piece::Text(t)] =~= Seq::<Piece>::empty().push(Piece::Text(t)));
}

/// Setting a column binds its value.
pub proof fn lemma_params_assign(column: Seq<char>, v: SqlData)
    ensures
        params(assign(column, v)) == seq![v],
{
    let start = Seq::<Piece>::empty();
    lemma_push_piece(start, Piece::Text(column));
    lemma_push_piece(start.push(Piece::Text(column)), Piece::Param(v));
    assert(assign(column, v) =~= start.push(Piece::Text(column)).push(Piece::Param(v)));
    assert(params(start) =~= Seq::<SqlData>::empty());
    assert(params(assign(column, v)) =~= seq![v]);
}

/// A comparison binds the value compared with.
pub proof fn lemma_params_compare(condition: Seq<char>, v: SqlData)
    ensures
        params(compare_filter(condition, v)) == seq![v],
{
    let start = Seq::<Piece>::empty();
    lemma_push_piece(start, Piece::Filter);
    lemma_push_piece(start.push(Piece::Filter), Piece::Text(condition));
    lemma_push_piece(start.push(Piece::Filter).push(Piece::Text(condition)), Piece::Param(v));
    assert(compare_filter(condition, v) =~= start.push(Piece::Filter).push(Piece::Text(condition)).push(
        Piece::Param(v),
    ));
    assert(params(start) =~= Seq::<SqlData>::empty());
    assert(params(compare_filter(condition, v)) =~= seq![v]);
}

/// The filter clauses of a concatenation are those of each part.
pub proof fn lemma_filter_count_append(a: Seq<Piece>, b: Seq<Piece>)
    ensures
        filter_count(a + b) == filter_count(a) + filter_count(b),
    decreases b.len(),
{
    if b.len() == 0 {
        assert(a + b =~= a);
    } else {
        lemma_filter_count_append(a, b.drop_last());
        assert((a + b).drop_last() =~= a + b.drop_last());
        assert((a + b).last() == b.last());
    }
}

proof fn lemma_joined_no_filter(vals: Seq<SqlData>)
    ensures
        filter_count(joined_params(vals)) == 0,
    decreases vals.len(),
{
    if vals.len() == 0 {
    } else if vals.len() == 1 {
        let one = seq![Piece::Param(vals[0])];
        assert(one.drop_last() =~= Seq::<Piece>::empty());
        assert(one.last() == Piece::Param(vals[0]));
        assert(filter_count(one.drop_last()) == 0);
        assert(filter_count(one) == 0);
    } else {
        lemma_joined_no_filter(vals.drop_last());
        let tail = seq![Piece::Text(", "@), Piece::Param(vals.last())];
        lemma_filter_count_append(joined_params(vals.drop_last()), tail);
        assert(tail.drop_last() =~= seq![Piece::Text(", "@)]);
        assert(tail.drop_last().drop_last() =~= Seq::<Piece>::empty());
        assert(tail.last() == Piece::Param(vals.last()));
        assert(tail.drop_last().last() == Piece::Text(", "@));
        assert(filter_count(tail.drop_last().drop_last()) == 0);
        assert(filter_count(tail.drop_last()) == 0);
        assert(filter_count(tail) == 0);
    }
}

/// A placeholder list opens no filter clause.
pub proof fn lemma_list_no_filter(vals: Seq<SqlData>)
    ensures
        filter_count(list_pieces(vals)) == 0,
{
    lemma_joined_no_filter(vals);
    let open = seq![Piece::Text("("@)];
    let close = seq![Piece::Text(")"@)];
    lemma_filter_count_append(open, joined_params(vals));
    lemma_filter_count_append(open + joined_params(vals), close);
    assert(open.drop_last() =~= Seq::<Piece>::empty());
    assert(close.drop_last() =~= Seq::<Piece>::empty());
    assert(open.last() == Piece::Text("("@));
    assert(close.last() == Piece::Text(")"@));
    assert(filter_count(open.drop_last()) == 0);
    assert(filter_count(close.drop_last()) == 0);
    assert(filter_count(open) == 0);
    assert(filter_count(close) == 0);
}

/// Appending one piece renders its text after the rest and adds its
/// parameter or filter clause, if any.
pub proof fn lemma_push_piece(pieces: Seq<Piece>, p: Piece)
    ensures
        render(pieces.push(p)) == render(pieces) + piece_text(
            p,
            params(pieces).len(),
            filter_count(pieces),
        ),
        params(pieces.push(p)) == (match p {
            Piece::Param(v) => params(pieces).push(v),
            _ => params(pieces),
        }),
        filter_count(pieces.push(p)) == filter_count(pieces) + (if p is Filter {
            1nat
        } else {
            0nat
        }),
{
    assert(pieces.push(p).drop_last() =~= pieces);
}

/// A SQL statement under construction, with the values of its placeholders.
pub struct Query {
    pub sql: String,
    pub args: Vec<SqlValue>,
    /// How many filter clauses have been opened.
    pub n_where: usize,
    /// The pieces the statement was built from.
    pub pieces: Ghost<Seq<Piece>>,
}

impl View for Query {
    type V = Seq<Piece>;

    open spec fn view(&self) -> Seq<Piece> {
        self.pieces@
    }
}

impl Query {
    /// The text and the arguments are the renderings of the pieces the
    /// query was built from.
    pub open spec fn wf(&self) -> bool {
        &&& self.sql@ == render(self.pieces@)
        &&& data_of(self.args@) == params(self.pieces@)
        &&& self.n_where == filter_count(self.pieces@)
    }

    /// An empty statement.
    pub fn new() -> (q: Self)
        ensures
            q.wf(),
            q@ == Seq::<Piece>::empty(),
            q.sql@ == Seq::<char>::empty(),
            q.args@ == Seq::<SqlValue>::empty(),
    {
        assert(data_of(Seq::<SqlValue>::empty()) =~= Seq::<SqlData>::empty());
        Query { sql: String::new(), args: Vec::new(), n_where: 0, pieces: Ghost(Seq::empty()) }
    }

    /// Appends literal SQL text.
    pub fn push(&mut self, query: &str) -> (r: &mut Self)
        requires
            old(self).wf(),
        ensures
            r.wf(),
            r@ == old(self)@.push(Piece::Text(query@)),
            r.sql@ == old(self).sql@ + query@,
            r.args@ == old(self).args@,
            filter_count(r@) == filter_count(old(self)@),
            *final(self) == *final(r),
    {
        proof {
            lemma_push_piece(self@, Piece::Text(query@));
        }
        self.sql.append(query);
        self.pieces = Ghost(self.pieces@.push(Piece::Text(query@)));
        self
    }

    fn push_filter_keyword(&mut self)
        requires
            old(self).wf(),
            filter_count(old(self)@) < usize::MAX,
        ensures
            final(self).wf(),
            final(self)@ == old(self)@.push(Piece::Filter),
            final(self).sql@ == old(self).sql@ + (if filter_count(old(self)@) == 0 {
                " WHERE "@
            } else {
                " AND "@
            }),
            final(self).args@ == old(self).args@,
            filter_count(final(self)@) == filter_count(old(self)@) + 1,
    {
        proof {
            lemma_push_piece(self@, Piece::Filter);
        }
        if self.n_where == 0 {
            self.sql.append(" WHERE ");
        } else {
            self.sql.append(" AND ");
        }
        self.n_where = self.n_where + 1;
        self.pieces = Ghost(self.pieces@.push(Piece::Filter));
    }

    /// Opens a filter clause (` WHERE ` for the first, ` AND ` after it)
    /// and appends `tail` to it.
    pub fn push_where(&mut self, tail: &str) -> (r: &mut Self)
        requires
            old(self).wf(),
            filter_count(old(self)@) < usize::MAX,
        ensures
            r.wf(),
            r@ == old(self)@.push(Piece::Filter).push(Piece::Text(tail@)),
            r.sql@ == old(self).sql@ + (if filter_count(old(self)@) == 0 {
                " WHERE "@
            } else {
                " AND "@
            }) + tail@,
            r.args@ == old(self).args@,
            filter_count(r@) == filter_count(old(self)@) + 1,
            *final(self) == *final(r),
    {
        self.push_filter_keyword();
        self.push(tail)
    }

    fn push_param(&mut self, v: SqlValue)
        requires
            old(self).wf(),
            old(self).args@.len() < usize::MAX,
        ensures
            final(self).wf(),
            final(self)@ == old(self)@.push(Piece::Param(v@)),
            final(self).sql@ == old(self).sql@ + seq!['?'] + decimal(
                (old(self).args@.len() + 1) as nat,
            ),
            final(self).args@ == old(self).args@.push(v),
            filter_count(final(self)@) == filter_count(old(self)@),
    {
        proof {
            lemma_push_piece(self@, Piece::Param(v@));
            reveal_strlit("?");
            assert("?"@ =~= seq!['?']);
            assert(data_of(self.args@.push(v)) =~= data_of(self.args@).push(v@));
        }
        let n: u64 = (self.args.len() as u64) + 1;
        let num = decimal_string(n);
        self.sql.append("?");
        self.sql.append(num.as_str());
        self.args.push(v);
        self.pieces = Ghost(self.pieces@.push(Piece::Param(v@)));
        assert(self.sql@ =~= render(self.pieces@));
    }

    /// Appends a placeholder numbered after the arguments so far and binds
    /// `arg` to it.
    pub fn push_var<T: ToSqlValue>(&mut self, arg: T) -> (r: &mut Self)
        requires
            old(self).wf(),
            old(self).args@.len() < usize::MAX,
        ensures
            r.wf(),
            r@ == old(self)@.push(Piece::Param(arg.sql_value())),
            r.sql@ == old(self).sql@ + seq!['?'] + decimal((old(self).args@.len() + 1) as nat),
            r.args@.len() == old(self).args@.len() + 1,
            r.args@.drop_last() == old(self).args@,
            r.args@.last()@ == arg.sql_value(),
            filter_count(r@) == filter_count(old(self)@),
            *final(self) == *final(r),
    {
        let v = arg.to_sql_value();
        self.push_param(v);
        proof {
            assert(self.args@.drop_last() =~= old(self).args@);
        }
        self
    }

    /// Appends a parenthesised, comma-separated list of placeholders bound
    /// to the items of `list`.
    pub fn push_list<T: ToSqlValue>(&mut self, list: &[T]) -> (r: &mut Self)
        requires
            old(self).wf(),
            old(self).args@.len() + list@.len() < usize::MAX,
        ensures
            r.wf(),
            r@ == old(self)@ + list_pieces(sql_values(list@)),
            r.args@.len() == old(self).args@.len() + list@.len(),
            r.args@.take(old(self).args@.len() as int) == old(self).args@,
            data_of(r.args@) == data_of(old(self).args@) + sql_values(list@),
            filter_count(r@) == filter_count(old(self)@),
            *final(self) == *final(r),
    {
        let ghost start = self@;
        let ghost start_args = self.args@;
        let ghost vals = sql_values(list@);
        self.push("(");
        let n = list.len();
        let mut i: usize = 0;
        while i < n
            invariant
                n == list@.len(),
                i <= n,
                vals == sql_values(list@),
                self.wf(),
                self@ == start.push(Piece::Text("("@)) + joined_params(vals.take(i as int)),
                self.args@.len() == start_args.len() + i,
                self.args@.take(start_args.len() as int) == start_args,
                start_args.len() + n < usize::MAX,
            decreases n - i,
        {
            if i > 0 {
                self.push(", ");
            }
            let v = list[i].to_sql_value();
            let ghost before_args = self.args@;
            self.push_param(v);
            proof {
                let taken = vals.take(i + 1);
                assert(taken.drop_last() =~= vals.take(i as int));
                assert(taken.last() == vals[i as int]);
                assert(v@ == vals[i as int]);
                if i == 0 {
                    assert(vals.take(0) =~= Seq::<SqlData>::empty());
                    assert(joined_params(taken) =~= seq![Piece::Param(vals[0])]);
                }
                assert(self@ =~= start.push(Piece::Text("("@)) + joined_params(taken));
                assert(self.args@.take(start_args.len() as int) =~= before_args.take(
                    start_args.len() as int,
                ));
            }
            i = i + 1;
        }
        self.push(")");
        proof {
            assert(vals.take(n as int) =~= vals);
            assert(self@ =~= start + list_pieces(vals));
            lemma_params_append(start, list_pieces(vals));
            lemma_params_of_list(vals);
            lemma_filter_count_append(start, list_pieces(vals));
            lemma_list_no_filter(vals);
        }
        self
    }

    /// Appends the filter clause of an optional list.
    pub fn push_in_filter<T: ToSqlValue>(&mut self, column: &str, list: &Option<Vec<T>>)
        requires
            old(self).wf(),
            filter_count(old(self)@) + 1 < usize::MAX,
            old(self).args@.len() + opt_len(*list) < usize::MAX,
        ensures
            final(self).wf(),
            final(self)@ == old(self)@ + opt_in_filter(column@, *list),
            final(self).args@.len() == old(self).args@.len() + opt_len(*list),
            filter_count(final(self)@) == filter_count(old(self)@) + (if list is Some {
                1nat
            } else {
                0nat
            }),
    {
        let ghost start = self@;
        match list {
            Some(v) => {
                self.push_where(column).push_list(v.as_slice());
                assert(self@ =~= start + in_filter(column@, sql_values(v@)));
            },
            None => {
                assert(self@ =~= start + Seq::<Piece>::empty());
            },
        }
    }

    /// Opens a filter clause that compares a column with one value.
    pub fn push_compare<T: ToSqlValue>(&mut self, condition: &str, v: T)
        requires
            old(self).wf(),
            filter_count(old(self)@) + 1 < usize::MAX,
            old(self).args@.len() + 1 < usize::MAX,
        ensures
            final(self).wf(),
            final(self)@ == old(self)@ + compare_filter(condition@, v.sql_value()),
            final(self).args@.len() == old(self).args@.len() + 1,
            filter_count(final(self)@) == filter_count(old(self)@) + 1,
    {
        let ghost start = self@;
        let ghost d = v.sql_value();
        self.push_where(condition).push_var(v);
        assert(self@ =~= start + compare_filter(condition@, d));
    }

    /// Appends the comparison of a column with an optional point in time.
    pub fn push_time_filter(&mut self, condition: &str, t: &Option<Timestamp>)
        requires
            old(self).wf(),
            filter_count(old(self)@) + 1 < usize::MAX,
            old(self).args@.len() + 1 < usize::MAX,
        ensures
            final(self).wf(),
            final(self)@ == old(self)@ + opt_time_filter(condition@, *t),
            final(self).args@.len() == old(self).args@.len() + (if t is Some {
                1nat
            } else {
                0nat
            }),
            filter_count(final(self)@) == filter_count(old(self)@) + (if t is Some {
                1nat
            } else {
                0nat
            }),
    {
        let ghost start = self@;
        match t {
            Some(v) => {
                self.push_compare(condition, *v);
            },
            None => {
                assert(self@ =~= start + Seq::<Piece>::empty());
            },
        }
    }

    /// The SQL text of the statement.
    pub fn text(&self) -> (s: String)
        ensures
            s@ == self.sql@,
    {
        self.sql.clone()
    }
}

/// The parameters of a concatenation are those of each part.
pub proof fn lemma_params_append(a: Seq<Piece>, b: Seq<Piece>)
    ensures
        params(a + b) == params(a) + params(b),
    decreases b.len(),
{
    if b.len() == 0 {
        assert(a + b =~= a);
        assert(params(b) =~= Seq::<SqlData>::empty());
        assert(params(a) + params(b) =~= params(a));
    } else {
        lemma_params_append(a, b.drop_last());
        assert((a + b).drop_last() =~= a + b.drop_last());
        assert((a + b).last() == b.last());
        match b.last() {
            Piece::Param(v) => {
                assert(params(a) + params(b.drop_last()).push(v) =~= (params(a) + params(
                    b.drop_last(),
                )).push(v));
            },
            _ => {},
        }
    }
}

/// The parameters of a placeholder list are the listed values.
pub proof fn lemma_params_of_list(vals: Seq<SqlData>)
    ensures
        params(list_pieces(vals)) == vals,
{
    lemma_params_joined(vals);
    let open = seq![Piece::Text("("@)];
    let close = seq![Piece::Text(")"@)];
    lemma_params_append(open, joined_params(vals));
    lemma_params_append(open + joined_params(vals), close);
    assert(open.drop_last() =~= Seq::<Piece>::empty());
    assert(close.drop_last() =~= Seq::<Piece>::empty());
    assert(open.last() == Piece::Text("("@));
    assert(close.last() == Piece::Text(")"@));
    assert(params(open.drop_last()) =~= Seq::<SqlData>::empty());
    assert(params(close.drop_last()) =~= Seq::<SqlData>::empty());
    assert(params(open) =~= Seq::<SqlData>::empty());
    assert(params(close) =~= Seq::<SqlData>::empty());
    assert(params(list_pieces(vals)) =~= vals);
}

proof fn lemma_params_joined(vals: Seq<SqlData>)
    ensures
        params(joined_params(vals)) == vals,
    decreases vals.len(),
{
    if vals.len() == 0 {
    } else if vals.len() == 1 {
        let one = seq![Piece::Param(vals[0])];
        assert(one.drop_last() =~= Seq::<Piece>::empty());
        assert(one.last() == Piece::Param(vals[0]));
        assert(params(one.drop_last()) =~= Seq::<SqlData>::empty());
        assert(params(one) =~= seq![vals[0]]);
        assert(vals =~= seq![vals[0]]);
    } else {
        lemma_params_joined(vals.drop_last());
        let tail = seq![Piece::Text(", "@), Piece::Param(vals.last())];
        lemma_params_append(joined_params(vals.drop_last()), tail);
        assert(tail.drop_last() =~= seq![Piece::Text(", "@)]);
        assert(tail.drop_last().drop_last() =~= Seq::<Piece>::empty());
        assert(tail.last() == Piece::Param(vals.last()));
        assert(tail.drop_last().last() == Piece::Text(", "@));
        assert(params(tail.drop_last().drop_last()) =~= Seq::<SqlData>::empty());
        assert(params(tail.drop_last()) =~= Seq::<SqlData>::empty());
        assert(params(tail) =~= seq![vals.last()]);
        assert(vals.drop_last() + seq![vals.last()] =~= vals);
    }
}

/// In a statement built from pieces, the placeholder of the `j`-th piece is
/// numbered by its position among the parameters and binds the argument at
/// that position; a filter piece opens with ` WHERE ` when no filter comes
/// before it and with ` AND ` otherwise.
pub proof fn law_pieces_render(pieces: Seq<Piece>, j: int)
    requires
        0 <= j < pieces.len(),
    ensures
        ({
            let before = pieces.take(j);
            let k = params(before).len();
            match pieces[j] {
                Piece::Param(v) => {
                    &&& render(pieces.take(j + 1)) == render(before) + seq!['?'] + decimal(k + 1)
                    &&& k < params(pieces).len()
                    &&& params(pieces)[k as int] == v
                },
                Piece::Filter => render(pieces.take(j + 1)) == render(before) + (if filter_count(
                    before,
                ) == 0 {
                    " WHERE "@
                } else {
                    " AND "@
                }),
                Piece::Text(t) => render(pieces.take(j + 1)) == render(before) + t,
            }
        }),
{
    let before = pieces.take(j);
    let upto = pieces.take(j + 1);
    assert(upto.drop_last() =~= before);
    assert(upto.last() == pieces[j]);
    assert(pieces =~= upto + pieces.skip(j + 1));
    lemma_params_append(upto, pieces.skip(j + 1));
    match pieces[j] {
        Piece::Param(v) => {
            assert(params(upto) == params(before).push(v));
            assert(params(pieces)[params(before).len() as int] == params(upto)[params(before).len() as int]);
        },
        _ => {},
    }
}

/// How often a character occurs in a text.
pub open spec fn occurrences(s: Seq<char>, c: char) -> nat
    decreases s.len(),
{
    if s.len() == 0 {
        0
    } else {
        occurrences(s.drop_last(), c) + (if s.last() == c {
            1nat
        } else {
            0nat
        })
    }
}

proof fn lemma_occurrences_append(a: Seq<char>, b: Seq<char>, c: char)
    ensures
        occurrences(a + b, c) == occurrences(a, c) + occurrences(b, c),
    decreases b.len(),
{
    if b.len() == 0 {
        assert(a + b =~= a);
    } else {
        lemma_occurrences_append(a, b.drop_last(), c);
        assert((a + b).drop_last() =~= a + b.drop_last());
        assert((a + b).last() == b.last());
    }
}

proof fn lemma_occurrences_absent(s: Seq<char>, c: char)
    requires
        forall|i: int| 0 <= i < s.len() ==> s[i] != c,
    ensures
        occurrences(s, c) == 0,
    decreases s.len(),
{
    if s.len() > 0 {
        assert forall|i: int| 0 <= i < s.drop_last().len() implies s.drop_last()[i] != c by {
            assert(s.drop_last()[i] == s[i]);
        }
        lemma_occurrences_absent(s.drop_last(), c);
        assert(s.last() == s[s.len() - 1]);
    }
}

proof fn lemma_decimal_digits(n: nat)
    ensures
        forall|i: int| 0 <= i < decimal(n).len() ==> '0' <= #[trigger] decimal(n)[i] <= '9',
    decreases n,
{
    if n >= 10 {
        lemma_decimal_digits(n / 10);
        assert forall|i: int| 0 <= i < decimal(n).len() implies '0' <= #[trigger] decimal(n)[i]
            <= '9' by {
            if i < decimal(n / 10).len() {
                assert(decimal(n)[i] == decimal(n / 10)[i]);
            }
        }
    }
}

/// When no literal text of a statement holds a `?`, its text holds exactly
/// one `?` per argument: every `?` is a placeholder.
pub proof fn law_placeholder_count(pieces: Seq<Piece>)
    requires
        forall|j: int|
            0 <= j < pieces.len() ==> (#[trigger] pieces[j] matches Piece::Text(t) ==> forall|i: int|
                0 <= i < t.len() ==> t[i] != '?'),
    ensures
        occurrences(render(pieces), '?') == params(pieces).len(),
    decreases pieces.len(),
{
    if pieces.len() > 0 {
        let before = pieces.drop_last();
        assert forall|j: int| 0 <= j < before.len() implies (#[trigger] before[j] matches Piece::Text(t)
            ==> forall|i: int| 0 <= i < t.len() ==> t[i] != '?') by {
            assert(before[j] == pieces[j]);
        }
        law_placeholder_count(before);
        let last = pieces.last();
        assert(last == pieces[pieces.len() - 1]);
        let text = piece_text(last, params(before).len(), filter_count(before));
        lemma_occurrences_append(render(before), text, '?');
        match last {
            Piece::Text(t) => {
                lemma_occurrences_absent(t, '?');
            },
            Piece::Filter => {
                reveal_strlit(" WHERE ");
                reveal_strlit(" AND ");
                lemma_occurrences_absent(text, '?');
            },
            Piece::Param(v) => {
                let digits = decimal(params(before).len() + 1);
                lemma_decimal_digits(params(before).len() + 1);
                lemma_occurrences_absent(digits, '?');
                lemma_occurrences_append(seq!['?'], digits, '?');
                let q = seq!['?'];
                assert(q.drop_last() =~= Seq::<char>::empty());
                assert(occurrences(q.drop_last(), '?') == 0);
                assert(q.last() == '?');
                assert(occurrences(q, '?') == 1);
            },
        }
    }
}

} // verus!
