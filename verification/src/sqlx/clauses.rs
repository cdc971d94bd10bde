//! What a statement holds, read off the pieces it was built from: which
//! comparisons filter it and which literal texts it writes.
use vstd::prelude::*;

use crate::clock::Timestamp;
use crate::sqlx::{
    compare_filter, filter_count, in_filter, joined_params, lemma_filter_count_append,
    lemma_params_append, lemma_params_compare, lemma_params_of_list,
    lemma_list_no_filter, lemma_push_piece, list_pieces, opt_in_filter, opt_time_filter,
    sql_values, params, render, Piece, SqlData, ToSqlValue,
};

verus! {

/// The statement holds the filter clause that compares by `cond` with a
/// placeholder bound to `v`.
pub open spec fn has_comparison(pieces: Seq<Piece>, cond: Seq<char>, v: SqlData) -> bool {
    exists|j: int|
        0 <= j && j + 2 < pieces.len() && #[trigger] pieces[j] == Piece::Filter && pieces[j + 1]
            == Piece::Text(cond) && pieces[j + 2] == Piece::Param(v)
}

/// Some piece of the statement is the literal text `t`.
pub open spec fn mentions(pieces: Seq<Piece>, t: Seq<char>) -> bool {
    exists|j: int| 0 <= j < pieces.len() && #[trigger] pieces[j] == Piece::Text(t)
}

/// One when an optional value is given, zero when it is not.
pub open spec fn given<T>(o: Option<T>) -> nat {
    if o is Some {
        1
    } else {
        0
    }
}

/// A comparison placed anywhere in a statement is one of its clauses.
pub proof fn lemma_comparison_within(a: Seq<Piece>, cond: Seq<char>, v: SqlData, b: Seq<Piece>)
    ensures
        has_comparison(a + compare_filter(cond, v) + b, cond, v),
{
    let s = a + compare_filter(cond, v) + b;
    let j = a.len() as int;
    assert(s[j] == Piece::Filter);
    assert(s[j + 1] == Piece::Text(cond));
    assert(s[j + 2] == Piece::Param(v));
}

/// A concatenation writes a text exactly when one of its parts does.
pub proof fn lemma_mentions_append(a: Seq<Piece>, b: Seq<Piece>, t: Seq<char>)
    ensures
        mentions(a + b, t) <==> (mentions(a, t) || mentions(b, t)),
{
    let s = a + b;
    if mentions(s, t) {
        let j = choose|j: int| 0 <= j < s.len() && #[trigger] s[j] == Piece::Text(t);
        if j < a.len() {
            assert(a[j] == s[j]);
        } else {
            assert(b[j - a.len()] == s[j]);
        }
    }
    if mentions(a, t) {
        let j = choose|j: int| 0 <= j < a.len() && #[trigger] a[j] == Piece::Text(t);
        assert(s[j] == a[j]);
    }
    if mentions(b, t) {
        let j = choose|j: int| 0 <= j < b.len() && #[trigger] b[j] == Piece::Text(t);
        assert(s[j + a.len()] == b[j]);
    }
}

proof fn lemma_joined_mentions(vals: Seq<SqlData>, t: Seq<char>)
    requires
        t != ", "@,
    ensures
        !mentions(joined_params(vals), t),
    decreases vals.len(),
{
    if vals.len() == 1 {
        let one = seq![Piece::Param(vals[0])];
        assert(!mentions(one, t)) by {
            if mentions(one, t) {
                let j = choose|j: int| 0 <= j < one.len() && #[trigger] one[j] == Piece::Text(t);
                assert(one[j] == Piece::Param(vals[0]));
            }
        }
    } else if vals.len() > 1 {
        lemma_joined_mentions(vals.drop_last(), t);
        let tail = seq![Piece::Text(", "@), Piece::Param(vals.last())];
        lemma_mentions_append(joined_params(vals.drop_last()), tail, t);
        assert(!mentions(tail, t)) by {
            if mentions(tail, t) {
                let j = choose|j: int| 0 <= j < tail.len() && #[trigger] tail[j] == Piece::Text(t);
                if j == 0 {
                    assert(tail[0] == Piece::Text(", "@));
                } else {
                    assert(tail[1] == Piece::Param(vals.last()));
                }
            }
        }
    }
}

/// The texts a one-value comparison writes: its condition only.
pub proof fn lemma_compare_mentions(cond: Seq<char>, v: SqlData, t: Seq<char>)
    requires
        t != cond,
    ensures
        !mentions(compare_filter(cond, v), t),
{
    let s = compare_filter(cond, v);
    if mentions(s, t) {
        let j = choose|j: int| 0 <= j < s.len() && #[trigger] s[j] == Piece::Text(t);
        assert(s[0] == Piece::Filter);
        assert(s[1] == Piece::Text(cond));
        assert(s[2] == Piece::Param(v));
    }
}

/// The texts a list filter writes: its column, the brackets and the commas.
pub proof fn lemma_in_filter_mentions(column: Seq<char>, vals: Seq<SqlData>, t: Seq<char>)
    requires
        t != column,
        t != "("@,
        t != ")"@,
        t != ", "@,
    ensures
        !mentions(in_filter(column, vals), t),
{
    let head = seq![Piece::Filter, Piece::Text(column)];
    let open = seq![Piece::Text("("@)];
    let close = seq![Piece::Text(")"@)];
    lemma_joined_mentions(vals, t);
    assert(in_filter(column, vals) =~= head + (open + joined_params(vals) + close));
    lemma_mentions_append(open, joined_params(vals), t);
    lemma_mentions_append(open + joined_params(vals), close, t);
    lemma_mentions_append(head, open + joined_params(vals) + close, t);
    assert(!mentions(head, t)) by {
        if mentions(head, t) {
            let j = choose|j: int| 0 <= j < head.len() && #[trigger] head[j] == Piece::Text(t);
            assert(head[0] == Piece::Filter);
            assert(head[1] == Piece::Text(column));
        }
    }
    assert(!mentions(open, t)) by {
        if mentions(open, t) {
            let j = choose|j: int| 0 <= j < open.len() && #[trigger] open[j] == Piece::Text(t);
            assert(open[0] == Piece::Text("("@));
        }
    }
    assert(!mentions(close, t)) by {
        if mentions(close, t) {
            let j = choose|j: int| 0 <= j < close.len() && #[trigger] close[j] == Piece::Text(t);
            assert(close[0] == Piece::Text(")"@));
        }
    }
}

/// A single literal text writes only itself.
pub proof fn lemma_text_mentions(s: Seq<char>, t: Seq<char>)
    requires
        t != s,
    ensures
        !mentions(seq![Piece::Text(s)], t),
{
    let one = seq![Piece::Text(s)];
    if mentions(one, t) {
        let j = choose|j: int| 0 <= j < one.len() && #[trigger] one[j] == Piece::Text(t);
        assert(one[0] == Piece::Text(s));
    }
}

/// A one-value comparison opens one filter clause.
pub proof fn lemma_compare_filter_count(cond: Seq<char>, v: SqlData)
    ensures
        filter_count(compare_filter(cond, v)) == 1,
{
    let start = Seq::<Piece>::empty();
    lemma_push_piece(start, Piece::Filter);
    lemma_push_piece(start.push(Piece::Filter), Piece::Text(cond));
    lemma_push_piece(start.push(Piece::Filter).push(Piece::Text(cond)), Piece::Param(v));
    assert(compare_filter(cond, v) =~= start.push(Piece::Filter).push(Piece::Text(cond)).push(
        Piece::Param(v),
    ));
}

/// A list filter opens one filter clause.
pub proof fn lemma_in_filter_count(column: Seq<char>, vals: Seq<SqlData>)
    ensures
        filter_count(in_filter(column, vals)) == 1,
{
    let start = Seq::<Piece>::empty();
    let head = start.push(Piece::Filter).push(Piece::Text(column));
    lemma_push_piece(start, Piece::Filter);
    lemma_push_piece(start.push(Piece::Filter), Piece::Text(column));
    assert(seq![Piece::Filter, Piece::Text(column)] =~= head);
    lemma_list_no_filter(vals);
    lemma_filter_count_append(head, list_pieces(vals));
}

/// Literal text opens no filter clause.
pub proof fn lemma_text_filter_count(s: Seq<char>)
    ensures
        filter_count(seq![Piece::Text(s)]) == 0,
{
    lemma_push_piece(Seq::empty(), Piece::Text(s));
    assert(seq![Piece::Text(s)] =~= Seq::<Piece>::empty().push(Piece::Text(s)));
}


/// The statement made of several parts, one after another.
pub open spec fn concat(parts: Seq<Seq<Piece>>) -> Seq<Piece>
    decreases parts.len(),
{
    if parts.len() == 0 {
        Seq::empty()
    } else {
        concat(parts.drop_last()) + parts.last()
    }
}

/// The number of filter clauses each of several parts opens, added up.
pub open spec fn filters_of(parts: Seq<Seq<Piece>>) -> nat
    decreases parts.len(),
{
    if parts.len() == 0 {
        0
    } else {
        filters_of(parts.drop_last()) + filter_count(parts.last())
    }
}

/// An optional time bound as a filter: when it is given, the statement
/// compares by `cond` with a placeholder bound to it; when it is not, the
/// statement writes no `cond` at all.
pub open spec fn bound_filter(pieces: Seq<Piece>, cond: Seq<char>, t: Option<Timestamp>) -> bool {
    match t {
        Some(t) => has_comparison(pieces, cond, SqlData::Time(t)),
        None => !mentions(pieces, cond),
    }
}

/// Joining two runs of parts joins their statements.
pub proof fn lemma_concat_append(a: Seq<Seq<Piece>>, b: Seq<Seq<Piece>>)
    ensures
        concat(a + b) == concat(a) + concat(b),
    decreases b.len(),
{
    if b.len() == 0 {
        assert(a + b =~= a);
        assert(concat(a) + Seq::<Piece>::empty() =~= concat(a));
    } else {
        lemma_concat_append(a, b.drop_last());
        assert((a + b).drop_last() =~= a + b.drop_last());
        assert((a + b).last() == b.last());
        assert(concat(a) + concat(b.drop_last()) + b.last() =~= concat(a) + (concat(b.drop_last())
            + b.last()));
    }
}

/// A statement writes a text only when one of its parts does.
pub proof fn lemma_concat_mentions(parts: Seq<Seq<Piece>>, t: Seq<char>)
    requires
        forall|i: int| 0 <= i < parts.len() ==> !mentions(#[trigger] parts[i], t),
    ensures
        !mentions(concat(parts), t),
    decreases parts.len(),
{
    if parts.len() > 0 {
        assert forall|i: int| 0 <= i < parts.drop_last().len() implies !mentions(
            #[trigger] parts.drop_last()[i],
            t,
        ) by {
            assert(parts.drop_last()[i] == parts[i]);
        }
        lemma_concat_mentions(parts.drop_last(), t);
        assert(!mentions(parts[parts.len() - 1], t));
        lemma_mentions_append(concat(parts.drop_last()), parts.last(), t);
    }
}

/// A comparison that is one of the parts is a clause of the statement.
pub proof fn lemma_concat_comparison(parts: Seq<Seq<Piece>>, i: int, cond: Seq<char>, v: SqlData)
    requires
        0 <= i < parts.len(),
        parts[i] == compare_filter(cond, v),
    ensures
        has_comparison(concat(parts), cond, v),
{
    assert(parts[i] =~= Seq::<Piece>::empty() + compare_filter(cond, v) + Seq::<Piece>::empty());
    lemma_concat_comparison_within(parts, i, Seq::empty(), cond, v, Seq::empty());
}

/// A comparison inside one of the parts is a clause of the statement.
pub proof fn lemma_concat_comparison_within(
    parts: Seq<Seq<Piece>>,
    i: int,
    x: Seq<Piece>,
    cond: Seq<char>,
    v: SqlData,
    y: Seq<Piece>,
)
    requires
        0 <= i < parts.len(),
        parts[i] == x + compare_filter(cond, v) + y,
    ensures
        has_comparison(concat(parts), cond, v),
{
    let before = parts.take(i);
    let after = parts.skip(i + 1);
    assert(parts =~= before + seq![parts[i]] + after);
    lemma_concat_append(before + seq![parts[i]], after);
    lemma_concat_append(before, seq![parts[i]]);
    let one = seq![parts[i]];
    assert(one.drop_last() =~= Seq::<Seq<Piece>>::empty());
    assert(one.last() == parts[i]);
    assert(concat(one.drop_last()) == Seq::<Piece>::empty());
    assert(concat(one) == concat(one.drop_last()) + one.last());
    assert(concat(one) =~= parts[i]);
    assert(concat(parts) =~= (concat(before) + x) + compare_filter(cond, v) + (y + concat(after)));
    lemma_comparison_within(concat(before) + x, cond, v, y + concat(after));
}

/// The filter clauses of a statement are those of its parts.
pub proof fn lemma_concat_filters(parts: Seq<Seq<Piece>>)
    ensures
        filter_count(concat(parts)) == filters_of(parts),
    decreases parts.len(),
{
    if parts.len() > 0 {
        lemma_concat_filters(parts.drop_last());
        lemma_filter_count_append(concat(parts.drop_last()), parts.last());
    } else {
        assert(filter_count(Seq::<Piece>::empty()) == 0);
    }
}

/// The comparison with an optional time: one filter clause when it is
/// given, none otherwise; and it writes no text but its condition.
pub proof fn lemma_opt_time_filter(cond: Seq<char>, t: Option<Timestamp>, other: Seq<char>)
    ensures
        filter_count(opt_time_filter(cond, t)) == given(t),
        other != cond ==> !mentions(opt_time_filter(cond, t), other),
        t matches Some(x) ==> opt_time_filter(cond, t) == compare_filter(cond, SqlData::Time(x)),
{
    match t {
        Some(x) => {
            lemma_compare_filter_count(cond, SqlData::Time(x));
            if other != cond {
                lemma_compare_mentions(cond, SqlData::Time(x), other);
            }
        },
        None => {
            assert(filter_count(Seq::<Piece>::empty()) == 0);
        },
    }
}

/// The list filter of an optional list: one filter clause when it is given,
/// none otherwise; and it writes no text but its column, brackets and commas.
pub proof fn lemma_opt_in_filter<T: ToSqlValue>(column: Seq<char>, list: Option<Vec<T>>, other: Seq<char>)
    ensures
        filter_count(opt_in_filter(column, list)) == given(list),
        other != column && other != "("@ && other != ")"@ && other != ", "@ ==> !mentions(
            opt_in_filter(column, list),
            other,
        ),
{
    match list {
        Some(v) => {
            lemma_in_filter_count(column, sql_values(v@));
            if other != column && other != "("@ && other != ")"@ && other != ", "@ {
                lemma_in_filter_mentions(column, sql_values(v@), other);
            }
        },
        None => {
            assert(filter_count(Seq::<Piece>::empty()) == 0);
        },
    }
}

/// Literal texts write only themselves and open no filter clause.
pub proof fn lemma_texts(texts: Seq<Piece>, t: Seq<char>)
    requires
        forall|j: int| 0 <= j < texts.len() ==> (#[trigger] texts[j] matches Piece::Text(x) && x != t),
    ensures
        !mentions(texts, t),
        filter_count(texts) == 0,
    decreases texts.len(),
{
    if texts.len() > 0 {
        assert forall|j: int| 0 <= j < texts.drop_last().len() implies (#[trigger] texts.drop_last()[j] matches Piece::Text(
            x,
        ) && x != t) by {
            assert(texts.drop_last()[j] == texts[j]);
        }
        lemma_texts(texts.drop_last(), t);
        assert(texts[texts.len() - 1] == texts.last());
        lemma_push_piece(texts.drop_last(), texts.last());
        assert(texts.drop_last().push(texts.last()) =~= texts);
        if mentions(texts, t) {
            let j = choose|j: int| 0 <= j < texts.len() && #[trigger] texts[j] == Piece::Text(t);
            if j < texts.len() - 1 {
                assert(texts.drop_last()[j] == texts[j]);
            }
        }
    }
}


/// A time bound that is one part of a statement, whose condition no other
/// part writes, is a bound filter of the statement.
pub proof fn lemma_bound_in_parts(parts: Seq<Seq<Piece>>, i: int, cond: Seq<char>, t: Option<Timestamp>)
    requires
        0 <= i < parts.len(),
        parts[i] == opt_time_filter(cond, t),
        forall|m: int| 0 <= m < parts.len() && m != i ==> !mentions(#[trigger] parts[m], cond),
    ensures
        bound_filter(concat(parts), cond, t),
{
    match t {
        Some(x) => {
            lemma_concat_comparison(parts, i, cond, SqlData::Time(x));
        },
        None => {
            assert(!mentions(parts[i], cond)) by {
                assert(parts[i] =~= Seq::<Piece>::empty());
            }
            lemma_concat_mentions(parts, cond);
        },
    }
}


/// Two statements built alike: the same pieces in the same places, but for
/// the values their placeholders are bound to.
pub open spec fn same_shape(a: Seq<Piece>, b: Seq<Piece>) -> bool {
    &&& a.len() == b.len()
    &&& forall|j: int|
        0 <= j < a.len() ==> (#[trigger] a[j] == b[j] || (a[j] is Param && b[j] is Param))
}

/// Statements built alike have the same text: the values bound to the
/// placeholders do not show in it.
pub proof fn lemma_same_shape_render(a: Seq<Piece>, b: Seq<Piece>)
    requires
        same_shape(a, b),
    ensures
        render(a) == render(b),
        params(a).len() == params(b).len(),
        filter_count(a) == filter_count(b),
    decreases a.len(),
{
    if a.len() > 0 {
        assert forall|j: int| 0 <= j < a.drop_last().len() implies (#[trigger] a.drop_last()[j]
            == b.drop_last()[j] || (a.drop_last()[j] is Param && b.drop_last()[j] is Param)) by {
            assert(a.drop_last()[j] == a[j]);
            assert(b.drop_last()[j] == b[j]);
        }
        lemma_same_shape_render(a.drop_last(), b.drop_last());
        assert(a[a.len() - 1] == a.last());
        assert(b[b.len() - 1] == b.last());
    }
}


/// The values bound for an optional list of texts: each text in order, or
/// nothing when no list is given.
pub open spec fn opt_texts(list: Option<Vec<String>>) -> Seq<SqlData> {
    match list {
        Some(v) => v@.map_values(|x: String| SqlData::Text(x@)),
        None => Seq::empty(),
    }
}

/// The value bound for an optional time: the time, or nothing.
pub open spec fn opt_time(t: Option<Timestamp>) -> Seq<SqlData> {
    match t {
        Some(x) => seq![SqlData::Time(x)],
        None => Seq::empty(),
    }
}

/// A list filter binds the listed values; an optional time, the time.
pub proof fn lemma_opt_params<T: ToSqlValue>(column: Seq<char>, list: Option<Vec<T>>, cond: Seq<char>, t: Option<Timestamp>)
    ensures
        params(opt_in_filter(column, list)) == (match list {
            Some(v) => sql_values(v@),
            None => Seq::<SqlData>::empty(),
        }),
        params(opt_time_filter(cond, t)) == opt_time(t),
{
    match list {
        Some(v) => {
            let start = Seq::<Piece>::empty();
            let head = seq![Piece::Filter, Piece::Text(column)];
            lemma_push_piece(start, Piece::Filter);
            lemma_push_piece(start.push(Piece::Filter), Piece::Text(column));
            assert(head =~= start.push(Piece::Filter).push(Piece::Text(column)));
            assert(params(start) =~= Seq::<SqlData>::empty());
            lemma_params_of_list(sql_values(v@));
            lemma_params_append(head, list_pieces(sql_values(v@)));
            assert(params(head) + sql_values(v@) =~= sql_values(v@));
        },
        None => {
            assert(params(Seq::<Piece>::empty()) =~= Seq::<SqlData>::empty());
        },
    }
    match t {
        Some(x) => {
            lemma_params_compare(cond, SqlData::Time(x));
        },
        None => {
            assert(params(Seq::<Piece>::empty()) =~= Seq::<SqlData>::empty());
        },
    }
}

/// Literal texts bind nothing.
pub proof fn lemma_texts_params(texts: Seq<Piece>)
    requires
        forall|j: int| 0 <= j < texts.len() ==> #[trigger] texts[j] is Text,
    ensures
        params(texts) == Seq::<SqlData>::empty(),
    decreases texts.len(),
{
    if texts.len() > 0 {
        assert forall|j: int| 0 <= j < texts.drop_last().len() implies #[trigger] texts.drop_last()[j] is Text by {
            assert(texts.drop_last()[j] == texts[j]);
        }
        lemma_texts_params(texts.drop_last());
        assert(texts[texts.len() - 1] == texts.last());
    }
}

} // verus!
