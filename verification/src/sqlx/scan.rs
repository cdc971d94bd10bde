//! Reading the placeholders of a statement's text back, left to right.
use vstd::prelude::*;

use crate::sqlx::{data_of, filter_count, params, piece_text, render, Piece, Query};
use crate::text::{decimal, digit_char};

verus! {

/// A decimal digit.
pub open spec fn is_digit(c: char) -> bool {
    '0' <= c && c <= '9'
}

/// The length of the run of digits a text begins with.
pub open spec fn digit_run(s: Seq<char>) -> nat
    decreases s.len(),
{
    if s.len() > 0 && is_digit(s[0]) {
        1 + digit_run(s.drop_first())
    } else {
        0
    }
}

/// The number a run of digits writes.
pub open spec fn digits_value(s: Seq<char>) -> int
    decreases s.len(),
{
    if s.len() == 0 {
        0
    } else {
        10 * digits_value(s.drop_last()) + ((s.last() as int) - 48)
    }
}

/// A run of digits is no longer than the text.
pub proof fn lemma_digit_run_bound(s: Seq<char>)
    ensures
        digit_run(s) <= s.len(),
    decreases s.len(),
{
    if s.len() > 0 && is_digit(s[0]) {
        lemma_digit_run_bound(s.drop_first());
    }
}

/// The numbers of the placeholders in a text, left to right: each `?` and
/// the run of digits after it.
pub open spec fn placeholder_numbers(s: Seq<char>) -> Seq<int>
    decreases s.len(),
{
    if s.len() == 0 {
        Seq::empty()
    } else if s[0] == '?' {
        let k = digit_run(s.drop_first()) as int;
        proof {
            lemma_digit_run_bound(s.drop_first());
        }
        seq![digits_value(s.subrange(1, 1 + k))] + placeholder_numbers(
            s.subrange(1 + k, s.len() as int),
        )
    } else {
        placeholder_numbers(s.drop_first())
    }
}

/// A text that does not begin with a digit.
pub open spec fn starts_without_digit(s: Seq<char>) -> bool {
    s.len() == 0 || !is_digit(s[0])
}

proof fn lemma_digit_run_all(s: Seq<char>)
    requires
        forall|i: int| 0 <= i < s.len() ==> is_digit(#[trigger] s[i]),
    ensures
        digit_run(s) == s.len(),
    decreases s.len(),
{
    if s.len() > 0 {
        assert(is_digit(s[0]));
        assert forall|i: int| 0 <= i < s.drop_first().len() implies is_digit(
            #[trigger] s.drop_first()[i],
        ) by {
            assert(s.drop_first()[i] == s[i + 1]);
        }
        lemma_digit_run_all(s.drop_first());
    }
}

proof fn lemma_digit_run_append(a: Seq<char>, b: Seq<char>)
    requires
        starts_without_digit(b) || digit_run(a) < a.len(),
    ensures
        digit_run(a + b) == digit_run(a),
    decreases a.len(),
{
    if a.len() == 0 {
        assert(a + b =~= b);
    } else {
        assert((a + b)[0] == a[0]);
        if is_digit(a[0]) {
            assert((a + b).drop_first() =~= a.drop_first() + b);
            lemma_digit_run_append(a.drop_first(), b);
        }
    }
}

/// A text that ends in a placeholder: a `?` followed by nothing but digits.
pub open spec fn ends_in_placeholder(s: Seq<char>) -> bool {
    exists|k: int|
        0 <= k < s.len() && #[trigger] s[k] == '?' && forall|i: int|
            k < i < s.len() ==> is_digit(#[trigger] s[i])
}

proof fn lemma_suffix_ends_in_placeholder(a: Seq<char>, d: int)
    requires
        0 <= d <= a.len(),
        ends_in_placeholder(a.subrange(d, a.len() as int)),
    ensures
        ends_in_placeholder(a),
{
    let r = a.subrange(d, a.len() as int);
    let k = choose|k: int|
        0 <= k < r.len() && #[trigger] r[k] == '?' && forall|i: int|
            k < i < r.len() ==> is_digit(#[trigger] r[i]);
    assert(a[k + d] == r[k]);
    assert forall|i: int| k + d < i < a.len() implies is_digit(#[trigger] a[i]) by {
        assert(a[i] == r[i - d]);
    }
}

proof fn lemma_run_to_end(s: Seq<char>)
    requires
        s.len() > 0,
        s[0] == '?',
        digit_run(s.drop_first()) == s.len() - 1,
    ensures
        ends_in_placeholder(s),
{
    lemma_digit_run_prefix(s.drop_first());
    assert forall|i: int| 0 < i < s.len() implies is_digit(#[trigger] s[i]) by {
        assert(s[i] == s.drop_first()[i - 1]);
    }
}

proof fn lemma_digit_run_prefix(s: Seq<char>)
    ensures
        forall|i: int| 0 <= i < digit_run(s) ==> is_digit(#[trigger] s[i]),
    decreases s.len(),
{
    if s.len() > 0 && is_digit(s[0]) {
        lemma_digit_run_prefix(s.drop_first());
        lemma_digit_run_bound(s);
        assert forall|i: int| 0 <= i < digit_run(s) implies is_digit(#[trigger] s[i]) by {
            if i > 0 {
                assert(s[i] == s.drop_first()[i - 1]);
            }
        }
    }
}

proof fn lemma_no_placeholders(s: Seq<char>)
    requires
        forall|i: int| 0 <= i < s.len() ==> s[i] != '?',
    ensures
        placeholder_numbers(s) == Seq::<int>::empty(),
    decreases s.len(),
{
    if s.len() > 0 {
        assert(s[0] != '?');
        assert forall|i: int| 0 <= i < s.drop_first().len() implies s.drop_first()[i] != '?' by {
            assert(s.drop_first()[i] == s[i + 1]);
        }
        lemma_no_placeholders(s.drop_first());
    }
}

proof fn lemma_placeholders_append(a: Seq<char>, b: Seq<char>)
    requires
        starts_without_digit(b) || !ends_in_placeholder(a),
    ensures
        placeholder_numbers(a + b) == placeholder_numbers(a) + placeholder_numbers(b),
    decreases a.len(),
{
    if a.len() == 0 {
        assert(a + b =~= b);
        assert(Seq::<int>::empty() + placeholder_numbers(b) =~= placeholder_numbers(b));
    } else {
        let ab = a + b;
        assert(ab[0] == a[0]);
        if a[0] == '?' {
            assert(ab.drop_first() =~= a.drop_first() + b);
            lemma_digit_run_bound(a.drop_first());
            let k = digit_run(a.drop_first()) as int;
            if k == a.len() - 1 {
                lemma_run_to_end(a);
            }
            lemma_digit_run_append(a.drop_first(), b);
            assert(ab.subrange(1, 1 + k) =~= a.subrange(1, 1 + k));
            let rest = a.subrange(1 + k, a.len() as int);
            assert(ab.subrange(1 + k, ab.len() as int) =~= rest + b);
            if ends_in_placeholder(rest) {
                lemma_suffix_ends_in_placeholder(a, 1 + k);
            }
            lemma_placeholders_append(rest, b);
            assert(seq![digits_value(a.subrange(1, 1 + k))] + (placeholder_numbers(rest)
                + placeholder_numbers(b)) =~= (seq![digits_value(a.subrange(1, 1 + k))]
                + placeholder_numbers(rest)) + placeholder_numbers(b));
        } else {
            assert(ab.drop_first() =~= a.drop_first() + b);
            if ends_in_placeholder(a.drop_first()) {
                assert(a.drop_first() =~= a.subrange(1, a.len() as int));
                lemma_suffix_ends_in_placeholder(a, 1);
            }
            lemma_placeholders_append(a.drop_first(), b);
        }
    }
}

proof fn lemma_decimal_value(n: nat)
    ensures
        digits_value(decimal(n)) == n,
        forall|i: int| 0 <= i < decimal(n).len() ==> is_digit(#[trigger] decimal(n)[i]),
    decreases n,
{
    if n < 10 {
        let d = decimal(n);
        assert(d.drop_last() =~= Seq::<char>::empty());
        assert(d.last() == digit_char(n));
        assert(digit_char(n) as int == 48 + n);
        assert(digits_value(d) == 10 * digits_value(d.drop_last()) + ((d.last() as int) - 48));
    } else {
        lemma_decimal_value(n / 10);
        let d = decimal(n);
        assert(d.drop_last() =~= decimal(n / 10));
        assert(d.last() == digit_char(n % 10));
        vstd::arithmetic::div_mod::lemma_fundamental_div_mod(n as int, 10);
        assert(digit_char(n % 10) as int == 48 + n % 10);
        assert(digits_value(d) == 10 * digits_value(d.drop_last()) + ((d.last() as int) - 48));
        assert forall|i: int| 0 <= i < d.len() implies is_digit(#[trigger] d[i]) by {
            if i < decimal(n / 10).len() {
                assert(d[i] == decimal(n / 10)[i]);
            }
        }
    }
}

proof fn lemma_placeholder_text(m: nat)
    ensures
        placeholder_numbers(seq!['?'] + decimal(m)) == seq![m as int],
{
    let s = seq!['?'] + decimal(m);
    lemma_decimal_value(m);
    assert(s.drop_first() =~= decimal(m));
    lemma_digit_run_all(decimal(m));
    let k = decimal(m).len() as int;
    assert(s.subrange(1, 1 + k) =~= decimal(m));
    assert(s.subrange(1 + k, s.len() as int) =~= Seq::<char>::empty());
    assert(s[0] == '?');
    assert(digit_run(s.drop_first()) == k);
    assert(digits_value(s.subrange(1, 1 + k)) == m);
    assert(placeholder_numbers(Seq::<char>::empty()) == Seq::<int>::empty());
    assert(placeholder_numbers(s) == seq![digits_value(s.subrange(1, 1 + k))]
        + placeholder_numbers(s.subrange(1 + k, s.len() as int)));
    assert(placeholder_numbers(s) =~= seq![m as int]);
}

/// The literal texts of a statement write no `?`, and none that begins with
/// a digit stands right after a placeholder.
pub open spec fn plain_texts(pieces: Seq<Piece>) -> bool {
    forall|j: int|
        0 <= j < pieces.len() ==> (#[trigger] pieces[j] matches Piece::Text(t) ==> {
            &&& forall|i: int| 0 <= i < t.len() ==> t[i] != '?'
            &&& (starts_without_digit(t) || !ends_in_placeholder(render(pieces.take(j))))
        })
}

/// When no literal text writes a `?` and none glues digits onto a
/// placeholder, the placeholders of a statement's text, read left to right,
/// are `?1`, `?2`, ... up to the number of its parameters, each once and in
/// order.
pub proof fn law_placeholders_in_order(pieces: Seq<Piece>)
    requires
        plain_texts(pieces),
    ensures
        placeholder_numbers(render(pieces)) == Seq::new(params(pieces).len(), |i: int| i + 1),
    decreases pieces.len(),
{
    if pieces.len() == 0 {
        assert(placeholder_numbers(render(pieces)) =~= Seq::new(0, |i: int| i + 1));
    } else {
        let before = pieces.drop_last();
        assert forall|j: int| 0 <= j < before.len() implies (#[trigger] before[j] matches Piece::Text(
            t,
        ) ==> {
            &&& forall|i: int| 0 <= i < t.len() ==> t[i] != '?'
            &&& (starts_without_digit(t) || !ends_in_placeholder(render(before.take(j))))
        }) by {
            assert(before[j] == pieces[j]);
            assert(before.take(j) =~= pieces.take(j));
        }
        law_placeholders_in_order(before);
        let last = pieces.last();
        assert(last == pieces[pieces.len() - 1]);
        assert(pieces.take(pieces.len() - 1) =~= before);
        let n = params(before).len();
        let text = piece_text(last, n, filter_count(before));
        crate::sqlx::lemma_push_piece(before, last);
        assert(pieces =~= before.push(last));
        match last {
            Piece::Text(t) => {
                lemma_placeholders_append(render(before), text);
                lemma_no_placeholders(t);
                assert(Seq::new(n, |i: int| i + 1) + Seq::<int>::empty() =~= Seq::new(
                    n,
                    |i: int| i + 1,
                ));
            },
            Piece::Filter => {
                reveal_strlit(" WHERE ");
                reveal_strlit(" AND ");
                lemma_placeholders_append(render(before), text);
                lemma_no_placeholders(text);
                assert(Seq::new(n, |i: int| i + 1) + Seq::<int>::empty() =~= Seq::new(
                    n,
                    |i: int| i + 1,
                ));
            },
            Piece::Param(v) => {
                assert(text[0] == '?');
                lemma_placeholders_append(render(before), text);
                lemma_placeholder_text(n + 1);
                assert(Seq::new(n, |i: int| i + 1) + seq![(n + 1) as int] =~= Seq::new(
                    n + 1,
                    |i: int| i + 1,
                ));
            },
        }
    }
}

/// The placeholders of a well-formed query built from such texts, read left
/// to right in its SQL, are `?1`, `?2`, ... up to the number of its
/// arguments, each once and in order.
pub proof fn law_query_placeholders(q: Query)
    requires
        q.wf(),
        plain_texts(q@),
    ensures
        placeholder_numbers(q.sql@) == Seq::new(q.args@.len(), |i: int| i + 1),
{
    law_placeholders_in_order(q@);
    assert(data_of(q.args@).len() == q.args@.len());
}

} // verus!
