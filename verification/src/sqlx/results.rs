//! Comparing the rows a statement was meant to touch with those it touched.
use vstd::prelude::*;

verus! {

/// The items of `expect` that do not occur in `actual`, in their order.
pub open spec fn missing_from<T>(expect: Seq<T>, actual: Seq<T>) -> Seq<T>
    decreases expect.len(),
{
    if expect.len() == 0 {
        Seq::empty()
    } else {
        let rest = missing_from(expect.drop_last(), actual);
        if actual.contains(expect.last()) {
            rest
        } else {
            rest.push(expect.last())
        }
    }
}

fn contains<T: PartialEq>(actual: &[T], v: &T) -> (r: bool)
    requires
        vstd::laws_eq::obeys_concrete_eq::<T>(),
    ensures
        r == actual@.contains(*v),
{
    let n = actual.len();
    let mut i: usize = 0;
    while i < n
        invariant
            n == actual@.len(),
            i <= n,
            vstd::laws_eq::obeys_concrete_eq::<T>(),
            forall|j: int| 0 <= j < i ==> actual@[j] != *v,
        decreases n - i,
    {
        proof {
            reveal(vstd::laws_eq::obeys_concrete_eq);
        }
        if actual[i].eq(v) {
            assert(actual@[i as int] == *v);
            return true;
        }
        i = i + 1;
    }
    false
}

/// `expect` when it does not occur in `actual`, and `None` when it does.
pub fn missing_one<T: PartialEq>(expect: T, actual: &[T]) -> (r: Option<T>)
    requires
        vstd::laws_eq::obeys_concrete_eq::<T>(),
    ensures
        r == (if actual@.contains(expect) {
            None
        } else {
            Some(expect)
        }),
{
    if contains(actual, &expect) {
        None
    } else {
        Some(expect)
    }
}

/// The items of `expect` that do not occur in `actual`, in their order in
/// `expect`.
pub fn missing<'a, T: PartialEq>(expect: &'a [T], actual: &[T]) -> (r: Vec<&'a T>)
    requires
        vstd::laws_eq::obeys_concrete_eq::<T>(),
    ensures
        r@.map_values(|x: &T| *x) == missing_from(expect@, actual@),
{
    let mut r: Vec<&'a T> = Vec::new();
    let n = expect.len();
    let mut i: usize = 0;
    while i < n
        invariant
            n == expect@.len(),
            i <= n,
            vstd::laws_eq::obeys_concrete_eq::<T>(),
            r@.map_values(|x: &T| *x) == missing_from(expect@.take(i as int), actual@),
        decreases n - i,
    {
        let item = &expect[i];
        proof {
            assert(expect@.take(i + 1).drop_last() =~= expect@.take(i as int));
            assert(expect@.take(i + 1).last() == expect@[i as int]);
        }
        if !contains(actual, item) {
            let ghost before = r@;
            r.push(item);
            assert(r@.map_values(|x: &T| *x) =~= before.map_values(|x: &T| *x).push(*item));
        }
        i = i + 1;
    }
    assert(expect@.take(n as int) =~= expect@);
    r
}

/// An item is missing exactly when it is expected and does not occur among
/// the actual items.
pub proof fn law_missing_from_members<T>(expect: Seq<T>, actual: Seq<T>, x: T)
    ensures
        missing_from(expect, actual).contains(x) <==> (expect.contains(x) && !actual.contains(x)),
    decreases expect.len(),
{
    if expect.len() > 0 {
        let rest = expect.drop_last();
        law_missing_from_members(rest, actual, x);
        assert(expect =~= rest.push(expect.last()));
        if expect.contains(x) && !rest.contains(x) {
            let i = choose|i: int| 0 <= i < expect.len() && expect[i] == x;
            if i < rest.len() {
                assert(rest[i] == x);
            }
        }
        if rest.contains(x) {
            let i = choose|i: int| 0 <= i < rest.len() && rest[i] == x;
            assert(expect[i] == x);
        }
        let m = missing_from(rest, actual);
        if !actual.contains(expect.last()) {
            assert(m.push(expect.last())[m.len() as int] == expect.last());
            if m.push(expect.last()).contains(x) {
                let i = choose|i: int| 0 <= i < m.len() + 1 && m.push(expect.last())[i] == x;
                if i < m.len() {
                    assert(m[i] == x);
                }
            }
            if m.contains(x) {
                let i = choose|i: int| 0 <= i < m.len() && m[i] == x;
                assert(m.push(expect.last())[i] == x);
            }
        }
        assert(expect[expect.len() - 1] == expect.last());
    }
}

/// Nothing is missing exactly when every expected item occurs among the
/// actual items.
pub proof fn law_nothing_missing<T>(expect: Seq<T>, actual: Seq<T>)
    ensures
        missing_from(expect, actual).len() == 0 <==> (forall|i: int|
            0 <= i < expect.len() ==> actual.contains(#[trigger] expect[i])),
{
    if missing_from(expect, actual).len() == 0 {
        assert forall|i: int| 0 <= i < expect.len() implies actual.contains(#[trigger] expect[i]) by {
            law_missing_from_members(expect, actual, expect[i]);
            if !actual.contains(expect[i]) {
                assert(expect.contains(expect[i]));
                assert(missing_from(expect, actual).contains(expect[i]));
            }
        }
    } else {
        let m = missing_from(expect, actual);
        law_missing_from_members(expect, actual, m[0]);
        assert(m.contains(m[0]));
        let i = choose|i: int| 0 <= i < expect.len() && expect[i] == m[0];
        assert(!actual.contains(expect[i]));
    }
}

} // verus!
