//! Searching sequences for the first element with a property.
use vstd::prelude::*;

verus! {

/// The first index at or after `from` whose element satisfies `p`.
pub open spec fn first_index_from<T>(s: Seq<T>, p: spec_fn(T) -> bool, from: int) -> Option<int>
    decreases s.len() - from,
{
    if from < 0 || from >= s.len() {
        None
    } else if p(s[from]) {
        Some(from)
    } else {
        first_index_from(s, p, from + 1)
    }
}

/// The first index whose element satisfies `p`.
pub open spec fn first_index<T>(s: Seq<T>, p: spec_fn(T) -> bool) -> Option<int> {
    first_index_from(s, p, 0)
}

/// `first_index_from` finds the least satisfying index at or after `from`.
pub proof fn lemma_first_index_from<T>(s: Seq<T>, p: spec_fn(T) -> bool, from: int)
    requires
        0 <= from,
    ensures
        match first_index_from(s, p, from) {
            Some(i) => from <= i < s.len() && p(s[i]) && forall|j: int|
                from <= j < i ==> !p(#[trigger] s[j]),
            None => forall|j: int| from <= j < s.len() ==> !p(#[trigger] s[j]),
        },
    decreases s.len() - from,
{
    if from < s.len() && !p(s[from]) {
        lemma_first_index_from(s, p, from + 1);
    }
}

/// The first satisfying index is the least one.
pub proof fn lemma_first_index<T>(s: Seq<T>, p: spec_fn(T) -> bool)
    ensures
        match first_index(s, p) {
            Some(i) => 0 <= i < s.len() && p(s[i]) && forall|j: int|
                0 <= j < i ==> !p(#[trigger] s[j]),
            None => forall|j: int| 0 <= j < s.len() ==> !p(#[trigger] s[j]),
        },
{
    lemma_first_index_from(s, p, 0);
}

/// Pushing an element that does not satisfy `p` keeps `first_index`;
/// pushing one that does, onto a sequence where none does, finds it.
pub proof fn lemma_first_index_push<T>(s: Seq<T>, p: spec_fn(T) -> bool, x: T)
    ensures
        first_index(s, p) is Some ==> first_index(s.push(x), p) == first_index(s, p),
        first_index(s, p) is None && p(x) ==> first_index(s.push(x), p) == Some(s.len() as int),
        first_index(s, p) is None && !p(x) ==> first_index(s.push(x), p) is None,
{
    lemma_first_index(s, p);
    lemma_first_index(s.push(x), p);
    assert forall|j: int| 0 <= j < s.len() implies s.push(x)[j] == s[j] by {}
    if let Some(i) = first_index(s, p) {
        match first_index(s.push(x), p) {
            Some(k) => {
                if k < i {
                    assert(s.push(x)[k] == s[k]);
                }
                if i < k {
                    assert(s.push(x)[i] == s[i]);
                }
            },
            None => {
                assert(s.push(x)[i] == s[i]);
            },
        }
    } else {
        match first_index(s.push(x), p) {
            Some(k) => {
                if k < s.len() {
                    assert(s.push(x)[k] == s[k]);
                }
            },
            None => {
                assert(s.push(x)[s.len() as int] == x);
            },
        }
    }
}

/// The sum of `f` over the elements of `s`.
pub open spec fn sum_of<T>(s: Seq<T>, f: spec_fn(T) -> nat) -> nat
    decreases s.len(),
{
    if s.len() == 0 {
        0
    } else {
        sum_of(s.drop_last(), f) + f(s.last())
    }
}

/// Extending a prefix by one element adds that element's value.
pub proof fn lemma_sum_of_take_next<T>(s: Seq<T>, f: spec_fn(T) -> nat, i: int)
    requires
        0 <= i < s.len(),
    ensures
        sum_of(s.take(i + 1), f) == sum_of(s.take(i), f) + f(s[i]),
{
    assert(s.take(i + 1).drop_last() =~= s.take(i));
}

/// Sums over prefixes grow with the prefix.
pub proof fn lemma_sum_of_prefix<T>(s: Seq<T>, f: spec_fn(T) -> nat, i: int, j: int)
    requires
        0 <= i <= j <= s.len(),
    ensures
        sum_of(s.take(i), f) <= sum_of(s.take(j), f),
    decreases j - i,
{
    if i < j {
        lemma_sum_of_take_next(s, f, j - 1);
        lemma_sum_of_prefix(s, f, i, j - 1);
    }
}

/// A sum of values bounded by `b` over `n` elements is at most `n * b`.
pub proof fn lemma_sum_of_bound<T>(s: Seq<T>, f: spec_fn(T) -> nat, b: nat)
    requires
        forall|i: int| 0 <= i < s.len() ==> f(#[trigger] s[i]) <= b,
    ensures
        sum_of(s, f) <= s.len() * b,
    decreases s.len(),
{
    if s.len() > 0 {
        assert forall|i: int| 0 <= i < s.drop_last().len() implies f(#[trigger] s.drop_last()[i])
            <= b by {
            assert(s.drop_last()[i] == s[i]);
        }
        lemma_sum_of_bound(s.drop_last(), f, b);
        assert(f(s.last()) <= b);
        assert((s.len() - 1) * b + b == s.len() * b) by (nonlinear_arith);
    }
}

} // verus!
