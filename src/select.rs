//! Selection of the rows of a table that satisfy a predicate, as used by
//! the lookups and bulk deletions of the repositories.
use vstd::prelude::*;

verus! {

/// The elements of `s` that satisfy `p`, in the order they have in `s`.
pub open spec fn select<T>(s: Seq<T>, p: spec_fn(T) -> bool) -> Seq<T>
    decreases s.len(),
{
    if s.len() == 0 {
        Seq::empty()
    } else if p(s.last()) {
        select(s.drop_last(), p).push(s.last())
    } else {
        select(s.drop_last(), p)
    }
}

/// The last element of `s`, if there is one.
pub open spec fn last_of<T>(s: Seq<T>) -> Option<T> {
    if s.len() == 0 {
        None
    } else {
        Some(s.last())
    }
}

/// Selecting from a sequence extended by one element.
pub proof fn lemma_select_push<T>(s: Seq<T>, x: T, p: spec_fn(T) -> bool)
    ensures
        select(s.push(x), p) == (if p(x) {
            select(s, p).push(x)
        } else {
            select(s, p)
        }),
{
    assert(s.push(x).drop_last() =~= s);
}

/// Every selected element satisfies the predicate and comes from `s`.
pub proof fn lemma_select_sound<T>(s: Seq<T>, p: spec_fn(T) -> bool)
    ensures
        select(s, p).len() <= s.len(),
        forall|k: int|
            0 <= k < select(s, p).len() ==> p(#[trigger] select(s, p)[k]) && s.contains(
                select(s, p)[k],
            ),
    decreases s.len(),
{
    if s.len() > 0 {
        lemma_select_sound(s.drop_last(), p);
        let sub = select(s.drop_last(), p);
        assert forall|k: int| 0 <= k < sub.len() implies s.contains(#[trigger] sub[k]) by {
            let j = choose|j: int| 0 <= j < s.drop_last().len() && s.drop_last()[j] == sub[k];
            assert(s[j] == sub[k]);
        }
        assert(s[s.len() - 1] == s.last());
    }
}


/// Position of the last element of `s` that satisfies `p`, or -1.
pub open spec fn last_index<T>(s: Seq<T>, p: spec_fn(T) -> bool) -> int
    decreases s.len(),
{
    if s.len() == 0 {
        -1
    } else if p(s.last()) {
        s.len() - 1
    } else {
        last_index(s.drop_last(), p)
    }
}

/// Searching a sequence extended by one element.
pub proof fn lemma_last_index_push<T>(s: Seq<T>, x: T, p: spec_fn(T) -> bool)
    ensures
        last_index(s.push(x), p) == (if p(x) {
            s.len() as int
        } else {
            last_index(s, p)
        }),
{
    assert(s.push(x).drop_last() =~= s);
}

/// What the search result says about the sequence.
pub proof fn lemma_last_index<T>(s: Seq<T>, p: spec_fn(T) -> bool)
    ensures
        -1 <= last_index(s, p) < s.len(),
        last_index(s, p) >= 0 ==> p(s[last_index(s, p)]),
        forall|k: int| last_index(s, p) < k < s.len() ==> !p(#[trigger] s[k]),
    decreases s.len(),
{
    if s.len() > 0 {
        lemma_last_index(s.drop_last(), p);
        assert(s[s.len() - 1] == s.last());
        assert forall|k: int| last_index(s, p) < k < s.len() implies !p(#[trigger] s[k]) by {
            if k < s.len() - 1 {
                assert(s[k] == s.drop_last()[k]);
            }
        }
    }
}


/// A search result as a position, with -1 for nothing found.
pub open spec fn index_of(r: Option<usize>) -> int {
    match r {
        Some(i) => i as int,
        None => -1,
    }
}


/// The search finds the only element that satisfies the predicate.
pub proof fn lemma_last_index_only<T>(s: Seq<T>, p: spec_fn(T) -> bool, i: int)
    requires
        0 <= i < s.len(),
        p(s[i]),
        forall|k: int| 0 <= k < s.len() && k != i ==> !p(#[trigger] s[k]),
    ensures
        last_index(s, p) == i,
{
    lemma_last_index(s, p);
}

/// The search finds nothing when nothing satisfies the predicate.
pub proof fn lemma_last_index_none<T>(s: Seq<T>, p: spec_fn(T) -> bool)
    requires
        forall|k: int| 0 <= k < s.len() ==> !p(#[trigger] s[k]),
    ensures
        last_index(s, p) == -1,
{
    lemma_last_index(s, p);
}

/// An element satisfying the predicate is among the selected ones.
pub proof fn lemma_select_complete<T>(s: Seq<T>, p: spec_fn(T) -> bool, k: int)
    requires
        0 <= k < s.len(),
        p(s[k]),
    ensures
        select(s, p).contains(s[k]),
    decreases s.len(),
{
    if k == s.len() - 1 {
        assert(select(s, p).last() == s[k]);
    } else {
        lemma_select_complete(s.drop_last(), p, k);
        assert(s.drop_last()[k] == s[k]);
        let sub = select(s.drop_last(), p);
        let j = choose|j: int| 0 <= j < sub.len() && sub[j] == s[k];
        if p(s.last()) {
            assert(select(s, p)[j] == s[k]);
        }
    }
}

/// Selecting by a predicate and by its negation splits the sequence.
pub proof fn lemma_select_split<T>(s: Seq<T>, p: spec_fn(T) -> bool, q: spec_fn(T) -> bool)
    requires
        forall|x: T| #[trigger] q(x) == !p(x),
    ensures
        select(s, p).len() + select(s, q).len() == s.len(),
    decreases s.len(),
{
    if s.len() > 0 {
        lemma_select_split(s.drop_last(), p, q);
    }
}


/// No two elements of `s` share a key.
pub open spec fn keys_distinct<T>(s: Seq<T>, key: spec_fn(T) -> int) -> bool {
    forall|i: int, j: int| 0 <= i < j < s.len() ==> key(#[trigger] s[i]) != key(#[trigger] s[j])
}

/// Selecting keeps keys distinct.
pub proof fn lemma_select_keys_distinct<T>(
    s: Seq<T>,
    p: spec_fn(T) -> bool,
    key: spec_fn(T) -> int,
)
    requires
        keys_distinct(s, key),
    ensures
        keys_distinct(select(s, p), key),
    decreases s.len(),
{
    if s.len() > 0 {
        let rest = s.drop_last();
        assert forall|i: int, j: int| 0 <= i < j < rest.len() implies key(#[trigger] rest[i])
            != key(#[trigger] rest[j]) by {
            assert(rest[i] == s[i] && rest[j] == s[j]);
        }
        lemma_select_keys_distinct(rest, p, key);
        lemma_select_sound(rest, p);
        let sub = select(rest, p);
        if p(s.last()) {
            let all = sub.push(s.last());
            assert forall|i: int, j: int| 0 <= i < j < all.len() implies key(#[trigger] all[i])
                != key(#[trigger] all[j]) by {
                if j == all.len() - 1 {
                    assert(rest.contains(sub[i]));
                    let k = choose|k: int| 0 <= k < rest.len() && rest[k] == sub[i];
                    assert(s[k] == rest[k]);
                    assert(s[s.len() - 1] == s.last());
                } else {
                    assert(all[i] == sub[i] && all[j] == sub[j]);
                }
            }
        }
    }
}

} // verus!
