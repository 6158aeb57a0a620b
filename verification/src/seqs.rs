//! Searching sequences: the first element that meets a condition.

use vstd::prelude::*;

verus! {

/// Whether `i` is the place of the first element of `s` that meets `p`.
pub open spec fn is_first<T>(s: Seq<T>, p: spec_fn(T) -> bool, i: int) -> bool {
    &&& 0 <= i < s.len()
    &&& p(s[i])
    &&& forall|j: int| 0 <= j < i ==> !#[trigger] p(s[j])
}

/// The place of the first element of `s` that meets `p`, if there is one.
pub open spec fn first_where<T>(s: Seq<T>, p: spec_fn(T) -> bool) -> Option<int> {
    if exists|i: int| is_first(s, p, i) {
        Some(choose|i: int| is_first(s, p, i))
    } else {
        None
    }
}

/// The first element of `s` that meets `p`, if there is one.
pub open spec fn find_where<T>(s: Seq<T>, p: spec_fn(T) -> bool) -> Option<T> {
    match first_where(s, p) {
        Some(i) => Some(s[i]),
        None => None,
    }
}

/// Whether some element of `s` meets `p`.
pub open spec fn any_where<T>(s: Seq<T>, p: spec_fn(T) -> bool) -> bool {
    exists|i: int| 0 <= i < s.len() && #[trigger] p(s[i])
}

/// The place found by a search that met no match before it is the first match.
pub proof fn lemma_first_found<T>(s: Seq<T>, p: spec_fn(T) -> bool, i: int)
    requires
        is_first(s, p, i),
    ensures
        first_where(s, p) == Some(i),
        find_where(s, p) == Some(s[i]),
{
    let c = choose|k: int| is_first(s, p, k);
    assert(is_first(s, p, c));
    if c < i {
        assert(!p(s[c]));
    }
    if i < c {
        assert(!p(s[i]));
    }
}

/// A search that met no match has none to find.
pub proof fn lemma_first_none<T>(s: Seq<T>, p: spec_fn(T) -> bool)
    requires
        forall|j: int| 0 <= j < s.len() ==> !#[trigger] p(s[j]),
    ensures
        first_where(s, p) is None,
        find_where(s, p) is None,
        !any_where(s, p),
{
}

/// What a first match is: in range, a match, with none before it.
pub proof fn lemma_first_is<T>(s: Seq<T>, p: spec_fn(T) -> bool)
    ensures
        first_where(s, p) matches Some(i) ==> is_first(s, p, i),
        first_where(s, p) is None ==> forall|j: int| 0 <= j < s.len() ==> !#[trigger] p(s[j]),
        first_where(s, p) is Some <==> any_where(s, p),
{
    if exists|i: int| is_first(s, p, i) {
    } else {
        if exists|j: int| 0 <= j < s.len() && #[trigger] p(s[j]) {
            let j = choose|j: int| 0 <= j < s.len() && #[trigger] p(s[j]);
            lemma_least(s, p, j);
        }
    }
}

proof fn lemma_least<T>(s: Seq<T>, p: spec_fn(T) -> bool, j: int)
    requires
        0 <= j < s.len(),
        p(s[j]),
    ensures
        exists|i: int| is_first(s, p, i),
    decreases j,
{
    if exists|k: int| 0 <= k < j && #[trigger] p(s[k]) {
        let k = choose|k: int| 0 <= k < j && #[trigger] p(s[k]);
        lemma_least(s, p, k);
    } else {
        assert(is_first(s, p, j));
    }
}

/// Two conditions that agree on every element of `s` find the same first match.
pub proof fn lemma_first_same<T>(s: Seq<T>, p: spec_fn(T) -> bool, q: spec_fn(T) -> bool)
    requires
        forall|j: int| 0 <= j < s.len() ==> #[trigger] p(s[j]) == q(s[j]),
    ensures
        first_where(s, p) == first_where(s, q),
        find_where(s, p) == find_where(s, q),
{
    lemma_first_is(s, p);
    match first_where(s, p) {
        Some(i) => {
            assert(q(s[i]));
            assert forall|j: int| 0 <= j < i implies !#[trigger] q(s[j]) by {
                assert(!p(s[j]));
            }
            lemma_first_found(s, q, i);
        },
        None => {
            assert forall|j: int| 0 <= j < s.len() implies !#[trigger] q(s[j]) by {
                assert(!p(s[j]));
            }
            lemma_first_none(s, q);
        },
    }
}

/// Whether `i` is the place of the last element of `s` that meets `p`.
pub open spec fn is_last<T>(s: Seq<T>, p: spec_fn(T) -> bool, i: int) -> bool {
    &&& 0 <= i < s.len()
    &&& p(s[i])
    &&& forall|j: int| i < j < s.len() ==> !#[trigger] p(s[j])
}

/// The place of the last element of `s` that meets `p`, if there is one.
pub open spec fn last_where<T>(s: Seq<T>, p: spec_fn(T) -> bool) -> Option<int> {
    if exists|i: int| is_last(s, p, i) {
        Some(choose|i: int| is_last(s, p, i))
    } else {
        None
    }
}

/// The place found by a search from the end that met no match before it is the last match.
pub proof fn lemma_last_found<T>(s: Seq<T>, p: spec_fn(T) -> bool, i: int)
    requires
        is_last(s, p, i),
    ensures
        last_where(s, p) == Some(i),
{
    let c = choose|k: int| is_last(s, p, k);
    assert(is_last(s, p, c));
    if c < i {
        assert(!p(s[i]));
    }
    if i < c {
        assert(!p(s[c]));
    }
}

/// A search that met no match has none to find.
pub proof fn lemma_last_none<T>(s: Seq<T>, p: spec_fn(T) -> bool)
    requires
        forall|j: int| 0 <= j < s.len() ==> !#[trigger] p(s[j]),
    ensures
        last_where(s, p) is None,
{
}

/// The elements of `s` that meet `p`, in their order.
pub open spec fn filtered<T>(s: Seq<T>, p: spec_fn(T) -> bool) -> Seq<T>
    decreases s.len(),
{
    if s.len() == 0 {
        Seq::empty()
    } else {
        let rest = filtered(s.drop_last(), p);
        if p(s.last()) {
            rest.push(s.last())
        } else {
            rest
        }
    }
}

/// The option of a machine index read as an option of a mathematical one.
pub open spec fn at(o: Option<usize>) -> Option<int> {
    match o {
        Some(i) => Some(i as int),
        None => None,
    }
}

} // verus!
