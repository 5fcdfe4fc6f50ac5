//! First occurrences in sequences: the lookup rule of every name-keyed list
//! in this crate (a later entry with the same name is shadowed).
use vstd::prelude::*;

use crate::text::same_text;

verus! {

/// `i` is the first position at which `x` occurs in `s`.
pub open spec fn first_at<A>(s: Seq<A>, x: A, i: int) -> bool {
    &&& 0 <= i < s.len()
    &&& s[i] == x
    &&& forall|j: int| 0 <= j < i ==> s[j] != x
}

/// The first position of `x` in `s` (meaningful when `x` occurs).
pub open spec fn first_index<A>(s: Seq<A>, x: A) -> int {
    choose|i: int| first_at(s, x, i)
}

/// No element occurs twice in `s`.
pub open spec fn all_distinct<A>(s: Seq<A>) -> bool {
    forall|i: int, j: int| 0 <= i < s.len() && 0 <= j < s.len() && i != j ==> s[i] != s[j]
}

pub proof fn lemma_first_at_unique<A>(s: Seq<A>, x: A, i: int, j: int)
    requires
        first_at(s, x, i),
        first_at(s, x, j),
    ensures
        i == j,
{
    if i < j {
        assert(s[i] != x);
    } else if j < i {
        assert(s[j] != x);
    }
}

proof fn first_below<A>(s: Seq<A>, x: A, k: int) -> (i: int)
    requires
        0 <= k < s.len(),
        s[k] == x,
    ensures
        first_at(s, x, i),
    decreases k,
{
    if exists|j: int| 0 <= j < k && s[j] == x {
        let j = choose|j: int| 0 <= j < k && s[j] == x;
        first_below(s, x, j)
    } else {
        k
    }
}

/// Where `x` occurs in `s`, `first_index` is its first position.
pub proof fn lemma_first_index<A>(s: Seq<A>, x: A)
    requires
        s.contains(x),
    ensures
        first_at(s, x, first_index(s, x)),
{
    let k = choose|k: int| 0 <= k < s.len() && s[k] == x;
    let i = first_below(s, x, k);
    assert(first_at(s, x, i));
}

/// A position that satisfies `first_at` is `first_index`.
pub proof fn lemma_first_index_is<A>(s: Seq<A>, x: A, i: int)
    requires
        first_at(s, x, i),
    ensures
        first_index(s, x) == i,
{
    assert(s.contains(x)) by {
        assert(s[i] == x);
    }
    lemma_first_index(s, x);
    lemma_first_at_unique(s, x, i, first_index(s, x));
}

/// Appending an element does not move the first occurrence of anything
/// that already occurred.
pub proof fn lemma_first_index_push<A>(s: Seq<A>, x: A, y: A)
    requires
        s.contains(y),
    ensures
        s.push(x).contains(y),
        first_index(s.push(x), y) == first_index(s, y),
{
    lemma_first_index(s, y);
    let i = first_index(s, y);
    assert(s.push(x)[i] == y);
    assert(first_at(s.push(x), y, i));
    lemma_first_index_is(s.push(x), y, i);
}

/// Appending an element that did not occur makes the end its first position.
pub proof fn lemma_first_index_push_new<A>(s: Seq<A>, x: A)
    requires
        !s.contains(x),
    ensures
        first_at(s.push(x), x, s.len() as int),
        first_index(s.push(x), x) == s.len(),
{
    assert forall|j: int| 0 <= j < s.len() implies s.push(x)[j] != x by {
        assert(s.push(x)[j] == s[j]);
        if s[j] == x {
            assert(s.contains(x));
        }
    }
    lemma_first_index_is(s.push(x), x, s.len() as int);
}

/// Items that are looked up by a name.
pub trait Keyed {
    /// The name of the item.
    spec fn key_view(&self) -> Seq<char>;

    /// The name of the item.
    fn key(&self) -> (r: &str)
        ensures
            r@ == self.key_view(),
    ;
}

/// The names of the items, in order.
pub open spec fn keys_of<T: Keyed>(s: Seq<T>) -> Seq<Seq<char>> {
    s.map_values(|e: T| e.key_view())
}

/// The position of the first item named `k`, if any.
pub fn position_of<T: Keyed>(items: &Vec<T>, k: &str) -> (r: Option<usize>)
    ensures
        r matches Some(i) ==> first_at(keys_of(items@), k@, i as int) && i < items.len(),
        r is None ==> !keys_of(items@).contains(k@),
{
    let n = items.len();
    let mut i: usize = 0;
    while i < n
        invariant
            n == items.len(),
            i <= n,
            forall|j: int| 0 <= j < i ==> keys_of(items@)[j] != k@,
        decreases n - i,
    {
        if same_text(items[i].key(), k) {
            return Some(i);
        }
        i = i + 1;
    }
    proof {
        if keys_of(items@).contains(k@) {
            let j = choose|j: int| 0 <= j < keys_of(items@).len() && keys_of(items@)[j] == k@;
            assert(keys_of(items@)[j] != k@);
        }
    }
    None
}

} // verus!
