//! The entry that follows the first occurrence of a value in a sequence.
//!
//! This is the mathematical side of the library: what "the next entry" means
//! for a sequence of any kind of value, and the laws that follow from it.

use vstd::prelude::*;

verus! {

/// `i` is the first position of `list` that holds `current`.
pub open spec fn is_first_occurrence<A>(list: Seq<A>, current: A, i: int) -> bool {
    &&& 0 <= i < list.len()
    &&& list[i] == current
    &&& forall|j: int| 0 <= j < i ==> list[j] != current
}

/// The position of the entry that follows `current`.
///
/// It is the position just behind the first occurrence of `current`. Where
/// there is no such position, because `current` does not occur or first
/// occurs at the very end, it is the last position of `list`.
pub open spec fn successor_index<A>(list: Seq<A>, current: A) -> int
    recommends
        list.len() > 0,
{
    match list.index_of_first(current) {
        Some(i) => if i + 1 < list.len() {
            i + 1
        } else {
            list.len() - 1
        },
        None => list.len() - 1,
    }
}

/// The entry that follows `current` in `list`: the one at
/// [`successor_index`].
pub open spec fn successor<A>(list: Seq<A>, current: A) -> A
    recommends
        list.len() > 0,
{
    list[successor_index(list, current)]
}

/// The first occurrence in the sense of [`is_first_occurrence`] is the one
/// that `Seq::index_of_first` names.
pub proof fn lemma_first_occurrence_is_index_of_first<A>(list: Seq<A>, current: A, i: int)
    ensures
        is_first_occurrence(list, current, i) <==> list.index_of_first(current) == Some(i),
{
    list.index_of_first_ensures(current);
}

/// The successor is always an entry of a non-empty list.
pub proof fn lemma_successor_in_list<A>(list: Seq<A>, current: A)
    requires
        list.len() > 0,
    ensures
        0 <= successor_index(list, current) < list.len(),
        list.contains(successor(list, current)),
{
    list.index_of_first_ensures(current);
}

/// Where `current` does not occur in the list, its successor is the last
/// entry.
pub proof fn lemma_absent_gives_last<A>(list: Seq<A>, current: A)
    requires
        list.len() > 0,
        !list.contains(current),
    ensures
        successor_index(list, current) == list.len() - 1,
        successor(list, current) == list.last(),
{
    list.index_of_first_ensures(current);
}

/// Where `current` is the last entry, its successor is the last entry again,
/// not the first one.
///
/// This needs `current` not to stand earlier in front of a different entry:
/// an earlier occurrence decides, and the entry behind it is then the
/// successor. The second condition says just that; it holds in particular
/// when the last position is the only one that holds `current`.
pub proof fn lemma_last_gives_last<A>(list: Seq<A>, current: A)
    requires
        list.len() > 0,
        list.last() == current,
        forall|i: int|
            is_first_occurrence(list, current, i) && i + 1 < list.len() ==> list[i + 1]
                == current,
    ensures
        successor(list, current) == list.last(),
{
    list.index_of_first_ensures(current);
    let i = list.index_of_first(current).unwrap();
    assert(is_first_occurrence(list, current, i));
}

/// Where `current` first occurs at position `i`, and `i` is not the last
/// position, its successor is the entry at `i + 1`.
pub proof fn lemma_follows_first_occurrence<A>(list: Seq<A>, current: A, i: int)
    requires
        is_first_occurrence(list, current, i),
        i + 1 < list.len(),
    ensures
        successor_index(list, current) == i + 1,
        successor(list, current) == list[i + 1],
{
    lemma_first_occurrence_is_index_of_first(list, current, i);
}

/// Where `current` occurs more than once, the first occurrence decides: a
/// later occurrence at `j` changes nothing.
pub proof fn lemma_first_of_several_decides<A>(list: Seq<A>, current: A, i: int, j: int)
    requires
        is_first_occurrence(list, current, i),
        i < j < list.len(),
        list[j] == current,
    ensures
        successor(list, current) == list[i + 1],
{
    lemma_follows_first_occurrence(list, current, i);
}

/// Nothing behind the successor of the first occurrence has a part in the
/// result: two lists that agree up to and including that position have the
/// same successor of `current`.
pub proof fn lemma_rest_is_ignored<A>(list: Seq<A>, other: Seq<A>, current: A, i: int)
    requires
        is_first_occurrence(list, current, i),
        i + 1 < list.len(),
        i + 1 < other.len(),
        forall|k: int| 0 <= k <= i + 1 ==> other[k] == list[k],
    ensures
        successor(other, current) == successor(list, current),
{
    assert(is_first_occurrence(other, current, i));
    lemma_follows_first_occurrence(list, current, i);
    lemma_follows_first_occurrence(other, current, i);
}

} // verus!
