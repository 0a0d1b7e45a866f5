//! Looking up the language that follows the current one.

use vstd::prelude::*;
use crate::successor::{
    is_first_occurrence, lemma_follows_first_occurrence, lemma_successor_in_list, successor,
    successor_index,
};
use crate::text::same_text;

verus! {

/// Finds `current` in `languages` and returns the language that follows it.
///
/// The list is scanned from the front, and the entry behind the first one
/// equal to `current` is returned. Where nothing follows, because `current`
/// is not in the list or first occurs at its end, the last entry is
/// returned. The result borrows from `languages`; nothing is copied.
///
/// An empty list has no entry to return, so callers pass a non-empty one.
pub fn next_language<'a>(languages: &'a [String], current: &str) -> (next: &'a str)
    requires
        languages@.len() > 0,
    ensures
        next@ == successor(languages.deep_view(), current@),
        next@ == languages@[successor_index(languages.deep_view(), current@)]@,
        languages.deep_view().contains(next@),
{
    let ghost list = languages.deep_view();
    let mut found = false;

    for language in it: languages.iter()
        invariant
            list == languages.deep_view(),
            found ==> is_first_occurrence(list, current@, it.index() - 1),
            !found ==> forall|j: int| 0 <= j < it.index() ==> list[j] != current@,
    {
        if found {
            proof {
                lemma_follows_first_occurrence(list, current@, it.index() - 1);
                lemma_successor_in_list(list, current@);
            }
            return language.as_str();
        }
        if same_text(language.as_str(), current) {
            found = true;
        }
    }

    proof {
        list.index_of_first_ensures(current@);
        lemma_successor_in_list(list, current@);
    }
    languages.last().unwrap().as_str()
}

} // verus!
