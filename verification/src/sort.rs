//! Sorting the collected items by id, so that the export is deterministic
//! regardless of the order in which fetches completed.

use vstd::prelude::*;
use vstd::multiset::Multiset;
use crate::item::Item;
use crate::text::{lemma_lex_le_total, lemma_lex_le_trans, lex_le, str_le};

verus! {

/// Whether the items are ordered by id, lexicographically.
pub open spec fn sorted_by_id(items: Seq<Item>) -> bool {
    forall|i: int, j: int| 0 <= i < j < items.len() ==> lex_le(items[i].id@, items[j].id@)
}

/// Sorts the collection by item id: the result holds exactly the given
/// items, ordered lexicographically by id. Insertion sort; items whose ids
/// compare equal promise nothing of their relative order.
pub fn sort_items_by_id(items: Vec<Item>) -> (r: Vec<Item>)
    ensures
        sorted_by_id(r@),
        r@.to_multiset() == items@.to_multiset(),
        r@.len() == items@.len(),
{
    broadcast use vstd::seq_lib::to_multiset_insert;
    broadcast use vstd::seq_lib::to_multiset_remove;
    broadcast use vstd::seq_lib::to_multiset_len;
    broadcast use vstd::seq_lib::to_multiset_contains;
    broadcast use vstd::multiset::group_multiset_axioms;

    let n = items.len();
    let mut remaining = items;
    let ghost items0 = remaining@;
    let mut sorted: Vec<Item> = Vec::new();
    let mut taken: usize = 0;
    proof {
        assert(sorted@.to_multiset() =~= Multiset::<Item>::empty());
        assert(sorted@.to_multiset().add(remaining@.to_multiset()) =~= items0.to_multiset());
    }
    while taken < n
        invariant
            0 <= taken <= n,
            n == taken + remaining@.len(),
            sorted@.len() == taken,
            sorted_by_id(sorted@),
            sorted@.to_multiset().add(remaining@.to_multiset()) == items0.to_multiset(),
        decreases n - taken,
    {
        let ghost prev_items = remaining@;
        let next = remaining.remove(0);
        let ghost prev_sorted = sorted@;
        let position = insertion_point(&sorted, &next);
        sorted.insert(position, next);
        proof {
            vstd::seq_lib::to_multiset_remove(prev_items, 0);
            vstd::seq_lib::to_multiset_insert(prev_sorted, position as int, next);
            assert(remaining@.to_multiset() =~= prev_items.to_multiset().remove(next)) by {
                assert(remaining@ == prev_items.remove(0));
            }
            assert(sorted@.to_multiset() =~= prev_sorted.to_multiset().insert(next));
            assert(prev_items.to_multiset().count(next) > 0) by {
                assert(prev_items[0] == next);
                assert(prev_items.contains(next));
                vstd::seq_lib::to_multiset_contains(prev_items, next);
            }
            assert(sorted@.to_multiset().add(remaining@.to_multiset())
                =~= prev_sorted.to_multiset().add(prev_items.to_multiset()));
            assert forall|a: int, b: int| 0 <= a < b < sorted@.len() implies lex_le(
                sorted@[a].id@,
                sorted@[b].id@,
            ) by {
                if b < position {
                    assert(sorted@[a] == prev_sorted[a] && sorted@[b] == prev_sorted[b]);
                } else if a < position && b == position {
                    assert(sorted@[a] == prev_sorted[a] && sorted@[b] == next);
                } else if a < position && b > position {
                    assert(sorted@[a] == prev_sorted[a] && sorted@[b] == prev_sorted[b - 1]);
                } else if a == position {
                    assert(sorted@[a] == next && sorted@[b] == prev_sorted[b - 1]);
                } else {
                    assert(sorted@[a] == prev_sorted[a - 1] && sorted@[b] == prev_sorted[b - 1]);
                }
            }
        }
        taken = taken + 1;
    }
    sorted
}

/// The position where `next` belongs in the id-sorted `sorted`: everything
/// before it compares no greater, everything at and after it no smaller,
/// so inserting there keeps the order.
fn insertion_point(sorted: &Vec<Item>, next: &Item) -> (position: usize)
    requires
        sorted_by_id(sorted@),
    ensures
        0 <= position <= sorted@.len(),
        forall|j: int| 0 <= j < position ==> lex_le(sorted@[j].id@, next.id@),
        forall|j: int| position <= j < sorted@.len() ==> lex_le(next.id@, sorted@[j].id@),
{
    let n = sorted.len();
    let mut position: usize = 0;
    while position < n
        invariant
            0 <= position <= n,
            n == sorted@.len(),
            sorted_by_id(sorted@),
            forall|j: int| 0 <= j < position ==> lex_le(sorted@[j].id@, next.id@),
        decreases n - position,
    {
        if !str_le(sorted[position].id.as_str(), next.id.as_str()) {
            proof {
                lemma_lex_le_total(sorted@[position as int].id@, next.id@);
                assert forall|j: int| position <= j < sorted@.len() implies lex_le(
                    next.id@,
                    sorted@[j].id@,
                ) by {
                    if j > position {
                        assert(lex_le(sorted@[position as int].id@, sorted@[j].id@));
                        lemma_lex_le_trans(next.id@, sorted@[position as int].id@, sorted@[j].id@);
                    }
                }
            }
            return position;
        }
        position = position + 1;
    }
    position
}

} // verus!
