//! Rendering a finished run as the export file's body.

use vstd::prelude::*;
use crate::item::Item;
use crate::json::{array_value, render_pretty};
use crate::sort::sort_items_by_id;

verus! {

/// The payloads the items carry, in order.
pub fn payloads_of(items: Vec<Item>) -> (r: Vec<serde_json::Value>)
    ensures
        r@ == items@.map_values(|it: Item| it.payload),
{
    let n = items.len();
    let mut payloads: Vec<serde_json::Value> = Vec::new();
    let mut remaining = items;
    let ghost items0 = remaining@;
    let mut i: usize = 0;
    while i < n
        invariant
            0 <= i <= n,
            n == items0.len(),
            remaining@ == items0.skip(i as int),
            payloads@.len() == i,
            forall|j: int| 0 <= j < i ==> payloads@[j] == items0[j].payload,
        decreases n - i,
    {
        proof {
            assert(remaining@[0] == items0[i as int]);
            assert(remaining@.remove(0) =~= items0.skip(i as int + 1));
        }
        let item = remaining.remove(0);
        payloads.push(item.payload);
        i = i + 1;
    }
    proof {
        assert(payloads@ =~= items0.map_values(|it: Item| it.payload));
    }
    payloads
}

/// The body of one export file: the payloads of the given items, sorted by
/// item id, as one pretty-printed JSON array. What the rendering looks like
/// is serde_json's; `None` when serde refuses, which it does not for its
/// own Value type. Writing the file is the caller's part.
pub fn render_export(items: Vec<Item>) -> (r: Option<String>) {
    let sorted = sort_items_by_id(items);
    let payloads = payloads_of(sorted);
    let array = array_value(payloads);
    render_pretty(&array)
}

} // verus!
