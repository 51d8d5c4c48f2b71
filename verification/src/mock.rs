//! A deterministic in-memory provider, for tests and for exercising the
//! pipeline without a real item store.

use vstd::prelude::*;
use crate::errors::FetchError;
use crate::json::clone_value;
use crate::provider::{FetchBehavior, ListingBehavior, Op};
use crate::text::str_eq;

verus! {

/// A provider backed by a list of entries. An entry maps an id to either a
/// payload, or to `None`, which stands for a fetch that always fails.
///
/// Listing returns the ids in entry order. Fetching walks the entries and
/// the first entry with the requested id decides the outcome. A faithful
/// mock gives each id one entry — `distinct_ids` states that shape, and
/// under it the listing holds each id exactly once.
pub struct MockOp {
    pub items: Vec<(String, Option<serde_json::Value>)>,
}

/// The first entry of `entries` carrying `id`, if any.
pub open spec fn mock_lookup(
    entries: Seq<(String, Option<serde_json::Value>)>,
    id: Seq<char>,
) -> Option<Option<serde_json::Value>>
    decreases entries.len(),
{
    if entries.len() == 0 {
        None
    } else if entries[0].0@ == id {
        Some(entries[0].1)
    } else {
        mock_lookup(entries.drop_first(), id)
    }
}

/// Whether the entries carry pairwise distinct ids. A map-shaped store has
/// this by construction; with entries in a list it is the builder's part.
/// A mock built with duplicate ids lists them all, and a fetch falls to the
/// first entry with the requested id.
pub open spec fn distinct_ids(entries: Seq<(String, Option<serde_json::Value>)>) -> bool {
    forall|i: int, j: int| 0 <= i < j < entries.len() ==> entries[i].0@ != entries[j].0@
}

/// A mock with pairwise distinct entry ids lists each id exactly once.
pub proof fn lemma_distinct_ids_list_once(op: &MockOp)
    requires
        distinct_ids(op.items@),
    ensures
        op.listing() matches ListingBehavior::Lists { ids } && (forall|i: int, j: int|
            0 <= i < j < ids.len() ==> ids[i] != ids[j]),
{
}

/// The message of a fetch of an id the mock has no entry for.
pub open spec fn mock_missing_message(id: Seq<char>) -> Seq<char> {
    "no id "@ + id + " in mock"@
}

/// The message of a fetch of an id whose entry stands for failure.
pub open spec fn mock_error_message(id: Seq<char>) -> Seq<char> {
    "mock error for id "@ + id
}

impl Op for MockOp {
    open spec fn listing(&self) -> ListingBehavior {
        ListingBehavior::Lists {
            ids: self.items@.map_values(|e: (String, Option<serde_json::Value>)| e.0@),
        }
    }

    open spec fn fetch(&self, id: Seq<char>) -> FetchBehavior {
        match mock_lookup(self.items@, id) {
            Option::None => FetchBehavior::Fails { message: mock_missing_message(id) },
            Option::Some(Option::None) => FetchBehavior::Fails { message: mock_error_message(id) },
            Option::Some(Option::Some(payload)) => FetchBehavior::Succeeds { payload },
        }
    }

    fn list_items(&self) -> (r: Result<Vec<String>, FetchError>) {
        let mut ids: Vec<String> = Vec::new();
        let n = self.items.len();
        let mut i: usize = 0;
        while i < n
            invariant
                0 <= i <= n,
                n == self.items@.len(),
                ids@.len() == i,
                forall|j: int| 0 <= j < i ==> ids@[j]@ == self.items@[j].0@,
            decreases n - i,
        {
            ids.push(self.items[i].0.clone());
            i = i + 1;
        }
        proof {
            assert(ids.deep_view() =~= self.items@.map_values(
                |e: (String, Option<serde_json::Value>)| e.0@,
            ));
        }
        Ok(ids)
    }

    fn get_item(&self, id: &str) -> (r: Result<serde_json::Value, FetchError>) {
        let n = self.items.len();
        let mut i: usize = 0;
        proof {
            assert(self.items@.skip(0) =~= self.items@);
        }
        while i < n
            invariant
                0 <= i <= n,
                n == self.items@.len(),
                mock_lookup(self.items@.skip(i as int), id@) == mock_lookup(self.items@, id@),
            decreases n - i,
        {
            proof {
                assert(self.items@.skip(i as int)[0] == self.items@[i as int]);
                assert(self.items@.skip(i as int).drop_first() =~= self.items@.skip(i as int + 1));
            }
            if str_eq(self.items[i].0.as_str(), id) {
                match &self.items[i].1 {
                    Option::Some(payload) => {
                        return Ok(clone_value(payload));
                    },
                    Option::None => {
                        let mut message = String::from_str("mock error for id ");
                        message.append(id);
                        return Err(FetchError::provider(message));
                    },
                }
            }
            i = i + 1;
        }
        let mut message = String::from_str("no id ");
        message.append(id);
        message.append(" in mock");
        return Err(FetchError::provider(message));
    }
}

} // verus!
