//! The guarantees of a whole run, stated on their own: what any result of
//! `fetch_all_items` owes for a provider whose promises pin the run down.

use vstd::prelude::*;
use crate::errors::FetchError;
use crate::item::Item;
use crate::pipeline::{
    RunOutcome, collected_pairs, fetch_all_post, lemma_run_all_succeed, lemma_run_first_undecided,
    run_over,
};
use crate::provider::{FetchBehavior, ListingBehavior, Op};

verus! {

/// With every listed fetch promised to succeed, a run returns exactly the
/// listed items: one per listed id, in listing order, no omissions and no
/// duplicates beyond the listing's own, each carrying the promised payload.
pub proof fn lemma_fetch_all_complete<O: Op>(
    op: &O,
    r: Result<Vec<Item>, FetchError>,
    ids: Seq<Seq<char>>,
)
    requires
        op.listing() == (ListingBehavior::Lists { ids }),
        forall|j: int| 0 <= j < ids.len() ==> op.fetch(ids[j]) is Succeeds,
        fetch_all_post(op, r),
    ensures
        r matches Ok(v) && v@.len() == ids.len() && (forall|j: int|
            0 <= j < ids.len() ==> (#[trigger] v@[j].id@) == ids[j] && op.fetch(ids[j])
                == (FetchBehavior::Succeeds { payload: v@[j].payload })),
{
    lemma_run_all_succeed(op, ids);
}

/// A run over an empty listing returns an empty collection.
pub proof fn lemma_fetch_all_empty<O: Op>(op: &O, r: Result<Vec<Item>, FetchError>)
    requires
        op.listing() == (ListingBehavior::Lists { ids: Seq::<Seq<char>>::empty() }),
        fetch_all_post(op, r),
    ensures
        r matches Ok(v) && v@.len() == 0,
{
    lemma_fetch_all_complete(op, r, Seq::empty());
}

/// With exactly one listed id promised to fail and every other listed fetch
/// promised to succeed, a run fails with exactly that id's error message.
pub proof fn lemma_fetch_all_single_failure<O: Op>(
    op: &O,
    r: Result<Vec<Item>, FetchError>,
    ids: Seq<Seq<char>>,
    k: int,
    m: Seq<char>,
)
    requires
        op.listing() == (ListingBehavior::Lists { ids }),
        0 <= k < ids.len(),
        forall|j: int| 0 <= j < ids.len() && j != k ==> op.fetch(ids[j]) is Succeeds,
        op.fetch(ids[k]) == (FetchBehavior::Fails { message: m }),
        fetch_all_post(op, r),
    ensures
        r matches Err(e) && e matches FetchError::Provider { message } && message@ == m,
{
    lemma_run_first_undecided(op, ids, k);
}

/// Idempotence: against a provider whose promises pin the whole run down,
/// any two runs agree — the same collection, as pairs of id and payload, or
/// the same error message.
pub proof fn lemma_fetch_all_deterministic<O: Op>(
    op: &O,
    r1: Result<Vec<Item>, FetchError>,
    r2: Result<Vec<Item>, FetchError>,
)
    requires
        !(op.listing() is Undetermined),
        op.listing() matches ListingBehavior::Lists { ids } ==> !(run_over(op, ids) is Open),
        fetch_all_post(op, r1),
        fetch_all_post(op, r2),
    ensures
        r1 matches Ok(v1) ==> (r2 matches Ok(v2) && collected_pairs(v1@) == collected_pairs(v2@)),
        r1 matches Err(e1) ==> (r2 matches Err(e2) && e1 is Provider && e2 is Provider
            && e1.message_view() == e2.message_view()),
{
    match op.listing() {
        ListingBehavior::Lists { ids } => {
            match run_over(op, ids) {
                RunOutcome::Collected { items: _ } => {},
                RunOutcome::Failed { message: _ } => {},
                RunOutcome::Open => {},
            }
        },
        _ => {},
    }
}

} // verus!
