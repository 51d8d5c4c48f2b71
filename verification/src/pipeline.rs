//! The export run: list the ids once, fetch every item, aggregate the
//! results fail-fast, and report progress along the way.

use vstd::prelude::*;
use crate::console::{emit_status, now_millis};
use crate::errors::FetchError;
use crate::item::Item;
use crate::progress::ProgressReporter;
use crate::provider::{FetchBehavior, ListingBehavior, Op};
use crate::text::u64_to_string;

verus! {

/// What a run over a listed sequence of ids is promised to produce.
pub enum RunOutcome {
    /// Every listed fetch is promised to succeed: the run collects these
    /// pairs of id and payload, in listing order.
    Collected { items: Seq<(Seq<char>, serde_json::Value)> },
    /// The run fails with exactly this message: some listed fetch is
    /// promised to fail, and every fetch listed before it is promised to
    /// succeed.
    Failed { message: Seq<char> },
    /// Nothing is promised of some fetch at or before the first promised
    /// failure, so nothing is promised of the run.
    Open,
}

/// Folds the provider's promises over the listed ids, fail-fast: the first
/// promised failure ends the run with its message, and an undetermined
/// fetch before that leaves the run outcome open.
pub open spec fn run_over<O: Op>(op: &O, ids: Seq<Seq<char>>) -> RunOutcome
    decreases ids.len(),
{
    if ids.len() == 0 {
        RunOutcome::Collected { items: Seq::empty() }
    } else {
        match op.fetch(ids[0]) {
            FetchBehavior::Succeeds { payload } => match run_over(op, ids.drop_first()) {
                RunOutcome::Collected { items } => RunOutcome::Collected {
                    items: seq![(ids[0], payload)] + items,
                },
                rest => rest,
            },
            FetchBehavior::Fails { message } => RunOutcome::Failed { message },
            FetchBehavior::Undetermined => RunOutcome::Open,
        }
    }
}

/// The pairs of id and payload that a collection of items holds, in order.
pub open spec fn collected_pairs(items: Seq<Item>) -> Seq<(Seq<char>, serde_json::Value)> {
    items.map_values(|it: Item| (it.id@, it.payload))
}

/// Everything `fetch_all_items` promises of its result: the listing's
/// promised failure is returned as the run's error; a fully promised run is
/// returned exactly, collection or first failure; and any collection that
/// comes back pairs each listed id, in listing order, with a payload that
/// matches the provider's promise wherever there is one.
pub open spec fn fetch_all_post<O: Op>(op: &O, r: Result<Vec<Item>, FetchError>) -> bool {
    &&& (op.listing() matches ListingBehavior::Fails { message: m } ==> r matches Err(e)
        && e matches FetchError::Provider { message } && message@ == m)
    &&& (op.listing() matches ListingBehavior::Lists { ids } ==> {
        &&& (run_over(op, ids) matches RunOutcome::Collected { items } ==> r matches Ok(v)
            && collected_pairs(v@) == items)
        &&& (run_over(op, ids) matches RunOutcome::Failed { message: m } ==> r matches Err(e)
            && e matches FetchError::Provider { message } && message@ == m)
        &&& (r matches Ok(v) ==> v@.len() == ids.len() && (forall|i: int|
            0 <= i < ids.len() ==> (#[trigger] v@[i].id@) == ids[i] && (op.fetch(ids[i]) matches
            FetchBehavior::Succeeds { payload } ==> v@[i].payload == payload)))
    })
}

/// A run whose fetches are all promised to succeed is promised a collection:
/// exactly one pair per listed id, in listing order, with the promised
/// payload.
pub proof fn lemma_run_all_succeed<O: Op>(op: &O, ids: Seq<Seq<char>>)
    requires
        forall|j: int| 0 <= j < ids.len() ==> op.fetch(ids[j]) is Succeeds,
    ensures
        run_over(op, ids) matches RunOutcome::Collected { items } && items.len() == ids.len()
            && (forall|j: int|
            0 <= j < ids.len() ==> (#[trigger] items[j]).0 == ids[j] && op.fetch(ids[j])
                == (FetchBehavior::Succeeds { payload: items[j].1 })),
    decreases ids.len(),
{
    if ids.len() != 0 {
        lemma_run_all_succeed(op, ids.drop_first());
        assert(forall|j: int|
            0 <= j < ids.drop_first().len() ==> ids.drop_first()[j] == ids[j + 1]);
    }
}

/// Up to the first listed fetch that is not promised to succeed, the run is
/// decided by that fetch: a promised failure fails the run with the same
/// message, and an undetermined fetch leaves the run open.
pub proof fn lemma_run_first_undecided<O: Op>(op: &O, ids: Seq<Seq<char>>, k: int)
    requires
        0 <= k < ids.len(),
        forall|j: int| 0 <= j < k ==> op.fetch(ids[j]) is Succeeds,
    ensures
        op.fetch(ids[k]) matches FetchBehavior::Fails { message } ==> run_over(op, ids)
            == (RunOutcome::Failed { message }),
        op.fetch(ids[k]) is Undetermined ==> run_over(op, ids) is Open,
    decreases k,
{
    if k > 0 {
        assert(op.fetch(ids[0]) is Succeeds);
        lemma_run_first_undecided(op, ids.drop_first(), k - 1);
        assert(ids.drop_first()[k - 1] == ids[k]);
    }
}

/// Fetches every item the provider lists, fail-fast.
///
/// Lists the ids once; a listing failure is fatal and returned unchanged.
/// Then fetches the items one id at a time in listing order, counting each
/// listed id as pending and each observed result as done, and emitting a
/// throttled progress line while work remains. Successes are collected; the
/// first fetch failure ends the run at once with that error, and the
/// remaining ids are not fetched.
pub fn fetch_all_items<O: Op>(op: &O) -> (r: Result<Vec<Item>, FetchError>)
    ensures
        fetch_all_post(op, r),
{
    let mut progress = ProgressReporter::new();
    emit_status("listing items to export");

    let ids = match op.list_items() {
        Ok(ids) => ids,
        Err(e) => { return Err(e); },
    };

    let n = ids.len();
    let mut count_line = u64_to_string(n as u64);
    count_line.append(" total items - initiating fetch");
    emit_status(count_line.as_str());

    let mut i: usize = 0;
    while i < n
        invariant
            0 <= i <= n,
            progress.num_pending == i,
        decreases n - i,
    {
        progress.pending();
        i = i + 1;
    }

    let mut collected: Vec<Item> = Vec::new();
    let mut i: usize = 0;
    while i < n
        invariant
            0 <= i <= n,
            n == ids@.len(),
            !(op.listing() is Fails),
            op.listing() matches ListingBehavior::Lists { ids: lids } ==> ids.deep_view() == lids,
            op.listing() matches ListingBehavior::Lists { ids: lids } ==> ((forall|j: int|
                0 <= j < i ==> #[trigger] op.fetch(lids[j]) is Succeeds) || run_over(op, lids)
                is Open),
            progress.num_pending == n - i,
            collected@.len() == i,
            forall|j: int|
                0 <= j < i ==> (#[trigger] collected@[j]).id@ == ids@[j]@ && (op.fetch(ids@[j]@)
                    matches FetchBehavior::Succeeds { payload } ==> collected@[j].payload
                    == payload),
        decreases n - i,
    {
        let id = ids[i].clone();
        let fetched = op.get_item(id.as_str());

        let now = now_millis();
        match progress.done(now) {
            Some(outstanding) => {
                let mut line = u64_to_string(outstanding as u64);
                line.append(" items still to go");
                emit_status(line.as_str());
            },
            None => {},
        }

        match fetched {
            Ok(payload) => {
                proof {
                    match op.listing() {
                        ListingBehavior::Lists { ids: lids } => {
                            assert(lids[i as int] == ids@[i as int]@);
                            if (forall|j: int|
                                0 <= j < i ==> #[trigger] op.fetch(lids[j]) is Succeeds) && !(
                            op.fetch(lids[i as int]) is Succeeds) {
                                lemma_run_first_undecided(op, lids, i as int);
                            }
                        },
                        _ => {},
                    }
                }
                collected.push(Item { id, payload });
            },
            Err(e) => {
                proof {
                    match op.listing() {
                        ListingBehavior::Lists { ids: lids } => {
                            assert(lids[i as int] == ids@[i as int]@);
                            if forall|j: int|
                                0 <= j < i ==> #[trigger] op.fetch(lids[j]) is Succeeds {
                                lemma_run_first_undecided(op, lids, i as int);
                            }
                        },
                        _ => {},
                    }
                }
                return Err(e);
            },
        }
        i = i + 1;
    }

    proof {
        match op.listing() {
            ListingBehavior::Lists { ids: lids } => {
                assert(forall|j: int| 0 <= j < n ==> lids[j] == ids@[j]@);
                if forall|j: int| 0 <= j < n ==> #[trigger] op.fetch(lids[j]) is Succeeds {
                    lemma_run_all_succeed(op, lids);
                    match run_over(op, lids) {
                        RunOutcome::Collected { items } => {
                            assert(collected_pairs(collected@) =~= items);
                        },
                        _ => {},
                    }
                }
            },
            _ => {},
        }
    }
    Ok(collected)
}

} // verus!
