//! The shared id queue and results channel of the worker pool, and the
//! verified loops that feed on them.
//!
//! Both channels come from crossbeam. What travels through a channel is
//! shared with whatever threads hold its other end, so nothing is promised
//! here of which value an operation meets: the verified loops below promise
//! what holds of every outcome instead.

use vstd::prelude::*;
use crate::console::{emit_status, now_millis};
use crate::errors::FetchError;
use crate::item::Item;
use crate::progress::ProgressReporter;
use crate::provider::{FetchBehavior, Op};
use crate::text::u64_to_string;

verus! {

/// How many worker threads fetch items concurrently in one run.
pub const WORKER_COUNT: usize = 2;

#[verifier::external_type_specification]
#[verifier::external_body]
#[verifier::reject_recursive_types(T)]
pub struct ExSender<T>(crossbeam::channel::Sender<T>);

#[verifier::external_type_specification]
#[verifier::external_body]
#[verifier::reject_recursive_types(T)]
pub struct ExReceiver<T>(crossbeam::channel::Receiver<T>);

/// Relies on Sender::send: hands `id` to the queue. `false` when every
/// receiver is gone, in which case the id is dropped.
#[verifier::external_body]
pub(crate) fn send_id(queue: &crossbeam::channel::Sender<String>, id: String) -> bool {
    queue.send(id).is_ok()
}

/// Relies on Receiver::recv: blocks for the next id; `None` once the queue
/// is closed and drained.
#[verifier::external_body]
pub(crate) fn recv_id(queue: &crossbeam::channel::Receiver<String>) -> Option<String> {
    match queue.recv() {
        Ok(id) => Some(id),
        Err(_) => None,
    }
}

/// Relies on Sender::send: hands one fetch result to the channel. `false`
/// when every receiver is gone, in which case the result is dropped.
#[verifier::external_body]
pub(crate) fn send_result(
    results: &crossbeam::channel::Sender<Result<Item, FetchError>>,
    result: Result<Item, FetchError>,
) -> bool {
    results.send(result).is_ok()
}

/// Relies on Receiver::recv: blocks for the next fetch result; `None` once
/// the channel is closed and drained.
#[verifier::external_body]
pub(crate) fn recv_result(
    results: &crossbeam::channel::Receiver<Result<Item, FetchError>>,
) -> Option<Result<Item, FetchError>> {
    match results.recv() {
        Ok(r) => Some(r),
        Err(_) => None,
    }
}

/// One worker's step for one id: fetch it and tag the outcome — the item,
/// id paired with payload, or the error under the same id. Exactly one
/// result exists per dequeued id, and it keeps the provider's promise for
/// that id: the promised payload, or the promised failure's exact message.
pub fn fetch_one<O: Op>(op: &O, id: String) -> (r: Result<Item, FetchError>)
    ensures
        op.fetch(id@) matches FetchBehavior::Succeeds { payload } ==> r == Ok::<Item, FetchError>(
            Item { id, payload },
        ),
        op.fetch(id@) matches FetchBehavior::Fails { message: m } ==> (r matches Err(e)
            && e matches FetchError::Provider { message } && message@ == m),
        r matches Ok(it) ==> it.id == id,
{
    match op.get_item(id.as_str()) {
        Ok(payload) => Ok(Item { id, payload }),
        Err(e) => Err(e),
    }
}

/// One worker's loop: pull ids from the shared queue until it is closed and
/// drained, fetch each id from the provider, and push every outcome,
/// success or failure, onto the results channel. A failed push means the
/// consumer short-circuited and dropped its end: the worker stops instead
/// of fetching wasted work.
///
/// A worker handles at most `limit` ids; callers pass the number of ids the
/// run enqueues, which no worker can exceed, so the bound never cuts work
/// short and makes it plain that the loop ends. What is done per id is
/// `fetch_one`'s contract; which ids this worker meets depends on the other
/// workers and cannot be stated here.
pub fn get_items<O: Op>(
    ids: &crossbeam::channel::Receiver<String>,
    results: &crossbeam::channel::Sender<Result<Item, FetchError>>,
    op: &O,
    limit: usize,
)
{
    let mut handled: usize = 0;
    while handled < limit
        invariant
            handled <= limit,
        decreases limit - handled,
    {
        let id = match recv_id(ids) {
            Some(id) => id,
            None => { return; },
        };
        let outcome = fetch_one(op, id);
        if !send_result(results, outcome) {
            return;
        }
        handled = handled + 1;
    }
}

/// Pushes every id onto the workers' queue, counting each as pending.
/// `false` when the queue turned out closed, in which case the remaining
/// ids are dropped.
pub fn enqueue_ids(
    queue: &crossbeam::channel::Sender<String>,
    ids: Vec<String>,
    progress: &mut ProgressReporter,
) -> (ok: bool)
    requires
        old(progress).num_pending + ids@.len() <= usize::MAX,
    ensures
        final(progress).last_report_millis == old(progress).last_report_millis,
        ok ==> final(progress).num_pending == old(progress).num_pending + ids@.len(),
        !ok ==> old(progress).num_pending < final(progress).num_pending
            <= old(progress).num_pending + ids@.len(),
{
    let n = ids.len();
    let mut i: usize = 0;
    while i < n
        invariant
            0 <= i <= n,
            n == ids@.len(),
            progress.num_pending == old(progress).num_pending + i,
            old(progress).num_pending + n <= usize::MAX,
            progress.last_report_millis == old(progress).last_report_millis,
        decreases n - i,
    {
        let id = ids[i].clone();
        progress.pending();
        if !send_id(queue, id) {
            return false;
        }
        i = i + 1;
    }
    true
}

/// The aggregator's decision for one received result: a success joins the
/// collection at its end, a failure leaves the collection alone and is
/// handed back so the caller stops consuming — the fail-fast step itself.
pub fn consume_result(collected: &mut Vec<Item>, result: Result<Item, FetchError>) -> (stop:
    Option<FetchError>)
    ensures
        result matches Ok(item) ==> final(collected)@ == old(collected)@.push(item) && stop
            is None,
        result matches Err(e) ==> final(collected)@ == old(collected)@ && stop == Some(e),
{
    match result {
        Ok(item) => {
            collected.push(item);
            None
        },
        Err(e) => Some(e),
    }
}

/// The aggregation loop: consume fetch results one at a time, counting each
/// as done and emitting the throttled progress line, until every pending id
/// has produced one or the channel closed early. What is done with each
/// received result is `consume_result`'s contract; which results arrive,
/// and in which order, the channel cannot promise. The first failure is
/// returned at once, after consuming exactly that one result, without
/// waiting for in-flight work — dropping the receiver is what tells the
/// workers to stop.
///
/// An early close with results still pending means a worker died; the
/// caller owes its own check when it joins the workers (`conclude`). The
/// items collected so far are returned, one per result consumed.
pub fn drain_results(
    results: crossbeam::channel::Receiver<Result<Item, FetchError>>,
    progress: &mut ProgressReporter,
) -> (r: Result<Vec<Item>, FetchError>)
    ensures
        final(progress).num_pending <= old(progress).num_pending,
        r matches Ok(v) ==> v@.len() == old(progress).num_pending - final(progress).num_pending,
        r is Err ==> old(progress).num_pending > 0
            && final(progress).num_pending < old(progress).num_pending,
{
    let mut collected: Vec<Item> = Vec::new();
    while progress.num_pending > 0
        invariant
            progress.num_pending <= old(progress).num_pending,
            collected@.len() == old(progress).num_pending - progress.num_pending,
        decreases progress.num_pending,
    {
        let result = match recv_result(&results) {
            Some(result) => result,
            None => { return Ok(collected); },
        };
        let now = now_millis();
        match progress.done(now) {
            Some(outstanding) => {
                let mut line = u64_to_string(outstanding as u64);
                line.append(" items still to go");
                emit_status(line.as_str());
            },
            None => {},
        }
        match consume_result(&mut collected, result) {
            Some(e) => {
                return Err(e);
            },
            None => {},
        }
    }
    Ok(collected)
}

/// The run's verdict once the workers are joined: a worker that ended
/// abnormally surfaces as a pool error, even when the drain itself reported
/// success; otherwise the drain's outcome stands unchanged.
pub fn conclude(died: bool, r: Result<Vec<Item>, FetchError>) -> (v: Result<Vec<Item>, FetchError>)
    ensures
        died ==> (v matches Err(e) && e matches FetchError::Pool { message } && message@
            == "thread died"@),
        !died ==> v == r,
{
    if died {
        Err(FetchError::Pool { message: String::from_str("thread died") })
    } else {
        r
    }
}

} // verus!
