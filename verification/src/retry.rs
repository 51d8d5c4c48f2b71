//! A retrying decorator over any provider: bounded attempts, jittered
//! backoff, the last error returned unchanged.

use vstd::prelude::*;
use crate::console::emit_note;
use crate::errors::FetchError;
use crate::provider::{FetchBehavior, ListingBehavior, Op};
use crate::text::u64_to_string;

verus! {

/// How many times one id is fetched before its error is surfaced.
pub const MAX_ATTEMPTS: u64 = 5;

/// The backoff window grows by this many milliseconds per failed attempt.
pub const BACKOFF_BASE_MILLIS: u64 = 3000;

#[verifier::external_type_specification]
#[verifier::external_body]
pub struct ExInstant(std::time::Instant);

/// Relies on rand::random_range: a value drawn uniformly from the
/// half-open range `lo..hi`.
#[verifier::external_body]
fn draw_in_range(lo: u64, hi: u64) -> (r: u64)
    requires
        lo < hi,
    ensures
        lo <= r < hi,
{
    rand::random_range(lo..hi)
}

/// Relies on crossbeam::channel::after: a receiver that delivers one
/// message once `millis` milliseconds have elapsed.
#[verifier::external_body]
fn pause_timer(millis: u64) -> crossbeam::channel::Receiver<std::time::Instant> {
    crossbeam::channel::after(core::time::Duration::from_millis(millis))
}

/// Relies on Receiver::recv: blocks until the timer delivers.
#[verifier::external_body]
fn await_timer(timer: &crossbeam::channel::Receiver<std::time::Instant>) {
    let _ = timer.recv();
}

/// The jittered pause before the next attempt, once `tries` attempts have
/// failed: drawn uniformly from the window `[tries * BACKOFF_BASE_MILLIS,
/// (tries + 1) * BACKOFF_BASE_MILLIS)`, so the backoff grows with the
/// attempt and two workers retrying together spread out.
pub fn backoff_millis(tries: u64) -> (r: u64)
    requires
        1 <= tries < MAX_ATTEMPTS,
    ensures
        tries * BACKOFF_BASE_MILLIS <= r < (tries + 1) * BACKOFF_BASE_MILLIS,
{
    draw_in_range(tries * BACKOFF_BASE_MILLIS, (tries + 1) * BACKOFF_BASE_MILLIS)
}

/// Wraps a provider's `get_item` with up to `MAX_ATTEMPTS` attempts and a
/// jittered, growing pause between them; the listing is handed through
/// untouched. A pure decorator: it promises of each operation exactly what
/// the wrapped provider promises.
///
/// With `backoff` off the retries still happen but the pauses are only
/// announced, never slept — meant for tests, to keep every code path while
/// losing the waiting.
pub struct RetryOp<O: Op> {
    pub inner: O,
    pub backoff: bool,
}

impl<O: Op> RetryOp<O> {
    /// Decorates `inner`, sleeping between attempts.
    pub fn new(inner: O) -> (r: RetryOp<O>)
        ensures
            r == (RetryOp { inner, backoff: true }),
    {
        RetryOp { inner, backoff: true }
    }

    /// Decorates `inner` without the sleeps; the retries remain.
    pub fn new_without_backoff(inner: O) -> (r: RetryOp<O>)
        ensures
            r == (RetryOp { inner, backoff: false }),
    {
        RetryOp { inner, backoff: false }
    }

    /// Fetches one item, retrying failures, and reports how many provider
    /// calls were made: at least one, at most `MAX_ATTEMPTS`. An id whose
    /// fetch is promised to succeed is fetched once; one whose fetch is
    /// promised to fail is fetched exactly `MAX_ATTEMPTS` times and its
    /// last error is returned unmodified.
    pub fn get_item_with_attempts(&self, id: &str) -> (r: (
        Result<serde_json::Value, FetchError>,
        u64,
    ))
        ensures
            1 <= r.1 <= MAX_ATTEMPTS,
            self.inner.fetch(id@) matches FetchBehavior::Succeeds { payload } ==> r.0 == Ok::<
                serde_json::Value,
                FetchError,
            >(payload) && r.1 == 1,
            self.inner.fetch(id@) matches FetchBehavior::Fails { message: m } ==> (r.0 matches Err(
                e,
            ) && e matches FetchError::Provider { message } && message@ == m) && r.1
                == MAX_ATTEMPTS,
    {
        let mut tries: u64 = 0;
        loop
            invariant
                0 <= tries < MAX_ATTEMPTS,
                self.inner.fetch(id@) is Succeeds ==> tries == 0,
            decreases MAX_ATTEMPTS - tries,
        {
            tries = tries + 1;
            match self.inner.get_item(id) {
                Ok(payload) => {
                    return (Ok(payload), tries);
                },
                Err(e) => {
                    if tries == MAX_ATTEMPTS {
                        return (Err(e), tries);
                    }
                    let wait = backoff_millis(tries);
                    let mut line = if self.backoff {
                        String::from_str("get item: backing off: ")
                    } else {
                        String::from_str("get item: would have backed off: ")
                    };
                    let digits = u64_to_string(wait);
                    line.append(digits.as_str());
                    line.append("ms");
                    emit_note(line.as_str());
                    if self.backoff {
                        let timer = pause_timer(wait);
                        await_timer(&timer);
                    }
                },
            }
        }
    }
}

impl<O: Op> Op for RetryOp<O> {
    open spec fn listing(&self) -> ListingBehavior {
        self.inner.listing()
    }

    open spec fn fetch(&self, id: Seq<char>) -> FetchBehavior {
        self.inner.fetch(id)
    }

    fn list_items(&self) -> (r: Result<Vec<String>, FetchError>) {
        self.inner.list_items()
    }

    fn get_item(&self, id: &str) -> (r: Result<serde_json::Value, FetchError>) {
        let (result, _) = self.get_item_with_attempts(id);
        result
    }
}

} // verus!
