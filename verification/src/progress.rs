//! Throttled reporting of how many fetches are still outstanding.

use vstd::prelude::*;

verus! {

/// Minimum quiet period, in milliseconds, between two progress reports.
pub const REPORT_INTERVAL_MILLIS: u64 = 1000;

/// Counts outstanding work and decides when a progress line is due.
///
/// `pending` is called once per id as it is handed to the fetch pipeline and
/// `done` once per observed result; `done` asks for a report only while work
/// remains and at most once per `REPORT_INTERVAL_MILLIS`.
pub struct ProgressReporter {
    /// Clock reading, in milliseconds, taken when the last report was due.
    pub last_report_millis: u64,
    /// Ids handed out whose results have not yet been observed.
    pub num_pending: usize,
}

/// Whether finishing one unit of work at time `now_millis` should emit a
/// progress report: work must remain afterwards and the quiet period since
/// the last report must have passed.
pub open spec fn report_due(before: ProgressReporter, now_millis: u64) -> bool {
    &&& before.num_pending > 1
    &&& now_millis >= before.last_report_millis
    &&& now_millis - before.last_report_millis > REPORT_INTERVAL_MILLIS
}

impl ProgressReporter {
    /// Starts with no outstanding work; the quiet period is measured from
    /// the moment of construction.
    pub fn new() -> (r: ProgressReporter)
        ensures
            r.num_pending == 0,
    {
        ProgressReporter { last_report_millis: crate::console::now_millis(), num_pending: 0 }
    }

    /// Records one more unit of outstanding work.
    pub fn pending(&mut self)
        requires
            old(self).num_pending < usize::MAX,
        ensures
            final(self).num_pending == old(self).num_pending + 1,
            final(self).last_report_millis == old(self).last_report_millis,
    {
        self.num_pending = self.num_pending + 1;
    }

    /// Records one observed result. Returns `Some(n)`, with `n` the number of
    /// results still outstanding, exactly when a progress line is due; the
    /// caller is expected to emit it.
    pub fn done(&mut self, now_millis: u64) -> (report: Option<usize>)
        requires
            old(self).num_pending >= 1,
        ensures
            final(self).num_pending == old(self).num_pending - 1,
            report_due(*old(self), now_millis) ==> report == Some(final(self).num_pending)
                && final(self).last_report_millis == now_millis,
            !report_due(*old(self), now_millis) ==> report is None
                && final(self).last_report_millis == old(self).last_report_millis,
    {
        self.num_pending = self.num_pending - 1;

        if self.num_pending > 0 && now_millis >= self.last_report_millis && now_millis
            - self.last_report_millis > REPORT_INTERVAL_MILLIS {
            self.last_report_millis = now_millis;
            Some(self.num_pending)
        } else {
            None
        }
    }
}

} // verus!
