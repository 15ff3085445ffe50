use vstd::prelude::*;
use crate::executor::DownloadOutcome;

verus! {

/// Aggregate counts of a run: per-item terminal outcomes and per-gallery
/// crawl results.  The run reports these at the end and derives its exit
/// status from them.
#[derive(Debug, Clone, Copy, PartialEq, Eq, Structural)]
pub struct RunSummary {
    /// Galleries whose crawl ran to completion.
    pub galleries_ok: u64,
    /// Galleries whose crawl failed; their items were not processed.
    pub galleries_failed: u64,
    /// Items whose asset was downloaded and written.
    pub succeeded: u64,
    /// Items whose output file already existed.
    pub skipped: u64,
    /// Items that failed resolution or exhausted their download attempts.
    pub failed: u64,
}

impl RunSummary {
    /// The number of item outcomes recorded so far.
    pub open spec fn items(&self) -> int {
        self.succeeded + self.skipped + self.failed
    }

    /// An empty summary: nothing recorded.
    pub fn new() -> (s: RunSummary)
        ensures
            s == (RunSummary {
                galleries_ok: 0,
                galleries_failed: 0,
                succeeded: 0,
                skipped: 0,
                failed: 0,
            }),
    {
        RunSummary { galleries_ok: 0, galleries_failed: 0, succeeded: 0, skipped: 0, failed: 0 }
    }

    /// Record one item's terminal outcome: exactly the counter of that
    /// outcome steps by one.  Every item ends in exactly one call of this,
    /// so no item's outcome is silently dropped.
    pub fn record_outcome(&mut self, o: &DownloadOutcome)
        requires
            old(self).succeeded < u64::MAX,
            old(self).skipped < u64::MAX,
            old(self).failed < u64::MAX,
        ensures
            final(self).succeeded == old(self).succeeded + (
            if (o matches DownloadOutcome::Succeeded) {
                1int
            } else {
                0int
            }),
            final(self).skipped == old(self).skipped + (if (o matches DownloadOutcome::Skipped) {
                1int
            } else {
                0int
            }),
            final(self).failed == old(self).failed + (if (o matches DownloadOutcome::Failed { .. }) {
                1int
            } else {
                0int
            }),
            final(self).galleries_ok == old(self).galleries_ok,
            final(self).galleries_failed == old(self).galleries_failed,
    {
        match o {
            DownloadOutcome::Succeeded => {
                self.succeeded = self.succeeded + 1;
            },
            DownloadOutcome::Skipped => {
                self.skipped = self.skipped + 1;
            },
            DownloadOutcome::Failed { .. } => {
                self.failed = self.failed + 1;
            },
        }
    }

    /// Record one gallery's crawl result: exactly the matching gallery
    /// counter steps by one.
    pub fn record_gallery(&mut self, ok: bool)
        requires
            old(self).galleries_ok < u64::MAX,
            old(self).galleries_failed < u64::MAX,
        ensures
            final(self).galleries_ok == old(self).galleries_ok + (if ok {
                1int
            } else {
                0int
            }),
            final(self).galleries_failed == old(self).galleries_failed + (if ok {
                0int
            } else {
                1int
            }),
            final(self).succeeded == old(self).succeeded,
            final(self).skipped == old(self).skipped,
            final(self).failed == old(self).failed,
    {
        if ok {
            self.galleries_ok = self.galleries_ok + 1;
        } else {
            self.galleries_failed = self.galleries_failed + 1;
        }
    }

    /// Whether the run as a whole failed: some gallery failed to crawl.
    /// Individual item failures are tolerated and do not fail the run.
    pub fn run_failed(&self) -> (b: bool)
        ensures
            b == (self.galleries_failed > 0),
    {
        self.galleries_failed > 0
    }
}

} // verus!
