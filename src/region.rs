use vstd::prelude::*;

use crate::summary::Summary;
use crate::thread_stats::ThreadStats;

verus! {

/// A snapshot of one thread's statistics, used to read the net allocation
/// activity of that thread between two points.
///
/// It only means something against the statistics of the thread that made it.
#[derive(Clone, Copy, Debug)]
pub struct Region {
    initial_stats: Summary,
}

impl View for Region {
    type V = Summary;

    /// The snapshot taken at creation or at the last reset.
    closed spec fn view(&self) -> Summary {
        self.initial_stats
    }
}

impl Region {
    /// A region starting at the current statistics of the thread.
    pub fn new(ts: &ThreadStats) -> (r: Region)
        ensures
            r@ == ts.spec_summary(),
    {
        Region { initial_stats: ts.summary() }
    }

    /// The statistics as of creation or the last reset.
    pub fn initial(&self) -> (r: Summary)
        ensures
            r == self@,
    {
        self.initial_stats
    }

    /// The difference between the thread's current statistics and `initial()`.
    pub fn change(&self, ts: &ThreadStats) -> (r: Summary)
        ensures
            r == ts.spec_summary().spec_minus(self@),
    {
        ts.summary().minus(self.initial_stats)
    }

    /// The difference between the thread's current statistics and `initial()`;
    /// the current statistics then become the new initial ones.
    pub fn change_and_reset(&mut self, ts: &ThreadStats) -> (r: Summary)
        ensures
            r == ts.spec_summary().spec_minus(old(self)@),
            final(self)@ == ts.spec_summary(),
    {
        let latest = ts.summary();
        let diff = latest.minus(self.initial_stats);
        self.initial_stats = latest;
        diff
    }

    /// Makes the thread's current statistics the new initial ones.
    pub fn reset(&mut self, ts: &ThreadStats)
        ensures
            final(self)@ == ts.spec_summary(),
    {
        self.initial_stats = ts.summary();
    }
}

/// A region read right after it was made, with no event in between, shows the
/// zero summary.
pub proof fn lemma_fresh_region_is_empty(r: Region, ts: ThreadStats)
    requires
        r@ == ts.spec_summary(),
    ensures
        ts.spec_summary().spec_minus(r@) == Summary::zero(),
{
}

} // verus!
