use vstd::prelude::*;

use crate::rollup::Rollup;
use crate::summary::Summary;
use crate::thread_stats::ThreadStats;

verus! {

/// Where a flushed delta goes. The process-wide default rollup is not held
/// here: whoever applies the flush passes it in.
#[derive(Clone, Copy)]
pub enum Target<'a> {
    /// The process-wide default rollup only.
    Global,
    /// The named rollup only.
    Local(&'a Rollup),
    /// The named rollup and, in addition, the process-wide default rollup.
    LocalAndGlobal(&'a Rollup),
}

/// A merge that a thread owes to one or two rollups: the drained active summary
/// and where it goes.
#[derive(Clone, Copy)]
pub struct Flush<'a> {
    /// The events drained from the thread's active summary.
    pub delta: Summary,
    /// The rollups that receive them.
    pub target: Target<'a>,
}

impl<'a> Flush<'a> {
    /// Merges the delta into each rollup that the target names; `global` stands
    /// for the process-wide default rollup.
    pub fn apply(&self, global: &Rollup) {
        match self.target {
            Target::Global => global.merge(&self.delta),
            Target::Local(rollup) => rollup.merge(&self.delta),
            Target::LocalAndGlobal(rollup) => {
                rollup.merge(&self.delta);
                global.merge(&self.delta);
            },
        }
    }
}

/// A policy that never flushes while the thread runs; the thread's final drain
/// happens when it ends.
#[derive(Clone, Copy, Debug, Default, PartialEq, Eq, Structural)]
pub struct NeverReport;

/// A policy that flushes to the process-wide default rollup after every event.
#[derive(Clone, Copy, Debug, Default, PartialEq, Eq, Structural)]
pub struct AlwaysReport;

/// A policy that flushes to the process-wide default rollup on an event that
/// comes more than `interval` nanoseconds after the previous flush.
#[derive(Clone, Copy, Debug, PartialEq, Eq, Structural)]
pub struct IntervalReport {
    /// The interval, in nanoseconds.
    pub interval: u64,
}

/// Like `IntervalReport`, but a flush goes to the named rollup and, in addition,
/// to the process-wide default rollup.
#[derive(Clone, Copy)]
pub struct LocalIntervalReport<'a> {
    /// The interval, in nanoseconds.
    pub interval: u64,
    /// The rollup that receives the flushes besides the default one.
    pub rollup: &'a Rollup,
}

/// A policy that flushes after every event, to the named rollup only: the
/// process-wide default rollup does not see these events while the thread runs.
#[derive(Clone, Copy)]
pub struct LocalAlwaysReport<'a> {
    /// The rollup that receives the flushes.
    pub rollup: &'a Rollup,
}

/// The closed set of reporting policies.
#[derive(Clone, Copy)]
pub enum Reporter<'a> {
    /// Flush only when the thread ends or asks to.
    Never(NeverReport),
    /// Flush to the default rollup after every event.
    Always(AlwaysReport),
    /// Flush to the default rollup once an interval has passed.
    Interval(IntervalReport),
    /// Flush to a named rollup and the default one once an interval has passed.
    LocalInterval(LocalIntervalReport<'a>),
    /// Flush to a named rollup only, after every event.
    LocalAlways(LocalAlwaysReport<'a>),
}

/// Whether a policy with the given interval flushes at `now`, its last flush
/// having been at `last`.
pub open spec fn interval_elapsed(interval: u64, last: u64, now: u64) -> bool {
    now - last > interval
}

impl NeverReport {
    /// Leaves the thread's state as it is and asks for no flush.
    pub fn report<'a>(&self, ts: &mut ThreadStats<'a>, now: u64) -> (r: Option<Flush<'a>>)
        ensures
            (*final(ts), r) == Reporter::Never(*self).spec_report(*old(ts), now),
    {
        None
    }
}

impl AlwaysReport {
    /// Drains the thread's active summary into a flush to the default rollup.
    pub fn report<'a>(&self, ts: &mut ThreadStats<'a>, now: u64) -> (r: Option<Flush<'a>>)
        ensures
            (*final(ts), r) == Reporter::Always(*self).spec_report(*old(ts), now),
    {
        Some(ts.drain(Target::Global))
    }
}

impl IntervalReport {
    /// A policy with the given interval, in nanoseconds.
    pub fn new(interval: u64) -> (r: IntervalReport)
        ensures
            r.interval == interval,
    {
        IntervalReport { interval }
    }

    /// On the first event, sets the baseline time; later, drains the thread's
    /// active summary into a flush to the default rollup once more than the
    /// interval has passed since the last flush.
    pub fn report<'a>(&self, ts: &mut ThreadStats<'a>, now: u64) -> (r: Option<Flush<'a>>)
        ensures
            (*final(ts), r) == Reporter::Interval(*self).spec_report(*old(ts), now),
    {
        interval_report(ts, self.interval, Target::Global, now)
    }
}

impl<'a> LocalIntervalReport<'a> {
    /// As `IntervalReport::report`, but the flush goes to the named rollup and
    /// to the default one.
    pub fn report(&self, ts: &mut ThreadStats<'a>, now: u64) -> (r: Option<Flush<'a>>)
        ensures
            (*final(ts), r) == Reporter::LocalInterval(*self).spec_report(*old(ts), now),
    {
        interval_report(ts, self.interval, Target::LocalAndGlobal(self.rollup), now)
    }

    /// The rollup that explicit flushes go to.
    pub fn rollup(&self) -> (r: &'a Rollup)
        ensures
            r == self.rollup,
    {
        self.rollup
    }

    /// A policy with the given interval, in nanoseconds, and the given rollup.
    pub fn new(interval: u64, rollup: &'a Rollup) -> (r: LocalIntervalReport<'a>)
        ensures
            r.interval == interval,
            r.rollup == rollup,
    {
        LocalIntervalReport { interval, rollup }
    }
}

impl<'a> LocalAlwaysReport<'a> {
    /// Drains the thread's active summary into a flush to the named rollup only.
    pub fn report(&self, ts: &mut ThreadStats<'a>, now: u64) -> (r: Option<Flush<'a>>)
        ensures
            (*final(ts), r) == Reporter::LocalAlways(*self).spec_report(*old(ts), now),
    {
        Some(ts.drain(Target::Local(self.rollup)))
    }

    /// The rollup that every flush goes to.
    pub fn rollup(&self) -> (r: &'a Rollup)
        ensures
            r == self.rollup,
    {
        self.rollup
    }

    /// A policy that reports to the given rollup.
    pub fn new(rollup: &'a Rollup) -> (r: LocalAlwaysReport<'a>)
        ensures
            r.rollup == rollup,
    {
        LocalAlwaysReport { rollup }
    }
}

impl<'a> Reporter<'a> {
    /// The rollups that an explicit flush or the thread's final drain goes to.
    pub open spec fn spec_target(self) -> Target<'a> {
        match self {
            Reporter::LocalInterval(p) => Target::Local(p.rollup),
            Reporter::LocalAlways(p) => Target::Local(p.rollup),
            _ => Target::Global,
        }
    }

    /// What the policy does to a thread's state on an event at `now`, and the
    /// flush that it asks for, if any.
    pub open spec fn spec_report(self, ts: ThreadStats<'a>, now: u64) -> (ThreadStats<'a>, Option<
        Flush<'a>,
    >) {
        match self {
            Reporter::Never(_) => (ts, None),
            Reporter::Always(_) => (ts.spec_drained(), Some(ts.spec_flush_of(Target::Global))),
            Reporter::Interval(p) => spec_interval_report(
                ts,
                p.interval,
                Target::Global,
                now,
            ),
            Reporter::LocalInterval(p) => spec_interval_report(
                ts,
                p.interval,
                Target::LocalAndGlobal(p.rollup),
                now,
            ),
            Reporter::LocalAlways(p) => (
                ts.spec_drained(),
                Some(ts.spec_flush_of(Target::Local(p.rollup))),
            ),
        }
    }

    /// The rollups that an explicit flush or the thread's final drain goes to:
    /// the named rollup of a local policy, else the process-wide default one.
    pub fn rollup(&self) -> (r: Target<'a>)
        ensures
            r == self.spec_target(),
    {
        match self {
            Reporter::LocalInterval(p) => Target::Local(p.rollup()),
            Reporter::LocalAlways(p) => Target::Local(p.rollup()),
            _ => Target::Global,
        }
    }

    /// Applies the policy to a thread's state on an event at `now` (nanoseconds
    /// on a monotonic clock), and returns the flush that it asks for, if any.
    pub fn report(&self, ts: &mut ThreadStats<'a>, now: u64) -> (r: Option<Flush<'a>>)
        ensures
            (*final(ts), r) == self.spec_report(*old(ts), now),
    {
        match self {
            Reporter::Never(p) => p.report(ts, now),
            Reporter::Always(p) => p.report(ts, now),
            Reporter::Interval(p) => p.report(ts, now),
            Reporter::LocalInterval(p) => p.report(ts, now),
            Reporter::LocalAlways(p) => p.report(ts, now),
        }
    }
}

/// The interval policy: the first event only sets the baseline time; a later
/// event flushes to `target` and moves the baseline when more than `interval`
/// has passed since it.
pub open spec fn spec_interval_report<'a>(
    ts: ThreadStats<'a>,
    interval: u64,
    target: Target<'a>,
    now: u64,
) -> (ThreadStats<'a>, Option<Flush<'a>>) {
    match ts.last_updated {
        None => (ThreadStats { last_updated: Some(now), ..ts }, None),
        Some(last) => if interval_elapsed(interval, last, now) {
            (ThreadStats { last_updated: Some(now), ..ts.spec_drained() }, Some(ts.spec_flush_of(target)))
        } else {
            (ts, None)
        },
    }
}

fn interval_report<'a>(ts: &mut ThreadStats<'a>, interval: u64, target: Target<'a>, now: u64) -> (r:
    Option<Flush<'a>>)
    ensures
        (*final(ts), r) == spec_interval_report(*old(ts), interval, target, now),
{
    match ts.last_updated() {
        Some(last) => {
            if now > last && now - last > interval {
                let flush = ts.drain(target);
                ts.set_last_updated(now);
                Some(flush)
            } else {
                None
            }
        },
        None => {
            ts.set_last_updated(now);
            None
        },
    }
}

} // verus!
