use vstd::prelude::*;

use crate::reporter::{AlwaysReport, Flush, IntervalReport, LocalAlwaysReport, Reporter, Target};
use crate::summary::{lemma_record_minus, lemma_record_then_plus, Event, Summary};

verus! {

/// The allocation statistics of one thread: the events not yet flushed, the
/// total of everything flushed so far, the time of the last flush, and a policy
/// that overrides the allocator's default one for this thread.
///
/// Times are nanoseconds on a monotonic clock.
#[derive(Clone, Copy)]
pub struct ThreadStats<'a> {
    /// Events since the last flush.
    pub active: Summary,
    /// The sum of everything flushed from this thread.
    pub thread_total: Summary,
    /// The time of the last flush, absent until an interval policy first runs.
    pub last_updated: Option<u64>,
    /// The policy set for this thread, if any.
    pub reporter: Option<Reporter<'a>>,
}

impl<'a> ThreadStats<'a> {
    /// Everything this thread has recorded: active plus flushed.
    pub open spec fn spec_summary(self) -> Summary {
        self.active.spec_plus(self.thread_total)
    }

    /// The state after the active summary is moved into the thread total.
    pub open spec fn spec_drained(self) -> ThreadStats<'a> {
        ThreadStats {
            active: Summary::zero(),
            thread_total: self.thread_total.spec_plus(self.active),
            ..self
        }
    }

    /// The flush of the active summary to `target`.
    pub open spec fn spec_flush_of(self, target: Target<'a>) -> Flush<'a> {
        Flush { delta: self.active, target }
    }

    /// The policy in effect: the thread's own, else the given default.
    pub open spec fn spec_in_effect(self, default: Reporter<'a>) -> Reporter<'a> {
        match self.reporter {
            Some(r) => r,
            None => default,
        }
    }

    /// The rollups that an explicit flush or the final drain goes to.
    pub open spec fn spec_target(self) -> Target<'a> {
        match self.reporter {
            Some(r) => r.spec_target(),
            None => Target::Global,
        }
    }

    /// What recording an event at `now` does: count it, then apply the policy
    /// in effect.
    pub open spec fn spec_record(self, e: Event, default: Reporter<'a>, now: u64) -> (
        ThreadStats<'a>,
        Option<Flush<'a>>,
    ) {
        let counted = ThreadStats { active: self.active.spec_record(e), ..self };
        counted.spec_in_effect(default).spec_report(counted, now)
    }

    /// A thread's statistics before its first event.
    pub fn new() -> (r: ThreadStats<'a>)
        ensures
            r.active == Summary::zero(),
            r.thread_total == Summary::zero(),
            r.last_updated is None,
            r.reporter is None,
    {
        ThreadStats {
            active: Summary::new(),
            thread_total: Summary::new(),
            last_updated: None,
            reporter: None,
        }
    }

    /// Sets the time of the last flush.
    pub fn set_last_updated(&mut self, now: u64)
        ensures
            *final(self) == (ThreadStats { last_updated: Some(now), ..*old(self) }),
    {
        self.last_updated = Some(now);
    }

    /// The time of the last flush, if any.
    pub fn last_updated(&self) -> (r: Option<u64>)
        ensures
            r == self.last_updated,
    {
        self.last_updated
    }

    /// Moves the active summary into the thread total and returns it as a flush
    /// to `target`.
    pub fn drain(&mut self, target: Target<'a>) -> (r: Flush<'a>)
        ensures
            *final(self) == old(self).spec_drained(),
            r == old(self).spec_flush_of(target),
    {
        let delta = self.active;
        self.thread_total.add_assign(&delta);
        self.active.reset();
        Flush { delta, target }
    }

    /// Forces a flush at `now` to the rollups of the thread's policy (the
    /// process-wide default one when none is set), and records `now` as the time
    /// of the last flush. The caller applies the returned flush.
    pub fn flush(&mut self, now: u64) -> (r: Flush<'a>)
        ensures
            *final(self) == (ThreadStats { last_updated: Some(now), ..old(self).spec_drained() }),
            r == old(self).spec_flush_of(old(self).spec_target()),
    {
        let target = match self.reporter {
            Some(reporter) => reporter.rollup(),
            None => Target::Global,
        };
        let flush = self.drain(target);
        self.set_last_updated(now);
        flush
    }

    /// The final drain of a thread that ends: whatever is active goes to the
    /// rollups of the thread's policy, whichever policy it is.
    pub fn teardown(&mut self) -> (r: Flush<'a>)
        ensures
            *final(self) == old(self).spec_drained(),
            r == old(self).spec_flush_of(old(self).spec_target()),
    {
        let target = match self.reporter {
            Some(reporter) => reporter.rollup(),
            None => Target::Global,
        };
        self.drain(target)
    }

    /// Installs a policy for this thread, after flushing what is active to the
    /// rollups of the policy that was in effect until now.
    pub fn set_thread_reporter(&mut self, reporter: Reporter<'a>, now: u64) -> (r: Flush<'a>)
        ensures
            *final(self) == (ThreadStats {
                last_updated: Some(now),
                reporter: Some(reporter),
                ..old(self).spec_drained()
            }),
            r == old(self).spec_flush_of(old(self).spec_target()),
    {
        let flush = self.flush(now);
        self.reporter = Some(reporter);
        flush
    }

    /// Everything this thread has recorded: the active summary plus the total
    /// already flushed.
    pub fn summary(&self) -> (r: Summary)
        ensures
            r == self.spec_summary(),
    {
        self.active.plus(self.thread_total)
    }

    /// Applies the policy in effect (the thread's own, else `default`) at `now`.
    pub fn report(&mut self, default: &Reporter<'a>, now: u64) -> (r: Option<Flush<'a>>)
        ensures
            (*final(self), r) == old(self).spec_in_effect(*default).spec_report(*old(self), now),
    {
        match self.reporter {
            Some(reporter) => reporter.report(self, now),
            None => default.report(self, now),
        }
    }

    /// Counts one event at `now`, then applies the policy in effect, and returns
    /// the flush that the policy asks for, if any.
    pub fn record(&mut self, e: Event, default: &Reporter<'a>, now: u64) -> (r: Option<Flush<'a>>)
        ensures
            (*final(self), r) == old(self).spec_record(e, *default, now),
    {
        self.active.record(e);
        self.report(default, now)
    }
}

/// Under the policy that flushes after every event, the call that records an
/// event hands it to the default rollup at once: the flush it returns holds
/// everything active, that event included, and nothing stays buffered.
pub proof fn lemma_always_reports_each_event<'a>(
    ts: ThreadStats<'a>,
    e: Event,
    default: Reporter<'a>,
    p: AlwaysReport,
    now: u64,
)
    requires
        ts.spec_in_effect(default) == Reporter::Always(p),
    ensures
        ({
            let (after, flush) = ts.spec_record(e, default, now);
            &&& flush == Some(
                Flush { delta: ts.active.spec_record(e), target: Target::Global },
            )
            &&& after.active == Summary::zero()
            &&& after.thread_total == ts.thread_total.spec_plus(ts.active.spec_record(e))
        }),
{
}

/// Under a local policy that flushes after every event, each event goes at once
/// to the named rollup, and to no other.
pub proof fn lemma_local_always_reports_each_event<'a>(
    ts: ThreadStats<'a>,
    e: Event,
    default: Reporter<'a>,
    p: LocalAlwaysReport<'a>,
    now: u64,
)
    requires
        ts.spec_in_effect(default) == Reporter::LocalAlways(p),
    ensures
        ({
            let (after, flush) = ts.spec_record(e, default, now);
            &&& flush == Some(
                Flush { delta: ts.active.spec_record(e), target: Target::Local(p.rollup) },
            )
            &&& after.active == Summary::zero()
        }),
{
}

/// Under an interval policy with interval `d`, two events on one thread that
/// come no more than `d` apart do not both flush; when they come more than `d`
/// apart, the second one flushes.
pub proof fn lemma_interval_flushes<'a>(
    ts: ThreadStats<'a>,
    default: Reporter<'a>,
    p: IntervalReport,
    e1: Event,
    t1: u64,
    e2: Event,
    t2: u64,
)
    requires
        ts.spec_in_effect(default) == Reporter::Interval(p),
        t1 <= t2,
        ts.last_updated matches Some(last) ==> last <= t1,
    ensures
        ({
            let (between, flush1) = ts.spec_record(e1, default, t1);
            let (after, flush2) = between.spec_record(e2, default, t2);
            &&& t2 - t1 <= p.interval ==> !(flush1 is Some && flush2 is Some)
            &&& t2 - t1 > p.interval ==> flush2 is Some
        }),
{
}

/// A flush moves events from the active summary to the thread total without
/// changing what the thread reports as its summary.
pub proof fn lemma_drain_keeps_summary<'a>(ts: ThreadStats<'a>)
    ensures
        ts.spec_drained().spec_summary() == ts.spec_summary(),
{
}

/// No policy changes what the thread reports as its summary.
pub proof fn lemma_report_keeps_summary<'a>(r: Reporter<'a>, ts: ThreadStats<'a>, now: u64)
    ensures
        r.spec_report(ts, now).0.spec_summary() == ts.spec_summary(),
{
    lemma_drain_keeps_summary(ts);
}

/// Recording one event changes the thread's summary by exactly that event,
/// whatever the policy does: the difference between the summaries read before
/// and after is the event recorded into a zero summary.
pub proof fn lemma_record_changes_summary_by_event<'a>(
    ts: ThreadStats<'a>,
    e: Event,
    default: Reporter<'a>,
    now: u64,
)
    ensures
        ({
            let (after, _) = ts.spec_record(e, default, now);
            after.spec_summary().spec_minus(ts.spec_summary()) == Summary::zero().spec_record(e)
        }),
{
    let counted = ThreadStats { active: ts.active.spec_record(e), ..ts };
    lemma_report_keeps_summary(counted.spec_in_effect(default), counted, now);
    lemma_record_then_plus(ts.active, ts.thread_total, e);
    lemma_record_minus(ts.spec_summary(), e);
}

} // verus!
