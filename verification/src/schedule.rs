//! Drift-corrected tick scheduling.
//!
//! The scheduler owns a ladder of absolute deadlines anchored at the
//! start time: tick 0 runs at the anchor and tick k is due at
//! `start + k * interval`, so after k completed ticks the pending
//! deadline is `start + (k+1) * interval`. After each tick the
//! scheduler decides whether to sleep until the next deadline or,
//! when the tick overran its budget, to proceed immediately; either
//! way the ladder advances by exactly one interval, so the long-run
//! tick rate tracks the configured interval and transient overruns
//! never shift later deadlines.
//!
//! Times are plain milliseconds on a caller-chosen monotonic clock.
//! The caller performs the actual sleeps and reports the clock back.

use vstd::prelude::*;

verus! {

/// What the caller must do between one tick and the next.
#[derive(Clone, Copy, Debug, PartialEq, Eq, Structural)]
pub enum TickWait {
    /// The tick finished early: suspend for this many milliseconds,
    /// which lands exactly on the next deadline.
    Sleep { duration_ms: u64 },
    /// The tick overran the interval: do not sleep, report the
    /// overrun, and run the next tick immediately.
    Overrun,
}

/// The scheduler's state: the deadline ladder's anchor, cadence, and
/// progress along it.
pub struct Scheduler {
    /// Tick cadence, in milliseconds; strictly positive.
    pub interval_ms: u64,
    /// The instant the ladder is anchored to.
    pub start_ms: u64,
    /// How many deadlines have been consumed so far.
    pub ticks_completed: u64,
    /// Absolute time of the next deadline.
    pub next_deadline_ms: u64,
}

impl Scheduler {
    /// The deadline ladder invariant: the pending deadline is a
    /// function of the anchor, the cadence and the tick count alone —
    /// never of how long any tick's execution took.
    pub open spec fn wf(self) -> bool {
        &&& self.interval_ms > 0
        &&& self.next_deadline_ms == self.start_ms + (self.ticks_completed + 1) * self.interval_ms
    }

    /// Anchor a new ladder at `now_ms` with the given cadence.
    pub fn new(interval_ms: u64, now_ms: u64) -> (r: Scheduler)
        requires
            interval_ms > 0,
            now_ms + interval_ms <= u64::MAX,
        ensures
            r.wf(),
            r.interval_ms == interval_ms,
            r.start_ms == now_ms,
            r.ticks_completed == 0,
            r.next_deadline_ms == now_ms + interval_ms,
    {
        proof {
            assert((0 + 1) * (interval_ms as int) == interval_ms as int) by (nonlinear_arith);
        }
        Scheduler {
            interval_ms,
            start_ms: now_ms,
            ticks_completed: 0,
            next_deadline_ms: now_ms + interval_ms,
        }
    }

    /// Decide what to do now that a tick has finished at `now_ms`:
    /// sleep out the remainder of the interval, or — on an overrun —
    /// proceed immediately.
    pub fn decide(&self, now_ms: u64) -> (r: TickWait)
        ensures
            now_ms < self.next_deadline_ms ==> r == (TickWait::Sleep {
                duration_ms: (self.next_deadline_ms - now_ms) as u64,
            }),
            now_ms >= self.next_deadline_ms ==> r == TickWait::Overrun,
    {
        if now_ms < self.next_deadline_ms {
            TickWait::Sleep { duration_ms: self.next_deadline_ms - now_ms }
        } else {
            TickWait::Overrun
        }
    }

    /// Advance the ladder by exactly one interval. The new deadline is
    /// the old one plus the cadence — never resynchronised to the
    /// clock — so a late tick borrows no extra budget for later ones.
    pub fn advance(&mut self)
        requires
            old(self).next_deadline_ms + old(self).interval_ms <= u64::MAX,
            old(self).ticks_completed < u64::MAX,
        ensures
            final(self).interval_ms == old(self).interval_ms,
            final(self).start_ms == old(self).start_ms,
            final(self).ticks_completed == old(self).ticks_completed + 1,
            final(self).next_deadline_ms == old(self).next_deadline_ms + old(self).interval_ms,
    {
        self.ticks_completed = self.ticks_completed + 1;
        self.next_deadline_ms = self.next_deadline_ms + self.interval_ms;
    }
}

/// Advancing preserves the deadline ladder invariant: a well-formed
/// scheduler is still well-formed after [`Scheduler::advance`].
pub proof fn lemma_advance_preserves_wf(pre: Scheduler, post: Scheduler)
    requires
        pre.wf(),
        post.interval_ms == pre.interval_ms,
        post.start_ms == pre.start_ms,
        post.ticks_completed == pre.ticks_completed + 1,
        post.next_deadline_ms == pre.next_deadline_ms + pre.interval_ms,
    ensures
        post.wf(),
{
    let t = pre.ticks_completed as int;
    let i = pre.interval_ms as int;
    assert((t + 1) * i + i == (t + 2) * i) by (nonlinear_arith);
}

/// The deadline for tick `k` of a ladder anchored at `start`: tick 0
/// runs at the anchor itself, tick k at `start + k * interval`.
pub open spec fn spec_deadline(start: int, interval: int, k: int) -> int {
    start + k * interval
}

/// When tick `k` begins, in a run where tick `i` takes
/// `exec_times[i]` to execute and the driver sleeps exactly what
/// [`Scheduler::decide`] returns: tick 0 begins at the anchor; tick k
/// begins at its deadline, or — after an overrun — the moment tick
/// k-1 ended, whichever is later.
pub open spec fn spec_tick_start(start: int, interval: int, exec_times: Seq<int>, k: int) -> int
    decreases k,
{
    if k <= 0 {
        start
    } else {
        let prev_end = spec_tick_start(start, interval, exec_times, k - 1) + exec_times[k - 1];
        if prev_end < spec_deadline(start, interval, k) {
            spec_deadline(start, interval, k)
        } else {
            prev_end
        }
    }
}

/// A tick never begins before its own deadline.
pub proof fn lemma_tick_start_not_early(start: int, interval: int, exec_times: Seq<int>, k: int)
    requires
        0 <= k,
    ensures
        spec_tick_start(start, interval, exec_times, k) >= spec_deadline(start, interval, k),
{
    if k == 0 {
        assert(0 * interval == 0) by (nonlinear_arith);
    }
}

/// Ticks execute strictly sequentially and none is skipped: tick
/// `k + 1` never begins before tick `k` has ended.
pub proof fn lemma_ticks_never_overlap(start: int, interval: int, exec_times: Seq<int>, k: int)
    requires
        0 <= k,
    ensures
        spec_tick_start(start, interval, exec_times, k + 1) >= spec_tick_start(
            start,
            interval,
            exec_times,
            k,
        ) + exec_times[k],
{
}

/// A well-formed scheduler always sleeps toward the model's next
/// deadline: the pending deadline of a scheduler that has completed
/// `ticks_completed` ticks is the ladder's deadline for the next one.
pub proof fn lemma_scheduler_tracks_ladder(s: Scheduler)
    requires
        s.wf(),
    ensures
        s.next_deadline_ms == spec_deadline(
            s.start_ms as int,
            s.interval_ms as int,
            s.ticks_completed + 1,
        ),
{
}

/// One rung of the run model, tied to the executable scheduler: for a
/// well-formed scheduler that has completed `k` ticks, if tick `k`
/// ends at `now`, then the instant the next tick begins — at the
/// pending deadline after sleeping what [`Scheduler::decide`] returns,
/// or at `now` itself on an overrun — is exactly the model's start
/// time for tick `k + 1`.
pub proof fn lemma_decide_matches_run_model(s: Scheduler, exec_times: Seq<int>, now: int)
    requires
        s.wf(),
        s.ticks_completed < exec_times.len(),
        now == spec_tick_start(
            s.start_ms as int,
            s.interval_ms as int,
            exec_times,
            s.ticks_completed as int,
        ) + exec_times[s.ticks_completed as int],
    ensures
        (if now < s.next_deadline_ms {
            s.next_deadline_ms as int
        } else {
            now
        }) == spec_tick_start(
            s.start_ms as int,
            s.interval_ms as int,
            exec_times,
            s.ticks_completed + 1,
        ),
{
}

/// No cumulative drift: as long as every execution time stays under
/// the interval, tick `k` begins exactly at `start + k * interval` —
/// execution times never shift the ladder.
pub proof fn lemma_no_drift(start: int, interval: int, exec_times: Seq<int>, k: int)
    requires
        0 < interval,
        0 <= k <= exec_times.len(),
        forall|i: int| 0 <= i < k ==> 0 <= #[trigger] exec_times[i] < interval,
    ensures
        spec_tick_start(start, interval, exec_times, k) == spec_deadline(start, interval, k),
    decreases k,
{
    if k == 0 {
        assert(0 * interval == 0) by (nonlinear_arith);
    } else {
        lemma_no_drift(start, interval, exec_times, k - 1);
        assert((k - 1) * interval + interval == k * interval) by (nonlinear_arith);
    }
}

/// An overrun is never slept off: when tick `j` executes for at least
/// one whole interval, tick `j + 1` begins the moment tick `j` ends.
pub proof fn lemma_overrun_runs_next_tick_immediately(
    start: int,
    interval: int,
    exec_times: Seq<int>,
    j: int,
)
    requires
        0 < interval,
        0 <= j,
        j + 1 <= exec_times.len(),
        exec_times[j] >= interval,
    ensures
        spec_tick_start(start, interval, exec_times, j + 1) == spec_tick_start(
            start,
            interval,
            exec_times,
            j,
        ) + exec_times[j],
{
    lemma_tick_start_not_early(start, interval, exec_times, j);
    assert(j * interval + interval == (j + 1) * interval) by (nonlinear_arith);
}

/// One overrun costs at most one catch-up tick. If every tick before
/// the overrun ran under the interval, and the overrunning tick and
/// its immediate catch-up together fit within two intervals, then the
/// catch-up begins immediately when the overrunning tick ends — past
/// its deadline — and the tick after it is back on the ladder exactly:
/// no burst of further immediate ticks.
pub proof fn lemma_single_catch_up(start: int, interval: int, exec_times: Seq<int>, j: int)
    requires
        0 < interval,
        0 <= j,
        j + 2 <= exec_times.len(),
        forall|i: int| 0 <= i < j ==> 0 <= #[trigger] exec_times[i] < interval,
        interval < exec_times[j],
        0 <= exec_times[j + 1],
        exec_times[j] + exec_times[j + 1] < 2 * interval,
    ensures
        spec_tick_start(start, interval, exec_times, j + 1) == spec_deadline(
            start,
            interval,
            j,
        ) + exec_times[j],
        spec_tick_start(start, interval, exec_times, j + 1) > spec_deadline(
            start,
            interval,
            j + 1,
        ),
        spec_tick_start(start, interval, exec_times, j + 2) == spec_deadline(
            start,
            interval,
            j + 2,
        ),
{
    lemma_no_drift(start, interval, exec_times, j);
    lemma_overrun_runs_next_tick_immediately(start, interval, exec_times, j);
    assert(j * interval + interval == (j + 1) * interval) by (nonlinear_arith);
    assert((j + 1) * interval + interval == (j + 2) * interval) by (nonlinear_arith);
}

} // verus!
