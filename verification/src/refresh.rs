//! Refresh triggers: the one-shot cross-thread reload signal and the
//! auto-refresh countdown.
//!
//! Three trigger sources collapse into at most one reload each, checked by
//! the frame driver in a fixed order: the consumed [`ReloadFlag`] (which
//! does not touch the countdown), the elapsed [`RefreshScheduler`]
//! countdown, and the manual request (which resets the countdown). Time is
//! counted in whole time units per frame.

use vstd::prelude::*;

verus! {

/// One-shot signal requesting a full state re-query. Workers set it; the
/// frame driver consumes it by test-and-clear, so each set is acted on at
/// most once.
pub struct ReloadFlag {
    pub pending: bool,
}

impl ReloadFlag {
    /// A fresh flag is not pending.
    pub fn new() -> (f: ReloadFlag)
        ensures
            !f.pending,
    {
        ReloadFlag { pending: false }
    }

    /// Requests a reload. Several requests before the next consume
    /// collapse into one.
    pub fn set(&mut self)
        ensures
            final(self).pending,
    {
        self.pending = true;
    }

    /// Test-and-clear: reports whether a reload was requested and clears
    /// the request, so that the same request never fires twice.
    pub fn consume(&mut self) -> (was_pending: bool)
        ensures
            was_pending == old(self).pending,
            !final(self).pending,
    {
        let was_pending = self.pending;
        self.pending = false;
        was_pending
    }

    /// Read-only peek that does not consume the request.
    pub fn peek(&self) -> (r: bool)
        ensures
            r == self.pending,
    {
        self.pending
    }
}

/// The auto-refresh countdown: while `enabled`, each frame's elapsed time
/// is taken off `countdown`, and when it runs out a reload fires and the
/// countdown starts over at the fixed `interval`.
pub struct RefreshScheduler {
    pub enabled: bool,
    pub countdown: u64,
    pub interval: u64,
}

impl RefreshScheduler {
    /// Well-formed: a positive interval, with the countdown always in
    /// `1..=interval`.
    pub open spec fn wf(&self) -> bool {
        0 < self.countdown <= self.interval
    }

    /// A fresh scheduler: auto-refresh off, a full countdown.
    pub fn new(interval: u64) -> (s: RefreshScheduler)
        requires
            0 < interval,
        ensures
            s.wf(),
            !s.enabled,
            s.countdown == interval,
            s.interval == interval,
    {
        RefreshScheduler { enabled: false, countdown: interval, interval }
    }

    /// Turns auto-refresh on or off. Either way the countdown starts over,
    /// so a fresh full cycle begins when it is next enabled.
    pub fn set_enabled(&mut self, on: bool)
        requires
            old(self).wf(),
        ensures
            final(self).wf(),
            final(self).enabled == on,
            final(self).countdown == old(self).interval,
            final(self).interval == old(self).interval,
    {
        self.enabled = on;
        self.countdown = self.interval;
    }

    /// A manual refresh always starts the countdown over at the full
    /// interval, whatever its prior value, canceling any partially elapsed
    /// auto cycle. The reload itself is the caller's immediate, synchronous
    /// action.
    pub fn reset(&mut self)
        requires
            old(self).wf(),
        ensures
            final(self).wf(),
            final(self).countdown == old(self).interval,
            final(self).enabled == old(self).enabled,
            final(self).interval == old(self).interval,
    {
        self.countdown = self.interval;
    }

    /// One frame's worth of elapsed time. Fires — asks the caller to
    /// reload — exactly when auto-refresh is enabled and the elapsed time
    /// reaches the countdown; the countdown then starts over at the full
    /// interval, discarding any overshoot.
    pub fn tick(&mut self, elapsed: u64) -> (fired: bool)
        requires
            old(self).wf(),
        ensures
            final(self).wf(),
            fired == scheduler_tick_fires(*old(self), elapsed),
            *final(self) == scheduler_after_tick(*old(self), elapsed),
    {
        if self.enabled {
            if elapsed >= self.countdown {
                self.countdown = self.interval;
                true
            } else {
                self.countdown = self.countdown - elapsed;
                false
            }
        } else {
            false
        }
    }
}

/// Whether a tick of `elapsed` time units fires a reload.
pub open spec fn scheduler_tick_fires(s: RefreshScheduler, elapsed: u64) -> bool {
    s.enabled && elapsed >= s.countdown
}

/// The scheduler state after a tick of `elapsed` time units.
pub open spec fn scheduler_after_tick(s: RefreshScheduler, elapsed: u64) -> RefreshScheduler {
    if !s.enabled {
        s
    } else if elapsed >= s.countdown {
        RefreshScheduler { countdown: s.interval, ..s }
    } else {
        RefreshScheduler { countdown: (s.countdown - elapsed) as u64, ..s }
    }
}

/// How many reloads a whole run of frames fires.
pub open spec fn reloads_fired(s: RefreshScheduler, frames: Seq<u64>) -> nat
    decreases frames.len(),
{
    if frames.len() == 0 {
        0
    } else {
        (if scheduler_tick_fires(s, frames[0]) {
            1nat
        } else {
            0nat
        }) + reloads_fired(scheduler_after_tick(s, frames[0]), frames.drop_first())
    }
}

/// The total time a run of frames covers.
pub open spec fn total_elapsed(frames: Seq<u64>) -> int
    decreases frames.len(),
{
    if frames.len() == 0 {
        0
    } else {
        frames[0] + total_elapsed(frames.drop_first())
    }
}

/// Ticking preserves well-formedness and never flips the switch.
pub proof fn lemma_tick_preserves_wf(s: RefreshScheduler, elapsed: u64)
    requires
        s.wf(),
    ensures
        scheduler_after_tick(s, elapsed).wf(),
        scheduler_after_tick(s, elapsed).enabled == s.enabled,
        scheduler_after_tick(s, elapsed).interval == s.interval,
{
}

/// Auto-refresh fires at most once per interval, not once per frame: `k`
/// reloads over a run of frames take at least the current countdown plus
/// `k - 1` further full intervals of elapsed time, because every firing
/// starts the countdown over at the full interval.
pub proof fn lemma_auto_refresh_rate_bound(s: RefreshScheduler, frames: Seq<u64>)
    requires
        s.wf(),
    ensures
        reloads_fired(s, frames) > 0 ==> total_elapsed(frames) >= s.countdown + (
        reloads_fired(s, frames) - 1) * s.interval,
    decreases frames.len(),
{
    if frames.len() == 0 {
    } else {
        let s1 = scheduler_after_tick(s, frames[0]);
        let rest = frames.drop_first();
        lemma_tick_preserves_wf(s, frames[0]);
        lemma_auto_refresh_rate_bound(s1, rest);
        lemma_elapsed_nonnegative(rest);
        let k = reloads_fired(s, frames) as int;
        let k1 = reloads_fired(s1, rest) as int;
        assert(total_elapsed(frames) == frames[0] + total_elapsed(rest));
        if scheduler_tick_fires(s, frames[0]) {
            assert(k == 1 + k1);
            assert(frames[0] >= s.countdown);
            assert(s1.countdown == s.interval);
            if k1 > 0 {
                assert(total_elapsed(rest) >= s1.countdown + (k1 - 1) * s1.interval);
                assert(s1.interval == s.interval);
                assert(s.interval + (k1 - 1) * s.interval == k1 * s.interval)
                    by (nonlinear_arith);
                assert(total_elapsed(frames) >= s.countdown + (k - 1) * s.interval);
            } else {
                assert(total_elapsed(frames) >= s.countdown);
                assert((k - 1) * s.interval == 0) by (nonlinear_arith)
                    requires
                        k == 1,
                ;
            }
        } else {
            assert(k == k1);
            if k > 0 {
                assert(total_elapsed(rest) >= s1.countdown + (k1 - 1) * s1.interval);
                assert(s1.interval == s.interval);
                assert(frames[0] + s1.countdown >= s.countdown);
                assert(total_elapsed(frames) >= s.countdown + (k - 1) * s.interval);
            }
        }
    }
}

/// A run of frames never covers negative time.
pub proof fn lemma_elapsed_nonnegative(frames: Seq<u64>)
    ensures
        total_elapsed(frames) >= 0,
    decreases frames.len(),
{
    if frames.len() == 0 {
    } else {
        lemma_elapsed_nonnegative(frames.drop_first());
    }
}

/// Auto-refresh does fire once the countdown's worth of time has elapsed:
/// a run of frames with auto-refresh enabled that fires no reload at all
/// covered less elapsed time than the countdown it started from.
pub proof fn lemma_auto_refresh_does_fire(s: RefreshScheduler, frames: Seq<u64>)
    requires
        s.wf(),
        s.enabled,
    ensures
        reloads_fired(s, frames) == 0 ==> total_elapsed(frames) < s.countdown,
    decreases frames.len(),
{
    if frames.len() == 0 {
    } else {
        if reloads_fired(s, frames) == 0 {
            let s1 = scheduler_after_tick(s, frames[0]);
            lemma_tick_preserves_wf(s, frames[0]);
            lemma_auto_refresh_does_fire(s1, frames.drop_first());
        }
    }
}

} // verus!
