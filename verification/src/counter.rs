//! The episode controller's bookkeeping: the iteration counter, the
//! compensating retry budget, and the termination decision.
//!
//! `current` counts every attempted episode; `max` is the retry budget,
//! raised by one whenever an episode is judged invalid, so that a run
//! still yields its nominal number of labeled frames.  Termination is
//! decided from the pre-increment `current`: the exit signal means "the
//! next tick will not run", never "this tick is discarded" — a tick that
//! trips the signal has still been attempted in full.

use vstd::prelude::*;

verus! {

/// The run's episode counter.  Mutated only by `record_episode`.
#[derive(Clone, Copy, PartialEq, Eq, Structural, Debug)]
pub struct EpisodeCounter {
    /// Index of the episode being attempted, starting at 1.
    pub current: u32,
    /// Retry-compensated episode budget.
    pub max: u32,
}

/// The counter after one episode is recorded: an invalid episode grows
/// the budget, and the attempt index always advances.
pub open spec fn counter_after(c: EpisodeCounter, label_written: bool) -> EpisodeCounter {
    EpisodeCounter {
        current: (c.current + 1) as u32,
        max: if label_written {
            c.max
        } else {
            (c.max + 1) as u32
        },
    }
}

/// Whether recording one episode on counter `c` signals termination:
/// the pre-increment attempt index has passed the (already adjusted)
/// budget.
pub open spec fn exit_after(c: EpisodeCounter, label_written: bool) -> bool {
    c.current > counter_after(c, label_written).max
}

impl EpisodeCounter {
    /// A fresh counter for a run of `target_episode_count` episodes.
    pub fn fresh(target_episode_count: u32) -> (c: EpisodeCounter)
        ensures
            c.current == 1,
            c.max == target_episode_count,
    {
        EpisodeCounter { current: 1, max: target_episode_count }
    }

    /// Records one attempted episode: books a retry slot if no label was
    /// written, advances the attempt index, and reports whether the run
    /// should terminate (no further tick runs after a `true`).
    pub fn record_episode(&mut self, label_written: bool) -> (exit_requested: bool)
        requires
            old(self).current < u32::MAX,
            old(self).max < u32::MAX,
        ensures
            *final(self) == counter_after(*old(self), label_written),
            exit_requested == exit_after(*old(self), label_written),
    {
        if !label_written {
            self.max = self.max + 1;
        }
        let exit_requested = self.current > self.max;
        self.current = self.current + 1;
        exit_requested
    }
}

/// The counter after a whole prefix of a run: starting from `c`, record
/// `k` episodes of which the first `n` (at most) are invalid and the
/// rest valid.
pub open spec fn counter_after_run(c: EpisodeCounter, n: int, k: int) -> EpisodeCounter
    decreases k,
{
    if k <= 0 {
        c
    } else {
        counter_after(counter_after_run(c, n, k - 1), k > n)
    }
}

/// Retry accounting: starting from attempt 1 with a budget of `m`, a run
/// whose first `n` episodes are invalid and valid thereafter books
/// exactly `n` extra episodes — after `k` ticks the budget is
/// `m + min(n, k)` — and termination is signaled on tick `m + n + 1` and
/// on no earlier tick, so the run attempts `m + n` full episodes and one
/// further tick that trips the signal.
pub proof fn lemma_retry_accounting(m: int, n: int, k: int)
    requires
        0 <= n,
        1 <= m,
        0 <= k,
        m + n + 1 < u32::MAX,
        k <= m + n + 1,
    ensures
        ({
            let start = EpisodeCounter { current: 1u32, max: m as u32 };
            let c = counter_after_run(start, n, k);
            &&& c.current == 1 + k
            &&& c.max == m + (if k <= n {
                k
            } else {
                n
            })
            &&& k >= 1 ==> (exit_after(counter_after_run(start, n, k - 1), k > n) <==> k == m + n
                + 1)
        }),
    decreases k,
{
    if k > 0 {
        lemma_retry_accounting(m, n, k - 1);
    }
}

} // verus!
