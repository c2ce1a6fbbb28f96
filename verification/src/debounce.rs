//! A timer that confirms a condition only once it has held for a given
//! number of ticks.

use vstd::prelude::*;

verus! {

/// Ticks from `start` to `now` on a 32-bit counter that starts again at zero
/// after its largest value.
pub open spec fn elapsed_ticks(start: u32, now: u32) -> int {
    if now >= start {
        now - start
    } else {
        now - start + 0x1_0000_0000
    }
}

/// Idle, or armed at the tick at which its condition was first seen.
#[derive(Debug, Clone, Copy, PartialEq, Eq, Structural)]
pub struct DebounceTimer {
    pub armed: bool,
    pub start_tick: u32,
}

impl DebounceTimer {
    /// The idle timer.
    pub open spec fn idle() -> DebounceTimer {
        DebounceTimer { armed: false, start_tick: 0 }
    }

    /// The timer and the answer after one call of `confirm` at tick `now`.
    pub open spec fn confirm_step(self, now: u32, threshold_ticks: u32) -> (DebounceTimer, bool) {
        if !self.armed {
            (DebounceTimer { armed: true, start_tick: now }, false)
        } else if elapsed_ticks(self.start_tick, now) >= threshold_ticks {
            (DebounceTimer::idle(), true)
        } else {
            (self, false)
        }
    }

    /// The timer after one call of `confirm` at each of `ticks`, in turn.
    pub open spec fn after(self, ticks: Seq<u32>, threshold_ticks: u32) -> DebounceTimer
        decreases ticks.len(),
    {
        if ticks.len() == 0 {
            self
        } else {
            self.after(ticks.drop_last(), threshold_ticks).confirm_step(
                ticks.last(),
                threshold_ticks,
            ).0
        }
    }

    /// What the call of `confirm` at `ticks[k]` answers, after a call at each
    /// tick before it.
    pub open spec fn answer(self, ticks: Seq<u32>, threshold_ticks: u32, k: int) -> bool {
        self.after(ticks.take(k), threshold_ticks).confirm_step(ticks[k], threshold_ticks).1
    }

    /// An idle timer.
    pub fn new() -> (t: DebounceTimer)
        ensures
            t == DebounceTimer::idle(),
    {
        DebounceTimer { armed: false, start_tick: 0 }
    }

    /// Reports whether the condition has held for `threshold_ticks`. The
    /// first call arms the timer and answers no. A later call answers yes
    /// once that many ticks have passed since, and leaves the timer idle.
    pub fn confirm(&mut self, now: u32, threshold_ticks: u32) -> (confirmed: bool)
        ensures
            (*final(self), confirmed) == old(self).confirm_step(now, threshold_ticks),
            confirmed ==> old(self).armed && !final(self).armed,
    {
        if !self.armed {
            self.armed = true;
            self.start_tick = now;
            false
        } else if now.wrapping_sub(self.start_tick) >= threshold_ticks {
            self.armed = false;
            self.start_tick = 0;
            true
        } else {
            false
        }
    }

    /// Gives up a condition that stopped holding before it was confirmed.
    pub fn cancel(&mut self)
        ensures
            *final(self) == DebounceTimer::idle(),
    {
        self.armed = false;
        self.start_tick = 0;
    }
}

/// While no answer has been yes, the timer stays armed at the first tick.
proof fn lemma_stays_armed(ticks: Seq<u32>, threshold_ticks: u32, k: int)
    requires
        1 <= k <= ticks.len(),
        forall|j: int| 1 <= j < k ==> elapsed_ticks(ticks[0], #[trigger] ticks[j]) < threshold_ticks,
    ensures
        DebounceTimer::idle().after(ticks.take(k), threshold_ticks) == (DebounceTimer {
            armed: true,
            start_tick: ticks[0],
        }),
    decreases k,
{
    let idle = DebounceTimer::idle();
    let prefix = ticks.take(k);
    let before = ticks.take(k - 1);
    assert(prefix.drop_last() =~= before);
    assert(prefix.last() == ticks[k - 1]);
    assert(idle.after(prefix, threshold_ticks) == idle.after(before, threshold_ticks).confirm_step(
        ticks[k - 1],
        threshold_ticks,
    ).0);
    if k == 1 {
        assert(before.len() == 0);
        assert(idle.after(before, threshold_ticks) == idle);
    } else {
        lemma_stays_armed(ticks, threshold_ticks, k - 1);
        assert(elapsed_ticks(ticks[0], ticks[k - 1]) < threshold_ticks);
    }
}

/// A run of calls on an idle timer: the first call answers no, whatever the
/// threshold. If every later call before `ticks[k]` came too early, each of
/// them answered no, and the call at `ticks[k]` answers yes exactly if the
/// threshold has passed since the first call. After a yes the timer is idle,
/// so the next call only arms it again.
pub proof fn lemma_confirm_run(ticks: Seq<u32>, threshold_ticks: u32, k: int)
    requires
        1 <= k < ticks.len(),
        forall|j: int| 1 <= j < k ==> elapsed_ticks(ticks[0], #[trigger] ticks[j]) < threshold_ticks,
    ensures
        !DebounceTimer::idle().answer(ticks, threshold_ticks, 0),
        forall|j: int| 1 <= j < k ==> !#[trigger] DebounceTimer::idle().answer(ticks, threshold_ticks, j),
        DebounceTimer::idle().answer(ticks, threshold_ticks, k) == (elapsed_ticks(ticks[0], ticks[k])
            >= threshold_ticks),
        DebounceTimer::idle().answer(ticks, threshold_ticks, k) ==> {
            &&& DebounceTimer::idle().after(ticks.take(k + 1), threshold_ticks)
                == DebounceTimer::idle()
            &&& k + 1 < ticks.len() ==> !DebounceTimer::idle().answer(ticks, threshold_ticks, k + 1)
        },
{
    let idle = DebounceTimer::idle();
    assert(ticks.take(0).len() == 0);
    assert(idle.after(ticks.take(0), threshold_ticks) == idle);
    assert forall|j: int| 1 <= j < k implies !#[trigger] idle.answer(ticks, threshold_ticks, j) by {
        lemma_stays_armed(ticks, threshold_ticks, j);
    }
    lemma_stays_armed(ticks, threshold_ticks, k);
    let next = ticks.take(k + 1);
    assert(next.drop_last() =~= ticks.take(k));
    assert(next.last() == ticks[k]);
    assert(idle.after(next, threshold_ticks) == idle.after(ticks.take(k), threshold_ticks).confirm_step(
        ticks[k],
        threshold_ticks,
    ).0);
}

} // verus!
