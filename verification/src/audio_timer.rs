//! The repeating timer that paces periodic audio playback.
//!
//! Time is counted in whole milliseconds. A repeating timer accumulates
//! the time advanced each tick; a tick that carries the accumulated time
//! to the interval or past it fires, and the accumulated time wraps
//! modulo the interval so that later fires keep the same period. A tick
//! fires at most once, however far it advances.

use vstd::prelude::*;

verus! {

use vstd::arithmetic::div_mod::lemma_fundamental_div_mod;
use vstd::arithmetic::div_mod::lemma_fundamental_div_mod_converse;
use vstd::arithmetic::div_mod::lemma_mod_bound;

/// The interval of the playback timer, in milliseconds.
pub const PLAYBACK_INTERVAL_MS: u64 = 31000;

/// The head start given to the playback timer when it is armed, in
/// milliseconds, so that the first fire comes almost immediately.
pub const PLAYBACK_HEAD_START_MS: u64 = 30999;

/// A repeating countdown over whole milliseconds.
#[derive(Clone, Copy, Debug, PartialEq, Eq, Structural)]
pub struct AudioTimer {
    /// The period between fires, in milliseconds; always positive.
    pub interval_ms: u64,
    /// The time accumulated since the last fire (or since the timer was
    /// armed), in milliseconds; always below the interval.
    pub elapsed_ms: u64,
    /// How many whole intervals the last tick completed; positive exactly
    /// when the last tick fired.
    pub times_finished: u64,
}

impl AudioTimer {
    /// Well-formedness: the interval is positive and the accumulated time
    /// has not yet reached it.
    pub open spec fn wf(self) -> bool {
        &&& self.interval_ms > 0
        &&& self.elapsed_ms < self.interval_ms
    }

    /// A repeating timer with the given period, with nothing accumulated.
    pub fn new(interval_ms: u64) -> (t: AudioTimer)
        requires
            interval_ms > 0,
        ensures
            t.wf(),
            t.interval_ms == interval_ms,
            t.elapsed_ms == 0,
            t.times_finished == 0,
    {
        AudioTimer { interval_ms, elapsed_ms: 0, times_finished: 0 }
    }

    /// Advance the timer by `delta_ms`. The tick fires exactly when it
    /// carries the accumulated time to the interval or past it; the
    /// accumulated time then wraps modulo the interval.
    pub fn tick(&mut self, delta_ms: u64)
        requires
            old(self).wf(),
            old(self).elapsed_ms + delta_ms <= u64::MAX,
        ensures
            final(self).wf(),
            final(self).interval_ms == old(self).interval_ms,
            old(self).elapsed_ms + delta_ms < old(self).interval_ms ==> {
                &&& final(self).elapsed_ms == old(self).elapsed_ms + delta_ms
                &&& final(self).times_finished == 0
            },
            old(self).elapsed_ms + delta_ms >= old(self).interval_ms ==> {
                &&& final(self).elapsed_ms
                    == (old(self).elapsed_ms + delta_ms) % (old(self).interval_ms as int)
                &&& final(self).times_finished
                    == (old(self).elapsed_ms + delta_ms) / (old(self).interval_ms as int)
            },
            *final(self) == timer_after_tick(*old(self), delta_ms),
    {
        let total = self.elapsed_ms + delta_ms;
        if total >= self.interval_ms {
            self.times_finished = total / self.interval_ms;
            self.elapsed_ms = total % self.interval_ms;
        } else {
            self.times_finished = 0;
            self.elapsed_ms = total;
        }
    }

    /// Whether the last tick fired.
    pub fn just_finished(&self) -> (r: bool)
        ensures
            r == (self.times_finished >= 1),
    {
        self.times_finished >= 1
    }
}

/// The timer after one tick that advances `delta_ms`.
pub open spec fn timer_after_tick(t: AudioTimer, delta_ms: u64) -> AudioTimer {
    let total = t.elapsed_ms + delta_ms;
    if total >= t.interval_ms {
        AudioTimer {
            interval_ms: t.interval_ms,
            elapsed_ms: (total % (t.interval_ms as int)) as u64,
            times_finished: (total / (t.interval_ms as int)) as u64,
        }
    } else {
        AudioTimer {
            interval_ms: t.interval_ms,
            elapsed_ms: total as u64,
            times_finished: 0,
        }
    }
}

/// The timer after a run of ticks, one advance per tick, in order.
pub open spec fn timer_after_ticks(t: AudioTimer, deltas: Seq<u64>) -> AudioTimer
    decreases deltas.len(),
{
    if deltas.len() == 0 {
        t
    } else {
        timer_after_ticks(timer_after_tick(t, deltas[0]), deltas.drop_first())
    }
}

/// The total time a run of ticks advances, in milliseconds.
pub open spec fn advanced_ms(deltas: Seq<u64>) -> int
    decreases deltas.len(),
{
    if deltas.len() == 0 {
        0
    } else {
        deltas[0] + advanced_ms(deltas.drop_first())
    }
}

/// The number of interval completions over a run of ticks, each tick
/// counted with the whole intervals it completes.
pub open spec fn fires(t: AudioTimer, deltas: Seq<u64>) -> int
    decreases deltas.len(),
{
    if deltas.len() == 0 {
        0
    } else {
        timer_after_tick(t, deltas[0]).times_finished
            + fires(timer_after_tick(t, deltas[0]), deltas.drop_first())
    }
}

proof fn lemma_advanced_ms_nonneg(deltas: Seq<u64>)
    ensures
        advanced_ms(deltas) >= 0,
    decreases deltas.len(),
{
    if deltas.len() > 0 {
        lemma_advanced_ms_nonneg(deltas.drop_first());
    }
}

/// Fires keep the period: however a span of time is split into ticks,
/// the interval completions over the run number exactly one per whole
/// interval of advanced time, and the time accumulated at the end is the
/// advanced time modulo the interval.
pub proof fn lemma_fires_keep_period(t: AudioTimer, deltas: Seq<u64>)
    requires
        t.wf(),
        forall|i: int| 0 <= i < deltas.len()
            ==> deltas[i] + t.interval_ms <= u64::MAX + 1,
    ensures
        timer_after_ticks(t, deltas).wf(),
        timer_after_ticks(t, deltas).interval_ms == t.interval_ms,
        timer_after_ticks(t, deltas).elapsed_ms
            == (t.elapsed_ms + advanced_ms(deltas)) % (t.interval_ms as int),
        fires(t, deltas) == (t.elapsed_ms + advanced_ms(deltas)) / (t.interval_ms as int),
    decreases deltas.len(),
{
    let ivl = t.interval_ms as int;
    if deltas.len() == 0 {
        lemma_fundamental_div_mod_converse(t.elapsed_ms as int, ivl, 0, t.elapsed_ms as int);
    } else {
        let d = deltas[0];
        let total0 = t.elapsed_ms + d;
        assert(total0 <= u64::MAX);
        if total0 < ivl {
            lemma_fundamental_div_mod_converse(total0, ivl, 0, total0);
        }
        lemma_mod_bound(total0, ivl);
        lemma_fundamental_div_mod(total0, ivl);
        let q0 = total0 / ivl;
        let r0 = total0 % ivl;
        assert(0 <= q0 <= total0) by (nonlinear_arith)
            requires
                total0 == ivl * q0 + r0,
                0 <= r0 < ivl,
                ivl >= 1,
                total0 >= 0,
        {}
        let t1 = timer_after_tick(t, d);
        assert(t1.elapsed_ms == r0 && t1.times_finished == q0);
        assert(forall|i: int| 0 <= i < deltas.drop_first().len()
            ==> deltas.drop_first()[i] + t1.interval_ms <= u64::MAX + 1);
        lemma_fires_keep_period(t1, deltas.drop_first());
        let rest = advanced_ms(deltas.drop_first());
        lemma_advanced_ms_nonneg(deltas.drop_first());
        let x1 = t1.elapsed_ms + rest;
        lemma_fundamental_div_mod(x1, ivl);
        lemma_mod_bound(x1, ivl);
        assert(t.elapsed_ms + advanced_ms(deltas)
            == ivl * (total0 / ivl + x1 / ivl) + x1 % ivl) by (nonlinear_arith)
            requires
                advanced_ms(deltas) == d + rest,
                total0 == t.elapsed_ms + d,
                total0 == ivl * (total0 / ivl) + total0 % ivl,
                x1 == t1.elapsed_ms + rest,
                t1.elapsed_ms == total0 % ivl,
                x1 == ivl * (x1 / ivl) + x1 % ivl,
        {}
        lemma_fundamental_div_mod_converse(
            t.elapsed_ms + advanced_ms(deltas),
            ivl,
            total0 / ivl + x1 / ivl,
            x1 % ivl,
        );
    }
}

impl Default for AudioTimer {
    /// The playback timer as armed on entering `Game`: a repeating
    /// interval of 31 seconds, pre-advanced by 30.999 seconds so that the
    /// first fire comes on the first tick that advances at least one
    /// millisecond.
    fn default() -> (t: Self)
        ensures
            t.wf(),
            t.interval_ms == PLAYBACK_INTERVAL_MS,
            t.elapsed_ms == PLAYBACK_HEAD_START_MS,
            t.times_finished == 0,
    {
        let mut t = AudioTimer::new(PLAYBACK_INTERVAL_MS);
        t.tick(PLAYBACK_HEAD_START_MS);
        t
    }
}

/// One `Game`-state tick of the periodic playback schedule: advance the
/// timer and decide whether to request one background playback. At most
/// one playback is requested per tick, exactly when the tick carries the
/// accumulated time to the interval or past it.
pub fn play_audio(timer: &mut AudioTimer, delta_ms: u64) -> (play: bool)
    requires
        old(timer).wf(),
        old(timer).elapsed_ms + delta_ms <= u64::MAX,
    ensures
        final(timer).wf(),
        final(timer).interval_ms == old(timer).interval_ms,
        play == (old(timer).elapsed_ms + delta_ms >= old(timer).interval_ms),
        !play ==> final(timer).elapsed_ms == old(timer).elapsed_ms + delta_ms,
        play ==> final(timer).elapsed_ms
            == (old(timer).elapsed_ms + delta_ms) % (old(timer).interval_ms as int),
        *final(timer) == timer_after_tick(*old(timer), delta_ms),
{
    timer.tick(delta_ms);
    proof {
        let total = old(timer).elapsed_ms + delta_ms;
        let period = old(timer).interval_ms as int;
        if total >= period {
            assert(total / period >= 1) by (nonlinear_arith)
                requires
                    total >= period,
                    period > 0,
            {}
        }
    }
    timer.just_finished()
}

/// A freshly armed playback timer fires on the first tick that advances
/// at least one millisecond, and that first fire is a single fire as long
/// as the tick does not span a further whole interval.
pub proof fn lemma_first_tick_fires(t: AudioTimer, delta_ms: u64)
    requires
        t.wf(),
        t.interval_ms == PLAYBACK_INTERVAL_MS,
        t.elapsed_ms == PLAYBACK_HEAD_START_MS,
        1 <= delta_ms,
        t.elapsed_ms + delta_ms < 2 * t.interval_ms,
    ensures
        t.elapsed_ms + delta_ms >= t.interval_ms,
        timer_after_tick(t, delta_ms).times_finished == 1,
        timer_after_tick(t, delta_ms).elapsed_ms
            == t.elapsed_ms + delta_ms - t.interval_ms,
{
    let total = t.elapsed_ms + delta_ms;
    let ivl = t.interval_ms as int;
    lemma_fundamental_div_mod_converse(total, ivl, 1, total - ivl);
}

} // verus!
