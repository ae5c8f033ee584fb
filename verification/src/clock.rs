use vstd::prelude::*;
use bevy::time::{Timer, TimerMode};
use std::time::Duration;

verus! {

/// The interval between two animation frames: a tenth of a second.
pub const ANIMATION_PERIOD_NANOS: u64 = 100_000_000;

/// The time left on a repeating timer of period `period` that stood at
/// `elapsed` and is advanced by `delta`, all in nanoseconds. A timer of
/// period zero always stands at zero.
pub open spec fn tick_elapsed(period: u64, elapsed: u64, delta: u64) -> int {
    if period == 0 {
        0
    } else {
        (elapsed + delta) % (period as int)
    }
}

/// How many times such a timer reports to have run out during that advance:
/// the number of whole periods covered, kept in 32 bits. A timer of period
/// zero reports the largest 32-bit count.
pub open spec fn tick_expiries(period: u64, elapsed: u64, delta: u64) -> int {
    if period == 0 {
        0xffff_ffff
    } else {
        ((elapsed + delta) / (period as int)) % 0x1_0000_0000
    }
}

/// A repeating timer held as plain numbers of nanoseconds.
#[derive(Clone, Copy, Debug, PartialEq, Eq, Structural)]
pub struct AnimationTimer {
    pub period_nanos: u64,
    pub elapsed_nanos: u64,
}

/// Builds a repeating `bevy::time::Timer` of the given period with
/// `Timer::new`, sets it to the given elapsed time with `Timer::set_elapsed`,
/// advances it by `delta_nanos` with `Timer::tick`, and reads it back with
/// `Timer::elapsed` and `Timer::just_finished`. Trusted: after the tick the
/// elapsed time is the sum of the old one and the delta, reduced modulo the
/// period, and the timer reports to have just finished when the count of
/// whole periods covered, cut to 32 bits, is above zero; with a period of
/// zero the timer is set back to zero and always reports to have finished.
#[verifier::external_body]
fn tick_repeating_timer(period_nanos: u64, elapsed_nanos: u64, delta_nanos: u64) -> (r: (u64, bool))
    ensures
        r.0 == tick_elapsed(period_nanos, elapsed_nanos, delta_nanos),
        r.1 == (tick_expiries(period_nanos, elapsed_nanos, delta_nanos) > 0),
{
    let mut timer = Timer::new(Duration::from_nanos(period_nanos), TimerMode::Repeating);
    timer.set_elapsed(Duration::from_nanos(elapsed_nanos));
    timer.tick(Duration::from_nanos(delta_nanos));
    (timer.elapsed().as_nanos() as u64, timer.just_finished())
}

impl AnimationTimer {
    /// The elapsed time lies within one period.
    pub open spec fn wf(&self) -> bool {
        if self.period_nanos == 0 {
            self.elapsed_nanos == 0
        } else {
            self.elapsed_nanos < self.period_nanos
        }
    }

    /// A repeating timer of the given period that has not run yet.
    pub fn repeating(period_nanos: u64) -> (timer: Self)
        ensures
            timer.period_nanos == period_nanos,
            timer.elapsed_nanos == 0,
            timer.wf(),
    {
        AnimationTimer { period_nanos, elapsed_nanos: 0 }
    }

    /// Advances the timer by `delta_nanos` and tells whether it ran out
    /// during this advance. What is left over after the last expiry is kept.
    pub fn tick(&mut self, delta_nanos: u64) -> (finished: bool)
        ensures
            final(self).period_nanos == old(self).period_nanos,
            final(self).elapsed_nanos == tick_elapsed(
                old(self).period_nanos,
                old(self).elapsed_nanos,
                delta_nanos,
            ),
            finished == (tick_expiries(old(self).period_nanos, old(self).elapsed_nanos, delta_nanos)
                > 0),
            final(self).wf(),
    {
        let (elapsed, finished) = tick_repeating_timer(
            self.period_nanos,
            self.elapsed_nanos,
            delta_nanos,
        );
        self.elapsed_nanos = elapsed;
        finished
    }
}

/// An advance that stays below the period does not fire and only adds up.
pub proof fn lemma_tick_below_period(period: u64, elapsed: u64, delta: u64)
    requires
        elapsed + delta < period,
    ensures
        tick_expiries(period, elapsed, delta) == 0,
        tick_elapsed(period, elapsed, delta) == elapsed + delta,
{
    let sum = elapsed + delta;
    let p = period as int;
    assert(sum / p == 0 && sum % p == sum) by (nonlinear_arith)
        requires
            0 <= sum < p,
    ;
}

/// An advance that reaches the period, and covers fewer than 2^32 periods,
/// fires; the timer then holds less than one period.
pub proof fn lemma_tick_reaches_period(period: u64, elapsed: u64, delta: u64)
    requires
        0 < period <= elapsed + delta,
        elapsed + delta < period * 0x1_0000_0000,
    ensures
        tick_expiries(period, elapsed, delta) > 0,
        tick_expiries(period, elapsed, delta) == (elapsed + delta) / (period as int),
        0 <= tick_elapsed(period, elapsed, delta) < period,
{
    let sum = elapsed + delta;
    let p = period as int;
    assert(1 <= sum / p < 0x1_0000_0000 && 0 <= sum % p < p) by (nonlinear_arith)
        requires
            0 < p <= sum,
            sum < p * 0x1_0000_0000,
    ;
}

/// An advance by exactly what is left of the period fires once and leaves the
/// timer at zero.
pub proof fn lemma_tick_exact_period(period: u64, elapsed: u64, delta: u64)
    requires
        0 < period,
        elapsed + delta == period,
    ensures
        tick_expiries(period, elapsed, delta) == 1,
        tick_elapsed(period, elapsed, delta) == 0,
{
    let p = period as int;
    assert(p / p == 1 && p % p == 0) by (nonlinear_arith)
        requires
            0 < p,
    ;
}

} // verus!
