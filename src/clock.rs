//! The fixed-interval movement clock that gates how often the snake moves.

use std::time::Duration;
use bevy::time::{Timer, TimerMode};
use vstd::prelude::*;

verus! {

/// Movement period of the game: 0.15 s, in nanoseconds.
pub const MOVE_PERIOD_NS: u64 = 150_000_000;

/// Whether a repeating timer of period `period` that had `elapsed` on it
/// reports a finish after being advanced by `delta`: it counts the periods
/// passed, as a `u32`, and reports a finish when that count is not zero.
pub open spec fn fires(period: int, elapsed: int, delta: int) -> bool
    recommends
        period > 0,
{
    ((elapsed + delta) / period) % 0x1_0000_0000 != 0
}

/// The time left on a repeating timer after the same advance.
pub open spec fn carried(period: int, elapsed: int, delta: int) -> int
    recommends
        period > 0,
{
    (elapsed + delta) % period
}

/// Relies on bevy's `Timer::tick` in `TimerMode::Repeating`, read back
/// through `Timer::elapsed` and `Timer::just_finished`: the elapsed time
/// wraps to the remainder modulo the period, and the number of finished
/// periods is kept as a `u32` whose being non-zero is `just_finished`.
#[verifier::external_body]
fn repeating_timer_tick(period_ns: u64, elapsed_ns: u64, delta_ns: u64) -> (r: (u64, bool))
    requires
        period_ns > 0,
    ensures
        r.0 == carried(period_ns as int, elapsed_ns as int, delta_ns as int),
        r.1 == fires(period_ns as int, elapsed_ns as int, delta_ns as int),
{
    let mut timer = Timer::new(Duration::from_nanos(period_ns), TimerMode::Repeating);
    timer.set_elapsed(Duration::from_nanos(elapsed_ns));
    timer.tick(Duration::from_nanos(delta_ns));
    (timer.elapsed().as_nanos() as u64, timer.just_finished())
}

/// A repeating interval timer, in nanoseconds.
#[derive(Clone, Copy, Debug, PartialEq, Eq, Structural)]
pub struct MovementClock {
    pub period_ns: u64,
    pub elapsed_ns: u64,
}

impl MovementClock {
    /// A positive period, and less than one period on the clock.
    pub open spec fn wf(&self) -> bool {
        self.period_ns > 0 && self.elapsed_ns < self.period_ns
    }

    /// A clock with the given period and nothing elapsed.
    pub fn new(period_ns: u64) -> (r: MovementClock)
        requires
            period_ns > 0,
        ensures
            r.wf(),
            r.period_ns == period_ns,
            r.elapsed_ns == 0,
    {
        MovementClock { period_ns, elapsed_ns: 0 }
    }

    /// The clock of the game, with a period of 0.15 s.
    pub fn movement() -> (r: MovementClock)
        ensures
            r.wf(),
            r.period_ns == MOVE_PERIOD_NS,
            r.elapsed_ns == 0,
    {
        MovementClock::new(MOVE_PERIOD_NS)
    }

    /// Advances the clock by `delta_ns` and says whether it fired. It fires
    /// at most once per call, however many periods passed.
    pub fn tick(&mut self, delta_ns: u64) -> (fired: bool)
        requires
            old(self).wf(),
        ensures
            final(self).wf(),
            final(self).period_ns == old(self).period_ns,
            final(self).elapsed_ns == carried(old(self).period_ns as int, old(self).elapsed_ns as int, delta_ns as int),
            fired == fires(old(self).period_ns as int, old(self).elapsed_ns as int, delta_ns as int),
    {
        let (elapsed, fired) = repeating_timer_tick(self.period_ns, self.elapsed_ns, delta_ns);
        proof {
            let p = self.period_ns as int;
            let s = self.elapsed_ns as int + delta_ns as int;
            assert(0 <= s % p < p) by (nonlinear_arith)
                requires p > 0, s >= 0;
        }
        self.elapsed_ns = elapsed;
        fired
    }
}

/// Within one period the clock fires exactly when a whole period has passed.
pub proof fn lemma_fires_once_period_passed(period: int, elapsed: int, delta: int)
    requires
        period > 0,
        0 <= elapsed,
        0 <= delta,
        elapsed + delta < 2 * period,
    ensures
        fires(period, elapsed, delta) == (elapsed + delta >= period),
        carried(period, elapsed, delta) == if elapsed + delta >= period {
            elapsed + delta - period
        } else {
            elapsed + delta
        },
{
    let s = elapsed + delta;
    if s >= period {
        assert(s / period == 1 && s % period == s - period) by (nonlinear_arith)
            requires period > 0, period <= s, s < 2 * period;
    } else {
        assert(s / period == 0 && s % period == s) by (nonlinear_arith)
            requires period > 0, 0 <= s, s < period;
    }
}

} // verus!
