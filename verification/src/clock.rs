//! The cooldown scheduler: three independent decaying timers that gate
//! animation cadence independently of the render tick rate, plus the frame
//! counter. Times are fixed-point milliseconds.

use vstd::prelude::*;

verus! {

/// Value every cooldown starts from, in milliseconds.
pub const COOLDOWN_START_MS: u32 = 1000;

/// Reseed interval of the walk-animation cooldown, in milliseconds.
pub const WALK_INTERVAL_MS: u32 = 50;

/// Reseed interval of the run-animation cooldown, in milliseconds.
pub const RUN_INTERVAL_MS: u32 = 20;

/// Reseed interval of the fire-animation cooldown, in milliseconds.
pub const FIRE_INTERVAL_MS: u32 = 200;

/// A cooldown that fired on the previous tick (reached exactly zero) is
/// reseeded to its interval before this tick's decrement.
pub open spec fn reseeded(v: int, interval: int) -> int {
    if v == 0 {
        interval
    } else {
        v
    }
}

/// Clamped decrement: a cooldown decays by the elapsed delta and is floored
/// at exactly zero, never below.
pub open spec fn clamped_sub(v: int, delta: int) -> int {
    if v > delta {
        v - delta
    } else {
        0
    }
}

/// One tick of a cooldown with reseed interval `interval` under elapsed
/// delta `delta`: reseed-if-fired, then clamped decrement. The cooldown
/// fires exactly when the result is zero.
pub open spec fn cooldown_tick(v: int, interval: int, delta: int) -> int {
    clamped_sub(reseeded(v, interval), delta)
}

/// Cooldown value `n` ticks after a fire (value exactly zero), with reseed
/// interval `interval` and a constant per-tick delta `delta`.
pub open spec fn cooldown_after(n: nat, interval: int, delta: int) -> int
    decreases n,
{
    if n == 0 {
        0
    } else {
        cooldown_tick(cooldown_after((n - 1) as nat, interval, delta), interval, delta)
    }
}

/// Cooldown firing cadence: with interval `I`, a constant per-tick delta `d`
/// that divides `I`, and counting ticks from a fire, the value after `n`
/// ticks is exactly `I - n*d`, so the cooldown reaches exactly zero — and
/// fires — on tick `I/d` and on no earlier tick: one fire per `I/d` ticks,
/// no double fire, no skip.
pub proof fn lemma_cooldown_cadence(n: nat, interval: int, delta: int)
    requires
        0 < delta <= interval,
        interval % delta == 0,
        1 <= n <= interval / delta,
    ensures
        cooldown_after(n, interval, delta) == interval - n * delta,
        cooldown_after(n, interval, delta) == 0 <==> n == interval / delta,
    decreases n,
{
    vstd::arithmetic::div_mod::lemma_fundamental_div_mod(interval, delta);
    let q = interval / delta;
    assert(interval == q * delta);
    if n == 1 {
        assert(cooldown_after(0, interval, delta) == 0);
        assert(cooldown_after(1, interval, delta) == clamped_sub(interval, delta));
        assert(interval > delta <==> q > 1) by (nonlinear_arith)
            requires interval == q * delta && delta > 0 && q >= 1;
    } else {
        lemma_cooldown_cadence((n - 1) as nat, interval, delta);
        assert(interval - (n - 1) * delta > 0) by (nonlinear_arith)
            requires interval == q * delta && delta > 0 && n - 1 < q;
        assert(interval - (n - 1) * delta > delta <==> n < q) by (nonlinear_arith)
            requires interval == q * delta && delta > 0;
        assert(interval - (n - 1) * delta - delta == interval - n * delta) by (nonlinear_arith);
        assert(interval - n * delta == 0 <==> n == q) by (nonlinear_arith)
            requires interval == q * delta && delta > 0;
    }
    if n < interval / delta {
        assert(interval - n * delta > 0) by (nonlinear_arith)
            requires interval == q * delta && delta > 0 && n < q;
    }
}

/// The firing pattern is periodic: the cooldown state `I/d` ticks later is
/// the same, so fires recur at exactly that cadence forever.
pub proof fn lemma_cooldown_periodic(n: nat, interval: int, delta: int)
    requires
        0 < delta <= interval,
        interval % delta == 0,
        1 <= n,
    ensures
        cooldown_after((n + interval / delta) as nat, interval, delta)
            == cooldown_after(n, interval, delta),
    decreases n,
{
    vstd::arithmetic::div_mod::lemma_fundamental_div_mod(interval, delta);
    let qi = interval / delta;
    assert(interval == delta * qi);
    assert(qi >= 1) by (nonlinear_arith)
        requires interval == delta * qi && delta > 0 && interval >= delta;
    let q = qi as nat;
    if n == 1 {
        lemma_cooldown_cadence(q, interval, delta);
        assert(cooldown_after(q, interval, delta) == 0);
        assert(cooldown_after((1 + q) as nat, interval, delta)
            == cooldown_tick(cooldown_after(q, interval, delta), interval, delta));
        assert(cooldown_after(0, interval, delta) == 0);
        assert(cooldown_after(1, interval, delta)
            == cooldown_tick(cooldown_after(0, interval, delta), interval, delta));
    } else {
        lemma_cooldown_periodic((n - 1) as nat, interval, delta);
        assert(cooldown_after((n + q) as nat, interval, delta)
            == cooldown_tick(cooldown_after((n - 1 + q) as nat, interval, delta), interval, delta));
        assert(cooldown_after(n, interval, delta)
            == cooldown_tick(cooldown_after((n - 1) as nat, interval, delta), interval, delta));
    }
}

/// The whole-clock effect of one tick of `delta` elapsed milliseconds.
pub open spec fn clock_after(c: SimulationClock, delta: u32) -> SimulationClock {
    SimulationClock {
        cool_down: cooldown_tick(c.cool_down as int, WALK_INTERVAL_MS as int, delta as int) as u32,
        run_cool_down: cooldown_tick(c.run_cool_down as int, RUN_INTERVAL_MS as int, delta as int) as u32,
        fire_cool_down: cooldown_tick(c.fire_cool_down as int, FIRE_INTERVAL_MS as int, delta as int) as u32,
        frames: (c.frames + 1) as u64,
    }
}

/// The simulation clock: the three animation cooldowns and the frame
/// counter, advanced exactly once per simulation tick.
#[derive(Clone, Copy, Debug, PartialEq, Eq, Structural)]
pub struct SimulationClock {
    pub cool_down: u32,
    pub run_cool_down: u32,
    pub fire_cool_down: u32,
    pub frames: u64,
}

impl SimulationClock {
    pub fn new() -> (r: SimulationClock)
        ensures
            r.cool_down == COOLDOWN_START_MS,
            r.run_cool_down == COOLDOWN_START_MS,
            r.fire_cool_down == COOLDOWN_START_MS,
            r.frames == 0,
    {
        SimulationClock {
            cool_down: COOLDOWN_START_MS,
            run_cool_down: COOLDOWN_START_MS,
            fire_cool_down: COOLDOWN_START_MS,
            frames: 0,
        }
    }

    /// The walk-animation cooldown fired this tick.
    pub open spec fn walk_fired(self) -> bool {
        self.cool_down == 0
    }

    /// The run-animation cooldown fired this tick.
    pub open spec fn run_fired(self) -> bool {
        self.run_cool_down == 0
    }

    /// The fire-animation cooldown fired this tick.
    pub open spec fn fire_fired(self) -> bool {
        self.fire_cool_down == 0
    }

    /// Advance the clock by one tick of `delta` elapsed milliseconds: each
    /// cooldown that fired last tick is reseeded to its own interval, then
    /// every cooldown decays by `delta`, floored at exactly zero.
    pub fn advance(&mut self, delta: u32)
        requires
            old(self).frames < u64::MAX,
        ensures
            *final(self) == clock_after(*old(self), delta),
            final(self).cool_down
                == cooldown_tick(old(self).cool_down as int, WALK_INTERVAL_MS as int, delta as int),
            final(self).run_cool_down
                == cooldown_tick(old(self).run_cool_down as int, RUN_INTERVAL_MS as int, delta as int),
            final(self).fire_cool_down
                == cooldown_tick(old(self).fire_cool_down as int, FIRE_INTERVAL_MS as int, delta as int),
            final(self).frames == old(self).frames + 1,
    {
        if self.cool_down == 0 {
            self.cool_down += WALK_INTERVAL_MS;
        }
        if self.fire_cool_down == 0 {
            self.fire_cool_down += FIRE_INTERVAL_MS;
        }
        if self.run_cool_down == 0 {
            self.run_cool_down += RUN_INTERVAL_MS;
        }
        self.cool_down = if self.cool_down > delta {
            self.cool_down - delta
        } else {
            0
        };
        self.run_cool_down = if self.run_cool_down > delta {
            self.run_cool_down - delta
        } else {
            0
        };
        self.fire_cool_down = if self.fire_cool_down > delta {
            self.fire_cool_down - delta
        } else {
            0
        };
        self.frames += 1;
    }
}

} // verus!
