//! The in-game clock: ticks, days, and the day/night phase derived from the
//! tick. One in-game day is `TICKS_PER_DAY` ticks; the background loop that
//! turns real time into ticks lives outside the library and feeds snapshots
//! back through `TimeManger`.
use vstd::prelude::*;

verus! {

/// Number of ticks in one in-game day.
pub const TICKS_PER_DAY: u32 = 900;

/// Coarse day/night classification derived from the tick.
#[derive(Debug, Clone, Copy, PartialEq, Eq, Structural)]
pub enum Phase {
    Dawn,
    Day,
    Dusk,
    Night,
}

/// Phase for a tick in `[0, TICKS_PER_DAY)`: the day quarters end at 25%,
/// 50%, 75% and 100% of the day, each upper bound included.
pub open spec fn spec_phase(tick: u32) -> Phase {
    if tick <= 225 {
        Phase::Dawn
    } else if tick <= 450 {
        Phase::Day
    } else if tick <= 675 {
        Phase::Dusk
    } else {
        Phase::Night
    }
}

/// Computes the phase a tick falls in.
pub fn phase_of_tick(tick: u32) -> (r: Phase)
    ensures
        r == spec_phase(tick),
{
    if tick <= 225 {
        Phase::Dawn
    } else if tick <= 450 {
        Phase::Day
    } else if tick <= 675 {
        Phase::Dusk
    } else {
        Phase::Night
    }
}

/// A point of in-game time. `phase` is always the classification of `tick`.
#[derive(Debug, Clone, Copy, PartialEq, Eq, Structural)]
pub struct GameTime {
    pub tick: u32,
    pub day: u32,
    pub phase: Phase,
}

impl GameTime {
    /// A time value is well formed when the tick lies inside one day, the
    /// day count has started, and the stored phase matches the tick.
    pub open spec fn wf(self) -> bool {
        &&& self.tick < TICKS_PER_DAY
        &&& self.day >= 1
        &&& self.phase == spec_phase(self.tick)
    }

    /// Dawn of the first day.
    pub fn new() -> (r: Self)
        ensures
            r == (GameTime { tick: 0u32, day: 1u32, phase: Phase::Dawn }),
            r.wf(),
    {
        Self { tick: 0, day: 1, phase: Phase::Dawn }
    }

    /// `t` moved `n` ticks forward: the tick wraps at day length, whole days
    /// carry into the day count, and the day count stops at its largest
    /// representable value.
    pub open spec fn spec_advanced(self, n: u64) -> GameTime {
        let total = self.tick + n;
        let tick = (total % (TICKS_PER_DAY as int)) as u32;
        let day_target = self.day + total / (TICKS_PER_DAY as int);
        let day = if day_target <= u32::MAX { day_target as u32 } else { u32::MAX };
        GameTime { tick, day, phase: spec_phase(tick) }
    }

    /// Moves this time `n` ticks forward.
    pub fn advance(&mut self, n: u64)
        requires
            old(self).wf(),
        ensures
            *final(self) == old(self).spec_advanced(n),
            final(self).wf(),
    {
        let whole_days: u64 = n / (TICKS_PER_DAY as u64);
        let rest: u64 = n % (TICKS_PER_DAY as u64);
        let within: u64 = self.tick as u64 + rest;
        let (new_tick, extra): (u32, u64) = if within >= TICKS_PER_DAY as u64 {
            ((within - TICKS_PER_DAY as u64) as u32, 1u64)
        } else {
            (within as u32, 0u64)
        };
        proof {
            let t = self.tick as int;
            let q = n as int / 900;
            let r = n as int % 900;
            assert(n == 900 * q + r && 0 <= r < 900) by (nonlinear_arith)
                requires
                    q == n as int / 900,
                    r == n as int % 900,
            ;
            let e = if t + r >= 900 { 1int } else { 0int };
            assert(new_tick == t + r - 900 * e);
            assert((t + n) % 900 == new_tick && (t + n) / 900 == q + e) by (nonlinear_arith)
                requires
                    n == 900 * q + r,
                    0 <= r < 900,
                    0 <= t < 900,
                    e == (if t + r >= 900 { 1int } else { 0int }),
                    new_tick == t + r - 900 * e,
            ;
        }
        let carry: u64 = whole_days + extra;
        let day_sum: u64 = self.day as u64 + carry;
        self.tick = new_tick;
        self.day = if day_sum <= u32::MAX as u64 {
            day_sum as u32
        } else {
            u32::MAX
        };
        self.phase = phase_of_tick(new_tick);
    }
}

/// The phase schedule of a day: dawn at tick zero, day at half of the day,
/// dusk at three quarters, and a fresh dawn on the next day after rollover.
pub proof fn lemma_phase_boundaries(t: GameTime)
    requires
        t.wf(),
        t.tick == TICKS_PER_DAY - 1,
    ensures
        spec_phase(0) == Phase::Dawn,
        spec_phase((TICKS_PER_DAY / 2) as u32) == Phase::Day,
        spec_phase((TICKS_PER_DAY * 3 / 4) as u32) == Phase::Dusk,
        t.spec_advanced(1).tick == 0,
        t.spec_advanced(1).phase == Phase::Dawn,
        t.day < u32::MAX ==> t.spec_advanced(1).day == t.day + 1,
{
}

/// Session-side model of the time simulation: the latest snapshot of the
/// clock and whether the background loop should be running. The loop itself
/// runs outside the library and reports snapshots back through `sync`.
pub struct TimeManger {
    pub time: Option<GameTime>,
    pub running: bool,
}

impl TimeManger {
    /// A fresh manager: no clock yet, nothing running.
    pub fn new() -> (r: Self)
        ensures
            r.time is None,
            !r.running,
    {
        Self { time: None, running: false }
    }

    /// Seeds the clock and marks the simulation as running.
    pub fn start(&mut self, initial: GameTime)
        ensures
            final(self).time == Some(initial),
            final(self).running,
    {
        self.time = Some(initial);
        self.running = true;
    }

    /// Marks the simulation as stopped; the last snapshot stays readable.
    pub fn stop(&mut self)
        ensures
            final(self).time == old(self).time,
            !final(self).running,
    {
        self.running = false;
    }

    /// Records a snapshot reported by the running simulation.
    pub fn sync(&mut self, t: GameTime)
        ensures
            final(self).time == Some(t),
            final(self).running == old(self).running,
    {
        self.time = Some(t);
    }
}

} // verus!
