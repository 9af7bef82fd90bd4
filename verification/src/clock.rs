//! Simulation clock: accumulates real elapsed time and hands out whole
//! fixed-size simulation steps, decoupling the simulation rate from the
//! presentation rate.
//!
//! A step is exactly 1/30 of a second.  To keep the arithmetic exact, the
//! accumulator counts *tick-millionths*: each elapsed microsecond is worth
//! 30 of them, and one step is 1,000,000 of them.

use vstd::prelude::*;

verus! {

/// Tick-millionths per simulation step (one step == 1/30 s).
pub const STEP_UNITS: u64 = 1000000;

/// Tick-millionths per elapsed microsecond (30 steps per second).
pub const UNITS_PER_MICRO: u64 = 30;

/// Largest elapsed span accepted at once: 1000 seconds, in microseconds.
pub const MAX_ELAPSED_MICROS: u64 = 1000000000;

pub struct SimClock {
    /// Time carried over from earlier frames, in tick-millionths; always
    /// less than one whole step.
    pub accum: u64,
}

impl SimClock {
    /// The accumulator never holds a whole step.
    pub open spec fn wf(self) -> bool {
        self.accum < STEP_UNITS
    }

    pub fn new() -> (clock: SimClock)
        ensures
            clock.wf(),
            clock.accum == 0,
    {
        SimClock { accum: 0 }
    }

    /// Feeds `elapsed_micros` of real time to the clock and returns how
    /// many whole simulation steps are now due; the remainder stays in the
    /// accumulator.  Zero, one or several steps may be due for one frame.
    pub fn advance(&mut self, elapsed_micros: u64) -> (steps: u64)
        requires
            old(self).wf(),
            elapsed_micros <= MAX_ELAPSED_MICROS,
        ensures
            final(self).wf(),
            steps == (old(self).accum + UNITS_PER_MICRO * elapsed_micros) / (STEP_UNITS as int),
            final(self).accum == (old(self).accum + UNITS_PER_MICRO * elapsed_micros) % (
            STEP_UNITS as int),
    {
        let total: u64 = self.accum + UNITS_PER_MICRO * elapsed_micros;
        let steps = total / STEP_UNITS;
        self.accum = total % STEP_UNITS;
        steps
    }
}

} // verus!
