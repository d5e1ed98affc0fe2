//! Spans of time, held as a whole number of microseconds.

use vstd::prelude::*;

verus! {

pub const MICROS_PER_MILLI: i128 = 1_000;
pub const MICROS_PER_SECOND: i128 = 1_000_000;
pub const MICROS_PER_MINUTE: i128 = 60_000_000;
pub const MICROS_PER_DAY: i128 = 86_400_000_000;

/// `x / d` rounded toward zero, as integer division in Rust rounds.
pub open spec fn quotient_toward_zero(x: int, d: int) -> int {
    if x >= 0 {
        x / d
    } else {
        -((-x) / d)
    }
}

fn toward_zero(x: i128, d: i128) -> (q: i128)
    requires
        MICROS_PER_MILLI <= d <= MICROS_PER_DAY,
    ensures
        q == quotient_toward_zero(x as int, d as int),
{
    if x >= 0 {
        x / d
    } else if x > i128::MIN {
        -((-x) / d)
    } else {
        let y = -(x + d);
        assert((y as int) / (d as int) + 1 == (-(x as int)) / (d as int)) by (nonlinear_arith)
            requires
                y == -(x + d),
                d >= 1,
                x < 0;
        assert(y / d <= y) by (nonlinear_arith)
            requires
                y >= 0,
                d >= 1;
        -(y / d + 1)
    }
}

/// A signed span of time in microseconds.
#[derive(Debug, Clone, Copy, PartialEq, Eq, PartialOrd, Ord, Hash, Structural)]
pub struct Duration {
    pub micros: i128,
}

impl Duration {
    pub fn from_secs(secs: u64) -> (d: Duration)
        ensures
            d.micros == secs * MICROS_PER_SECOND,
    {
        Duration { micros: secs as i128 * MICROS_PER_SECOND }
    }

    pub fn from_millis(millis: u64) -> (d: Duration)
        ensures
            d.micros == millis * MICROS_PER_MILLI,
    {
        Duration { micros: millis as i128 * MICROS_PER_MILLI }
    }

    pub fn from_micros(micros: i64) -> (d: Duration)
        ensures
            d.micros == micros,
    {
        Duration { micros: micros as i128 }
    }

    pub fn minutes(minutes: i64) -> (d: Duration)
        ensures
            d.micros == minutes * MICROS_PER_MINUTE,
    {
        Duration { micros: minutes as i128 * MICROS_PER_MINUTE }
    }

    pub fn days(days: i64) -> (d: Duration)
        ensures
            d.micros == days * MICROS_PER_DAY,
    {
        Duration { micros: days as i128 * MICROS_PER_DAY }
    }

    /// Whole seconds, rounded toward zero.
    pub fn num_seconds(self) -> (n: i128)
        ensures
            n == quotient_toward_zero(self.micros as int, MICROS_PER_SECOND as int),
    {
        toward_zero(self.micros, MICROS_PER_SECOND)
    }

    /// Whole days, rounded toward zero.
    pub fn num_days(self) -> (n: i128)
        ensures
            n == quotient_toward_zero(self.micros as int, MICROS_PER_DAY as int),
    {
        toward_zero(self.micros, MICROS_PER_DAY)
    }

    pub fn as_micros(self) -> (n: i128)
        ensures
            n == self.micros,
    {
        self.micros
    }

    /// Whole milliseconds, rounded toward zero.
    pub fn as_millis(self) -> (n: i128)
        ensures
            n == quotient_toward_zero(self.micros as int, MICROS_PER_MILLI as int),
    {
        toward_zero(self.micros, MICROS_PER_MILLI)
    }

    /// The shorter of the two.
    pub fn min(self, other: Duration) -> (d: Duration)
        ensures
            d.micros == if self.micros <= other.micros { self.micros } else { other.micros },
    {
        if self.micros <= other.micros {
            self
        } else {
            other
        }
    }
}

} // verus!
