//! Closed scalar intervals, used for valid hit-parameter ranges.

use vstd::prelude::*;

use crate::fx::{fadd, fdiv, fsub, sadd64, sdiv64, ssub64, FX_MAX, FX_MIN, FX_TWO};

verus! {

#[derive(Clone, Copy, Debug, PartialEq, Eq, Structural)]
pub struct Interval {
    pub min: i64,
    pub max: i64,
}

pub open spec fn ival(min: i64, max: i64) -> Interval {
    Interval { min, max }
}

impl Interval {
    pub fn new(min: i64, max: i64) -> (r: Interval)
        ensures
            r == ival(min, max),
    {
        Interval { min, max }
    }

    /// The empty interval: every `contains` query on it is false.
    pub fn empty() -> (r: Interval)
        ensures
            r == ival(FX_MAX, FX_MIN),
    {
        Interval { min: FX_MAX, max: FX_MIN }
    }

    /// The interval holding every representable scalar.
    pub fn universe() -> (r: Interval)
        ensures
            r == ival(FX_MIN, FX_MAX),
    {
        Interval { min: FX_MIN, max: FX_MAX }
    }

    /// The smallest interval containing both arguments.
    pub fn bound(a: Interval, b: Interval) -> (r: Interval)
        ensures
            r == (Interval {
                min: crate::fx::smin64(a.min, b.min),
                max: crate::fx::smax64(a.max, b.max),
            }),
    {
        Interval { min: crate::fx::fmin(a.min, b.min), max: crate::fx::fmax(a.max, b.max) }
    }

    pub fn size(&self) -> (r: i64)
        ensures
            r == ssub64(self.max, self.min),
    {
        fsub(self.max, self.min)
    }

    /// Closed membership query.
    pub fn contains(&self, x: i64) -> (r: bool)
        ensures
            r == (self.min <= x && x <= self.max),
    {
        self.min <= x && x <= self.max
    }

    /// Open membership query.
    pub fn surrounds(&self, x: i64) -> (r: bool)
        ensures
            r == (self.min < x && x < self.max),
    {
        self.min < x && x < self.max
    }

    /// Widen each end by half of `delta`.
    pub fn expand(&self, delta: i64) -> (r: Interval)
        ensures
            r == (Interval {
                min: ssub64(self.min, sdiv64(delta, FX_TWO)),
                max: sadd64(self.max, sdiv64(delta, FX_TWO)),
            }),
    {
        let padding = fdiv(delta, FX_TWO);
        Interval { min: fsub(self.min, padding), max: fadd(self.max, padding) }
    }
}

} // verus!
