use vstd::prelude::*;

verus! {

/// The traded volume that makes up one bar: a power of seven.
#[derive(Clone, Copy, Debug, PartialEq, Eq, Structural)]
pub enum Interval {
    T49,
    T343,
    T2401,
    T16807,
    T117649,
    T823543,
    T5764801,
    T40353607,
}

impl Interval {
    /// The threshold as a number of volume units.
    pub open spec fn threshold(self) -> nat {
        match self {
            Interval::T49 => 49,
            Interval::T343 => 343,
            Interval::T2401 => 2401,
            Interval::T16807 => 16807,
            Interval::T117649 => 117649,
            Interval::T823543 => 823543,
            Interval::T5764801 => 5764801,
            Interval::T40353607 => 40353607,
        }
    }

    pub fn as_usize(&self) -> (r: usize)
        ensures
            r == self.threshold(),
            r > 0,
    {
        match self {
            Interval::T49 => 49,
            Interval::T343 => 343,
            Interval::T2401 => 2401,
            Interval::T16807 => 16807,
            Interval::T117649 => 117649,
            Interval::T823543 => 823543,
            Interval::T5764801 => 5764801,
            Interval::T40353607 => 40353607,
        }
    }
}

} // verus!
