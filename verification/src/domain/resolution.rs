use vstd::prelude::*;

verus! {

/// The granularity of a series. Only `TICK` can be built from ticks.
#[derive(Clone, Copy, Debug, PartialEq, Eq, Structural)]
pub enum Resolution {
    TICK,
    MINUTE,
    HOUR,
    DAY,
}

impl Resolution {
    /// The upper-case name, as it is written on the wire.
    pub open spec fn spec_name(self) -> Seq<char> {
        match self {
            Resolution::TICK => "TICK"@,
            Resolution::MINUTE => "MINUTE"@,
            Resolution::HOUR => "HOUR"@,
            Resolution::DAY => "DAY"@,
        }
    }

    /// The lower-case name, as it is written in table names.
    pub open spec fn spec_lower_name(self) -> Seq<char> {
        match self {
            Resolution::TICK => "tick"@,
            Resolution::MINUTE => "minute"@,
            Resolution::HOUR => "hour"@,
            Resolution::DAY => "day"@,
        }
    }

    pub fn name(&self) -> (r: String)
        ensures
            r@ == self.spec_name(),
    {
        match self {
            Resolution::TICK => "TICK".to_owned(),
            Resolution::MINUTE => "MINUTE".to_owned(),
            Resolution::HOUR => "HOUR".to_owned(),
            Resolution::DAY => "DAY".to_owned(),
        }
    }

    pub fn lower_name(&self) -> (r: String)
        ensures
            r@ == self.spec_lower_name(),
    {
        match self {
            Resolution::TICK => "tick".to_owned(),
            Resolution::MINUTE => "minute".to_owned(),
            Resolution::HOUR => "hour".to_owned(),
            Resolution::DAY => "day".to_owned(),
        }
    }
}

} // verus!
