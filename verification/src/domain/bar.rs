use crate::binary32::Binary32;
use vstd::prelude::*;

verus! {

/// One volume bar: the prices seen while one interval of volume traded.
#[derive(Clone, Debug, PartialEq)]
pub struct Bar {
    /// The timestamp of the tick that closed the bar.
    pub timestamp: String,
    pub open: Binary32,
    pub high: Binary32,
    pub low: Binary32,
    pub close: Binary32,
    /// The volume traded: always the interval's threshold.
    pub volume: Binary32,
}

/// A bar as contracts see it.
pub ghost struct BarModel {
    pub timestamp: Seq<char>,
    pub open: Binary32,
    pub high: Binary32,
    pub low: Binary32,
    pub close: Binary32,
    pub volume: Binary32,
}

impl View for Bar {
    type V = BarModel;

    open spec fn view(&self) -> BarModel {
        BarModel {
            timestamp: self.timestamp@,
            open: self.open,
            high: self.high,
            low: self.low,
            close: self.close,
            volume: self.volume,
        }
    }
}

/// The models of a sequence of bars, in order.
pub open spec fn bar_models(bars: Seq<Bar>) -> Seq<BarModel> {
    Seq::new(bars.len(), |i: int| bars[i]@)
}

/// The closing prices of a sequence of bars, in order.
pub open spec fn closes(bars: Seq<Bar>) -> Seq<Binary32> {
    Seq::new(bars.len(), |i: int| bars[i].close)
}

} // verus!
