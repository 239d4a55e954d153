use crate::amount::exact_grains;
use crate::binary32::Binary32;
use vstd::prelude::*;

verus! {

/// One trade: a price and the volume traded at it.
#[derive(Clone, Debug)]
pub struct Tick {
    pub timestamp: String,
    pub symbol: String,
    pub price: Binary32,
    /// The volume traded: a number that is finite and not negative. Any
    /// other counts as nothing.
    pub volume: Binary32,
}

/// A tick as contracts see it.
pub ghost struct TickModel {
    pub timestamp: Seq<char>,
    pub symbol: Seq<char>,
    pub price: Binary32,
    /// The volume, exactly, in grains of 2^-149 of a unit.
    pub volume: nat,
}

impl View for Tick {
    type V = TickModel;

    open spec fn view(&self) -> TickModel {
        TickModel {
            timestamp: self.timestamp@,
            symbol: self.symbol@,
            price: self.price,
            volume: exact_grains(self.volume.bits),
        }
    }
}

/// The models of a sequence of ticks, in order.
pub open spec fn tick_models(ticks: Seq<Tick>) -> Seq<TickModel> {
    Seq::new(ticks.len(), |i: int| ticks[i]@)
}

} // verus!
