//! A bar series, and the same series with indicators attached.

use crate::binary32::Binary32;
use crate::domain::bar::bar_models;
use crate::domain::bar::closes;
use crate::domain::bar::Bar;
use crate::domain::indicators::calculate;
use crate::domain::indicators::calculation_of;
use crate::domain::indicators::Indicator;
use crate::domain::indicators::Indicators;
use crate::domain::interval::Interval;
use crate::domain::resolution::Resolution;
use vstd::prelude::*;

verus! {

/// The bars of one symbol at one interval.
#[derive(Debug)]
pub struct Series {
    pub symbol: String,
    pub resolution: Resolution,
    pub interval: Interval,
    pub data: Vec<Bar>,
}

/// A series with the indicators that were asked for, in the order of asking.
#[derive(Debug)]
pub struct EnhancedSeries {
    pub symbol: String,
    pub resolution: Resolution,
    pub interval: Interval,
    pub data: Vec<Bar>,
    pub indicators: Option<Vec<Indicator>>,
}

/// Whether `indicator` is what `request` gives over the closes `values`.
pub open spec fn answers(indicator: Indicator, request: Indicators, values: Seq<Binary32>) -> bool {
    &&& indicator.name@ == request.spec_name()
    &&& indicator.params@ == request.spec_params()
    &&& indicator.data@ == calculation_of(request.spec_name(), values, request.spec_params())
}

/// Copies a bar field by field.
pub fn copy_bar(bar: &Bar) -> (r: Bar)
    ensures
        r@ == bar@,
{
    Bar {
        timestamp: bar.timestamp.clone(),
        open: bar.open,
        high: bar.high,
        low: bar.low,
        close: bar.close,
        volume: bar.volume,
    }
}

/// Copies a sequence of bars.
pub fn copy_bars(bars: &Vec<Bar>) -> (r: Vec<Bar>)
    ensures
        bar_models(r@) == bar_models(bars@),
        closes(r@) == closes(bars@),
{
    let mut copy: Vec<Bar> = Vec::new();
    let mut i: usize = 0;
    while i < bars.len()
        invariant
            i <= bars.len(),
            copy.len() == i,
            forall|k: int| 0 <= k < i ==> (#[trigger] copy[k])@ == bars[k]@,
        decreases bars.len() - i,
    {
        copy.push(copy_bar(&bars[i]));
        i = i + 1;
    }
    assert(bar_models(copy@) =~= bar_models(bars@));
    assert(closes(copy@) =~= closes(bars@));
    copy
}

impl Series {
    pub fn new(symbol: String, resolution: Resolution, interval: Interval, data: Vec<Bar>) -> (r:
        Self)
        ensures
            r.symbol == symbol,
            r.resolution == resolution,
            r.interval == interval,
            r.data == data,
    {
        Self { symbol, resolution, interval, data }
    }

    pub fn is_empty(&self) -> (r: bool)
        ensures
            r == (self.data.len() == 0),
    {
        self.data.len() == 0
    }

    pub fn len(&self) -> (r: usize)
        ensures
            r == self.data.len(),
    {
        self.data.len()
    }

    /// The series with one indicator for each request, in the order of the
    /// requests. An unknown name gives an indicator without values.
    pub fn enhance_with(&self, indicators: &Vec<Indicators>) -> (r: EnhancedSeries)
        ensures
            r.symbol@ == self.symbol@,
            r.resolution == self.resolution,
            r.interval == self.interval,
            bar_models(r.data@) == bar_models(self.data@),
            closes(r.data@) == closes(self.data@),
            r.indicators is Some,
            r.indicators->0.len() == indicators.len(),
            forall|i: int|
                0 <= i < indicators.len() ==> answers(
                    #[trigger] r.indicators->0[i],
                    indicators[i],
                    closes(self.data@),
                ),
    {
        let mut list: Vec<Indicator> = Vec::new();
        let mut i: usize = 0;
        while i < indicators.len()
            invariant
                i <= indicators.len(),
                list.len() == i,
                forall|k: int|
                    0 <= k < i ==> answers(#[trigger] list[k], indicators[k], closes(self.data@)),
            decreases indicators.len() - i,
        {
            let request = &indicators[i];
            let params = request.params();
            let data = calculate(request.name(), &self.data, &params);
            list.push(Indicator { name: request.name().to_owned(), params, data });
            i = i + 1;
        }
        EnhancedSeries {
            symbol: self.symbol.clone(),
            resolution: self.resolution,
            interval: self.interval,
            data: copy_bars(&self.data),
            indicators: Some(list),
        }
    }
}

} // verus!
