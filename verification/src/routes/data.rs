use crate::domain::indicators::Indicators;
use crate::domain::interval::Interval;
use crate::domain::resolution::Resolution;
use vstd::prelude::*;

verus! {

/// The parameters of a request for historical data.
#[derive(Debug)]
pub struct Parameters {
    pub symbol: String,
    pub exchange: String,
    pub resolution: Resolution,
    pub interval: Interval,
    pub from: String,
    pub to: Option<String>,
    pub limit_lower: Option<usize>,
    pub limit_upper: Option<usize>,
    pub indicators: Option<Vec<Indicators>>,
}

} // verus!
