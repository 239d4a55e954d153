//! Indicator requests and their dispatch to the calculators.

use crate::binary32::Binary32;
use crate::domain::bar::closes;
use crate::domain::bar::Bar;
use crate::indicators::adaptive_moving_average::adaptive_average;
use crate::indicators::adaptive_moving_average::AMA;
use crate::indicators::simple_moving_average::simple_moving_average;
use crate::indicators::simple_moving_average::SMA;
use crate::indicators::tri_average::triangular_average;
use crate::indicators::tri_average::TMA;
use crate::indicators::xaverage::exponential_average;
use crate::indicators::xaverage::XAverage;
use crate::text::same_text;
use std::collections::VecDeque;
use vstd::prelude::*;

verus! {

/// What every calculator offers: one value per bar from the bars and a list
/// of numeric parameters, with defaults for the parameters that are missing.
pub trait Calculation {
    /// The values that `calculate` gives for these closes and parameters.
    spec fn calculation(&self, values: Seq<Binary32>, params: Seq<Binary32>) -> Seq<Binary32>;

    fn calculate(&self, data: &Vec<Bar>, params: &Vec<Binary32>) -> (r: VecDeque<Binary32>)
        ensures
            r@ == self.calculation(closes(data@), params@),
            r.len() == data.len(),
    ;
}

/// A computed indicator: its name, its parameters and one value per bar.
#[derive(Debug)]
pub struct Indicator {
    pub name: String,
    pub params: Vec<Binary32>,
    pub data: VecDeque<Binary32>,
}

/// A request for an indicator.
#[derive(Debug)]
pub enum Indicators {
    /// Efficiency-ratio period, fast period, slow period.
    AMA(usize, usize, usize),
    SMA(usize),
    TMA(usize),
    XAverage(usize),
    Unknown(String),
}

/// A request as contracts see it.
pub ghost enum IndicatorsModel {
    AMA(usize, usize, usize),
    SMA(usize),
    TMA(usize),
    XAverage(usize),
    Unknown(Seq<char>),
}

impl View for Indicators {
    type V = IndicatorsModel;

    open spec fn view(&self) -> IndicatorsModel {
        match self {
            Indicators::AMA(er_period, fast_period, slow_period) => IndicatorsModel::AMA(
                *er_period,
                *fast_period,
                *slow_period,
            ),
            Indicators::SMA(period) => IndicatorsModel::SMA(*period),
            Indicators::TMA(period) => IndicatorsModel::TMA(*period),
            Indicators::XAverage(period) => IndicatorsModel::XAverage(*period),
            Indicators::Unknown(name) => IndicatorsModel::Unknown(name@),
        }
    }
}

/// Parameter `k` as a count, or `default` where the list is too short.
pub open spec fn spec_parameter_or(params: Seq<Binary32>, k: int, default: usize) -> usize {
    if 0 <= k < params.len() {
        params[k].spec_truncate()
    } else {
        default
    }
}

/// The request that a name and a parameter list stand for.
pub open spec fn requested(name: Seq<char>, params: Seq<Binary32>) -> IndicatorsModel {
    if name == "ama"@ {
        IndicatorsModel::AMA(
            spec_parameter_or(params, 0, 10),
            spec_parameter_or(params, 1, 2),
            spec_parameter_or(params, 2, 30),
        )
    } else if name == "sma"@ {
        IndicatorsModel::SMA(spec_parameter_or(params, 0, 14))
    } else if name == "tma"@ {
        IndicatorsModel::TMA(spec_parameter_or(params, 0, 9))
    } else if name == "xaverage"@ {
        IndicatorsModel::XAverage(spec_parameter_or(params, 0, 9))
    } else {
        IndicatorsModel::Unknown(name)
    }
}

/// The values of a request over a sequence of closes: those of its
/// calculator, and none for an unknown name.
pub open spec fn values_of(request: IndicatorsModel, values: Seq<Binary32>) -> Seq<Binary32> {
    match request {
        IndicatorsModel::AMA(er_period, fast_period, slow_period) => adaptive_average(
            values,
            er_period,
            fast_period,
            slow_period,
        ),
        IndicatorsModel::SMA(period) => simple_moving_average(values, period),
        IndicatorsModel::TMA(period) => triangular_average(values, period),
        IndicatorsModel::XAverage(period) => exponential_average(values, period),
        IndicatorsModel::Unknown(_) => Seq::empty(),
    }
}

/// The values that a name and a parameter list ask for over `values`.
pub open spec fn calculation_of(name: Seq<char>, values: Seq<Binary32>, params: Seq<Binary32>) -> Seq<
    Binary32,
> {
    values_of(requested(name, params), values)
}

/// Computing an indicator again gives the same values: they depend on the
/// name, the parameters and the closing prices of the bars, and on nothing
/// else. Two bar sequences that look the same give the same values, and so do
/// two that differ in anything but their closes.
pub proof fn lemma_calculation_repeats(
    name: Seq<char>,
    first: Seq<Bar>,
    second: Seq<Bar>,
    params: Seq<Binary32>,
)
    requires
        first.len() == second.len(),
        forall|i: int| 0 <= i < first.len() ==> first[i].close == second[i].close,
    ensures
        calculation_of(name, closes(first), params) == calculation_of(name, closes(second), params),
{
    assert(closes(first) =~= closes(second));
}

/// A known request gives one value for each close; an unknown one gives none.
pub proof fn lemma_one_value_per_bar(request: IndicatorsModel, values: Seq<Binary32>)
    ensures
        values_of(request, values).len() == (if request is Unknown {
            0
        } else {
            values.len()
        }),
{
}

/// Parameter `k` as a count, or `default` where the list is too short.
pub fn parameter_or(params: &Vec<Binary32>, k: usize, default: usize) -> (r: usize)
    ensures
        r == spec_parameter_or(params@, k as int, default),
{
    if k < params.len() {
        params[k].truncate()
    } else {
        default
    }
}

impl Indicators {
    /// The name under which the indicator is requested.
    pub open spec fn spec_name(&self) -> Seq<char> {
        match self {
            Indicators::AMA(_, _, _) => "ama"@,
            Indicators::SMA(_) => "sma"@,
            Indicators::TMA(_) => "tma"@,
            Indicators::XAverage(_) => "xaverage"@,
            Indicators::Unknown(name) => name@,
        }
    }

    /// The parameters as numbers, in order.
    pub open spec fn spec_params(&self) -> Seq<Binary32> {
        match self {
            Indicators::AMA(er_period, fast_period, slow_period) => seq![
                Binary32::spec_of_count(*er_period),
                Binary32::spec_of_count(*fast_period),
                Binary32::spec_of_count(*slow_period),
            ],
            Indicators::SMA(period) => seq![Binary32::spec_of_count(*period)],
            Indicators::TMA(period) => seq![Binary32::spec_of_count(*period)],
            Indicators::XAverage(period) => seq![Binary32::spec_of_count(*period)],
            Indicators::Unknown(_) => Seq::empty(),
        }
    }

    pub fn name(&self) -> (r: &str)
        ensures
            r@ == self.spec_name(),
    {
        match self {
            Indicators::AMA(_, _, _) => "ama",
            Indicators::SMA(_) => "sma",
            Indicators::TMA(_) => "tma",
            Indicators::XAverage(_) => "xaverage",
            Indicators::Unknown(name) => name.as_str(),
        }
    }

    pub fn params(&self) -> (r: Vec<Binary32>)
        ensures
            r@ == self.spec_params(),
    {
        let mut list: Vec<Binary32> = Vec::new();
        match self {
            Indicators::AMA(er_period, fast_period, slow_period) => {
                list.push(Binary32::of_count(*er_period));
                list.push(Binary32::of_count(*fast_period));
                list.push(Binary32::of_count(*slow_period));
            },
            Indicators::SMA(period) => {
                list.push(Binary32::of_count(*period));
            },
            Indicators::TMA(period) => {
                list.push(Binary32::of_count(*period));
            },
            Indicators::XAverage(period) => {
                list.push(Binary32::of_count(*period));
            },
            Indicators::Unknown(_) => {},
        }
        assert(list@ =~= self.spec_params());
        list
    }

    /// The request that a name and a parameter list stand for. Missing
    /// parameters take their defaults; a name that is not known is kept.
    pub fn from(request: (&str, &Vec<Binary32>)) -> (r: Indicators)
        ensures
            r@ == requested(request.0@, request.1@),
    {
        let name = request.0;
        let params = request.1;
        if same_text(name, "ama") {
            Indicators::AMA(
                parameter_or(params, 0, 10),
                parameter_or(params, 1, 2),
                parameter_or(params, 2, 30),
            )
        } else if same_text(name, "sma") {
            Indicators::SMA(parameter_or(params, 0, 14))
        } else if same_text(name, "tma") {
            Indicators::TMA(parameter_or(params, 0, 9))
        } else if same_text(name, "xaverage") {
            Indicators::XAverage(parameter_or(params, 0, 9))
        } else {
            Indicators::Unknown(name.to_owned())
        }
    }
}

/// The requests that a list of names with their parameters stands for, in
/// the order of the list.
pub fn requests(entries: &Vec<(String, Vec<Binary32>)>) -> (r: Vec<Indicators>)
    ensures
        r.len() == entries.len(),
        forall|i: int|
            0 <= i < entries.len() ==> (#[trigger] r[i])@ == requested(entries[i].0@, entries[i].1@),
{
    let mut list: Vec<Indicators> = Vec::new();
    let mut i: usize = 0;
    while i < entries.len()
        invariant
            i <= entries.len(),
            list.len() == i,
            forall|k: int|
                0 <= k < i ==> (#[trigger] list[k])@ == requested(entries[k].0@, entries[k].1@),
        decreases entries.len() - i,
    {
        let entry = &entries[i];
        list.push(Indicators::from((entry.0.as_str(), &entry.1)));
        i = i + 1;
    }
    list
}

/// Computes the indicator that `name` and `params` ask for over `data`.
///
/// A known name gives one value per bar; any other name gives no values.
pub fn calculate(name: &str, data: &Vec<Bar>, params: &Vec<Binary32>) -> (r: VecDeque<Binary32>)
    ensures
        r@ == calculation_of(name@, closes(data@), params@),
        !(requested(name@, params@) is Unknown) ==> r.len() == data.len(),
        requested(name@, params@) is Unknown ==> r.len() == 0,
{
    if same_text(name, "ama") {
        AMA.calculate(data, params)
    } else if same_text(name, "sma") {
        SMA.calculate(data, params)
    } else if same_text(name, "tma") {
        TMA.calculate(data, params)
    } else if same_text(name, "xaverage") {
        XAverage.calculate(data, params)
    } else {
        VecDeque::new()
    }
}

} // verus!
