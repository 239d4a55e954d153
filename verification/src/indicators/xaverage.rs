//! The exponential moving average.

use crate::binary32::Binary32;
use crate::domain::bar::closes;
use crate::domain::bar::Bar;
use crate::domain::indicators::parameter_or;
use crate::domain::indicators::spec_parameter_or;
use crate::domain::indicators::Calculation;
use std::collections::VecDeque;
use vstd::prelude::*;

verus! {

pub struct XAverage;

/// The weight of the newest value: `2 / (period + 1)`.
pub open spec fn smoothing_factor(period: usize) -> Binary32 {
    Binary32::spec_two().spec_over(Binary32::spec_of_count(period).spec_plus(Binary32::spec_one()))
}

/// The exponential average at index `i`: the first value at index zero, and
/// after that the previous average moved toward the value by `factor`.
pub open spec fn exponential_value(values: Seq<Binary32>, factor: Binary32, i: int) -> Binary32
    decreases i,
{
    if i <= 0 {
        values[0]
    } else {
        let previous = exponential_value(values, factor, i - 1);
        values[i].spec_minus(previous).spec_times(factor).spec_plus(previous)
    }
}

/// The exponential moving average of `values` over `period`.
pub open spec fn exponential_average(values: Seq<Binary32>, period: usize) -> Seq<Binary32> {
    Seq::new(values.len(), |i: int| exponential_value(values, smoothing_factor(period), i))
}

/// Computes `2 / (period + 1)`.
pub fn factor_of(period: usize) -> (r: Binary32)
    ensures
        r == smoothing_factor(period),
{
    Binary32::two().over(Binary32::of_count(period).plus(Binary32::one()))
}

impl XAverage {
    /// The exponential moving average of the closes of `data`, one value per
    /// bar. The first value is the first close.
    pub fn calculate_xaverage(&self, data: &Vec<Bar>, period: usize) -> (r: VecDeque<Binary32>)
        ensures
            r@ == exponential_average(closes(data@), period),
            r.len() == data.len(),
            data.len() > 0 ==> r@[0] == data[0].close,
    {
        let mut xavg: VecDeque<Binary32> = VecDeque::new();
        let factor = factor_of(period);
        let ghost values = closes(data@);
        let mut previous = Binary32::zero();
        let mut i: usize = 0;
        while i < data.len()
            invariant
                i <= data.len(),
                values == closes(data@),
                factor == smoothing_factor(period),
                i > 0 ==> previous == exponential_value(values, factor, i - 1),
                xavg@ == exponential_average(values, period).take(i as int),
            decreases data.len() - i,
        {
            let close = data[i].close;
            let value = if i == 0 {
                close
            } else {
                close.minus(previous).times(factor).plus(previous)
            };
            xavg.push_back(value);
            previous = value;
            assert(xavg@ =~= exponential_average(values, period).take(i + 1));
            i = i + 1;
        }
        assert(xavg@ =~= exponential_average(values, period));
        xavg
    }
}

impl Calculation for XAverage {
    open spec fn calculation(&self, values: Seq<Binary32>, params: Seq<Binary32>) -> Seq<Binary32> {
        exponential_average(values, spec_parameter_or(params, 0, 9))
    }

    /// The first parameter is the period; it is 9 where none is given.
    fn calculate(&self, data: &Vec<Bar>, params: &Vec<Binary32>) -> (r: VecDeque<Binary32>) {
        let period = parameter_or(params, 0, 9);
        self.calculate_xaverage(data, period)
    }
}

} // verus!
