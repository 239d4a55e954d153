//! The simple moving average: the mean of the last `period` closes.

use crate::binary32::Binary32;
use crate::domain::bar::closes;
use crate::domain::bar::Bar;
use crate::domain::indicators::parameter_or;
use crate::domain::indicators::spec_parameter_or;
use crate::domain::indicators::Calculation;
use std::collections::VecDeque;
use vstd::prelude::*;

verus! {

pub struct SMA;

/// The running sum at index `i` of a window of `period` values: every value
/// up to `i` is added in order, and from index `period` on the value that
/// leaves the window is subtracted right after. A period of zero has no
/// window, and nothing is subtracted.
pub open spec fn rolling_sum(values: Seq<Binary32>, period: nat, i: int) -> Binary32
    decreases i + 1,
{
    if i < 0 {
        Binary32::spec_zero()
    } else {
        let added = rolling_sum(values, period, i - 1).spec_plus(values[i]);
        if period >= 1 && i >= period {
            added.spec_minus(values[i - period])
        } else {
            added
        }
    }
}

/// Whether a window of `period` values is full at index `i`.
pub open spec fn window_full(period: nat, i: int) -> bool {
    period >= 1 && i >= period - 1
}

/// The simple moving average of `values`: zero until the window is full, then
/// the running sum over the period.
pub open spec fn simple_moving_average(values: Seq<Binary32>, period: usize) -> Seq<Binary32> {
    Seq::new(
        values.len(),
        |i: int|
            if window_full(period as nat, i) {
                rolling_sum(values, period as nat, i).spec_over(Binary32::spec_of_count(period))
            } else {
                Binary32::spec_zero()
            },
    )
}

impl SMA {
    /// The simple moving average of the closes of `data`, one value per bar.
    ///
    /// The first `period - 1` values are zero. A period of zero has no full
    /// window, so every value is zero.
    pub fn calculate_simple_moving_average(&self, data: &Vec<Bar>, period: usize) -> (r: VecDeque<
        Binary32,
    >)
        ensures
            r@ == simple_moving_average(closes(data@), period),
            r.len() == data.len(),
            forall|i: int| 0 <= i < r.len() && i + 1 < period ==> r@[i] == Binary32::spec_zero(),
    {
        let mut sma_data: VecDeque<Binary32> = VecDeque::new();
        let mut sum = Binary32::zero();
        let divisor = Binary32::of_count(period);
        let ghost values = closes(data@);
        let mut i: usize = 0;
        while i < data.len()
            invariant
                i <= data.len(),
                values == closes(data@),
                divisor == Binary32::spec_of_count(period),
                sum == rolling_sum(values, period as nat, i - 1),
                sma_data@ == simple_moving_average(values, period).take(i as int),
            decreases data.len() - i,
        {
            sum = sum.plus(data[i].close);
            let value = if period >= 1 && i >= period - 1 {
                if i >= period {
                    sum = sum.minus(data[i - period].close);
                }
                sum.over(divisor)
            } else {
                Binary32::zero()
            };
            sma_data.push_back(value);
            assert(sma_data@ =~= simple_moving_average(values, period).take(i + 1));
            i = i + 1;
        }
        assert(sma_data@ =~= simple_moving_average(values, period));
        sma_data
    }
}

impl Calculation for SMA {
    open spec fn calculation(&self, values: Seq<Binary32>, params: Seq<Binary32>) -> Seq<Binary32> {
        simple_moving_average(values, spec_parameter_or(params, 0, 14))
    }

    /// The first parameter is the period; it is 14 where none is given.
    fn calculate(&self, data: &Vec<Bar>, params: &Vec<Binary32>) -> (r: VecDeque<Binary32>) {
        let period = parameter_or(params, 0, 14);
        self.calculate_simple_moving_average(data, period)
    }
}

} // verus!
