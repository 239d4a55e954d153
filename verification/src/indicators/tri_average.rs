//! The triangular moving average: a simple moving average of simple moving
//! averages.

use crate::binary32::Binary32;
use crate::domain::bar::closes;
use crate::domain::bar::Bar;
use crate::indicators::simple_moving_average::rolling_sum;
use crate::domain::indicators::parameter_or;
use crate::domain::indicators::spec_parameter_or;
use crate::domain::indicators::Calculation;
use std::collections::VecDeque;
use vstd::prelude::*;

verus! {

pub struct TMA;

/// The simple averages of `values` from the first full window on: entry `j`
/// is the average at index `j + period - 1`.
pub open spec fn first_averages(values: Seq<Binary32>, period: usize) -> Seq<Binary32> {
    if period >= 1 && values.len() >= period {
        Seq::new(
            (values.len() - (period - 1)) as nat,
            |j: int|
                rolling_sum(values, period as nat, j + period - 1).spec_over(
                    Binary32::spec_of_count(period),
                ),
        )
    } else {
        Seq::empty()
    }
}

/// The triangular moving average of `values`: zero until both windows are
/// full, then the running sum of the first averages over the period.
pub open spec fn triangular_average(values: Seq<Binary32>, period: usize) -> Seq<Binary32> {
    Seq::new(
        values.len(),
        |i: int|
            if period >= 1 && i >= 2 * period - 2 {
                rolling_sum(first_averages(values, period), period as nat, i - (period - 1)).spec_over(
                    Binary32::spec_of_count(period),
                )
            } else {
                Binary32::spec_zero()
            },
    )
}

impl TMA {
    /// The triangular moving average of the closes of `data`, one value per
    /// bar.
    ///
    /// The first `2 * period - 2` values are zero. A period of zero has no
    /// full window, so every value is zero.
    pub fn calculate_tri_average(&self, data: &Vec<Bar>, period: usize) -> (r: VecDeque<Binary32>)
        ensures
            r@ == triangular_average(closes(data@), period),
            r.len() == data.len(),
            forall|i: int| 0 <= i < r.len() && i + 2 < 2 * period ==> r@[i] == Binary32::spec_zero(),
    {
        let mut tma_data: VecDeque<Binary32> = VecDeque::new();
        let mut avg1_data: Vec<Binary32> = Vec::new();
        let mut sum1 = Binary32::zero();
        let mut sum2 = Binary32::zero();
        let divisor = Binary32::of_count(period);
        let ghost values = closes(data@);
        let ghost averages = first_averages(values, period);
        let mut i: usize = 0;
        while i < data.len()
            invariant
                i <= data.len(),
                values == closes(data@),
                averages == first_averages(values, period),
                divisor == Binary32::spec_of_count(period),
                sum1 == rolling_sum(values, period as nat, i - 1),
                sum2 == (if period >= 1 {
                    rolling_sum(averages, period as nat, i - period)
                } else {
                    Binary32::spec_zero()
                }),
                period >= 1 && i >= period - 1 ==> avg1_data@ == averages.take(i - (period - 1)),
                !(period >= 1 && i >= period - 1) ==> avg1_data@.len() == 0,
                tma_data@ == triangular_average(values, period).take(i as int),
            decreases data.len() - i,
        {
            sum1 = sum1.plus(data[i].close);
            let mut value = Binary32::zero();
            if period >= 1 && i >= period - 1 {
                if i >= period {
                    sum1 = sum1.minus(data[i - period].close);
                }
                let j: usize = i - (period - 1);
                let avg1 = sum1.over(divisor);
                assert(avg1 == averages[j as int]);
                avg1_data.push(avg1);
                assert(avg1_data@ =~= averages.take(j + 1));
                sum2 = sum2.plus(avg1);
                if j >= period - 1 {
                    if j >= period {
                        sum2 = sum2.minus(avg1_data[j - period]);
                    }
                    value = sum2.over(divisor);
                }
            }
            assert(period >= 1 && i + 1 == period - 1 ==> avg1_data@ =~= averages.take(0));
            tma_data.push_back(value);
            assert(tma_data@ =~= triangular_average(values, period).take(i + 1));
            i = i + 1;
        }
        assert(tma_data@ =~= triangular_average(values, period));
        tma_data
    }
}

impl Calculation for TMA {
    open spec fn calculation(&self, values: Seq<Binary32>, params: Seq<Binary32>) -> Seq<Binary32> {
        triangular_average(values, spec_parameter_or(params, 0, 9))
    }

    /// The first parameter is the period; it is 9 where none is given.
    fn calculate(&self, data: &Vec<Bar>, params: &Vec<Binary32>) -> (r: VecDeque<Binary32>) {
        let period = parameter_or(params, 0, 9);
        self.calculate_tri_average(data, period)
    }
}

} // verus!
