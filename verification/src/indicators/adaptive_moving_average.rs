//! Kaufman's adaptive moving average.
//!
//! The average follows the close quickly while prices move in one direction
//! and slowly while they move back and forth. The efficiency ratio compares
//! the net move over the last `er_period` bars with the sum of the moves from
//! bar to bar; the smoothing constant is the square of a blend of the fastest
//! and the slowest factor by that ratio.

use crate::binary32::Binary32;
use crate::domain::bar::closes;
use crate::domain::bar::Bar;
use crate::indicators::xaverage::factor_of;
use crate::indicators::xaverage::smoothing_factor;
use crate::domain::indicators::parameter_or;
use crate::domain::indicators::spec_parameter_or;
use crate::domain::indicators::Calculation;
use std::collections::VecDeque;
use vstd::prelude::*;

verus! {

pub struct AMA;

/// The size of the move from value `k - 1` to value `k`; zero at the start.
pub open spec fn price_change(values: Seq<Binary32>, k: int) -> Binary32 {
    if k <= 0 {
        Binary32::spec_zero()
    } else {
        values[k].spec_minus(values[k - 1]).spec_abs()
    }
}

/// The moves from value to value, one per value.
pub open spec fn price_changes(values: Seq<Binary32>) -> Seq<Binary32> {
    Seq::new(values.len(), |k: int| price_change(values, k))
}

/// The sum of a window, added up from zero in order.
pub open spec fn ordered_sum(window: Seq<Binary32>) -> Binary32
    decreases window.len(),
{
    if window.len() == 0 {
        Binary32::spec_zero()
    } else {
        ordered_sum(window.drop_last()).spec_plus(window.last())
    }
}

/// The efficiency ratio at index `i >= 1` over the last `n` moves.
///
/// It is zero while fewer than `n` moves are known, when `n` is zero, and
/// when the moves sum to zero. Otherwise it is the distance from the value
/// `n` places back (the first value where there is none) over that sum.
pub open spec fn efficiency_ratio(values: Seq<Binary32>, n: usize, i: int) -> Binary32 {
    if n >= 1 && i + 1 >= n {
        let volatility = ordered_sum(price_changes(values).subrange(i + 1 - n, i + 1));
        let back = if i >= n {
            i - n
        } else {
            0
        };
        if volatility.spec_is_zero() {
            Binary32::spec_zero()
        } else {
            values[i].spec_minus(values[back]).spec_abs().spec_over(volatility)
        }
    } else {
        Binary32::spec_zero()
    }
}

/// The square of `ratio * (fastest - slowest) + slowest`.
pub open spec fn smoothing_constant(ratio: Binary32, fastest: Binary32, slowest: Binary32) -> Binary32 {
    let blend = ratio.spec_times(fastest.spec_minus(slowest)).spec_plus(slowest);
    blend.spec_times(blend)
}

/// The adaptive average at index `i`: the first value at index zero, and
/// after that the previous average moved toward the value by the smoothing
/// constant.
pub open spec fn adaptive_value(
    values: Seq<Binary32>,
    n: usize,
    fastest: Binary32,
    slowest: Binary32,
    i: int,
) -> Binary32
    decreases i,
{
    if i <= 0 {
        values[0]
    } else {
        let previous = adaptive_value(values, n, fastest, slowest, i - 1);
        let constant = smoothing_constant(efficiency_ratio(values, n, i), fastest, slowest);
        previous.spec_plus(constant.spec_times(values[i].spec_minus(previous)))
    }
}

/// The adaptive moving average of `values`.
pub open spec fn adaptive_average(
    values: Seq<Binary32>,
    er_period: usize,
    fast_period: usize,
    slow_period: usize,
) -> Seq<Binary32> {
    Seq::new(
        values.len(),
        |i: int|
            adaptive_value(
                values,
                er_period,
                smoothing_factor(fast_period),
                smoothing_factor(slow_period),
                i,
            ),
    )
}

/// Adds up `changes[start..end]` from zero in order.
fn window_sum(changes: &Vec<Binary32>, start: usize, end: usize) -> (r: Binary32)
    requires
        start <= end <= changes.len(),
    ensures
        r == ordered_sum(changes@.subrange(start as int, end as int)),
{
    let mut total = Binary32::zero();
    let mut k: usize = start;
    while k < end
        invariant
            start <= k <= end <= changes.len(),
            total == ordered_sum(changes@.subrange(start as int, k as int)),
        decreases end - k,
    {
        assert(changes@.subrange(start as int, k + 1).drop_last() =~= changes@.subrange(
            start as int,
            k as int,
        ));
        total = total.plus(changes[k]);
        k = k + 1;
    }
    total
}

impl AMA {
    /// The adaptive moving average of the closes of `data`, one value per
    /// bar. The first value is the first close.
    pub fn calculate_adaptive_moving_average(
        &self,
        data: &Vec<Bar>,
        er_period: usize,
        fast_period: usize,
        slow_period: usize,
    ) -> (r: VecDeque<Binary32>)
        ensures
            r@ == adaptive_average(closes(data@), er_period, fast_period, slow_period),
            r.len() == data.len(),
            data.len() > 0 ==> r@[0] == data[0].close,
    {
        let mut ama_data: VecDeque<Binary32> = VecDeque::new();
        let mut price_changes: Vec<Binary32> = Vec::new();
        let mut prev_ama = Binary32::zero();
        let fastest = factor_of(fast_period);
        let slowest = factor_of(slow_period);
        let ghost values = closes(data@);
        let ghost all_changes = self::price_changes(values);
        let mut i: usize = 0;
        while i < data.len()
            invariant
                i <= data.len(),
                values == closes(data@),
                all_changes == self::price_changes(values),
                fastest == smoothing_factor(fast_period),
                slowest == smoothing_factor(slow_period),
                price_changes@ == all_changes.take(i as int),
                i > 0 ==> prev_ama == adaptive_value(values, er_period, fastest, slowest, i - 1),
                ama_data@ == adaptive_average(values, er_period, fast_period, slow_period).take(
                    i as int,
                ),
            decreases data.len() - i,
        {
            let close = data[i].close;
            if i == 0 {
                price_changes.push(Binary32::zero());
                prev_ama = close;
            } else {
                let price_change = close.minus(data[i - 1].close).abs();
                price_changes.push(price_change);
                let efficiency_ratio = if er_period >= 1 && i + 1 >= er_period {
                    let volatility = window_sum(&price_changes, i + 1 - er_period, i + 1);
                    assert(price_changes@.subrange(i + 1 - er_period, i + 1) =~= all_changes.subrange(
                        i + 1 - er_period,
                        i + 1,
                    ));
                    let back: usize = if i >= er_period {
                        i - er_period
                    } else {
                        0
                    };
                    if volatility.is_zero() {
                        Binary32::zero()
                    } else {
                        close.minus(data[back].close).abs().over(volatility)
                    }
                } else {
                    Binary32::zero()
                };
                let blend = efficiency_ratio.times(fastest.minus(slowest)).plus(slowest);
                let smoothing_constant = blend.times(blend);
                prev_ama = prev_ama.plus(smoothing_constant.times(close.minus(prev_ama)));
            }
            assert(price_changes@ =~= all_changes.take(i + 1));
            ama_data.push_back(prev_ama);
            assert(ama_data@ =~= adaptive_average(values, er_period, fast_period, slow_period).take(
                i + 1,
            ));
            i = i + 1;
        }
        assert(ama_data@ =~= adaptive_average(values, er_period, fast_period, slow_period));
        ama_data
    }
}

impl Calculation for AMA {
    open spec fn calculation(&self, values: Seq<Binary32>, params: Seq<Binary32>) -> Seq<Binary32> {
        adaptive_average(
            values,
            spec_parameter_or(params, 0, 10),
            spec_parameter_or(params, 1, 2),
            spec_parameter_or(params, 2, 30),
        )
    }

    /// The parameters are the efficiency-ratio period, the fast period and
    /// the slow period; they are 10, 2 and 30 where none is given.
    fn calculate(&self, data: &Vec<Bar>, params: &Vec<Binary32>) -> (r: VecDeque<Binary32>) {
        let er_period = parameter_or(params, 0, 10);
        let fast_period = parameter_or(params, 1, 2);
        let slow_period = parameter_or(params, 2, 30);
        self.calculate_adaptive_moving_average(data, er_period, fast_period, slow_period)
    }
}

} // verus!
