//! Folding ticks into bars of equal volume.
//!
//! Volume is counted exactly, in grains of 2^-149 of a unit, so that no
//! volume is lost or made up however many ticks there are and however small
//! their volumes.
//!
//! The first tick opens the first bar and seeds the running volume. Every
//! later tick adds its volume, and closes one bar for each whole interval that
//! the running volume then holds. A bar's `high` and `low` are the price at
//! which it opened: prices seen while the bar fills are not tracked.

use crate::amount::grains_per_unit;
use crate::amount::Amount;
use crate::amount::LOWER_LIMIT;
use crate::amount::UPPER_LIMIT;
use crate::binary32::Binary32;
use crate::domain::bar::bar_models;
use crate::domain::bar::Bar;
use crate::domain::bar::BarModel;
use crate::domain::interval::Interval;
use crate::domain::tick::tick_models;
use crate::domain::tick::Tick;
use crate::domain::tick::TickModel;
use vstd::prelude::*;

verus! {

/// The grains in `v` units.
pub open spec fn grains_in(v: nat) -> nat {
    v * grains_per_unit()
}

/// The volume of the ticks up to and including tick `k`, in grains.
pub open spec fn total_volume(ticks: Seq<TickModel>, k: int) -> nat
    decreases k + 1,
{
    if k < 0 {
        0
    } else {
        total_volume(ticks, k - 1) + ticks[k].volume
    }
}

/// The volume that is left over for the next bar once tick `k` is done, in
/// grains.
pub open spec fn carried(ticks: Seq<TickModel>, v: nat, k: int) -> nat
    decreases k,
{
    if k <= 0 {
        ticks[0].volume
    } else {
        (carried(ticks, v, k - 1) + ticks[k].volume) % grains_in(v)
    }
}

/// How many bars tick `k` closes, for `k >= 1`.
pub open spec fn closed_by(ticks: Seq<TickModel>, v: nat, k: int) -> nat {
    (carried(ticks, v, k - 1) + ticks[k].volume) / grains_in(v)
}

/// The opening price of the bar that is filling once tick `k` is done.
pub open spec fn open_price(ticks: Seq<TickModel>, v: nat, k: int) -> Binary32
    decreases k,
{
    if k <= 0 {
        ticks[0].price
    } else if closed_by(ticks, v, k) > 0 {
        ticks[k].price
    } else {
        open_price(ticks, v, k - 1)
    }
}

/// The volume of one bar as a number.
pub open spec fn unit_volume(v: nat) -> Binary32 {
    Binary32::spec_of_count(v as usize)
}

/// The bars that tick `k` closes, for `k >= 1`: the first opened where the
/// filling bar did, the others open at this tick's price.
pub open spec fn bars_closed_by(ticks: Seq<TickModel>, v: nat, k: int) -> Seq<BarModel> {
    Seq::new(
        closed_by(ticks, v, k),
        |j: int|
            {
                let first = if j == 0 {
                    open_price(ticks, v, k - 1)
                } else {
                    ticks[k].price
                };
                BarModel {
                    timestamp: ticks[k].timestamp,
                    open: first,
                    high: first,
                    low: first,
                    close: ticks[k].price,
                    volume: unit_volume(v),
                }
            },
    )
}

/// The bars closed by the ticks up to and including tick `k`.
pub open spec fn bars_through(ticks: Seq<TickModel>, v: nat, k: int) -> Seq<BarModel>
    decreases k,
{
    if k <= 0 {
        Seq::empty()
    } else {
        bars_through(ticks, v, k - 1) + bars_closed_by(ticks, v, k)
    }
}

/// The bars of `v` units of volume that a sequence of ticks makes.
pub open spec fn volume_bars(ticks: Seq<TickModel>, v: nat) -> Seq<BarModel> {
    if ticks.len() == 0 {
        Seq::empty()
    } else {
        bars_through(ticks, v, ticks.len() - 1)
    }
}

proof fn lemma_whole_intervals(n: int, v: int, rest: int, total: int)
    requires
        v > 0,
        0 <= rest < v,
        n * v + rest == total,
    ensures
        total / v == n,
        total % v == rest,
{
    vstd::arithmetic::div_mod::lemma_fundamental_div_mod_converse(total, v, n, rest);
}

proof fn lemma_grains_positive(v: nat)
    requires
        v > 0,
    ensures
        grains_in(v) >= grains_per_unit() > 0,
{
    assert(v * grains_per_unit() >= grains_per_unit()) by (nonlinear_arith)
        requires
            v >= 1,
            grains_per_unit() > 0,
    ;
}

/// Up to any tick, the volume of the bars closed so far and the volume
/// carried over add up to the volume of the ticks. Every bar's volume is `v`.
pub proof fn lemma_volume_is_kept(ticks: Seq<TickModel>, v: nat, k: int)
    requires
        v > 0,
        0 <= k < ticks.len(),
    ensures
        bars_through(ticks, v, k).len() * grains_in(v) + carried(ticks, v, k) == total_volume(
            ticks,
            k,
        ),
        k >= 1 ==> carried(ticks, v, k) < grains_in(v),
        forall|i: int|
            0 <= i < bars_through(ticks, v, k).len() ==> (#[trigger] bars_through(
                ticks,
                v,
                k,
            )[i]).volume == unit_volume(v),
    decreases k,
{
    lemma_grains_positive(v);
    let g = grains_in(v);
    if k == 0 {
        assert(total_volume(ticks, -1) == 0);
    } else {
        lemma_volume_is_kept(ticks, v, k - 1);
        let before = bars_through(ticks, v, k - 1);
        let sum = carried(ticks, v, k - 1) + ticks[k].volume;
        let closed = closed_by(ticks, v, k);
        vstd::arithmetic::div_mod::lemma_fundamental_div_mod(sum as int, g as int);
        assert((before.len() + closed) * g == before.len() * g + g * closed) by (nonlinear_arith);
        assert(sum % g < g) by (nonlinear_arith)
            requires
                g > 0,
        ;
    }
}

/// Fewer than two ticks make no bar, whatever their volume.
pub proof fn lemma_no_bar_before_the_second_tick(ticks: Seq<TickModel>, v: nat)
    requires
        ticks.len() <= 1,
    ensures
        volume_bars(ticks, v).len() == 0,
{
}

/// From two ticks on, there are as many bars as whole intervals fit in the
/// exact volume of all the ticks, and every bar holds exactly one interval.
pub proof fn lemma_bar_count(ticks: Seq<TickModel>, v: nat)
    requires
        v > 0,
        ticks.len() >= 2,
    ensures
        volume_bars(ticks, v).len() == total_volume(ticks, ticks.len() - 1) / grains_in(v),
        forall|i: int|
            0 <= i < volume_bars(ticks, v).len() ==> (#[trigger] volume_bars(ticks, v)[i]).volume
                == unit_volume(v),
{
    let last = ticks.len() - 1;
    lemma_grains_positive(v);
    lemma_volume_is_kept(ticks, v, last);
    lemma_whole_intervals(
        bars_through(ticks, v, last).len() as int,
        grains_in(v) as int,
        carried(ticks, v, last) as int,
        total_volume(ticks, last) as int,
    );
}

proof fn lemma_one_bar_closed(whole: int, fraction: int, done: int, v: int, unit: int, sum: int)
    requires
        whole >= v,
        whole * unit + fraction + done * (v * unit) == sum,
    ensures
        (whole - v) * unit + fraction + (done + 1) * (v * unit) == sum,
{
    assert((whole - v) * unit + (done + 1) * (v * unit) == whole * unit + done * (v * unit))
        by (nonlinear_arith);
}

proof fn lemma_below_one_interval(whole: int, fraction: int, v: int, unit: int)
    requires
        0 <= whole < v,
        0 <= fraction < unit,
    ensures
        whole * unit + fraction < v * unit,
{
    assert((whole + 1) * unit <= v * unit) by (nonlinear_arith)
        requires
            whole + 1 <= v,
            unit > 0,
    ;
    assert((whole + 1) * unit == whole * unit + unit) by (nonlinear_arith);
}

/// Adds the fractions of two amounts: the two limbs of the sum, and the one
/// whole unit that it may carry.
fn add_fractions(a: &Amount, b: &Amount) -> (r: (u128, u128, u128))
    requires
        a.wf(),
        b.wf(),
    ensures
        r.0 < UPPER_LIMIT,
        r.1 < LOWER_LIMIT,
        r.2 <= 1,
        r.2 * grains_per_unit() + r.0 * LOWER_LIMIT + r.1 == a.fraction() + b.fraction(),
{
    let low: u128 = a.lower + b.lower;
    let lower: u128 = if low >= LOWER_LIMIT {
        low - LOWER_LIMIT
    } else {
        low
    };
    let step: u128 = if low >= LOWER_LIMIT {
        1
    } else {
        0
    };
    let high: u128 = a.upper + b.upper + step;
    let upper: u128 = if high >= UPPER_LIMIT {
        high - UPPER_LIMIT
    } else {
        high
    };
    let carry: u128 = if high >= UPPER_LIMIT {
        1
    } else {
        0
    };
    (upper, lower, carry)
}

/// Makes the volume bars of `ticks` for the given interval.
///
/// Every bar holds exactly the interval's volume. No ticks or one tick make no
/// bar; from two ticks on, there are as many bars as whole intervals fit in
/// the exact volume of all the ticks.
pub fn generate_from_ticks(ticks: &Vec<Tick>, interval: &Interval) -> (bars: Vec<Bar>)
    ensures
        bar_models(bars@) == volume_bars(tick_models(ticks@), interval.threshold()),
        forall|i: int|
            0 <= i < bars.len() ==> (#[trigger] bars[i]).volume == unit_volume(interval.threshold()),
        ticks.len() <= 1 ==> bars.len() == 0,
        ticks.len() >= 2 ==> bars.len() == total_volume(
            tick_models(ticks@),
            ticks.len() - 1,
        ) / grains_in(interval.threshold()),
{
    let mut bars: Vec<Bar> = Vec::new();
    let v: u128 = interval.as_usize() as u128;
    let unit = Binary32::of_count(interval.as_usize());
    let ghost m = tick_models(ticks@);
    let ghost vn = interval.threshold();
    let ghost grain = grains_per_unit() as int;
    let ghost g = grains_in(vn) as int;
    if ticks.len() == 0 {
        assert(bar_models(bars@) =~= volume_bars(m, vn));
        return bars;
    }
    proof {
        lemma_grains_positive(vn);
    }
    let mut open: Binary32 = ticks[0].price;
    let mut count: Amount = ticks[0].volume.amount();
    let mut i: usize = 1;
    assert(bar_models(bars@) =~= bars_through(m, vn, 0));
    while i < ticks.len()
        invariant
            1 <= i <= ticks.len(),
            m == tick_models(ticks@),
            vn == interval.threshold(),
            v == vn,
            grain == grains_per_unit(),
            g == grains_in(vn),
            g >= grain > 0,
            unit == unit_volume(vn),
            count.wf(),
            count.grains() == carried(m, vn, i - 1),
            open == open_price(m, vn, i - 1),
            bar_models(bars@) == bars_through(m, vn, i - 1),
        decreases ticks.len() - i,
    {
        let tick = &ticks[i];
        let volume: Amount = tick.volume.amount();
        let ghost before = bar_models(bars@);
        let ghost closing = bars_closed_by(m, vn, i as int);
        let ghost sum: int = (count.grains() + volume.grains()) as int;
        let ghost first = open;
        let ghost done: int = 0;
        assert(m[i as int] == tick@);
        let parts = add_fractions(&count, &volume);
        let upper: u128 = parts.0;
        let lower: u128 = parts.1;
        let mut carry: u128 = parts.2;
        let mut whole: u128 = count.whole;
        let mut pending: u128 = volume.whole;
        let ghost fraction: int = upper * LOWER_LIMIT + lower;
        assert(before + closing.take(0) =~= before);
        assert((whole + carry + pending) * grain + fraction == sum) by (nonlinear_arith)
            requires
                sum == whole * grain + count.fraction() + pending * grain + volume.fraction(),
                carry * grain + fraction == count.fraction() + volume.fraction(),
        ;
        while whole >= v || carry > 0 || pending > 0
            invariant
                1 <= i < ticks.len(),
                m == tick_models(ticks@),
                m[i as int] == tick@,
                vn == interval.threshold(),
                v == vn,
                vn > 0,
                grain == grains_per_unit(),
                g == grains_in(vn),
                g >= grain > 0,
                unit == unit_volume(vn),
                carry <= 1,
                sum == carried(m, vn, i - 1) + tick@.volume,
                first == open_price(m, vn, i - 1),
                closing == bars_closed_by(m, vn, i as int),
                closing.len() == sum / g,
                (whole + carry + pending) * grain + fraction + done * g == sum,
                0 <= fraction,
                0 <= done <= sum / g,
                open == (if done == 0 {
                    first
                } else {
                    tick.price
                }),
                bar_models(bars@) == before + closing.take(done),
            decreases whole + carry + pending, carry + pending,
        {
            if whole >= v {
                proof {
                    lemma_one_bar_closed(
                        whole + carry + pending,
                        fraction,
                        done,
                        vn as int,
                        grain,
                        sum,
                    );
                }
                whole = whole - v;
                let bar = Bar {
                    timestamp: tick.timestamp.clone(),
                    open,
                    high: open,
                    low: open,
                    close: tick.price,
                    volume: unit,
                };
                proof {
                    assert(done + 1 <= sum / g) by {
                        assert((whole + carry + pending) * grain >= 0) by (nonlinear_arith)
                            requires
                                whole + carry + pending >= 0,
                                grain > 0,
                        ;
                        assert((done + 1) * g <= sum);
                        vstd::arithmetic::div_mod::lemma_div_is_ordered((done + 1) * g, sum, g);
                        vstd::arithmetic::div_mod::lemma_div_multiples_vanish(done + 1, g);
                    }
                    assert(bar@ == closing[done]);
                    assert(bar_models(bars@.push(bar)) =~= bar_models(bars@).push(bar@));
                    assert((before + closing.take(done)).push(closing[done]) =~= before
                        + closing.take(done + 1));
                    done = done + 1;
                }
                bars.push(bar);
                open = tick.price;
            } else if carry > 0 {
                whole = whole + 1;
                carry = 0;
            } else {
                let room: u128 = 0x8000_0000_0000_0000_0000_0000_0000_0000;
                let taken: u128 = if pending > room {
                    room
                } else {
                    pending
                };
                whole = whole + taken;
                pending = pending - taken;
            }
        }
        count = Amount { whole, upper, lower };
        proof {
            lemma_below_one_interval(whole as int, fraction, vn as int, grain);
            assert(whole * grain + fraction + done * g == sum);
            lemma_whole_intervals(done, g, whole * grain + fraction, sum);
            assert(closing.take(done) =~= closing);
        }
        i = i + 1;
    }
    proof {
        assert(bar_models(bars@).len() == bars.len());
        assert forall|k: int| 0 <= k < bars.len() implies (#[trigger] bars[k]).volume
            == unit_volume(vn) by {
            lemma_volume_is_kept(m, vn, ticks.len() - 1);
            assert(bar_models(bars@)[k] == bars[k]@);
        }
        if ticks.len() >= 2 {
            lemma_bar_count(m, vn);
        }
    }
    bars
}

} // verus!
