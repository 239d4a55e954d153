//! Exact amounts of volume.
//!
//! A single-precision number that is finite and not negative is a whole
//! number of grains of 2^-149 of a unit. An `Amount` holds that number
//! exactly, so that volumes add up without rounding.

use crate::binary32::Binary32;
use vstd::arithmetic::power2::lemma2_to64;
use vstd::arithmetic::power2::lemma_pow2_adds;
use vstd::arithmetic::power2::lemma_pow2_strictly_increases;
use vstd::arithmetic::power2::pow2;
use vstd::prelude::*;

verus! {

/// 2^74: the grains that the lower limb of a fraction counts up to.
pub const LOWER_LIMIT: u128 = 0x4_0000_0000_0000_0000_00;

/// 2^75: the lower limbs that the upper limb of a fraction counts up to.
pub const UPPER_LIMIT: u128 = 0x8_0000_0000_0000_0000_00;

/// The grains in one unit: 2^149.
pub open spec fn grains_per_unit() -> nat {
    (LOWER_LIMIT as nat) * (UPPER_LIMIT as nat)
}

/// The exponent field of a bit pattern.
pub open spec fn exponent_field(bits: u32) -> nat {
    ((bits / 0x80_0000) % 0x100) as nat
}

/// The fraction field of a bit pattern.
pub open spec fn fraction_field(bits: u32) -> nat {
    (bits % 0x80_0000) as nat
}

/// Whether a bit pattern is a finite number with its sign clear.
pub open spec fn is_countable(bits: u32) -> bool {
    bits < 0x8000_0000 && exponent_field(bits) < 255
}

/// The significand as an integer, with the leading one of a normal number.
pub open spec fn significand(bits: u32) -> nat {
    if exponent_field(bits) == 0 {
        fraction_field(bits)
    } else {
        0x80_0000 + fraction_field(bits)
    }
}

/// The power of two that takes the significand to grains.
pub open spec fn scale(bits: u32) -> nat {
    if exponent_field(bits) == 0 {
        0
    } else {
        (exponent_field(bits) - 1) as nat
    }
}

/// The number that a bit pattern stands for, in grains. What is negative,
/// infinite or no number counts as nothing.
pub open spec fn exact_grains(bits: u32) -> nat {
    if is_countable(bits) {
        significand(bits) * pow2(scale(bits))
    } else {
        0
    }
}

/// A non-negative amount: whole units, and a fraction below one unit in two
/// limbs.
#[derive(Clone, Copy, Debug)]
pub struct Amount {
    pub whole: u128,
    pub upper: u128,
    pub lower: u128,
}

impl Amount {
    /// Each limb of the fraction is below its limit.
    pub open spec fn wf(self) -> bool {
        self.upper < UPPER_LIMIT && self.lower < LOWER_LIMIT
    }

    /// The fraction in grains.
    pub open spec fn fraction(self) -> nat {
        (self.upper * LOWER_LIMIT + self.lower) as nat
    }

    /// The amount in grains.
    pub open spec fn grains(self) -> nat {
        (self.whole as nat) * grains_per_unit() + self.fraction()
    }
}

/// The limits of the limbs are powers of two, and a unit holds 2^149 grains.
pub proof fn lemma_limits()
    ensures
        pow2(74) == LOWER_LIMIT,
        pow2(75) == UPPER_LIMIT,
        pow2(149) == grains_per_unit(),
        pow2(104) == 0x1_0000_0000_0000_0000_0000_0000_00,
{
    lemma2_to64();
    lemma_pow2_adds(64, 10);
    lemma_pow2_adds(64, 11);
    lemma_pow2_adds(74, 75);
    lemma_pow2_adds(64, 32);
    lemma_pow2_adds(96, 8);
}

/// Computes 2^k.
fn two_to(k: u32) -> (r: u128)
    requires
        k <= 104,
    ensures
        r == pow2(k as nat),
{
    let mut p: u128 = 1;
    let mut i: u32 = 0;
    proof {
        lemma2_to64();
        lemma_limits();
    }
    while i < k
        invariant
            i <= k <= 104,
            p == pow2(i as nat),
            pow2(104) == 0x1_0000_0000_0000_0000_0000_0000_00,
            pow2(1) == 2,
        decreases k - i,
    {
        proof {
            lemma_pow2_strictly_increases(i as nat, 104);
            lemma_pow2_adds(i as nat, 1);
        }
        p = p * 2;
        i = i + 1;
    }
    p
}

impl Binary32 {
    /// The integer part, as a cast to `u64` gives it: zero for a NaN or
    /// a negative number, the largest `u64` for what is too large.
    pub open spec fn spec_whole(self) -> u64 {
        if self.bits >= 0x8000_0000 {
            0
        } else if exponent_field(self.bits) == 255 {
            if fraction_field(self.bits) == 0 {
                u64::MAX
            } else {
                0
            }
        } else {
            let units = exact_grains(self.bits) / grains_per_unit();
            if units > u64::MAX {
                u64::MAX
            } else {
                units as u64
            }
        }
    }

    /// The integer part as a count, as a cast to `usize` gives it.
    pub open spec fn spec_truncate(self) -> usize {
        let wide = self.spec_whole();
        if wide > usize::MAX {
            usize::MAX
        } else {
            wide as usize
        }
    }

    /// The integer part: zero for a NaN or a negative number, the largest
    /// `u64` for what is too large.
    pub fn whole(self) -> (r: u64)
        ensures
            r == self.spec_whole(),
    {
        let bits: u32 = self.bits;
        if bits >= 0x8000_0000 {
            return 0;
        }
        if (bits / 0x80_0000) % 0x100 == 255 {
            if bits % 0x80_0000 == 0 {
                return u64::MAX;
            }
            return 0;
        }
        let amount = self.amount();
        proof {
            vstd::arithmetic::div_mod::lemma_fundamental_div_mod_converse(
                amount.grains() as int,
                grains_per_unit() as int,
                amount.whole as int,
                amount.fraction() as int,
            );
        }
        if amount.whole > u64::MAX as u128 {
            u64::MAX
        } else {
            amount.whole as u64
        }
    }

    /// The integer part as a count: zero for a NaN or a negative number, the
    /// largest count for what is too large.
    pub fn truncate(self) -> (r: usize)
        ensures
            r == self.spec_truncate(),
    {
        let wide: u64 = self.whole();
        if wide > usize::MAX as u64 {
            usize::MAX
        } else {
            wide as usize
        }
    }

    /// The number as an exact amount. What is negative, infinite or no number
    /// counts as nothing.
    pub fn amount(self) -> (r: Amount)
        ensures
            r.wf(),
            r.grains() == exact_grains(self.bits),
    {
        let bits: u32 = self.bits;
        let exponent: u32 = (bits / 0x80_0000) % 0x100;
        let fraction: u32 = bits % 0x80_0000;
        if bits >= 0x8000_0000 || exponent == 255 {
            return Amount { whole: 0, upper: 0, lower: 0 };
        }
        let mantissa: u128 = if exponent == 0 {
            fraction as u128
        } else {
            0x80_0000u128 + fraction as u128
        };
        let shift: u32 = if exponent == 0 {
            0
        } else {
            exponent - 1
        };
        proof {
            lemma_limits();
        }
        if shift >= 149 {
            let p: u128 = two_to(shift - 149);
            proof {
                if shift - 149 < 104 {
                    lemma_pow2_strictly_increases((shift - 149) as nat, 104);
                }
                lemma_pow2_adds((shift - 149) as nat, 149);
                assert(mantissa * p <= 0xff_ffff * 0x1_0000_0000_0000_0000_0000_0000_00)
                    by (nonlinear_arith)
                    requires
                        0 <= mantissa <= 0xff_ffff,
                        0 <= p <= 0x1_0000_0000_0000_0000_0000_0000_00,
                ;
                assert(mantissa * (p * pow2(149)) == (mantissa * p) * pow2(149))
                    by (nonlinear_arith);
            }
            Amount { whole: mantissa * p, upper: 0, lower: 0 }
        } else if shift >= 74 {
            let p: u128 = two_to(shift - 74);
            proof {
                lemma_pow2_strictly_increases((shift - 74) as nat, 75);
                lemma_pow2_adds((shift - 74) as nat, 74);
                assert(mantissa * p <= 0xff_ffff * 0x8_0000_0000_0000_0000_00) by (nonlinear_arith)
                    requires
                        0 <= mantissa <= 0xff_ffff,
                        0 <= p <= 0x8_0000_0000_0000_0000_00,
                ;
                assert(mantissa * (p * pow2(74)) == (mantissa * p) * pow2(74))
                    by (nonlinear_arith);
            }
            let t: u128 = mantissa * p;
            Amount { whole: t / UPPER_LIMIT, upper: t % UPPER_LIMIT, lower: 0 }
        } else {
            let p: u128 = two_to(shift);
            proof {
                lemma_pow2_strictly_increases(shift as nat, 74);
                assert(mantissa * p <= 0xff_ffff * 0x4_0000_0000_0000_0000_00) by (nonlinear_arith)
                    requires
                        0 <= mantissa <= 0xff_ffff,
                        0 <= p <= 0x4_0000_0000_0000_0000_00,
                ;
            }
            let t: u128 = mantissa * p;
            Amount { whole: 0, upper: t / LOWER_LIMIT, lower: t % LOWER_LIMIT }
        }
    }
}

} // verus!
