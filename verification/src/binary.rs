//! Binary floating-point numbers, read from their bits.
//!
//! A measured value arrives as the bits of an IEEE 754 number. What such
//! bits denote is a whole number times a power of two, and its nearest
//! hundred-millionth is found here with integers alone.

use vstd::prelude::*;
use vstd::arithmetic::div_mod::{lemma_basic_div, lemma_small_mod};
use vstd::arithmetic::power2::{
    lemma2_to64,
    lemma_pow2_adds,
    lemma_pow2_pos,
    lemma_pow2_strictly_increases,
    lemma_pow2_unfold,
    pow2,
};
use crate::fixed::{
    Fixed,
    div_round_even,
    round_even,
    round_even_is_nearest,
    signed,
    signed_value,
};

verus! {

/// The number `significand * 2^exponent` in units, rounded to the nearest
/// unit with a tie going to the even one.
pub open spec fn binary_size(significand: nat, exponent: int) -> nat {
    if exponent >= 0 {
        significand * pow2(exponent as nat) * 100_000_000
    } else {
        div_round_even(significand * 100_000_000, pow2((-exponent) as nat))
    }
}

/// The value nearest to `significand * 2^exponent`, with the given sign:
/// nothing where it is too large. A value of zero has no sign.
pub open spec fn binary_value(negative: bool, significand: nat, exponent: int) -> Option<Fixed> {
    signed_value(negative, binary_size(significand, exponent))
}

/// The value nearest to the binary64 number with the given bits: one sign
/// bit, eleven bits of exponent, fifty-two of fraction. Infinities and
/// not-a-numbers have no value.
pub open spec fn double_value(bits: u64) -> Option<Fixed> {
    let negative = bits >= 0x8000_0000_0000_0000;
    let exponent = (bits / 0x10_0000_0000_0000) % 0x800;
    let fraction = bits % 0x10_0000_0000_0000;
    if exponent == 0x7ff {
        None
    } else if exponent == 0 {
        binary_value(negative, fraction as nat, -1074)
    } else {
        binary_value(negative, (fraction + 0x10_0000_0000_0000) as nat, exponent - 1075)
    }
}

/// The value nearest to the binary32 number with the given bits: one sign
/// bit, eight bits of exponent, twenty-three of fraction. Infinities and
/// not-a-numbers have no value.
pub open spec fn single_value(bits: u32) -> Option<Fixed> {
    let negative = bits >= 0x8000_0000;
    let exponent = (bits / 0x80_0000) % 0x100;
    let fraction = bits % 0x80_0000;
    if exponent == 0xff {
        None
    } else if exponent == 0 {
        binary_value(negative, fraction as nat, -149)
    } else {
        binary_value(negative, (fraction + 0x80_0000) as nat, exponent - 150)
    }
}

/// The size found for `significand * 2^exponent` is a nearest one: it is
/// exact where the exponent is not negative, and otherwise no further from
/// the number than half a unit.
pub proof fn binary_size_is_nearest(significand: nat, exponent: int)
    ensures
        exponent >= 0 ==> binary_size(significand, exponent) == significand * pow2(
            exponent as nat,
        ) * 100_000_000,
        exponent < 0 ==> 2 * (binary_size(significand, exponent) * pow2((-exponent) as nat)
            - significand * 100_000_000) <= pow2((-exponent) as nat),
        exponent < 0 ==> 2 * (significand * 100_000_000 - binary_size(significand, exponent)
            * pow2((-exponent) as nat)) <= pow2((-exponent) as nat),
{
    if exponent < 0 {
        lemma_pow2_pos((-exponent) as nat);
        round_even_is_nearest(significand * 100_000_000, pow2((-exponent) as nat));
    }
}

/// Some powers of two beyond the sixty-fourth.
proof fn pow2_values()
    ensures
        pow2(63) == 0x8000_0000_0000_0000,
        pow2(64) == 0x1_0000_0000_0000_0000,
        pow2(92) == 0x1000_0000_0000_0000_0000_0000,
        pow2(93) == 0x2000_0000_0000_0000_0000_0000,
{
    lemma2_to64();
    lemma_pow2_unfold(64);
    lemma_pow2_adds(64, 28);
    lemma_pow2_unfold(93);
}

/// Two to the power `e`.
fn power_of_two(e: u32) -> (p: u128)
    requires
        e <= 92,
    ensures
        p == pow2(e as nat),
        0 < p <= 0x1000_0000_0000_0000_0000_0000,
{
    let mut p: u128 = 1;
    let mut i: u32 = 0;
    proof {
        lemma2_to64();
        pow2_values();
    }
    while i < e
        invariant
            i <= e <= 92,
            p == pow2(i as nat),
            0 < p <= 0x1000_0000_0000_0000_0000_0000,
            pow2(92) == 0x1000_0000_0000_0000_0000_0000,
        decreases e - i,
    {
        proof {
            lemma_pow2_unfold((i + 1) as nat);
            if i + 1 < 92 {
                lemma_pow2_strictly_increases((i + 1) as nat, 92);
            }
        }
        p = p * 2;
        i += 1;
    }
    p
}

impl Fixed {
    /// The value nearest to `significand * 2^exponent`, with the given
    /// sign; nothing where it is too large.
    pub fn from_binary(negative: bool, significand: u64, exponent: i32) -> (r: Option<Fixed>)
        ensures
            r == binary_value(negative, significand as nat, exponent as int),
    {
        proof {
            pow2_values();
        }
        if exponent >= 0 {
            if significand == 0 {
                assert(binary_size(0, exponent as int) == 0) by (nonlinear_arith)
                    requires
                        exponent >= 0,
                        binary_size(0, exponent as int) == 0 * pow2(exponent as nat) * 100_000_000,
                ;
                return signed(negative, 0);
            }
            if exponent > 63 {
                proof {
                    if exponent > 64 {
                        lemma_pow2_strictly_increases(64, exponent as nat);
                    }
                    let p = pow2(exponent as nat);
                    assert(significand * p * 100_000_000 > 0x8000_0000_0000_0000)
                        by (nonlinear_arith)
                        requires
                            significand >= 1,
                            p >= 0x1_0000_0000_0000_0000,
                    ;
                }
                return None;
            }
            proof {
                if exponent < 63 {
                    lemma_pow2_strictly_increases(exponent as nat, 63);
                }
            }
            let p: u128 = power_of_two(exponent as u32);
            assert(significand as u128 * p <= 0xffff_ffff_ffff_ffff * 0x8000_0000_0000_0000)
                by (nonlinear_arith)
                requires
                    significand <= 0xffff_ffff_ffff_ffff,
                    0 < p <= 0x8000_0000_0000_0000,
            ;
            let scaled: u128 = significand as u128 * p;
            if scaled > 0x8000_0000_0000_0000 {
                return None;
            }
            signed(negative, scaled * 100_000_000)
        } else {
            let n: u128 = significand as u128 * 100_000_000;
            if exponent < -92 {
                proof {
                    let d = pow2((-exponent) as nat);
                    if exponent < -93 {
                        lemma_pow2_strictly_increases(93, (-exponent) as nat);
                    }
                    lemma_basic_div(n as int, d as int);
                    lemma_small_mod(n as nat, d);
                }
                return signed(negative, 0);
            }
            let d: u128 = power_of_two((-exponent) as u32);
            signed(negative, round_even(n, d))
        }
    }

    /// The value nearest to the binary64 number with the given bits.
    pub fn from_double_bits(bits: u64) -> (r: Option<Fixed>)
        ensures
            r == double_value(bits),
    {
        let negative: bool = bits >= 0x8000_0000_0000_0000;
        let exponent: u64 = (bits / 0x10_0000_0000_0000) % 0x800;
        let fraction: u64 = bits % 0x10_0000_0000_0000;
        if exponent == 0x7ff {
            None
        } else if exponent == 0 {
            Fixed::from_binary(negative, fraction, -1074)
        } else {
            Fixed::from_binary(negative, fraction + 0x10_0000_0000_0000, exponent as i32 - 1075)
        }
    }

    /// The value nearest to the binary32 number with the given bits.
    pub fn from_single_bits(bits: u32) -> (r: Option<Fixed>)
        ensures
            r == single_value(bits),
    {
        let negative: bool = bits >= 0x8000_0000;
        let exponent: u32 = (bits / 0x80_0000) % 0x100;
        let fraction: u32 = bits % 0x80_0000;
        if exponent == 0xff {
            None
        } else if exponent == 0 {
            Fixed::from_binary(negative, fraction as u64, -149)
        } else {
            Fixed::from_binary(negative, (fraction + 0x80_0000) as u64, exponent as i32 - 150)
        }
    }
}

} // verus!
