//! Position values as fixed-point decimals.
//!
//! Degrees, metres and metres per second are held as whole counts of
//! hundred-millionths, so that every value has an exact decimal text and
//! arithmetic on it is arithmetic on integers.

use vstd::prelude::*;
use vstd::arithmetic::div_mod::lemma_fundamental_div_mod;
use crate::text::{
    decimal,
    decimal_is_digits,
    is_digit,
    magnitude,
    padded,
    padded_is_digits,
    pow10,
    pow10_values,
    push_decimal,
    push_padded,
};

verus! {

/// Metres per second in one knot, in millionths.
pub const KNOT_MILLIONTHS: u64 = 514_444;

/// A decimal number, held as a whole count of hundred-millionths.
#[derive(Clone, Copy, Debug, PartialEq, Eq, Structural)]
pub struct Fixed {
    pub units: i64,
}

/// `n / d` rounded to the nearest whole number; a tie goes to the even one.
pub open spec fn div_round_even(n: nat, d: nat) -> nat {
    let q = n / d;
    let r = n % d;
    if 2 * r < d || (2 * r == d && q % 2 == 0) {
        q
    } else {
        q + 1
    }
}

/// The largest magnitude that a value of the given sign can have.
pub open spec fn magnitude_limit(negative: bool) -> nat {
    if negative {
        0x8000_0000_0000_0000
    } else {
        0x7fff_ffff_ffff_ffff
    }
}

/// The value of the given size and sign: nothing where the size is beyond
/// the limit.
pub open spec fn signed_value(negative: bool, size: nat) -> Option<Fixed> {
    if size <= magnitude_limit(negative) {
        Some(Fixed { units: (if negative {
            -size
        } else {
            size as int
        }) as i64 })
    } else {
        None
    }
}

/// The text of a value with `places` decimal places and a comma before them:
/// the value is rounded to that many places, a tie going to the even digit,
/// and a negative value keeps its sign even where it rounds to zero.
///
/// What is rounded is the value as held, in hundred-millionths. Where that
/// value was itself rounded from a binary number, the text with fewer than
/// eight places can differ by one in its last place from the binary number
/// rounded once: the value may have been rounded onto a tie that the binary
/// number lies next to.
pub open spec fn rendered(units: int, places: nat) -> Seq<char> {
    let size = (if units < 0 {
        -units
    } else {
        units
    }) as nat;
    let kept = div_round_even(size, pow10((8 - places) as nat));
    let sign = if units < 0 {
        seq!['-']
    } else {
        Seq::empty()
    };
    sign + decimal(kept / pow10(places)) + seq![','] + padded(kept % pow10(places), 10, places)
}

/// A speed in knots as metres per second: the product with 0.514444, rounded
/// to the nearest unit, a tie going to the even one.
///
/// The product is the decimal one, of the value as held. A product taken in
/// binary arithmetic is rounded otherwise and can differ from it in the last
/// places.
pub open spec fn knots_as_mps(units: int) -> int {
    let size = (if units < 0 {
        -units
    } else {
        units
    }) as nat;
    let scaled = div_round_even(size * KNOT_MILLIONTHS as nat, 1_000_000) as int;
    if units < 0 {
        -scaled
    } else {
        scaled
    }
}

/// Ten to the power `e`, for the powers that a value's places need.
pub fn power_of_ten(e: u8) -> (p: u64)
    requires
        e <= 8,
    ensures
        p == pow10(e as nat),
        1 <= p <= 100_000_000,
{
    proof {
        pow10_values();
    }
    match e {
        0 => 1,
        1 => 10,
        2 => 100,
        3 => 1_000,
        4 => 10_000,
        5 => 100_000,
        6 => 1_000_000,
        7 => 10_000_000,
        _ => 100_000_000,
    }
}

/// `n / d`, rounded to the nearest whole number with a tie going to the even
/// one.
pub fn round_even(n: u128, d: u128) -> (q: u128)
    requires
        0 < d <= 0x4000_0000_0000_0000_0000_0000_0000_0000,
        n < u128::MAX,
    ensures
        q == div_round_even(n as nat, d as nat),
        q <= n / d + 1,
{
    let whole: u128 = n / d;
    let rest: u128 = n % d;
    assert(whole <= n) by (nonlinear_arith)
        requires
            whole == n / d,
            0 < d,
    ;
    if 2 * rest < d || (2 * rest == d && whole % 2 == 0) {
        whole
    } else {
        whole + 1
    }
}

/// The value of the given size and sign, where it fits.
pub fn signed(negative: bool, size: u128) -> (r: Option<Fixed>)
    ensures
        r == signed_value(negative, size as nat),
{
    if negative {
        if size > 0x8000_0000_0000_0000 {
            None
        } else if size == 0x8000_0000_0000_0000 {
            Some(Fixed { units: i64::MIN })
        } else {
            Some(Fixed { units: -(size as i64) })
        }
    } else if size > 0x7fff_ffff_ffff_ffff {
        None
    } else {
        Some(Fixed { units: size as i64 })
    }
}

/// Rounding gives a nearest whole number: the result times `d` is no
/// further from `n` than half of `d`, and where two whole numbers are
/// equally near, the result is the even one.
pub proof fn round_even_is_nearest(n: nat, d: nat)
    requires
        d > 0,
    ensures
        2 * (div_round_even(n, d) * d - n) <= d,
        2 * (n - div_round_even(n, d) * d) <= d,
        2 * (n % d) == d ==> div_round_even(n, d) % 2 == 0,
{
    let q = n / d;
    let r = n % d;
    lemma_fundamental_div_mod(n as int, d as int);
    assert(n == d * q + r);
    assert(0 <= r < d);
    assert((q + 1) * d == q * d + d) by (nonlinear_arith);
    assert(d * q == q * d) by (nonlinear_arith);
}

/// A speed in metres per second is no further than half a unit from the
/// speed in knots times 0.514444.
pub proof fn knots_conversion_is_nearest(units: int)
    ensures
        2 * (knots_as_mps(units) * 1_000_000 - units * 514_444) <= 1_000_000,
        2 * (units * 514_444 - knots_as_mps(units) * 1_000_000) <= 1_000_000,
        (units < 0) == (knots_as_mps(units) < 0) || knots_as_mps(units) == 0,
{
    let size = (if units < 0 {
        -units
    } else {
        units
    }) as nat;
    round_even_is_nearest(size * 514_444, 1_000_000);
}

/// The text of a value has exactly `places` digits behind exactly one comma,
/// at least one digit before it, a minus sign in front exactly if the value
/// is negative, and nothing else: no point, no space, no exponent.
pub proof fn rendered_has_fixed_places(units: int, places: nat)
    requires
        1 <= places <= 8,
    ensures
        ({
            let text = rendered(units, places);
            let sign: int = if units < 0 {
                1
            } else {
                0
            };
            let comma = text.len() - places - 1;
            &&& sign < comma
            &&& text[comma] == ','
            &&& units < 0 ==> text[0] == '-'
            &&& forall|i: int| sign <= i < comma ==> is_digit(#[trigger] text[i])
            &&& forall|i: int| comma < i < text.len() ==> is_digit(#[trigger] text[i])
        }),
{
    let size = (if units < 0 {
        -units
    } else {
        units
    }) as nat;
    let kept = div_round_even(size, pow10((8 - places) as nat));
    let sign = if units < 0 {
        seq!['-']
    } else {
        Seq::<char>::empty()
    };
    let whole = decimal(kept / pow10(places));
    let part = padded(kept % pow10(places), 10, places);
    let text = rendered(units, places);
    decimal_is_digits(kept / pow10(places));
    padded_is_digits(kept % pow10(places), places);
    assert(text == sign + whole + seq![','] + part);
    let comma = text.len() - places - 1;
    assert(comma == sign.len() + whole.len());
    assert forall|i: int| sign.len() <= i < comma implies is_digit(#[trigger] text[i]) by {
        assert(text[i] == whole[i - sign.len()]);
    }
    assert forall|i: int| comma < i < text.len() implies is_digit(#[trigger] text[i]) by {
        assert(text[i] == part[i - comma - 1]);
    }
}

impl Fixed {
    /// A speed in knots as metres per second.
    pub open spec fn as_mps(self) -> Fixed {
        Fixed { units: knots_as_mps(self.units as int) as i64 }
    }

    /// Writes the value with `places` decimal places behind a comma.
    pub fn render(&self, places: u8) -> (text: String)
        requires
            1 <= places <= 8,
        ensures
            text@ == rendered(self.units as int, places as nat),
    {
        let size: u64 = magnitude(self.units);
        let kept: u128 = round_even(size as u128, power_of_ten(8 - places) as u128);
        let kept: u64 = kept as u64;
        let split: u64 = power_of_ten(places);
        let mut text = String::new();
        if self.units < 0 {
            text.push('-');
        }
        push_decimal(&mut text, kept / split);
        text.push(',');
        push_padded(&mut text, kept % split, 10, places);
        text
    }

    /// Takes the value as a speed in knots and gives it in metres per
    /// second.
    pub fn knots_to_mps(self) -> (speed: Fixed)
        ensures
            speed == self.as_mps(),
            speed.units as int == knots_as_mps(self.units as int),
    {
        let size: u64 = magnitude(self.units);
        let rate: u128 = KNOT_MILLIONTHS as u128;
        assert(size as u128 * rate == size as u128 * 514_444) by (nonlinear_arith)
            requires
                rate == 514_444,
        ;
        let scaled: u128 = round_even(size as u128 * rate, 1_000_000);
        let scaled: i64 = scaled as i64;
        if self.units < 0 {
            Fixed { units: -scaled }
        } else {
            Fixed { units: scaled }
        }
    }
}

} // verus!
