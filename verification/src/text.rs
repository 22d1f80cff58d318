//! Digits and separators: how numbers and payload bytes are written out.

use vstd::prelude::*;

verus! {

/// `String::push` appends one character to the end of the string.
pub assume_specification[ String::push ](s: &mut String, c: char)
    ensures
        final(s)@ == old(s)@.push(c),
;

/// The character that stands for the digit `d` in any base up to sixteen,
/// with upper-case letters above nine.
pub open spec fn digit_char(d: nat) -> char {
    if d == 0 {
        '0'
    } else if d == 1 {
        '1'
    } else if d == 2 {
        '2'
    } else if d == 3 {
        '3'
    } else if d == 4 {
        '4'
    } else if d == 5 {
        '5'
    } else if d == 6 {
        '6'
    } else if d == 7 {
        '7'
    } else if d == 8 {
        '8'
    } else if d == 9 {
        '9'
    } else if d == 10 {
        'A'
    } else if d == 11 {
        'B'
    } else if d == 12 {
        'C'
    } else if d == 13 {
        'D'
    } else if d == 14 {
        'E'
    } else {
        'F'
    }
}

/// `n` written in `base` with exactly `width` digits: the low `width` digits
/// of `n`, most significant first, zero-filled on the left.
pub open spec fn padded(n: nat, base: nat, width: nat) -> Seq<char>
    decreases width,
{
    if width == 0 {
        Seq::empty()
    } else {
        padded(n / base, base, (width - 1) as nat).push(digit_char(n % base))
    }
}

/// `n` written in decimal with as many digits as it needs, and one for zero.
pub open spec fn decimal(n: nat) -> Seq<char>
    decreases n,
{
    if n < 10 {
        seq![digit_char(n)]
    } else {
        decimal(n / 10).push(digit_char(n % 10))
    }
}

/// A frame identifier as eight upper-case hexadecimal digits.
pub open spec fn hex_id_text(id: u32) -> Seq<char> {
    padded(id as nat, 16, 8)
}

/// Payload bytes as two upper-case hexadecimal digits each, separated by
/// single spaces.
pub open spec fn payload_text(data: Seq<u8>) -> Seq<char>
    decreases data.len(),
{
    if data.len() == 0 {
        Seq::empty()
    } else if data.len() == 1 {
        padded(data[0] as nat, 16, 2)
    } else {
        payload_text(data.drop_last()) + seq![' '] + padded(data.last() as nat, 16, 2)
    }
}

/// Ten to the power `e`.
pub open spec fn pow10(e: nat) -> nat
    decreases e,
{
    if e == 0 {
        1
    } else {
        10 * pow10((e - 1) as nat)
    }
}

/// Whether `c` is a decimal digit.
pub open spec fn is_digit(c: char) -> bool {
    c == '0' || c == '1' || c == '2' || c == '3' || c == '4' || c == '5' || c == '6' || c == '7'
        || c == '8' || c == '9'
}

/// The value of the decimal digit `c`, and zero for any other character.
pub open spec fn digit_value(c: char) -> nat {
    if c == '1' {
        1
    } else if c == '2' {
        2
    } else if c == '3' {
        3
    } else if c == '4' {
        4
    } else if c == '5' {
        5
    } else if c == '6' {
        6
    } else if c == '7' {
        7
    } else if c == '8' {
        8
    } else if c == '9' {
        9
    } else {
        0
    }
}

/// The number that a run of decimal digits denotes, read as a decimal
/// numeral.
pub open spec fn number(s: Seq<char>) -> nat
    decreases s.len(),
{
    if s.len() == 0 {
        0
    } else {
        number(s.drop_last()) * 10 + digit_value(s.last())
    }
}

/// The content of a text that may be absent.
pub open spec fn text_of(text: Option<String>) -> Option<Seq<char>> {
    match text {
        Some(t) => Some(t@),
        None => None,
    }
}

/// The first powers of ten.
pub proof fn pow10_values()
    ensures
        pow10(0) == 1,
        pow10(1) == 10,
        pow10(2) == 100,
        pow10(3) == 1_000,
        pow10(4) == 10_000,
        pow10(5) == 100_000,
        pow10(6) == 1_000_000,
        pow10(7) == 10_000_000,
        pow10(8) == 100_000_000,
{
    reveal_with_fuel(pow10, 10);
}

/// A digit below ten is written as a decimal digit.
pub proof fn digit_char_is_digit(d: nat)
    requires
        d < 10,
    ensures
        is_digit(digit_char(d)),
        digit_value(digit_char(d)) == d,
{
}

/// A number written with a fixed count of decimal digits has that many
/// characters, all of them digits.
pub proof fn padded_is_digits(n: nat, width: nat)
    ensures
        padded(n, 10, width).len() == width,
        forall|i: int| 0 <= i < width ==> is_digit(#[trigger] padded(n, 10, width)[i]),
    decreases width,
{
    if width > 0 {
        padded_is_digits(n / 10, (width - 1) as nat);
        digit_char_is_digit(n % 10);
    }
}

/// A number written in decimal has at least one character, and all of them
/// are digits.
pub proof fn decimal_is_digits(n: nat)
    ensures
        decimal(n).len() >= 1,
        forall|i: int| 0 <= i < decimal(n).len() ==> is_digit(#[trigger] decimal(n)[i]),
    decreases n,
{
    if n < 10 {
        digit_char_is_digit(n);
    } else {
        decimal_is_digits(n / 10);
        digit_char_is_digit(n % 10);
    }
}

/// A number written in decimal denotes that number.
pub proof fn decimal_denotes(n: nat)
    ensures
        number(decimal(n)) == n,
    decreases n,
{
    if n < 10 {
        digit_char_is_digit(n);
        assert(decimal(n).drop_last() =~= Seq::<char>::empty());
        assert(number(Seq::<char>::empty()) == 0);
    } else {
        decimal_denotes(n / 10);
        digit_char_is_digit(n % 10);
        assert(decimal(n).drop_last() =~= decimal(n / 10));
    }
}

/// A number written in decimal with a fixed count of digits, which are
/// enough for it, denotes that number.
pub proof fn padded_denotes(n: nat, width: nat)
    requires
        n < pow10(width),
    ensures
        number(padded(n, 10, width)) == n,
    decreases width,
{
    if width > 0 {
        padded_denotes(n / 10, (width - 1) as nat);
        digit_char_is_digit(n % 10);
        assert(padded(n, 10, width).drop_last() =~= padded(n / 10, 10, (width - 1) as nat));
    }
}

/// The character for one digit below sixteen.
pub fn digit_to_char(d: u8) -> (c: char)
    requires
        d < 16,
    ensures
        c == digit_char(d as nat),
{
    match d {
        0 => '0',
        1 => '1',
        2 => '2',
        3 => '3',
        4 => '4',
        5 => '5',
        6 => '6',
        7 => '7',
        8 => '8',
        9 => '9',
        10 => 'A',
        11 => 'B',
        12 => 'C',
        13 => 'D',
        14 => 'E',
        _ => 'F',
    }
}

/// Appends `n` in `base` with exactly `width` digits.
pub fn push_padded(out: &mut String, n: u64, base: u64, width: u8)
    requires
        2 <= base <= 16,
    ensures
        final(out)@ == old(out)@ + padded(n as nat, base as nat, width as nat),
    decreases width,
{
    if width > 0 {
        push_padded(out, n / base, base, width - 1);
        let d: u8 = (n % base) as u8;
        out.push(digit_to_char(d));
    }
}

/// Appends `n` in decimal with as many digits as it needs.
pub fn push_decimal(out: &mut String, n: u64)
    ensures
        final(out)@ == old(out)@ + decimal(n as nat),
    decreases n,
{
    if n >= 10 {
        push_decimal(out, n / 10);
    }
    let d: u8 = (n % 10) as u8;
    out.push(digit_to_char(d));
}

/// The distance of `i` from zero.
pub fn magnitude(i: i64) -> (m: u64)
    ensures
        m as int == (if i < 0 {
            -(i as int)
        } else {
            i as int
        }),
{
    if i >= 0 {
        i as u64
    } else if i == i64::MIN {
        0x8000_0000_0000_0000u64
    } else {
        (-i) as u64
    }
}

/// The identifier of a frame as text: eight upper-case hexadecimal digits.
pub fn hex_id(id: u32) -> (text: String)
    ensures
        text@ == hex_id_text(id),
{
    let mut text = String::new();
    push_padded(&mut text, id as u64, 16, 8);
    text
}

/// The payload of a frame as text: two upper-case hexadecimal digits for each
/// byte, single spaces between the bytes, nothing for an empty payload.
pub fn hex_payload(data: &[u8]) -> (text: String)
    ensures
        text@ == payload_text(data@),
{
    let mut text = String::new();
    let mut i: usize = 0;
    while i < data.len()
        invariant
            i <= data.len(),
            text@ == payload_text(data@.take(i as int)),
        decreases data.len() - i,
    {
        if i > 0 {
            text.push(' ');
        }
        push_padded(&mut text, data[i] as u64, 16, 2);
        proof {
            assert(data@.take(i + 1).drop_last() == data@.take(i as int));
        }
        i += 1;
    }
    proof {
        assert(data@.take(i as int) == data@);
    }
    text
}

} // verus!
