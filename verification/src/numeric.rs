//! Classification of IEEE 754 double-precision bit patterns.
//!
//! Market-data fields (prices, volumes, market caps, percent changes) arrive
//! as doubles but are carried through the core as their raw 64-bit patterns.
//! The domain rules only ever ask four questions of such a value — is it
//! zero, NaN, infinite, or negative? — and each of those is a test on the
//! sign, exponent and fraction bits, so the whole sanitization policy is
//! integer logic.

use vstd::prelude::*;
use vstd::string::StringExecFns;

verus! {

/// Sign bit of a double-precision bit pattern.
pub const F64_SIGN_MASK: u64 = 0x8000_0000_0000_0000;

/// Exponent bits of a double-precision bit pattern.
pub const F64_EXPONENT_MASK: u64 = 0x7FF0_0000_0000_0000;

/// Fraction bits of a double-precision bit pattern.
pub const F64_FRACTION_MASK: u64 = 0x000F_FFFF_FFFF_FFFF;

/// The pattern encodes NaN: exponent all ones, fraction nonzero.
pub open spec fn is_nan_bits(bits: u64) -> bool {
    bits & F64_EXPONENT_MASK == F64_EXPONENT_MASK && bits & F64_FRACTION_MASK != 0
}

/// The pattern encodes an infinity: exponent all ones, fraction zero.
pub open spec fn is_infinite_bits(bits: u64) -> bool {
    bits & F64_EXPONENT_MASK == F64_EXPONENT_MASK && bits & F64_FRACTION_MASK == 0
}

/// The pattern encodes a zero (positive or negative, which compare equal).
pub open spec fn is_zero_bits(bits: u64) -> bool {
    bits & (F64_EXPONENT_MASK | F64_FRACTION_MASK) == 0
}

/// The sign bit is set (negative numbers, negative zero, negative NaN).
pub open spec fn is_negative_bits(bits: u64) -> bool {
    bits & F64_SIGN_MASK != 0
}

/// Sanitization for non-negative amounts (price, volume, market cap):
/// zero, NaN, infinite and negative values all collapse to "absent";
/// every other pattern — a positive finite number — is kept unchanged.
pub open spec fn sanitize_amount(bits: u64) -> Option<u64> {
    if is_zero_bits(bits) || is_nan_bits(bits) || is_infinite_bits(bits)
        || is_negative_bits(bits) {
        None
    } else {
        Some(bits)
    }
}

/// Sanitization for percent changes: zero, NaN and infinite values collapse
/// to "absent", while negative finite values are kept (a percentage may
/// legitimately be negative).
pub open spec fn sanitize_percent(bits: u64) -> Option<u64> {
    if is_zero_bits(bits) || is_nan_bits(bits) || is_infinite_bits(bits) {
        None
    } else {
        Some(bits)
    }
}

/// Flattening used when a sanitized field is persisted or rendered: an
/// absent value becomes the zero pattern, so "absent" and "explicitly zero"
/// are indistinguishable downstream.
pub open spec fn flatten_absent(value: Option<u64>) -> u64 {
    match value {
        Some(bits) => bits,
        None => 0,
    }
}

/// The decimal digit standing for a value below ten.
pub open spec fn digit_char(d: nat) -> char {
    if d == 0 {
        '0'
    } else if d == 1 {
        '1'
    } else if d == 2 {
        '2'
    } else if d == 3 {
        '3'
    } else if d == 4 {
        '4'
    } else if d == 5 {
        '5'
    } else if d == 6 {
        '6'
    } else if d == 7 {
        '7'
    } else if d == 8 {
        '8'
    } else {
        '9'
    }
}

/// The decimal rendering of a natural number, most significant digit
/// first and without leading zeros (zero itself is "0").
pub open spec fn dec_digits(n: nat) -> Seq<char>
    decreases n,
{
    if n < 10 {
        seq![digit_char(n)]
    } else {
        dec_digits(n / 10).push(digit_char(n % 10))
    }
}

/// Renders a number in decimal.
pub fn u32_to_decimal(n: u32) -> (r: String)
    ensures
        r@ == dec_digits(n as nat),
    decreases n,
{
    if n < 10 {
        digit_str(n).to_owned()
    } else {
        u32_to_decimal(n / 10).concat(digit_str(n % 10))
    }
}

/// The one-character string for a digit.
fn digit_str(d: u32) -> (r: &'static str)
    requires
        d < 10,
    ensures
        r@ == seq![digit_char(d as nat)],
{
    proof {
        lemma_digit_strings();
    }
    match d {
        0 => "0",
        1 => "1",
        2 => "2",
        3 => "3",
        4 => "4",
        5 => "5",
        6 => "6",
        7 => "7",
        8 => "8",
        _ => "9",
    }
}

/// What each one-digit string literal's view holds.
proof fn lemma_digit_strings()
    ensures
        "0"@ == seq!['0'],
        "1"@ == seq!['1'],
        "2"@ == seq!['2'],
        "3"@ == seq!['3'],
        "4"@ == seq!['4'],
        "5"@ == seq!['5'],
        "6"@ == seq!['6'],
        "7"@ == seq!['7'],
        "8"@ == seq!['8'],
        "9"@ == seq!['9'],
{
    reveal_strlit("0");
    reveal_strlit("1");
    reveal_strlit("2");
    reveal_strlit("3");
    reveal_strlit("4");
    reveal_strlit("5");
    reveal_strlit("6");
    reveal_strlit("7");
    reveal_strlit("8");
    reveal_strlit("9");
    assert("0"@ =~= seq!['0']);
    assert("1"@ =~= seq!['1']);
    assert("2"@ =~= seq!['2']);
    assert("3"@ =~= seq!['3']);
    assert("4"@ =~= seq!['4']);
    assert("5"@ =~= seq!['5']);
    assert("6"@ =~= seq!['6']);
    assert("7"@ =~= seq!['7']);
    assert("8"@ =~= seq!['8']);
    assert("9"@ =~= seq!['9']);
}

/// The zero pattern is absent under both sanitization rules, so the
/// flattening of `flatten_absent` maps an absent field back to absent.
pub proof fn lemma_zero_pattern_absent()
    ensures
        sanitize_amount(0) is None,
        sanitize_percent(0) is None,
{
    assert(0u64 & (F64_EXPONENT_MASK | F64_FRACTION_MASK) == 0) by (bit_vector);
}

/// Runtime test for `is_nan_bits`.
pub fn nan_bits(bits: u64) -> (r: bool)
    ensures
        r == is_nan_bits(bits),
{
    bits & F64_EXPONENT_MASK == F64_EXPONENT_MASK && bits & F64_FRACTION_MASK != 0
}

/// Runtime test for `is_infinite_bits`.
pub fn infinite_bits(bits: u64) -> (r: bool)
    ensures
        r == is_infinite_bits(bits),
{
    bits & F64_EXPONENT_MASK == F64_EXPONENT_MASK && bits & F64_FRACTION_MASK == 0
}

/// Runtime test for `is_zero_bits`.
pub fn zero_bits(bits: u64) -> (r: bool)
    ensures
        r == is_zero_bits(bits),
{
    bits & (F64_EXPONENT_MASK | F64_FRACTION_MASK) == 0
}

/// Runtime test for `is_negative_bits`.
pub fn negative_bits(bits: u64) -> (r: bool)
    ensures
        r == is_negative_bits(bits),
{
    bits & F64_SIGN_MASK != 0
}

} // verus!
