//! Derivation of the fixed-width decimal passcode from random bytes.

use vstd::prelude::*;
use crate::digits::{append_digit, digit_char};

verus! {

/// The unsigned little-endian 64-bit value of the first eight bytes of `b`.
pub open spec fn le_u64_of(b: Seq<u8>) -> int
    recommends
        b.len() >= 8,
{
    b[0] + 256 * (b[1] + 256 * (b[2] + 256 * (b[3] + 256 * (b[4] + 256 * (b[5] + 256 * (b[6]
        + 256 * b[7]))))))
}

/// The six-digit zero-padded decimal rendering of `v`, meaningful for
/// `0 <= v < 1_000_000`.
pub open spec fn otp_code_chars(v: int) -> Seq<char>
    recommends
        0 <= v < 1000000,
{
    seq![
        digit_char(v / 100000 % 10),
        digit_char(v / 10000 % 10),
        digit_char(v / 1000 % 10),
        digit_char(v / 100 % 10),
        digit_char(v / 10 % 10),
        digit_char(v % 10),
    ]
}

/// The code value a batch of random bytes yields. Absent randomness (the
/// capability failed) falls back to the all-zero seed, a documented
/// weakness of the design kept as-is.
pub open spec fn code_value_of(randomness: Option<Vec<u8>>) -> int {
    match randomness {
        Option::None => 0,
        Option::Some(b) => le_u64_of(b@) % 1000000,
    }
}

/// Whether `c` is one of the ten decimal digit characters.
pub open spec fn is_decimal_digit(c: char) -> bool {
    c == '0' || c == '1' || c == '2' || c == '3' || c == '4' || c == '5' || c == '6' || c == '7'
        || c == '8' || c == '9'
}

/// Every generated code is exactly six characters long and made of
/// decimal digits alone, whatever value the random bytes yielded.
pub proof fn lemma_code_six_decimal_digits(v: int)
    ensures
        otp_code_chars(v).len() == 6,
        forall|i: int| 0 <= i < 6 ==> is_decimal_digit(#[trigger] otp_code_chars(v)[i]),
{
}

/// Reads the first eight bytes of `bytes` as a little-endian unsigned value.
pub fn le_u64_from_bytes(bytes: &Vec<u8>) -> (n: u64)
    requires
        bytes@.len() >= 8,
    ensures
        n as int == le_u64_of(bytes@),
{
    let n7: u64 = bytes[7] as u64;
    let n6: u64 = bytes[6] as u64 + 256 * n7;
    let n5: u64 = bytes[5] as u64 + 256 * n6;
    let n4: u64 = bytes[4] as u64 + 256 * n5;
    let n3: u64 = bytes[3] as u64 + 256 * n4;
    let n2: u64 = bytes[2] as u64 + 256 * n3;
    let n1: u64 = bytes[1] as u64 + 256 * n2;
    let n0: u64 = bytes[0] as u64 + 256 * n1;
    n0
}

/// Formats `num % 1_000_000` as a six-digit zero-padded decimal string.
pub fn format_code(num: u64) -> (r: String)
    ensures
        r@ == otp_code_chars((num % 1000000) as int),
{
    let m: u64 = num % 1000000;
    let mut s = String::new();
    append_digit(&mut s, m / 100000 % 10);
    append_digit(&mut s, m / 10000 % 10);
    append_digit(&mut s, m / 1000 % 10);
    append_digit(&mut s, m / 100 % 10);
    append_digit(&mut s, m / 10 % 10);
    append_digit(&mut s, m % 10);
    proof {
        assert(s@ =~= otp_code_chars((num % 1000000) as int));
    }
    s
}

/// Derives the passcode from the environment's random bytes; `None` stands
/// for a failed randomness capability and falls back to the all-zero seed.
pub fn generate_code(randomness: &Option<Vec<u8>>) -> (code: String)
    requires
        randomness matches Some(b) ==> b@.len() >= 8,
    ensures
        code@ == otp_code_chars(code_value_of(*randomness)),
{
    match randomness {
        None => format_code(0),
        Some(bytes) => {
            let n = le_u64_from_bytes(bytes);
            format_code(n)
        },
    }
}

} // verus!
