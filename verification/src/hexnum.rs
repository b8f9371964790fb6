//! Hexadecimal text to numbers, both character classes of digits accepted.

use vstd::prelude::*;

use vstd::arithmetic::power2::pow2;
use vstd::arithmetic::power2::lemma_pow2_adds;
use vstd::arithmetic::power2::lemma_pow2_strictly_increases;
use vstd::arithmetic::power2::lemma2_to64;

use crate::error::FmError;

verus! {

/// `b` is an ASCII hexadecimal digit.
pub open spec fn spec_is_hex_digit(b: u8) -> bool {
    (0x30 <= b <= 0x39) || (0x41 <= b <= 0x46) || (0x61 <= b <= 0x66)
}

/// Value of one hexadecimal digit.
pub open spec fn spec_hex_digit_value(b: u8) -> u8
    recommends
        spec_is_hex_digit(b),
{
    if 0x30 <= b <= 0x39 {
        (b - 0x30) as u8
    } else if 0x41 <= b <= 0x46 {
        (b - 0x41 + 10) as u8
    } else {
        (b - 0x61 + 10) as u8
    }
}

/// Every byte of `s` is a hexadecimal digit.
pub open spec fn spec_all_hex(s: Seq<u8>) -> bool {
    forall|i: int| 0 <= i < s.len() ==> spec_is_hex_digit(#[trigger] s[i])
}

/// The number the digit string `s` denotes, most significant digit first.
pub open spec fn spec_hex_value(s: Seq<u8>) -> nat
    recommends
        spec_all_hex(s),
    decreases s.len(),
{
    if s.len() == 0 {
        0
    } else {
        (spec_hex_value(s.drop_last()) * 16 + spec_hex_digit_value(s.last())) as nat
    }
}

/// Classifies and converts one byte; `None` for a non-digit.
pub fn hex_digit_value(b: u8) -> (r: Option<u8>)
    ensures
        r is Some <==> spec_is_hex_digit(b),
        r matches Some(v) ==> v == spec_hex_digit_value(b) && v < 16,
{
    if 0x30 <= b && b <= 0x39 {
        Some(b - 0x30)
    } else if 0x41 <= b && b <= 0x46 {
        Some(b - 0x41 + 10)
    } else if 0x61 <= b && b <= 0x66 {
        Some(b - 0x61 + 10)
    } else {
        None
    }
}

/// Parses an unsigned 64-bit number from hexadecimal text: one to sixteen
/// digits, nothing else.  Fails with `ParseError` on an empty string, a
/// non-digit, or more than sixteen digits.
pub fn parse_hex_u64(s: &[u8]) -> (r: Result<u64, FmError>)
    ensures
        r is Ok <==> 1 <= s@.len() <= 16 && spec_all_hex(s@),
        r matches Ok(v) ==> v == spec_hex_value(s@) && v < pow2(4 * s@.len()),
        r is Err ==> r == Result::<u64, FmError>::Err(FmError::ParseError),
{
    let n: usize = s.len();
    if n == 0 || n > 16 {
        return Err(FmError::ParseError);
    }
    let mut v: u64 = 0;
    let mut i: usize = 0;
    proof {
        lemma2_to64();
        assert(s@.subrange(0, 0) =~= Seq::<u8>::empty());
    }
    while i < n
        invariant
            n == s@.len(),
            1 <= n <= 16,
            i <= n,
            spec_all_hex(s@.subrange(0, i as int)),
            v == spec_hex_value(s@.subrange(0, i as int)),
            v < pow2(4 * i as nat),
        decreases n - i,
    {
        let d = match hex_digit_value(s[i]) {
            Some(d) => d,
            None => {
                return Err(FmError::ParseError);
            },
        };
        proof {
            lemma2_to64();
            if i < 15 {
                lemma_pow2_strictly_increases(4 * i as nat, 60);
            }
            lemma_pow2_adds(4 * i as nat, 4);
            lemma_pow2_adds(60, 4);
            assert(s@.subrange(0, i + 1).drop_last() =~= s@.subrange(0, i as int));
            assert(s@.subrange(0, i + 1).last() == s@[i as int]);
        }
        v = v * 16 + d as u64;
        i = i + 1;
    }
    proof {
        assert(s@.subrange(0, n as int) =~= s@);
    }
    Ok(v)
}

} // verus!
