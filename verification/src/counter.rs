//! Reading a counter from text.

use vstd::prelude::*;
use vstd::string::*;
use vstd::utf8::*;

verus! {

/// Whether a byte is an ASCII digit.
pub open spec fn spec_is_digit(byte: u8) -> bool {
    0x30 <= byte <= 0x39
}

/// Whether every byte is an ASCII digit.
pub open spec fn spec_all_digits(bytes: Seq<u8>) -> bool {
    forall|i: int| 0 <= i < bytes.len() ==> spec_is_digit(#[trigger] bytes[i])
}

/// The number that a string of digits writes in base ten.
pub open spec fn spec_decimal(digits: Seq<u8>) -> nat
    decreases digits.len(),
{
    if digits.len() == 0 {
        0
    } else {
        spec_decimal(digits.drop_last()) * 10 + (digits.last() - 0x30) as nat
    }
}

/// The digits of a counter text: what follows the `+` it may begin with.
pub open spec fn spec_counter_digits(bytes: Seq<u8>) -> Seq<u8> {
    if bytes.len() > 0 && bytes[0] == 0x2b {
        bytes.drop_first()
    } else {
        bytes
    }
}

/// The counter that a text writes: one or more digits, after a `+` or
/// none, that say a number of 32 bits. Anything else is no counter.
pub open spec fn spec_parse_counter(bytes: Seq<u8>) -> Option<u32> {
    let digits = spec_counter_digits(bytes);
    if digits.len() > 0 && spec_all_digits(digits) && spec_decimal(digits) <= u32::MAX {
        Some(spec_decimal(digits) as u32)
    } else {
        None
    }
}

/// A longer string of digits writes no smaller a number.
proof fn lemma_decimal_grows(digits: Seq<u8>, n: int)
    requires
        0 <= n <= digits.len(),
        spec_all_digits(digits),
    ensures
        spec_decimal(digits.take(n)) <= spec_decimal(digits),
    decreases digits.len() - n,
{
    if n == digits.len() {
        assert(digits.take(n) =~= digits);
    } else {
        lemma_decimal_grows(digits.drop_last(), n);
        assert(digits.drop_last().take(n) =~= digits.take(n));
        assert(spec_is_digit(digits.last()));
    }
}

/// Reads a counter: decimal digits, which a `+` may precede.
///
/// `None` where the text is empty or holds anything but digits, and where
/// the number does not fit 32 bits.
pub fn parse_counter(text: &str) -> (counter: Option<u32>)
    ensures
        counter == spec_parse_counter(encode_utf8(text@)),
{
    let bytes = text.as_bytes();
    let start: usize = if bytes.len() > 0 && bytes[0] == 0x2b {
        1
    } else {
        0
    };
    let ghost digits = spec_counter_digits(bytes@);
    assert(digits =~= bytes@.skip(start as int));
    if bytes.len() == start {
        return None;
    }
    let mut value: u64 = 0;
    let mut i: usize = start;
    while i < bytes.len()
        invariant
            start <= i <= bytes@.len(),
            bytes@ == encode_utf8(text@),
            digits == spec_counter_digits(bytes@),
            digits == bytes@.skip(start as int),
            spec_all_digits(digits.take(i - start)),
            value == spec_decimal(digits.take(i - start)),
            value <= u32::MAX,
        decreases bytes@.len() - i,
    {
        let byte: u8 = bytes[i];
        let ghost seen = digits.take(i - start);
        let ghost next = digits.take(i - start + 1);
        assert(next.drop_last() =~= seen);
        assert(next.last() == byte);
        if byte < 0x30 || byte > 0x39 {
            assert(!spec_is_digit(digits[i - start]));
            return None;
        }
        value = value * 10 + (byte - 0x30) as u64;
        if value > 0xffff_ffff {
            proof {
                if spec_all_digits(digits) {
                    lemma_decimal_grows(digits, i - start + 1);
                }
            }
            return None;
        }
        assert(spec_all_digits(next)) by {
            assert forall|k: int| 0 <= k < next.len() implies spec_is_digit(#[trigger] next[k]) by {
                if k < seen.len() {
                    assert(next[k] == seen[k]);
                }
            }
        }
        i += 1;
    }
    assert(digits.take(i - start) =~= digits);
    Some(value as u32)
}

} // verus!
