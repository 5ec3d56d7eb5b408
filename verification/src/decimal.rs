//! Strict unsigned decimal numbers in ASCII.

use atoi::FromRadix10Checked;
use vstd::prelude::*;

verus! {

/// Whether `b` is one of the ASCII digits `0` to `9`.
pub open spec fn is_digit(b: u8) -> bool {
    0x30 <= b <= 0x39
}

/// The number a single ASCII digit stands for.
pub open spec fn digit_value(b: u8) -> nat {
    (b - 0x30) as nat
}

/// Whether every byte of `s` is an ASCII digit.
pub open spec fn all_digits(s: Seq<u8>) -> bool {
    forall|i: int| 0 <= i < s.len() ==> is_digit(#[trigger] s[i])
}

/// The number written by the digits of `s`, most significant digit first.
pub open spec fn decimal_value(s: Seq<u8>) -> nat
    decreases s.len(),
{
    if s.len() == 0 {
        0
    } else {
        10 * decimal_value(s.drop_last()) + digit_value(s.last())
    }
}

/// How many ASCII digits `s` starts with.
pub open spec fn digit_prefix_len(s: Seq<u8>) -> nat
    decreases s.len(),
{
    if s.len() > 0 && is_digit(s[0]) {
        1 + digit_prefix_len(s.drop_first())
    } else {
        0
    }
}

/// `v` as a `u64`, where it fits.
pub open spec fn checked_u64(v: nat) -> Option<u64> {
    if v <= u64::MAX {
        Some(v as u64)
    } else {
        None
    }
}

/// What a byte string means as a strict unsigned decimal number: it must be
/// non-empty, consist of ASCII digits only, and its value must fit in 64 bits.
pub open spec fn decimal_u64(s: Seq<u8>) -> Option<u64> {
    if s.len() > 0 && all_digits(s) {
        checked_u64(decimal_value(s))
    } else {
        None
    }
}

/// Calls `atoi`'s `FromRadix10Checked::from_radix_10_checked` for `u64`.
///
/// Trusted: the second component is the number of ASCII digits that `text`
/// starts with (no sign is accepted), and the first is the value of exactly
/// those digits, or `None` where that value does not fit in a `u64`. With no
/// leading digit the answer is `(Some(0), 0)`.
#[verifier::external_body]
fn leading_decimal(text: &[u8]) -> (r: (Option<u64>, usize))
    ensures
        r.1 == digit_prefix_len(text@),
        r.0 == checked_u64(decimal_value(text@.subrange(0, r.1 as int))),
{
    u64::from_radix_10_checked(text)
}

/// The digit prefix never exceeds the string, and covers it exactly when the
/// string holds digits only.
pub proof fn lemma_digit_prefix_len(s: Seq<u8>)
    ensures
        digit_prefix_len(s) <= s.len(),
        digit_prefix_len(s) == s.len() <==> all_digits(s),
    decreases s.len(),
{
    if s.len() > 0 && is_digit(s[0]) {
        let rest = s.drop_first();
        lemma_digit_prefix_len(rest);
        if all_digits(rest) {
            assert forall|i: int| 0 <= i < s.len() implies is_digit(#[trigger] s[i]) by {
                if i > 0 {
                    assert(s[i] == rest[i - 1]);
                }
            }
        }
        if all_digits(s) {
            assert forall|i: int| 0 <= i < rest.len() implies is_digit(#[trigger] rest[i]) by {
                assert(rest[i] == s[i + 1]);
            }
        }
    } else if s.len() > 0 {
        assert(!is_digit(s[0]));
    }
}

/// Parses `text` as a strict unsigned decimal number: no sign, no blanks, no
/// trailing bytes, no value beyond `u64::MAX`.
pub fn parse_decimal(text: &[u8]) -> (r: Option<u64>)
    ensures
        r == decimal_u64(text@),
{
    let (value, used) = leading_decimal(text);
    proof {
        lemma_digit_prefix_len(text@);
    }
    if used > 0 && used == text.len() {
        assert(text@.subrange(0, used as int) =~= text@);
        value
    } else {
        None
    }
}

} // verus!
