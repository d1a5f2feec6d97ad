//! Parsing decimal integers out of predicate thresholds.
//!
//! A predicate threshold arrives as text and must be an integer before
//! a proof request is sent; this module decides that, with the same
//! acceptance rule as Rust's integer parsing: an optional sign, then
//! one or more decimal digits, and a value within the target range.

use vstd::prelude::*;
use vstd::string::StrSliceExecFns;

verus! {

/// A decimal digit.
pub open spec fn is_digit_char(c: char) -> bool {
    48 <= c as u32 && c as u32 <= 57
}

/// The numeric value of one decimal digit.
pub open spec fn digit_value(c: char) -> int {
    c as u32 - 48
}

/// Whether every character is a decimal digit.
pub open spec fn all_digits(s: Seq<char>) -> bool {
    forall|i: int| 0 <= i < s.len() ==> is_digit_char(#[trigger] s[i])
}

/// The value of a digit string read in base ten.
pub open spec fn dec_value(s: Seq<char>) -> int
    decreases s.len(),
{
    if s.len() == 0 {
        0
    } else {
        dec_value(s.drop_last()) * 10 + digit_value(s.last())
    }
}

/// The digit part of an integer literal: everything after the sign,
/// when a leading `+` or `-` is present.
pub open spec fn digit_part(s: Seq<char>) -> Seq<char> {
    if s.len() > 0 && (s[0] == '+' || s[0] == '-') {
        s.skip(1)
    } else {
        s
    }
}

/// Whether an integer literal denotes a negative number.
pub open spec fn is_negative_literal(s: Seq<char>) -> bool {
    s.len() > 0 && s[0] == '-'
}

/// What parsing text as an `i32` yields: an optional sign followed by
/// one or more decimal digits denotes its value, when that value fits;
/// anything else — empty text, a bare sign, a non-digit, a value out of
/// range — yields nothing.
pub open spec fn parsed_i32(s: Seq<char>) -> Option<i32> {
    let digits = digit_part(s);
    if digits.len() == 0 || !all_digits(digits) {
        None
    } else {
        let value = if is_negative_literal(s) {
            -dec_value(digits)
        } else {
            dec_value(digits)
        };
        if i32::MIN <= value && value <= i32::MAX {
            Some(value as i32)
        } else {
            None
        }
    }
}

/// A digit string's value is never negative.
proof fn lemma_dec_value_nonneg(s: Seq<char>)
    requires
        all_digits(s),
    ensures
        dec_value(s) >= 0,
    decreases s.len(),
{
    if s.len() > 0 {
        assert forall|i: int| 0 <= i < s.drop_last().len() implies is_digit_char(
            #[trigger] s.drop_last()[i],
        ) by {
            assert(s.drop_last()[i] == s[i]);
        }
        lemma_dec_value_nonneg(s.drop_last());
    }
}

/// Reading more digits never lowers the value: a digit string is worth
/// at least as much as any of its prefixes.
proof fn lemma_dec_value_prefix_le(s: Seq<char>, n: int)
    requires
        all_digits(s),
        0 <= n <= s.len(),
    ensures
        dec_value(s.take(n)) <= dec_value(s),
    decreases s.len() - n,
{
    assert forall|i: int| 0 <= i < s.take(n).len() implies is_digit_char(
        #[trigger] s.take(n)[i],
    ) by {
        assert(s.take(n)[i] == s[i]);
    }
    if n < s.len() {
        assert(s.take(n + 1).drop_last() =~= s.take(n));
        assert(s.take(n + 1).last() == s[n]);
        lemma_dec_value_nonneg(s.take(n));
        assert(dec_value(s.take(n + 1)) == dec_value(s.take(n)) * 10 + digit_value(s[n]));
        lemma_dec_value_prefix_le(s, n + 1);
    } else {
        assert(s.take(n) =~= s);
    }
}

/// Parses text as an `i32`, accepting exactly what [`parsed_i32`]
/// accepts and returning that value.
pub fn parse_i32(s: &str) -> (r: Option<i32>)
    ensures
        r == parsed_i32(s@),
{
    let len = s.unicode_len();
    if len == 0 {
        return None;
    }
    let first = s.get_char(0);
    let has_sign = first == '-' || first == '+';
    let negative = first == '-';
    let start: usize = if has_sign {
        1
    } else {
        0
    };
    if start == len {
        // a bare sign has no digits
        return None;
    }
    let bound: u64 = if negative {
        2147483648
    } else {
        2147483647
    };
    let mut magnitude: u64 = 0;
    let mut i: usize = start;
    while i < len
        invariant
            s@.len() == len,
            start <= i <= len,
            start == 1 <==> (s@.len() > 0 && (s@[0] == '+' || s@[0] == '-')),
            start == 0 || start == 1,
            negative == is_negative_literal(s@),
            bound == if negative {
                2147483648u64
            } else {
                2147483647u64
            },
            all_digits(s@.subrange(start as int, i as int)),
            magnitude == dec_value(s@.subrange(start as int, i as int)),
            magnitude <= bound,
        decreases len - i,
    {
        let c = s.get_char(i);
        let cv = c as u32;
        if cv < 48 || cv > 57 {
            proof {
                let digits = digit_part(s@);
                assert(digits[i - start] == s@[i as int]);
                assert(!all_digits(digits));
            }
            return None;
        }
        let d: u64 = (cv - 48) as u64;
        proof {
            assert(s@.subrange(start as int, i + 1).drop_last() =~= s@.subrange(
                start as int,
                i as int,
            ));
            assert(s@.subrange(start as int, i + 1).last() == s@[i as int]);
            if negative {
                assert(bound / 10 == 214748364 && bound % 10 == 8);
            } else {
                assert(bound / 10 == 214748364 && bound % 10 == 7);
            }
        }
        if magnitude > bound / 10 || (magnitude == bound / 10 && d > bound % 10) {
            // every further digit only raises the value, so it cannot
            // come back into range
            proof {
                let digits = digit_part(s@);
                let prefix_len = i + 1 - start;
                if all_digits(digits) {
                    assert(digits =~= s@.subrange(start as int, len as int));
                    assert(digits.take(prefix_len) =~= s@.subrange(start as int, i + 1));
                    assert(dec_value(digits.take(prefix_len)) == magnitude * 10 + d);
                    assert(magnitude * 10 + d > bound);
                    lemma_dec_value_prefix_le(digits, prefix_len);
                    assert(dec_value(digits) > bound);
                }
            }
            return None;
        }
        magnitude = magnitude * 10 + d;
        i += 1;
    }
    proof {
        let digits = digit_part(s@);
        assert(digits =~= s@.subrange(start as int, len as int));
        lemma_dec_value_nonneg(digits);
    }
    if negative {
        let value: i64 = -(magnitude as i64);
        Some(value as i32)
    } else {
        Some(magnitude as i32)
    }
}

} // verus!
