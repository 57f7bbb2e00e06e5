//! Decimal integers as the definition format writes them.

use vstd::prelude::*;
use crate::text::chars_of;

verus! {

/// Whether `c` is one of the ten decimal digits.
pub open spec fn is_digit(c: char) -> bool {
    '0' as u32 <= c as u32 <= '9' as u32
}

/// Whether `s` holds decimal digits only.
pub open spec fn all_digits(s: Seq<char>) -> bool {
    forall|i: int| 0 <= i < s.len() ==> is_digit(#[trigger] s[i])
}

/// The number that the digits of `s` write in base ten.
pub open spec fn decimal(s: Seq<char>) -> int
    decreases s.len(),
{
    if s.len() == 0 {
        0
    } else {
        decimal(s.drop_last()) * 10 + (s.last() as u32 - '0' as u32)
    }
}

/// The digits of `s`: what follows its sign, where it has one.
pub open spec fn digits_of(s: Seq<char>) -> Seq<char> {
    if s.len() > 0 && (s[0] == '-' || s[0] == '+') {
        s.skip(1)
    } else {
        s
    }
}

/// The integer that `s` writes: an optional `+` or `-`, then one or more
/// decimal digits and nothing else. `None` where `s` has another form, or
/// where the number does not fit a tape position.
pub open spec fn offset_of(s: Seq<char>) -> Option<int> {
    let digits = digits_of(s);
    let value = if s.len() > 0 && s[0] == '-' {
        -decimal(digits)
    } else {
        decimal(digits)
    };
    if digits.len() > 0 && all_digits(digits) && i32::MIN <= value <= i32::MAX {
        Some(value)
    } else {
        None
    }
}

/// Reads a tape position written in decimal.
pub fn parse_offset(text: &str) -> (r: Option<i32>)
    ensures
        match r {
            Some(n) => offset_of(text@) == Some(n as int),
            None => offset_of(text@) is None,
        },
{
    let chars = chars_of(text);
    let n = chars.len();
    if n == 0 {
        return None;
    }
    let negative = chars[0] == '-';
    let start: usize = if chars[0] == '-' || chars[0] == '+' {
        1
    } else {
        0
    };
    if start == n {
        return None;
    }
    let ghost digits = digits_of(text@);
    assert(digits =~= chars@.subrange(start as int, n as int));
    // `acc` follows the number read so far, and stops growing once it is
    // beyond every position of either sign.
    let cap: i64 = 2147483649;
    let mut acc: i64 = 0;
    let mut i: usize = start;
    while i < n
        invariant
            start <= i <= n == chars@.len(),
            cap == 2147483649,
            chars@ == text@,
            digits == digits_of(text@),
            digits == chars@.subrange(start as int, n as int),
            all_digits(chars@.subrange(start as int, i as int)),
            0 <= acc <= cap,
            acc < cap ==> acc == decimal(chars@.subrange(start as int, i as int)),
            acc == cap ==> decimal(chars@.subrange(start as int, i as int)) >= cap,
        decreases n - i,
    {
        let digit: char = chars[i];
        let code: u32 = digit as u32;
        if code < 48 || code > 57 {
            assert(!is_digit(digits[i - start]));
            return None;
        }
        let ghost before = chars@.subrange(start as int, i as int);
        let ghost now = chars@.subrange(start as int, i + 1);
        assert(now.drop_last() =~= before);
        assert(all_digits(now)) by {
            assert forall|j: int| 0 <= j < now.len() implies is_digit(#[trigger] now[j]) by {
                if j < before.len() {
                    assert(now[j] == before[j]);
                }
            }
        }
        let next: i64 = acc * 10 + (code - 48) as i64;
        acc = if next > cap {
            cap
        } else {
            next
        };
        i += 1;
    }
    let value: i64 = if negative {
        -acc
    } else {
        acc
    };
    if value < i32::MIN as i64 || value > i32::MAX as i64 {
        None
    } else {
        Some(value as i32)
    }
}

} // verus!
