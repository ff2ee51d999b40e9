//! Compact expiry strings such as `15m` or `24h`.

use vstd::prelude::*;

verus! {

/// Seconds in one unit of the compact notation: `s`, `m`, `h` or `d`.
pub open spec fn unit_seconds(c: char) -> Option<nat> {
    if c == 's' {
        Some(1)
    } else if c == 'm' {
        Some(60)
    } else if c == 'h' {
        Some(3600)
    } else if c == 'd' {
        Some(86400)
    } else {
        None
    }
}

pub open spec fn is_digit(c: char) -> bool {
    '0' <= c && c <= '9'
}

pub open spec fn all_digits(s: Seq<char>) -> bool {
    forall|i: int| 0 <= i < s.len() ==> is_digit(#[trigger] s[i])
}

pub open spec fn digit_value(c: char) -> nat {
    (c as int - '0' as int) as nat
}

/// The number that a string of decimal digits writes.
pub open spec fn digits_value(s: Seq<char>) -> nat
    decreases s.len(),
{
    if s.len() == 0 {
        0
    } else {
        digits_value(s.drop_last()) * 10 + digit_value(s.last())
    }
}

/// The seconds that an expiry string denotes: one or more digits followed by one unit
/// character; `None` for any other string.
pub open spec fn expiry_seconds(s: Seq<char>) -> Option<nat> {
    if s.len() >= 2 && all_digits(s.drop_last()) && unit_seconds(s.last()) is Some {
        Some(digits_value(s.drop_last()) * unit_seconds(s.last())->0)
    } else {
        None
    }
}

/// Parses an expiry string such as `30m` into whole seconds.
///
/// Gives `None` for a string that is not digits followed by one of `s`, `m`, `h`, `d`,
/// and for one whose number of seconds does not fit in a `u64`.
pub fn parse_jwt_exp(exp: &str) -> (r: Option<u64>)
    ensures
        r is Some <==> (expiry_seconds(exp@) is Some && expiry_seconds(exp@)->0 <= u64::MAX),
        r is Some ==> r->0 == expiry_seconds(exp@)->0,
{
    let n = exp.unicode_len();
    if n < 2 {
        return None;
    }
    let unit = exp.get_char(n - 1);
    let mult: u64 = if unit == 's' {
        1
    } else if unit == 'm' {
        60
    } else if unit == 'h' {
        3600
    } else if unit == 'd' {
        86400
    } else {
        return None;
    };
    let ghost digits = exp@.drop_last();
    let mut value: u64 = 0;
    let mut too_big = false;
    let mut i: usize = 0;
    while i < n - 1
        invariant
            n == exp@.len(),
            n >= 2,
            digits == exp@.drop_last(),
            0 <= i <= n - 1,
            all_digits(digits.subrange(0, i as int)),
            !too_big ==> value == digits_value(digits.subrange(0, i as int)),
            too_big ==> digits_value(digits.subrange(0, i as int)) > u64::MAX,
        decreases n - 1 - i,
    {
        let c = exp.get_char(i);
        if !('0' <= c && c <= '9') {
            assert(!all_digits(digits)) by {
                assert(digits[i as int] == c);
            }
            return None;
        }
        let d = (c as u32 - '0' as u32) as u64;
        let ghost prefix = digits.subrange(0, i as int);
        let ghost next = digits.subrange(0, i + 1);
        assert(next.drop_last() =~= prefix);
        assert(next.last() == c);
        assert(digits_value(next) == digits_value(prefix) * 10 + d);
        if !too_big {
            if value > (u64::MAX - d) / 10 {
                too_big = true;
                assert(digits_value(next) > u64::MAX) by (nonlinear_arith)
                    requires
                        value > (u64::MAX - d) / 10,
                        digits_value(next) == value * 10 + d,
                ;
            } else {
                assert(value * 10 + d <= u64::MAX) by (nonlinear_arith)
                    requires
                        value <= (u64::MAX - d) / 10,
                        d <= 9,
                ;
                value = value * 10 + d;
            }
        } else {
            assert(digits_value(next) >= digits_value(prefix)) by (nonlinear_arith)
                requires
                    digits_value(next) == digits_value(prefix) * 10 + d,
            ;
        }
        assert forall|j: int| 0 <= j < i + 1 implies is_digit(#[trigger] next[j]) by {
            if j < i {
                assert(next[j] == prefix[j]);
            }
        }
        i = i + 1;
    }
    assert(digits.subrange(0, (n - 1) as int) =~= digits);
    if too_big {
        assert(digits_value(digits) * (mult as nat) > u64::MAX) by (nonlinear_arith)
            requires
                digits_value(digits) > u64::MAX,
                mult >= 1,
        ;
        return None;
    }
    value.checked_mul(mult)
}

} // verus!
