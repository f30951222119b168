//! Decimal integer parsing, specified over character sequences and proved
//! against the grammar `sign? digit+` with the target type's range.

use vstd::prelude::*;
use vstd::string::StrSliceExecFns;

verus! {

/// Whether `c` is a decimal digit.
pub open spec fn is_dec_digit(c: char) -> bool {
    ('0' as int) <= (c as int) && (c as int) <= ('9' as int)
}

/// The numeric value of a digit character.
pub open spec fn digit_val(c: char) -> nat
    recommends
        is_dec_digit(c),
{
    ((c as int) - ('0' as int)) as nat
}

/// Whether every character of `s` is a decimal digit.
pub open spec fn all_dec_digits(s: Seq<char>) -> bool {
    forall|i: int| 0 <= i < s.len() ==> is_dec_digit(s[i])
}

/// The value of a digit string read in base ten.
pub open spec fn digits_value(s: Seq<char>) -> nat
    decreases s.len(),
{
    if s.len() == 0 {
        0
    } else {
        digits_value(s.drop_last()) * 10 + digit_val(s.last())
    }
}

/// The value an unsigned decimal token denotes: an optional `+`, then one or
/// more digits. A `-` sign is never accepted.
pub open spec fn spec_parse_uint(s: Seq<char>) -> Option<nat> {
    let digits = if s.len() > 0 && s[0] == '+' {
        s.skip(1)
    } else {
        s
    };
    if digits.len() > 0 && all_dec_digits(digits) {
        Some(digits_value(digits))
    } else {
        None
    }
}

/// The value a signed decimal token denotes: an optional `+` or `-`, then
/// one or more digits.
pub open spec fn spec_parse_sint(s: Seq<char>) -> Option<int> {
    if s.len() > 0 && s[0] == '-' {
        let digits = s.skip(1);
        if digits.len() > 0 && all_dec_digits(digits) {
            Some(-(digits_value(digits) as int))
        } else {
            None
        }
    } else {
        match spec_parse_uint(s) {
            Some(v) => Some(v as int),
            None => None,
        }
    }
}

/// Reading one more digit multiplies the value by ten and adds the digit.
proof fn lemma_digits_value_extend(d: Seq<char>, k: int)
    requires
        0 <= k < d.len(),
    ensures
        digits_value(d.take(k + 1)) == digits_value(d.take(k)) * 10 + digit_val(d[k]),
{
    assert(d.take(k + 1).drop_last() =~= d.take(k));
    assert(d.take(k + 1).last() == d[k]);
}

/// A digit string is worth at least any of its prefixes.
proof fn lemma_digits_value_grows(d: Seq<char>, k: int)
    requires
        0 <= k <= d.len(),
    ensures
        digits_value(d) >= digits_value(d.take(k)),
    decreases d.len() - k,
{
    if k == d.len() {
        assert(d.take(k) =~= d);
    } else {
        lemma_digits_value_extend(d, k);
        lemma_digits_value_grows(d, k + 1);
    }
}

/// The value of the digit string `s[from..]`, when it is non-empty, all
/// digits, and fits a `u64`; `None` otherwise.
fn parse_magnitude(s: &str, from: usize) -> (r: Option<u64>)
    requires
        from <= s@.len(),
    ensures
        match r {
            Some(v) => {
                let d = s@.skip(from as int);
                d.len() > 0 && all_dec_digits(d) && digits_value(d) == v
            },
            None => {
                let d = s@.skip(from as int);
                d.len() == 0 || !all_dec_digits(d) || digits_value(d) > u64::MAX
            },
        },
{
    let n = s.unicode_len();
    if from >= n {
        return None;
    }
    let ghost d = s@.skip(from as int);
    let mut acc: u64 = 0;
    let mut i: usize = from;
    while i < n
        invariant
            from <= i <= n,
            n == s@.len(),
            d == s@.skip(from as int),
            all_dec_digits(d.take(i - from)),
            acc == digits_value(d.take(i - from)),
        decreases n - i,
    {
        let c = s.get_char(i);
        proof {
            assert(d[i - from] == s@[i as int]);
        }
        let cu = c as u32;
        if cu < 48 || cu > 57 {
            proof {
                assert(!is_dec_digit(d[i - from]));
            }
            return None;
        }
        let digit: u64 = (cu - 48) as u64;
        if acc > u64::MAX / 10 || (acc == u64::MAX / 10 && digit > u64::MAX % 10) {
            proof {
                lemma_digits_value_extend(d, i - from);
                lemma_digits_value_grows(d, i - from + 1);
            }
            return None;
        }
        acc = acc * 10 + digit;
        proof {
            lemma_digits_value_extend(d, i - from);
            assert(all_dec_digits(d.take(i - from + 1)));
        }
        i = i + 1;
    }
    proof {
        assert(d.take(n - from) =~= d);
    }
    Some(acc)
}

/// Parses `s` as an unsigned decimal no greater than `max`.
pub fn parse_unsigned_token(s: &str, max: u64) -> (r: Option<u64>)
    ensures
        match r {
            Some(v) => v <= max && spec_parse_uint(s@) == Some(v as nat),
            None => match spec_parse_uint(s@) {
                Some(v) => v > max,
                None => true,
            },
        },
{
    let n = s.unicode_len();
    if n == 0 {
        return None;
    }
    let from: usize = if s.get_char(0) == '+' {
        1
    } else {
        0
    };
    proof {
        if from == 0 {
            assert(s@.skip(0) =~= s@);
        }
    }
    match parse_magnitude(s, from) {
        Some(v) => if v <= max {
            Some(v)
        } else {
            None
        },
        None => None,
    }
}

/// Parses `s` as a signed decimal within `-(min_mag) ..= max_pos`.
pub fn parse_signed_token(s: &str, min_mag: u64, max_pos: u64) -> (r: Option<i64>)
    requires
        min_mag <= 9223372036854775808u64,
        max_pos <= 9223372036854775807u64,
    ensures
        match r {
            Some(v) => -(min_mag as int) <= v as int <= max_pos as int && spec_parse_sint(s@)
                == Some(v as int),
            None => match spec_parse_sint(s@) {
                Some(v) => !(-(min_mag as int) <= v <= max_pos as int),
                None => true,
            },
        },
{
    let n = s.unicode_len();
    if n == 0 {
        return None;
    }
    if s.get_char(0) == '-' {
        match parse_magnitude(s, 1) {
            Some(mag) => if mag <= min_mag {
                if mag <= 9223372036854775807u64 {
                    Some((-(mag as i64)) as i64)
                } else {
                    Some(i64::MIN)
                }
            } else {
                None
            },
            None => None,
        }
    } else {
        proof {
            if s@[0] != '+' {
                assert(s@.skip(0) =~= s@);
            }
        }
        let from: usize = if s.get_char(0) == '+' {
            1
        } else {
            0
        };
        match parse_magnitude(s, from) {
            Some(mag) => if mag <= max_pos {
                Some(mag as i64)
            } else {
                None
            },
            None => None,
        }
    }
}

} // verus!
