//! Base-10 parsing of integer fields, as Rust's `from_str` accepts them:
//! an optional sign (`+` for unsigned targets, `+` or `-` for signed
//! ones) followed by one or more ASCII digits, rejecting anything else
//! and any value out of range. The Bedrock pong payload and the port in
//! `host[:port]` are parsed with these.

use vstd::prelude::*;

verus! {

/// An ASCII decimal digit.
pub open spec fn is_digit(c: char) -> bool {
    48 <= c as int && c as int <= 57
}

/// The numeric value of one digit.
pub open spec fn digit_val(c: char) -> int {
    c as int - 48
}

/// Every character of `s` is an ASCII decimal digit.
pub open spec fn all_digits(s: Seq<char>) -> bool {
    forall|i: int| 0 <= i < s.len() ==> is_digit(#[trigger] s[i])
}

/// The value of a digit string, most significant digit first.
pub open spec fn digits_val(s: Seq<char>) -> int
    decreases s.len(),
{
    if s.len() == 0 {
        0
    } else {
        digits_val(s.drop_last()) * 10 + digit_val(s.last())
    }
}

/// A digit string's value is never negative.
proof fn lemma_digits_val_nonneg(s: Seq<char>)
    requires
        all_digits(s),
    ensures
        digits_val(s) >= 0,
    decreases s.len(),
{
    if s.len() > 0 {
        assert(all_digits(s.drop_last()));
        lemma_digits_val_nonneg(s.drop_last());
        assert(is_digit(s.last()));
    }
}

/// Extending a digit string can only raise its value: the whole string
/// is worth at least any of its prefixes.
proof fn lemma_digits_val_prefix_bound(s: Seq<char>, k: int)
    requires
        all_digits(s),
        0 <= k <= s.len(),
    ensures
        digits_val(s) >= digits_val(s.take(k)),
    decreases s.len() - k,
{
    if k == s.len() {
        assert(s.take(k) =~= s);
    } else {
        lemma_digits_val_prefix_bound(s, k + 1);
        let p = s.take(k + 1);
        assert(p.drop_last() =~= s.take(k));
        assert(all_digits(s.take(k)));
        lemma_digits_val_nonneg(s.take(k));
        assert(is_digit(s[k]));
        assert(digit_val(s[k]) >= 0);
        assert(p.last() == s[k]);
        assert(digits_val(p) == digits_val(s.take(k)) * 10 + digit_val(s[k]));
        assert(digits_val(s.take(k)) * 10 >= digits_val(s.take(k)));
    }
}

/// Reads the digits of `s` from `start` on: their value if every
/// remaining character is a digit, there is at least one, and the value
/// stays within `limit`.
fn parse_digits(s: &str, start: usize, limit: u64) -> (r: Option<u64>)
    requires
        start <= s@.len(),
        limit <= 0x8000_0000_0000_0000,
    ensures
        ({
            let body = s@.skip(start as int);
            match r {
                Some(v) => body.len() > 0 && all_digits(body) && digits_val(body) == v && v
                    <= limit,
                None => body.len() == 0 || !all_digits(body) || digits_val(body) > limit,
            }
        }),
{
    let ghost body = s@.skip(start as int);
    let n = s.unicode_len();
    if n == start {
        return None;
    }
    let mut acc: u64 = 0;
    let mut i: usize = 0;
    loop
        invariant
            start < n,
            start <= s@.len(),
            body == s@.skip(start as int),
            start + body.len() == s@.len(),
            i <= body.len(),
            n == s@.len(),
            all_digits(body.take(i as int)),
            acc == digits_val(body.take(i as int)),
            acc <= limit,
            limit <= 0x8000_0000_0000_0000,
        decreases n - start - i,
    {
        if start + i == n {
            proof {
                assert(body.take(i as int) =~= body);
            }
            return Some(acc);
        }
        let c = s.get_char(start + i);
        proof {
            assert(body[i as int] == s@[start + i]);
        }
        let u = c as u32;
        if u < 48 || u > 57 {
            proof {
                assert(!is_digit(body[i as int]));
            }
            return None;
        }
        let d = (u - 48) as u64;
        proof {
            let p = body.take(i + 1);
            assert(p.drop_last() =~= body.take(i as int));
            assert(p.last() == body[i as int]);
            assert(digits_val(p) == acc * 10 + d);
        }
        if acc > (u64::MAX - 9) / 10 {
            proof {
                if all_digits(body) {
                    lemma_digits_val_prefix_bound(body, i + 1);
                    assert(digits_val(body.take(i + 1)) == acc * 10 + d);
                    assert(acc * 10 >= 18446744073709551610) by (nonlinear_arith)
                        requires
                            acc >= 1844674407370955161,
                    ;
                }
            }
            return None;
        }
        let acc2 = acc * 10 + d;
        if acc2 > limit {
            proof {
                if all_digits(body) {
                    lemma_digits_val_prefix_bound(body, i + 1);
                }
            }
            return None;
        }
        acc = acc2;
        i = i + 1;
    }
}

/// How Rust's `u16::from_str` reads text: an optional `+`, then one or
/// more digits, within range.
pub open spec fn spec_parse_u16(s: Seq<char>) -> Option<u16> {
    let body = if s.len() > 0 && s[0] == '+' {
        s.skip(1)
    } else {
        s
    };
    if body.len() == 0 || !all_digits(body) || digits_val(body) > 0xFFFF {
        None
    } else {
        Some(digits_val(body) as u16)
    }
}

/// Parses a `u16` from text exactly as Rust's `from_str` does.
pub fn parse_u16(s: &str) -> (r: Option<u16>)
    ensures
        r == spec_parse_u16(s@),
{
    let n = s.unicode_len();
    if n == 0 {
        return None;
    }
    let c0 = s.get_char(0);
    let start: usize = if c0 == '+' {
        1
    } else {
        0
    };
    proof {
        if start == 0 {
            assert(s@.skip(0) =~= s@);
        }
    }
    match parse_digits(s, start, 0xFFFF) {
        Some(v) => Some(v as u16),
        None => None,
    }
}

/// How Rust's `i64::from_str` reads text: an optional `+` or `-`, then
/// one or more digits, within range.
pub open spec fn spec_parse_i64(s: Seq<char>) -> Option<i64> {
    if s.len() > 0 && s[0] == '-' {
        let body = s.skip(1);
        if body.len() == 0 || !all_digits(body) || digits_val(body) > 0x8000_0000_0000_0000 {
            None
        } else {
            Some((-digits_val(body)) as i64)
        }
    } else {
        let body = if s.len() > 0 && s[0] == '+' {
            s.skip(1)
        } else {
            s
        };
        if body.len() == 0 || !all_digits(body) || digits_val(body) > 0x7FFF_FFFF_FFFF_FFFF {
            None
        } else {
            Some(digits_val(body) as i64)
        }
    }
}

/// Parses an `i64` from text exactly as Rust's `from_str` does.
pub fn parse_i64(s: &str) -> (r: Option<i64>)
    ensures
        r == spec_parse_i64(s@),
{
    let n = s.unicode_len();
    if n == 0 {
        return None;
    }
    let c0 = s.get_char(0);
    if c0 == '-' {
        match parse_digits(s, 1, 0x8000_0000_0000_0000) {
            Some(v) => {
                if v == 0x8000_0000_0000_0000 {
                    Some(i64::MIN)
                } else {
                    Some(-(v as i64))
                }
            },
            None => None,
        }
    } else {
        let start: usize = if c0 == '+' {
            1
        } else {
            0
        };
        proof {
            if start == 0 {
                assert(s@.skip(0) =~= s@);
            }
        }
        match parse_digits(s, start, 0x7FFF_FFFF_FFFF_FFFF) {
            Some(v) => Some(v as i64),
            None => None,
        }
    }
}

} // verus!
