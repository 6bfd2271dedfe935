//! Verified decimal parsing for the two numbers the policy engine
//! reads from text: the console-secret expiry timestamp and the
//! service pid.

use vstd::prelude::*;

verus! {

pub open spec fn is_dec_digit(c: char) -> bool {
    '0' <= c && c <= '9'
}

pub open spec fn dec_digit(c: char) -> nat {
    (c as nat - '0' as nat) as nat
}

pub open spec fn all_dec_digits(s: Seq<char>) -> bool {
    forall|i: int| 0 <= i < s.len() ==> is_dec_digit(#[trigger] s[i])
}

/// The number a digit string denotes, most significant digit first.
pub open spec fn dec_value(s: Seq<char>) -> nat
    decreases s.len(),
{
    if s.len() == 0 {
        0
    } else {
        dec_value(s.drop_last()) * 10 + dec_digit(s.last())
    }
}

/// A digit string never denotes less than any of its prefixes.
pub proof fn lemma_dec_value_prefix(s: Seq<char>, i: int)
    requires
        0 <= i <= s.len(),
    ensures
        dec_value(s.take(i)) <= dec_value(s),
    decreases s.len() - i,
{
    if i < s.len() {
        lemma_dec_value_prefix(s, i + 1);
        assert(s.take(i + 1).drop_last() =~= s.take(i));
        assert(s.take(i + 1).last() == s[i]);
        assert(dec_value(s.take(i)) <= dec_value(s.take(i + 1)));
    } else {
        assert(s.take(i) =~= s);
    }
}

/// What `u32` parsing accepts: an optional leading `+`, then at least
/// one decimal digit, denoting a value that fits in 32 bits.
pub open spec fn parse_u32_spec(s: Seq<char>) -> Option<u32> {
    let digits = if s.len() > 0 && s[0] == '+' {
        s.drop_first()
    } else {
        s
    };
    if digits.len() > 0 && all_dec_digits(digits) && dec_value(digits) <= u32::MAX {
        Some(dec_value(digits) as u32)
    } else {
        None
    }
}

fn dec_digits_value(s: &str, from: usize) -> (r: Option<u32>)
    requires
        from <= s@.len(),
    ensures
        ({
            let digits = s@.skip(from as int);
            match r {
                Some(v) => digits.len() > 0 && all_dec_digits(digits) && dec_value(digits)
                    <= u32::MAX && v == dec_value(digits),
                None => !(digits.len() > 0 && all_dec_digits(digits) && dec_value(digits)
                    <= u32::MAX),
            }
        }),
{
    let n = s.unicode_len();
    if from >= n {
        return None;
    }
    let ghost digits = s@.skip(from as int);
    let mut acc: u64 = 0;
    let mut i: usize = from;
    while i < n
        invariant
            from <= i <= n,
            n == s@.len(),
            digits == s@.skip(from as int),
            all_dec_digits(digits.take(i - from)),
            acc == dec_value(digits.take(i - from)),
            acc <= u32::MAX,
        decreases n - i,
    {
        let c = s.get_char(i);
        if !('0' <= c && c <= '9') {
            proof {
                assert(digits[i - from] == c);
                assert(!is_dec_digit(digits[i - from]));
            }
            return None;
        }
        let d: u64 = (c as u32 - '0' as u32) as u64;
        acc = acc * 10 + d;
        proof {
            assert(digits.take(i + 1 - from).drop_last() =~= digits.take(i - from));
            assert(digits.take(i + 1 - from).last() == digits[i - from]);
            assert(digits[i - from] == c);
        }
        i += 1;
        if acc > 0xFFFF_FFFF {
            proof {
                lemma_dec_value_prefix(digits, i - from);
            }
            return None;
        }
    }
    proof {
        assert(digits.take(n - from) =~= digits);
    }
    Some(acc as u32)
}

/// Decimal parsing of an unsigned 32-bit number, as the expiry
/// setting is written: an optional `+`, then digits.
pub fn parse_u32(s: &str) -> (r: Option<u32>)
    ensures
        r == parse_u32_spec(s@),
{
    let n = s.unicode_len();
    if n > 0 && s.get_char(0) == '+' {
        proof {
            assert(s@.skip(1) =~= s@.drop_first());
        }
        dec_digits_value(s, 1)
    } else {
        proof {
            assert(s@.skip(0) =~= s@);
        }
        dec_digits_value(s, 0)
    }
}

/// What `i32` parsing accepts: an optional sign, then at least one
/// decimal digit, denoting a value in the 32-bit signed range.
pub open spec fn parse_i32_spec(s: Seq<char>) -> Option<i32> {
    if s.len() > 0 && s[0] == '-' {
        let digits = s.drop_first();
        if digits.len() > 0 && all_dec_digits(digits) && dec_value(digits) <= 0x8000_0000 {
            Some((-(dec_value(digits) as int)) as i32)
        } else {
            None
        }
    } else {
        let digits = if s.len() > 0 && s[0] == '+' {
            s.drop_first()
        } else {
            s
        };
        if digits.len() > 0 && all_dec_digits(digits) && dec_value(digits) <= i32::MAX {
            Some(dec_value(digits) as i32)
        } else {
            None
        }
    }
}

fn dec_digits_value_i64(s: &str, from: usize) -> (r: Option<u64>)
    requires
        from <= s@.len(),
    ensures
        ({
            let digits = s@.skip(from as int);
            match r {
                Some(v) => digits.len() > 0 && all_dec_digits(digits) && dec_value(digits)
                    <= 0x8000_0000 && v == dec_value(digits),
                None => !(digits.len() > 0 && all_dec_digits(digits) && dec_value(digits)
                    <= 0x8000_0000),
            }
        }),
{
    let n = s.unicode_len();
    if from >= n {
        return None;
    }
    let ghost digits = s@.skip(from as int);
    let mut acc: u64 = 0;
    let mut i: usize = from;
    while i < n
        invariant
            from <= i <= n,
            n == s@.len(),
            digits == s@.skip(from as int),
            all_dec_digits(digits.take(i - from)),
            acc == dec_value(digits.take(i - from)),
            acc <= 0x8000_0000,
        decreases n - i,
    {
        let c = s.get_char(i);
        if !('0' <= c && c <= '9') {
            proof {
                assert(digits[i - from] == c);
                assert(!is_dec_digit(digits[i - from]));
            }
            return None;
        }
        let d: u64 = (c as u32 - '0' as u32) as u64;
        acc = acc * 10 + d;
        proof {
            assert(digits.take(i + 1 - from).drop_last() =~= digits.take(i - from));
            assert(digits.take(i + 1 - from).last() == digits[i - from]);
            assert(digits[i - from] == c);
        }
        i += 1;
        if acc > 0x8000_0000 {
            proof {
                lemma_dec_value_prefix(digits, i - from);
            }
            return None;
        }
    }
    proof {
        assert(digits.take(n - from) =~= digits);
    }
    Some(acc)
}

/// Decimal parsing of a signed 32-bit number, as the service pid is
/// written: an optional sign, then digits.
pub fn parse_i32(s: &str) -> (r: Option<i32>)
    ensures
        r == parse_i32_spec(s@),
{
    let n = s.unicode_len();
    if n > 0 && s.get_char(0) == '-' {
        proof {
            assert(s@.skip(1) =~= s@.drop_first());
        }
        match dec_digits_value_i64(s, 1) {
            Some(v) => {
                let signed: i64 = -(v as i64);
                Some(signed as i32)
            },
            None => None,
        }
    } else if n > 0 && s.get_char(0) == '+' {
        proof {
            assert(s@.skip(1) =~= s@.drop_first());
        }
        match dec_digits_value_i64(s, 1) {
            Some(v) => {
                if v > 0x7FFF_FFFF {
                    None
                } else {
                    Some(v as i32)
                }
            },
            None => None,
        }
    } else {
        proof {
            assert(s@.skip(0) =~= s@);
        }
        match dec_digits_value_i64(s, 0) {
            Some(v) => {
                if v > 0x7FFF_FFFF {
                    None
                } else {
                    Some(v as i32)
                }
            },
            None => None,
        }
    }
}

pub open spec fn digit_char(d: nat) -> char {
    if d == 0 {
        '0'
    } else if d == 1 {
        '1'
    } else if d == 2 {
        '2'
    } else if d == 3 {
        '3'
    } else if d == 4 {
        '4'
    } else if d == 5 {
        '5'
    } else if d == 6 {
        '6'
    } else if d == 7 {
        '7'
    } else if d == 8 {
        '8'
    } else {
        '9'
    }
}

/// The decimal rendering of a number, most significant digit first.
pub open spec fn dec_string(n: nat) -> Seq<char>
    decreases n,
{
    if n < 10 {
        seq![digit_char(n)]
    } else {
        dec_string(n / 10) + seq![digit_char(n % 10)]
    }
}

/// The decimal rendering of a signed number.
pub open spec fn int_dec_string(p: int) -> Seq<char> {
    if p < 0 {
        seq!['-'] + dec_string((-p) as nat)
    } else {
        dec_string(p as nat)
    }
}

fn digit_str(d: u32) -> (r: &'static str)
    requires
        d < 10,
    ensures
        r@ == seq![digit_char(d as nat)],
{
    let r: &'static str = match d {
        0 => "0",
        1 => "1",
        2 => "2",
        3 => "3",
        4 => "4",
        5 => "5",
        6 => "6",
        7 => "7",
        8 => "8",
        _ => "9",
    };
    proof {
        reveal_strlit("0");
        reveal_strlit("1");
        reveal_strlit("2");
        reveal_strlit("3");
        reveal_strlit("4");
        reveal_strlit("5");
        reveal_strlit("6");
        reveal_strlit("7");
        reveal_strlit("8");
        reveal_strlit("9");
        assert(r@ =~= seq![digit_char(d as nat)]);
    }
    r
}

/// Renders an unsigned number in decimal.
pub fn u32_dec_string(v: u32) -> (r: String)
    ensures
        r@ == dec_string(v as nat),
    decreases v,
{
    if v < 10 {
        let mut s = String::new();
        s.append(digit_str(v));
        proof {
            assert(s@ =~= seq![digit_char(v as nat)]);
        }
        s
    } else {
        let mut s = u32_dec_string(v / 10);
        s.append(digit_str(v % 10));
        s
    }
}

/// Renders a signed number in decimal, with a leading `-` where it
/// is negative.
pub fn i32_dec_string(v: i32) -> (r: String)
    ensures
        r@ == int_dec_string(v as int),
{
    if v < 0 {
        let magnitude: u32 = (-(v as i64)) as u32;
        let mut s = String::from_str("-");
        s.append(u32_dec_string(magnitude).as_str());
        proof {
            reveal_strlit("-");
            assert(s@ =~= seq!['-'] + dec_string(magnitude as nat));
        }
        s
    } else {
        u32_dec_string(v as u32)
    }
}

/// The pid file holds the service's decimal pid, optionally ended by
/// one newline, which parsing ignores.
pub open spec fn parse_pid_spec(s: Seq<char>) -> Option<i32> {
    let body = if s.len() > 0 && s.last() == '\n' {
        s.drop_last()
    } else {
        s
    };
    parse_i32_spec(body)
}

/// Reads the service pid out of the pid file's contents.
pub fn parse_service_pid(s: &str) -> (r: Option<i32>)
    ensures
        r == parse_pid_spec(s@),
{
    let n = s.unicode_len();
    if n > 0 && s.get_char(n - 1) == '\n' {
        let body = s.substring_char(0, n - 1);
        proof {
            assert(body@ =~= s@.drop_last());
        }
        parse_i32(body)
    } else {
        parse_i32(s)
    }
}

} // verus!
