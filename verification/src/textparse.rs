//! Verified text conversions: ASCII-whitespace trimming, parsing of decimal
//! unsigned integers (with an optional leading `+`) and of the literals
//! `true` / `false`, and rendering of numbers and booleans back to text.

use vstd::prelude::*;
use vstd::string::{StrSliceExecFns, StringExecFns};

verus! {

/// ASCII whitespace, the characters the input trim removes.
pub open spec fn is_ascii_blank(c: char) -> bool {
    c == ' ' || c == '\t' || c == '\n' || c == '\r' || c == '\x0b' || c == '\x0c'
}

/// `s` with its leading ASCII whitespace removed.
pub open spec fn spec_trim_start(s: Seq<char>) -> Seq<char>
    decreases s.len(),
{
    if s.len() > 0 && is_ascii_blank(s[0]) {
        spec_trim_start(s.drop_first())
    } else {
        s
    }
}

/// `s` with its trailing ASCII whitespace removed.
pub open spec fn spec_trim_end(s: Seq<char>) -> Seq<char>
    decreases s.len(),
{
    if s.len() > 0 && is_ascii_blank(s[s.len() - 1]) {
        spec_trim_end(s.drop_last())
    } else {
        s
    }
}

/// `s` with ASCII whitespace removed from both ends.
pub open spec fn spec_trim(s: Seq<char>) -> Seq<char> {
    spec_trim_end(spec_trim_start(s))
}

/// A decimal digit.
pub open spec fn is_ascii_digit(c: char) -> bool {
    48 <= (c as u32) && (c as u32) <= 57
}

/// The numeric value of a decimal digit.
pub open spec fn spec_digit_value(c: char) -> nat
    recommends
        is_ascii_digit(c),
{
    ((c as u32) - 48) as nat
}

/// Every character of `s` is a decimal digit.
pub open spec fn spec_all_digits(s: Seq<char>) -> bool {
    forall|i: int| 0 <= i < s.len() ==> is_ascii_digit(#[trigger] s[i])
}

/// The number denoted by a digit string, most significant digit first.
pub open spec fn spec_digits_value(s: Seq<char>) -> nat
    decreases s.len(),
{
    if s.len() == 0 {
        0
    } else {
        spec_digits_value(s.drop_last()) * 10 + spec_digit_value(s.last())
    }
}

/// The number denoted by `s`: an optional leading `+`, then one or more
/// decimal digits; anything else does not parse.
pub open spec fn spec_parse_nat(s: Seq<char>) -> Option<nat> {
    let t = if s.len() > 0 && s[0] == '+' {
        s.drop_first()
    } else {
        s
    };
    if t.len() > 0 && spec_all_digits(t) {
        Some(spec_digits_value(t))
    } else {
        None
    }
}

/// `spec_parse_nat`, further rejecting values that do not fit in a `u8`.
pub open spec fn spec_parse_u8(s: Seq<char>) -> Option<u8> {
    match spec_parse_nat(s) {
        Some(n) => if n < 256 {
            Some(n as u8)
        } else {
            None
        },
        None => None,
    }
}

/// `spec_parse_nat`, further rejecting values that do not fit in a `u64`.
pub open spec fn spec_parse_u64(s: Seq<char>) -> Option<u64> {
    match spec_parse_nat(s) {
        Some(n) => if n < 0x1_0000_0000_0000_0000 {
            Some(n as u64)
        } else {
            None
        },
        None => None,
    }
}

/// Exactly the literals `true` and `false` parse as booleans.
pub open spec fn spec_parse_bool(s: Seq<char>) -> Option<bool> {
    if s == "true"@ {
        Some(true)
    } else if s == "false"@ {
        Some(false)
    } else {
        None
    }
}

/// The character for a decimal digit.
pub open spec fn spec_digit_char(d: u8) -> char
    recommends
        d < 10,
{
    if d == 0 {
        '0'
    } else if d == 1 {
        '1'
    } else if d == 2 {
        '2'
    } else if d == 3 {
        '3'
    } else if d == 4 {
        '4'
    } else if d == 5 {
        '5'
    } else if d == 6 {
        '6'
    } else if d == 7 {
        '7'
    } else if d == 8 {
        '8'
    } else {
        '9'
    }
}

/// The decimal rendering of `n`, most significant digit first, no sign and
/// no leading zeros.
pub open spec fn spec_u8_digits(n: u8) -> Seq<char>
    decreases n,
{
    if n < 10 {
        seq![spec_digit_char(n)]
    } else {
        spec_u8_digits(n / 10).push(spec_digit_char(n % 10))
    }
}

/// The value of a digit-string prefix never exceeds the whole string's value.
proof fn lemma_digits_value_prefix_le(s: Seq<char>, k: int)
    requires
        0 <= k <= s.len(),
    ensures
        spec_digits_value(s.subrange(0, k)) <= spec_digits_value(s),
    decreases s.len() - k,
{
    if k < s.len() {
        assert(s.subrange(0, k + 1).drop_last() =~= s.subrange(0, k));
        assert(spec_digits_value(s.subrange(0, k + 1)) == spec_digits_value(s.subrange(0, k)) * 10
            + spec_digit_value(s.subrange(0, k + 1).last()));
        lemma_digits_value_prefix_le(s, k + 1);
    } else {
        assert(s.subrange(0, k) =~= s);
    }
}

fn is_blank_char(c: char) -> (r: bool)
    ensures
        r == is_ascii_blank(c),
{
    c == ' ' || c == '\t' || c == '\n' || c == '\r' || c == '\x0b' || c == '\x0c'
}

/// ASCII-whitespace trim of both ends of `s`.
pub fn trim(s: &str) -> (r: &str)
    ensures
        r@ == spec_trim(s@),
{
    let n = s.unicode_len();
    proof {
        assert(s@.subrange(0, n as int) =~= s@);
    }
    let mut start: usize = 0;
    while start < n && is_blank_char(s.get_char(start))
        invariant
            n == s@.len(),
            start <= n,
            spec_trim_start(s@) == spec_trim_start(s@.subrange(start as int, n as int)),
        decreases n - start,
    {
        proof {
            assert(s@.subrange(start as int, n as int).drop_first() =~= s@.subrange(
                start as int + 1,
                n as int,
            ));
        }
        start = start + 1;
    }
    proof {
        assert(spec_trim_start(s@) == s@.subrange(start as int, n as int));
    }
    let mut end: usize = n;
    while end > start && is_blank_char(s.get_char(end - 1))
        invariant
            n == s@.len(),
            start <= end <= n,
            spec_trim_start(s@) == s@.subrange(start as int, n as int),
            spec_trim(s@) == spec_trim_end(s@.subrange(start as int, end as int)),
        decreases end,
    {
        proof {
            assert(s@.subrange(start as int, end as int).drop_last() =~= s@.subrange(
                start as int,
                end as int - 1,
            ));
        }
        end = end - 1;
    }
    let r = s.substring_char(start, end);
    proof {
        assert(r@ == spec_trim(s@));
    }
    r
}

/// Parse a decimal `u64`: an optional leading `+`, then digits; rejects
/// anything malformed and any value at or above `2^64`.
pub fn parse_u64(s: &str) -> (r: Option<u64>)
    ensures
        r == spec_parse_u64(s@),
{
    let n = s.unicode_len();
    let mut i: usize = 0;
    if n > 0 && s.get_char(0) == '+' {
        i = 1;
    }
    let ghost t: Seq<char> = s@.subrange(i as int, n as int);
    proof {
        if i == 1 {
            assert(t =~= s@.drop_first());
        } else {
            assert(t =~= s@);
        }
    }
    if i == n {
        return None;
    }
    let mut acc: u64 = 0;
    let mut j: usize = i;
    while j < n
        invariant
            n == s@.len(),
            i <= j <= n,
            i < n,
            t == s@.subrange(i as int, n as int),
            t == (if s@.len() > 0 && s@[0] == '+' {
                s@.drop_first()
            } else {
                s@
            }),
            spec_all_digits(t.subrange(0, j - i)),
            acc == spec_digits_value(t.subrange(0, j - i)),
        decreases n - j,
    {
        let c = s.get_char(j);
        let u = c as u32;
        if u < 48 || u > 57 {
            proof {
                assert(t[j - i] == c);
                assert(!spec_all_digits(t));
            }
            return None;
        }
        let d = (u - 48) as u64;
        proof {
            assert(t.subrange(0, j - i + 1).drop_last() =~= t.subrange(0, j - i));
            assert(t.subrange(0, j - i + 1).last() == c);
        }
        if acc > 1844674407370955161u64 || (acc == 1844674407370955161u64 && d > 5) {
            proof {
                if spec_all_digits(t) {
                    lemma_digits_value_prefix_le(t, j - i + 1);
                    assert(spec_digits_value(t.subrange(0, j - i + 1)) == acc * 10
                        + spec_digit_value(c));
                    assert(spec_digits_value(t) >= 0x1_0000_0000_0000_0000);
                }
            }
            return None;
        }
        acc = acc * 10 + d;
        j = j + 1;
        proof {
            assert(acc == spec_digits_value(t.subrange(0, j - i)));
        }
    }
    proof {
        assert(t.subrange(0, n - i) =~= t);
    }
    Some(acc)
}

/// Parse a decimal `u8`: as `parse_u64`, rejecting values above 255.
pub fn parse_u8(s: &str) -> (r: Option<u8>)
    ensures
        r == spec_parse_u8(s@),
{
    match parse_u64(s) {
        Some(v) => if v < 256 {
            Some(v as u8)
        } else {
            None
        },
        None => None,
    }
}

fn digit_str(d: u8) -> (r: &'static str)
    requires
        d < 10,
    ensures
        r@ == seq![spec_digit_char(d)],
{
    proof {
        reveal_strlit("0");
        reveal_strlit("1");
        reveal_strlit("2");
        reveal_strlit("3");
        reveal_strlit("4");
        reveal_strlit("5");
        reveal_strlit("6");
        reveal_strlit("7");
        reveal_strlit("8");
        reveal_strlit("9");
    }
    if d == 0 {
        proof {
            assert("0"@ =~= seq![spec_digit_char(0u8)]);
        }
        "0"
    } else if d == 1 {
        proof {
            assert("1"@ =~= seq![spec_digit_char(1u8)]);
        }
        "1"
    } else if d == 2 {
        proof {
            assert("2"@ =~= seq![spec_digit_char(2u8)]);
        }
        "2"
    } else if d == 3 {
        proof {
            assert("3"@ =~= seq![spec_digit_char(3u8)]);
        }
        "3"
    } else if d == 4 {
        proof {
            assert("4"@ =~= seq![spec_digit_char(4u8)]);
        }
        "4"
    } else if d == 5 {
        proof {
            assert("5"@ =~= seq![spec_digit_char(5u8)]);
        }
        "5"
    } else if d == 6 {
        proof {
            assert("6"@ =~= seq![spec_digit_char(6u8)]);
        }
        "6"
    } else if d == 7 {
        proof {
            assert("7"@ =~= seq![spec_digit_char(7u8)]);
        }
        "7"
    } else if d == 8 {
        proof {
            assert("8"@ =~= seq![spec_digit_char(8u8)]);
        }
        "8"
    } else {
        proof {
            assert("9"@ =~= seq![spec_digit_char(9u8)]);
        }
        "9"
    }
}

/// Render `n` in decimal, most significant digit first.
pub fn u8_to_string(n: u8) -> (s: String)
    ensures
        s@ == spec_u8_digits(n),
    decreases n,
{
    if n < 10 {
        String::from_str(digit_str(n))
    } else {
        let mut s = u8_to_string(n / 10);
        s.append(digit_str(n % 10));
        proof {
            assert(spec_u8_digits(n / 10) + seq![spec_digit_char(n % 10)] =~= spec_u8_digits(
                n / 10,
            ).push(spec_digit_char(n % 10)));
        }
        s
    }
}

/// Render a boolean as `true` or `false`.
pub fn bool_to_string(b: bool) -> (s: String)
    ensures
        b ==> s@ == "true"@,
        !b ==> s@ == "false"@,
{
    if b {
        String::from_str("true")
    } else {
        String::from_str("false")
    }
}

/// Parse a boolean: exactly `true` or `false`.
pub fn parse_bool(s: &str) -> (r: Option<bool>)
    ensures
        r == spec_parse_bool(s@),
{
    proof {
        reveal_strlit("true");
        reveal_strlit("false");
    }
    let n = s.unicode_len();
    if n == 4 && s.get_char(0) == 't' && s.get_char(1) == 'r' && s.get_char(2) == 'u'
        && s.get_char(3) == 'e' {
        proof {
            assert(s@ =~= "true"@);
        }
        Some(true)
    } else if n == 5 && s.get_char(0) == 'f' && s.get_char(1) == 'a' && s.get_char(2) == 'l'
        && s.get_char(3) == 's' && s.get_char(4) == 'e' {
        proof {
            assert(s@ =~= "false"@);
        }
        Some(false)
    } else {
        proof {
            assert(s@ != "true"@ && s@ != "false"@) by {
                if s@ == "true"@ {
                    assert(s@[0] == 't' && s@[1] == 'r' && s@[2] == 'u' && s@[3] == 'e');
                }
                if s@ == "false"@ {
                    assert(s@[0] == 'f' && s@[1] == 'a' && s@[2] == 'l' && s@[3] == 's' && s@[4]
                        == 'e');
                }
            }
        }
        None
    }
}

} // verus!
