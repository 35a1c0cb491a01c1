//! Text operations the handlers need, each proved against its definition.

use vstd::prelude::*;
use vstd::string::*;
use vstd::utf8::{decode_utf8, encode_utf8, encode_utf8_decode_utf8, is_char_boundary};

verus! {

/// `a == b` on text.
pub fn StrEq(a: &str, b: &str) -> (r: bool)
    ensures
        r == (a@ == b@),
{
    String::from_str(a) == String::from_str(b)
}

/// The characters whose UTF-8 bytes follow the first `n` bytes of `s`.
pub open spec fn tail_after_bytes(s: &str, n: int) -> Seq<char> {
    decode_utf8(s.spec_bytes().subrange(n, s.spec_bytes().len() as int))
}

/// `&s[n..]`: the text after the first `n` bytes, which must end on a character.
pub fn TailAfterBytes(s: &str, n: usize) -> (r: &str)
    requires
        n <= s.spec_bytes().len(),
        is_char_boundary(s.spec_bytes(), n as int),
    ensures
        r@ == tail_after_bytes(s, n as int),
{
    let (_, tail) = s.split_at(n);
    proof {
        encode_utf8_decode_utf8(tail@);
    }
    tail
}

/// `p` is a prefix of `s`.
pub open spec fn has_prefix(s: Seq<char>, p: Seq<char>) -> bool {
    p.len() <= s.len() && s.subrange(0, p.len() as int) == p
}

/// `p` is a suffix of `s`.
pub open spec fn has_suffix(s: Seq<char>, p: Seq<char>) -> bool {
    p.len() <= s.len() && s.subrange(s.len() - p.len(), s.len() as int) == p
}

/// `s.starts_with(p)`.
pub fn StartsWith(s: &str, p: &str) -> (r: bool)
    ensures
        r == has_prefix(s@, p@),
{
    let n = s.unicode_len();
    let m = p.unicode_len();
    if m > n {
        return false;
    }
    let mut i: usize = 0;
    while i < m
        invariant
            n == s@.len(),
            m == p@.len(),
            m <= n,
            0 <= i <= m,
            forall|k: int| 0 <= k < i ==> s@[k] == p@[k],
        decreases m - i,
    {
        if s.get_char(i) != p.get_char(i) {
            assert(s@.subrange(0, m as int)[i as int] != p@[i as int]);
            return false;
        }
        i += 1;
    }
    assert(s@.subrange(0, m as int) =~= p@);
    true
}

/// `s.ends_with(p)`.
pub fn EndsWith(s: &str, p: &str) -> (r: bool)
    ensures
        r == has_suffix(s@, p@),
{
    let n = s.unicode_len();
    let m = p.unicode_len();
    if m > n {
        return false;
    }
    let off = n - m;
    let mut i: usize = 0;
    while i < m
        invariant
            n == s@.len(),
            m == p@.len(),
            m <= n,
            off == n - m,
            0 <= i <= m,
            forall|k: int| 0 <= k < i ==> s@[off + k] == p@[k],
        decreases m - i,
    {
        if s.get_char(off + i) != p.get_char(i) {
            assert(s@.subrange(off as int, n as int)[i as int] != p@[i as int]);
            return false;
        }
        i += 1;
    }
    assert(s@.subrange(off as int, n as int) =~= p@);
    true
}

/// `s.strip_prefix(p)`.
pub fn StripPrefix<'a>(s: &'a str, p: &str) -> (r: Option<&'a str>)
    ensures
        match r {
            Some(t) => has_prefix(s@, p@) && t@ == s@.subrange(p@.len() as int, s@.len() as int),
            None => !has_prefix(s@, p@),
        },
{
    if StartsWith(s, p) {
        Some(s.substring_char(p.unicode_len(), s.unicode_len()))
    } else {
        None
    }
}

/// `s.strip_suffix(p)`.
pub fn StripSuffix<'a>(s: &'a str, p: &str) -> (r: Option<&'a str>)
    ensures
        match r {
            Some(t) => has_suffix(s@, p@) && t@ == s@.subrange(0, s@.len() - p@.len()),
            None => !has_suffix(s@, p@),
        },
{
    if EndsWith(s, p) {
        Some(s.substring_char(0, s.unicode_len() - p.unicode_len()))
    } else {
        None
    }
}

/// `s.trim_start_matches(p)`: every leading copy of `p` removed (an empty
/// pattern removes nothing).
pub open spec fn trim_start_matches(s: Seq<char>, p: Seq<char>) -> Seq<char>
    decreases s.len(),
{
    if p.len() > 0 && has_prefix(s, p) {
        trim_start_matches(s.subrange(p.len() as int, s.len() as int), p)
    } else {
        s
    }
}

/// `s.trim_start_matches(p)`.
pub fn TrimStartMatches<'a>(s: &'a str, p: &str) -> (r: &'a str)
    ensures
        r@ == trim_start_matches(s@, p@),
{
    if p.unicode_len() == 0 {
        return s;
    }
    let mut rest = s;
    while StartsWith(rest, p)
        invariant
            p@.len() > 0,
            trim_start_matches(s@, p@) == trim_start_matches(rest@, p@),
        decreases rest@.len(),
    {
        rest = rest.substring_char(p.unicode_len(), rest.unicode_len());
    }
    rest
}

/// The value of a decimal digit character.
pub open spec fn digit_value(c: char) -> int {
    c as int - '0' as int
}

pub open spec fn is_digit(c: char) -> bool {
    '0' <= c && c <= '9'
}

/// The number a string of decimal digits spells.
pub open spec fn decimal_value(s: Seq<char>) -> nat
    decreases s.len(),
{
    if s.len() == 0 {
        0
    } else {
        (decimal_value(s.subrange(0, s.len() - 1)) * 10 + digit_value(s[s.len() - 1])) as nat
    }
}

/// `s.parse::<u64>()`: an optional leading `+`, then one or more decimal
/// digits whose value fits in 64 bits.
pub open spec fn parse_u64(s: Seq<char>) -> Option<u64> {
    let digits = unsigned_digits(s);
    if digits.len() == 0 || !all_digits(digits) {
        None
    } else if decimal_value(digits) <= u64::MAX {
        Some(decimal_value(digits) as u64)
    } else {
        None
    }
}

/// The text after an optional leading `+`.
pub open spec fn unsigned_digits(s: Seq<char>) -> Seq<char> {
    if s.len() > 0 && s[0] == '+' {
        s.subrange(1, s.len() as int)
    } else {
        s
    }
}

/// Every character is a decimal digit.
pub open spec fn all_digits(d: Seq<char>) -> bool {
    forall|i: int| 0 <= i < d.len() ==> is_digit(#[trigger] d[i])
}

proof fn lemma_decimal_grows(s: Seq<char>, i: int)
    requires
        0 <= i <= s.len(),
        forall|k: int| 0 <= k < s.len() ==> is_digit(#[trigger] s[k]),
    ensures
        decimal_value(s.subrange(0, i)) <= decimal_value(s),
    decreases s.len() - i,
{
    if i < s.len() {
        lemma_decimal_grows(s, i + 1);
        assert(s.subrange(0, i + 1).subrange(0, i) =~= s.subrange(0, i));
    } else {
        assert(s.subrange(0, i) =~= s);
    }
}

/// `s.parse::<u64>().ok()`.
pub fn ParseU64(s: &str) -> (r: Option<u64>)
    ensures
        r == parse_u64(s@),
{
    let n = s.unicode_len();
    let mut start: usize = 0;
    if n > 0 && s.get_char(0) == '+' {
        start = 1;
    }
    let ghost digits = unsigned_digits(s@);
    assert(digits =~= s@.subrange(start as int, n as int));
    if start == n {
        return None;
    }
    let mut value: u64 = 0;
    let mut i: usize = start;
    assert(digits.subrange(0, 0) =~= Seq::<char>::empty());
    while i < n
        invariant
            n == s@.len(),
            start <= i <= n,
            digits == s@.subrange(start as int, n as int),
            digits == unsigned_digits(s@),
            forall|k: int| 0 <= k < i - start ==> is_digit(#[trigger] digits[k]),
            value == decimal_value(digits.subrange(0, i - start)),
        decreases n - i,
    {
        let c = s.get_char(i);
        if !('0' <= c && c <= '9') {
            assert(!is_digit(digits[i - start]));
            assert(!all_digits(digits));
            assert(parse_u64(s@) is None);
            return None;
        }
        let d = (c as u32 - '0' as u32) as u64;
        assert(digits.subrange(0, i - start + 1).subrange(0, i - start) =~= digits.subrange(0, i - start));
        match value.checked_mul(10) {
            None => {
                let ghost j = i;
                proof {
                    assert(decimal_value(digits.subrange(0, i - start + 1)) > u64::MAX);
                    if all_digits(digits) {
                        lemma_decimal_grows(digits, i - start + 1);
                        assert(decimal_value(digits) > u64::MAX);
                    }
                    assert(parse_u64(s@) is None);
                }
                return None;
            },
            Some(t) => match t.checked_add(d) {
                None => {
                    proof {
                        assert(decimal_value(digits.subrange(0, i - start + 1)) > u64::MAX);
                        if all_digits(digits) {
                            lemma_decimal_grows(digits, i - start + 1);
                        }
                    }
                    return None;
                },
                Some(v) => {
                    value = v;
                },
            },
        }
        i += 1;
    }
    assert(digits.subrange(0, n - start) =~= digits);
    Some(value)
}


/// The character of a decimal digit.
pub open spec fn digit_char(d: nat) -> char {
    if d == 0 { '0' }
    else if d == 1 { '1' }
    else if d == 2 { '2' }
    else if d == 3 { '3' }
    else if d == 4 { '4' }
    else if d == 5 { '5' }
    else if d == 6 { '6' }
    else if d == 7 { '7' }
    else if d == 8 { '8' }
    else { '9' }
}

/// The decimal digits of `n`, most significant first, without leading zeros
/// (`0` is written `0`).
pub open spec fn decimal(n: nat) -> Seq<char>
    decreases n,
{
    if n < 10 {
        seq![digit_char(n)]
    } else {
        decimal(n / 10).push(digit_char(n % 10))
    }
}

/// `n` written in decimal, with a leading `-` when it is negative.
pub open spec fn signed_decimal(n: int) -> Seq<char> {
    if n < 0 {
        seq!['-'] + decimal((-n) as nat)
    } else {
        decimal(n as nat)
    }
}

/// The one-character text of a decimal digit.
fn DigitText(d: u64) -> (r: &'static str)
    requires
        d < 10,
    ensures
        r@ == seq![digit_char(d as nat)],
{
    proof {
        reveal_strlit("0");
        reveal_strlit("1");
        reveal_strlit("2");
        reveal_strlit("3");
        reveal_strlit("4");
        reveal_strlit("5");
        reveal_strlit("6");
        reveal_strlit("7");
        reveal_strlit("8");
        reveal_strlit("9");
    }
    if d == 0 { "0" }
    else if d == 1 { "1" }
    else if d == 2 { "2" }
    else if d == 3 { "3" }
    else if d == 4 { "4" }
    else if d == 5 { "5" }
    else if d == 6 { "6" }
    else if d == 7 { "7" }
    else if d == 8 { "8" }
    else { "9" }
}

/// `n.to_string()` for an unsigned integer.
pub fn DecimalU64(n: u64) -> (r: String)
    ensures
        r@ == decimal(n as nat),
    decreases n,
{
    if n < 10 {
        String::from_str(DigitText(n))
    } else {
        let mut s = DecimalU64(n / 10);
        s.append(DigitText(n % 10));
        s
    }
}

/// `n.to_string()` for a signed integer.
pub fn DecimalI64(n: i64) -> (r: String)
    ensures
        r@ == signed_decimal(n as int),
{
    if n < 0 {
        proof {
            reveal_strlit("-");
        }
        let magnitude: u64 = if n == i64::MIN {
            9223372036854775808u64
        } else {
            (-n) as u64
        };
        let mut s = String::from_str("-");
        s.append(DecimalU64(magnitude).as_str());
        s
    } else {
        DecimalU64(n as u64)
    }
}

/// `a + b` as a new string.
pub fn Concat(a: &str, b: &str) -> (r: String)
    ensures
        r@ == a@ + b@,
{
    let mut s = String::from_str(a);
    s.append(b);
    s
}

} // verus!
