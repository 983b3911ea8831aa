//! Decimal text for unsigned numeric fields.
//!
//! Numeric fields edit a raw decimal string.  This module gives the string a
//! mathematical meaning (`dec_val`), renders a value as its canonical digit
//! string (`to_dec_string`), parses raw text back with explicit bounds
//! (`parse_unsigned`), and proves that parsing a rendered value returns the
//! value itself.  Unparseable text is surfaced as a field error rather than
//! silently replaced by a default.

use vstd::prelude::*;

use crate::error::FormError;

verus! {

/// The numeric weight of a decimal digit character; 10 marks a non-digit.
pub open spec fn digit_val(c: char) -> nat {
    if c == '0' {
        0
    } else if c == '1' {
        1
    } else if c == '2' {
        2
    } else if c == '3' {
        3
    } else if c == '4' {
        4
    } else if c == '5' {
        5
    } else if c == '6' {
        6
    } else if c == '7' {
        7
    } else if c == '8' {
        8
    } else if c == '9' {
        9
    } else {
        10
    }
}

pub open spec fn is_digit_char(c: char) -> bool {
    digit_val(c) < 10
}

pub open spec fn all_digits(s: Seq<char>) -> bool {
    forall|i: int| 0 <= i < s.len() ==> is_digit_char(#[trigger] s[i])
}

/// The digit character for a value below ten.
pub open spec fn digit_char(d: nat) -> char {
    if d == 0 {
        '0'
    } else if d == 1 {
        '1'
    } else if d == 2 {
        '2'
    } else if d == 3 {
        '3'
    } else if d == 4 {
        '4'
    } else if d == 5 {
        '5'
    } else if d == 6 {
        '6'
    } else if d == 7 {
        '7'
    } else if d == 8 {
        '8'
    } else {
        '9'
    }
}

/// The canonical decimal rendering of `n`: no sign, no leading zero except
/// for the value zero itself.
pub open spec fn dec_digits(n: nat) -> Seq<char>
    decreases n,
{
    if n < 10 {
        seq![digit_char(n)]
    } else {
        dec_digits(n / 10).push(digit_char(n % 10))
    }
}

/// The numeric value of a digit string, read most significant digit first.
/// Meaningful only when `all_digits` holds of `s`.
pub open spec fn dec_val(s: Seq<char>) -> nat
    decreases s.len(),
{
    if s.len() == 0 {
        0
    } else {
        dec_val(s.drop_last()) * 10 + digit_val(s.last())
    }
}

/// What parsing raw text as an unsigned value bounded by `min ..= max`
/// returns: `Parse` for empty or non-digit text, `OutOfRange` for a value
/// outside the bounds, and the value itself otherwise.
pub open spec fn spec_parse_unsigned(s: Seq<char>, min: u64, max: u64) -> Result<u64, FormError> {
    if s.len() == 0 || !all_digits(s) {
        Err(FormError::Parse)
    } else if dec_val(s) < min || dec_val(s) > max {
        Err(FormError::OutOfRange)
    } else {
        Ok(dec_val(s) as u64)
    }
}

/// The digit value of `c`, or `None` when `c` is not a decimal digit.
fn char_digit(c: char) -> (r: Option<u64>)
    ensures
        r is Some <==> is_digit_char(c),
        r matches Some(d) ==> d == digit_val(c) && d < 10,
{
    if c == '0' {
        Some(0)
    } else if c == '1' {
        Some(1)
    } else if c == '2' {
        Some(2)
    } else if c == '3' {
        Some(3)
    } else if c == '4' {
        Some(4)
    } else if c == '5' {
        Some(5)
    } else if c == '6' {
        Some(6)
    } else if c == '7' {
        Some(7)
    } else if c == '8' {
        Some(8)
    } else if c == '9' {
        Some(9)
    } else {
        None
    }
}

/// The one-character string for a digit value.
fn digit_str(d: u64) -> (r: &'static str)
    requires
        d < 10,
    ensures
        r@ =~= seq![digit_char(d as nat)],
{
    proof {
        reveal_strlit("0");
        reveal_strlit("1");
        reveal_strlit("2");
        reveal_strlit("3");
        reveal_strlit("4");
        reveal_strlit("5");
        reveal_strlit("6");
        reveal_strlit("7");
        reveal_strlit("8");
        reveal_strlit("9");
    }
    if d == 0 {
        "0"
    } else if d == 1 {
        "1"
    } else if d == 2 {
        "2"
    } else if d == 3 {
        "3"
    } else if d == 4 {
        "4"
    } else if d == 5 {
        "5"
    } else if d == 6 {
        "6"
    } else if d == 7 {
        "7"
    } else if d == 8 {
        "8"
    } else {
        "9"
    }
}

/// Whether a single typed character may enter a free-form numeric field's
/// raw text: a digit, a decimal point, or a sign.  A rendering layer uses
/// this to swallow other keystrokes before they reach the typing path;
/// multi-character keys (arrows, backspace) are not its business.
pub fn numeric_keystroke_allowed(c: char) -> (r: bool)
    ensures
        r == (is_digit_char(c) || c == '.' || c == '-' || c == '+'),
{
    char_digit(c).is_some() || c == '.' || c == '-' || c == '+'
}

/// Renders `n` as its canonical decimal string.
pub fn to_dec_string(n: u64) -> (r: String)
    ensures
        r@ == dec_digits(n as nat),
    decreases n,
{
    if n < 10 {
        digit_str(n).to_owned()
    } else {
        proof {
            assert(n / 10 < n) by (nonlinear_arith)
                requires
                    n >= 10,
            ;
        }
        let prefix = to_dec_string(n / 10);
        let r = prefix.concat(digit_str(n % 10));
        proof {
            assert(r@ =~= dec_digits((n / 10) as nat).push(digit_char((n % 10) as nat)));
        }
        r
    }
}

/// A longer digit string never names a smaller value: the value of a prefix
/// is at most the value of the whole string.
proof fn lemma_dec_val_prefix_mono(s: Seq<char>, i: int)
    requires
        0 <= i <= s.len(),
    ensures
        dec_val(s.subrange(0, i)) <= dec_val(s),
    decreases s.len() - i,
{
    if i < s.len() {
        let p = s.subrange(0, i);
        let q = s.subrange(0, i + 1);
        assert(q.drop_last() =~= p);
        assert(q.last() == s[i]);
        assert(dec_val(p) * 10 >= dec_val(p)) by (nonlinear_arith);
        lemma_dec_val_prefix_mono(s, i + 1);
    } else {
        assert(s.subrange(0, i) =~= s);
    }
}

/// Parsing the canonical rendering of a value gives the value back.
pub proof fn lemma_dec_digits_roundtrip(n: nat)
    ensures
        dec_digits(n).len() >= 1,
        all_digits(dec_digits(n)),
        dec_val(dec_digits(n)) == n,
    decreases n,
{
    if n < 10 {
        let s = seq![digit_char(n)];
        assert(s.len() == 1);
        assert(s.last() == digit_char(n));
        assert(s.drop_last() =~= Seq::<char>::empty());
        assert(dec_val(s.drop_last()) == 0);
        assert(dec_val(s) == dec_val(s.drop_last()) * 10 + digit_val(s.last()));
    } else {
        lemma_dec_digits_roundtrip(n / 10);
        let p = dec_digits(n / 10);
        let s = p.push(digit_char(n % 10));
        assert(s.drop_last() =~= p);
        assert(s.last() == digit_char(n % 10));
        assert(forall|i: int| 0 <= i < s.len() ==> is_digit_char(#[trigger] s[i]));
        assert((n / 10) * 10 + n % 10 == n) by (nonlinear_arith);
    }
}

/// The canonical decimal rendering of a signed value: a leading minus sign
/// for a negative value, then the digits of its magnitude.
pub open spec fn signed_digits(v: int) -> Seq<char> {
    if v < 0 {
        seq!['-'] + dec_digits((-v) as nat)
    } else {
        dec_digits(v as nat)
    }
}

/// What parsing raw text as a signed value bounded by `min ..= max`
/// returns.  A leading minus sign negates the digit string after it;
/// everything else reads as for the unsigned kinds.
pub open spec fn spec_parse_signed(s: Seq<char>, min: i64, max: i64) -> Result<i64, FormError> {
    if s.len() >= 1 && s[0] == '-' {
        let rest = s.subrange(1, s.len() as int);
        if rest.len() == 0 || !all_digits(rest) {
            Err(FormError::Parse)
        } else if -(dec_val(rest) as int) < min || -(dec_val(rest) as int) > max {
            Err(FormError::OutOfRange)
        } else {
            Ok((-(dec_val(rest) as int)) as i64)
        }
    } else if s.len() == 0 || !all_digits(s) {
        Err(FormError::Parse)
    } else if dec_val(s) < min || dec_val(s) > max {
        Err(FormError::OutOfRange)
    } else {
        Ok(dec_val(s) as i64)
    }
}

/// Renders a signed value as its canonical decimal string.
pub fn to_signed_dec_string(v: i64) -> (r: String)
    ensures
        r@ == signed_digits(v as int),
{
    if v >= 0 {
        to_dec_string(v as u64)
    } else {
        proof {
            reveal_strlit("-");
        }
        let mag: u64 = (-(v as i128)) as u64;
        let mut r = "-".to_owned();
        let digits = to_dec_string(mag);
        r.append(digits.as_str());
        proof {
            assert(r@ =~= seq!['-'] + dec_digits((-(v as int)) as nat));
        }
        r
    }
}

/// Parsing the canonical rendering of a signed value gives the value back.
pub proof fn lemma_signed_digits_roundtrip(v: int, min: i64, max: i64)
    requires
        min <= v <= max,
    ensures
        spec_parse_signed(signed_digits(v), min, max) == Ok::<i64, FormError>(v as i64),
{
    let s = signed_digits(v);
    if v < 0 {
        lemma_dec_digits_roundtrip((-v) as nat);
        assert(s[0] == '-');
        assert(s.subrange(1, s.len() as int) =~= dec_digits((-v) as nat));
    } else {
        lemma_dec_digits_roundtrip(v as nat);
        assert(is_digit_char(s[0]));
        assert(s[0] != '-');
    }
}

/// Parses raw text as a signed value bounded by `min ..= max`.
pub fn parse_signed(s: &str, min: i64, max: i64) -> (r: Result<i64, FormError>)
    ensures
        r == spec_parse_signed(s@, min, max),
{
    let n = s.unicode_len();
    if n >= 1 && s.get_char(0) == '-' {
        let rest = s.substring_char(1, n);
        let ghost restv = s@.subrange(1, n as int);
        match parse_unsigned(rest, 0, u64::MAX) {
            Err(e) => Err(e),
            Ok(mag) => {
                if (mag as i128) > -(min as i128) {
                    proof {
                        assert(-(dec_val(restv) as int) < min);
                    }
                    Err(FormError::OutOfRange)
                } else if -(mag as i128) > (max as i128) {
                    Err(FormError::OutOfRange)
                } else {
                    Ok((-(mag as i128)) as i64)
                }
            },
        }
    } else {
        match parse_unsigned(s, 0, u64::MAX) {
            Err(e) => Err(e),
            Ok(v) => {
                if (v as i128) < (min as i128) || (v as i128) > (max as i128) {
                    Err(FormError::OutOfRange)
                } else {
                    Ok(v as i64)
                }
            },
        }
    }
}

/// Parses raw text as an unsigned value bounded by `min ..= max`.
pub fn parse_unsigned(s: &str, min: u64, max: u64) -> (r: Result<u64, FormError>)
    ensures
        r == spec_parse_unsigned(s@, min, max),
{
    let n = s.unicode_len();
    if n == 0 {
        return Err(FormError::Parse);
    }
    let mut i: usize = 0;
    while i < n
        invariant
            0 <= i <= n,
            n == s@.len(),
            forall|j: int| 0 <= j < i ==> is_digit_char(#[trigger] s@[j]),
        decreases n - i,
    {
        let c = s.get_char(i);
        if char_digit(c).is_none() {
            return Err(FormError::Parse);
        }
        i += 1;
    }
    let mut acc: u64 = 0;
    let mut i: usize = 0;
    while i < n
        invariant
            0 <= i <= n,
            n == s@.len(),
            all_digits(s@),
            acc == dec_val(s@.subrange(0, i as int)),
            acc <= max,
        decreases n - i,
    {
        let c = s.get_char(i);
        let d = match char_digit(c) {
            Some(d) => d,
            None => {
                proof {
                    assert(is_digit_char(s@[i as int]));
                }
                return Err(FormError::Parse);
            },
        };
        let t: u128 = (acc as u128) * 10 + (d as u128);
        proof {
            let p = s@.subrange(0, i as int);
            let q = s@.subrange(0, i + 1 as int);
            assert(q.drop_last() =~= p);
            assert(q.last() == s@[i as int]);
        }
        if t > (max as u128) {
            proof {
                lemma_dec_val_prefix_mono(s@, i + 1 as int);
            }
            return Err(FormError::OutOfRange);
        }
        acc = t as u64;
        i += 1;
    }
    proof {
        assert(s@.subrange(0, n as int) =~= s@);
    }
    if acc < min {
        Err(FormError::OutOfRange)
    } else {
        Ok(acc)
    }
}

} // verus!
