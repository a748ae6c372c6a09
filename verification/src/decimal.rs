use crate::text::chars_of;
use vstd::prelude::*;
use vstd::string::StringExecFns;

verus! {

/// The ten decimal digits.
pub open spec fn is_digit(c: char) -> bool {
    '0' <= c && c <= '9'
}

/// The number a decimal digit stands for.
pub open spec fn digit_value(c: char) -> nat {
    (c as int - '0' as int) as nat
}

/// The digit that stands for `d`, for `d` below ten.
pub open spec fn digit_char(d: nat) -> char {
    ('0' as int + d) as char
}

/// Whether every character of `s` is a decimal digit.
pub open spec fn all_digits(s: Seq<char>) -> bool {
    forall|i: int| 0 <= i < s.len() ==> is_digit(#[trigger] s[i])
}

/// The number that the digit string `s` writes, most significant digit first.
pub open spec fn digits_value(s: Seq<char>) -> nat
    decreases s.len(),
{
    if s.len() == 0 {
        0
    } else {
        10 * digits_value(s.drop_last()) + digit_value(s.last())
    }
}

/// The number written by one or more digits, if `s` is that.
pub open spec fn magnitude(s: Seq<char>) -> Option<nat> {
    if s.len() > 0 && all_digits(s) {
        Some(digits_value(s))
    } else {
        None
    }
}

/// The number written by `s` as an unsigned decimal: an optional `+`, then one
/// or more digits. Leading zeros are allowed.
pub open spec fn unsigned_decimal(s: Seq<char>) -> Option<nat> {
    if s.len() > 0 && s[0] == '+' {
        magnitude(s.drop_first())
    } else {
        magnitude(s)
    }
}

/// The number written by `s` as a signed decimal: an optional `+` or `-`, then
/// one or more digits.
pub open spec fn signed_decimal(s: Seq<char>) -> Option<int> {
    if s.len() > 0 && s[0] == '-' {
        match magnitude(s.drop_first()) {
            Some(m) => Some(-(m as int)),
            None => None,
        }
    } else {
        match unsigned_decimal(s) {
            Some(m) => Some(m as int),
            None => None,
        }
    }
}

/// `s` read as a `u16`: its unsigned value, if it has one that fits.
pub open spec fn decimal_u16(s: Seq<char>) -> Option<u16> {
    match unsigned_decimal(s) {
        Some(m) => if m <= u16::MAX { Some(m as u16) } else { None },
        None => None,
    }
}

/// `s` read as a `u128`: its unsigned value, if it has one that fits.
pub open spec fn decimal_u128(s: Seq<char>) -> Option<u128> {
    match unsigned_decimal(s) {
        Some(m) => if m <= u128::MAX { Some(m as u128) } else { None },
        None => None,
    }
}

/// `s` read as an `i128`: its signed value, if it has one that fits.
pub open spec fn decimal_i128(s: Seq<char>) -> Option<i128> {
    match signed_decimal(s) {
        Some(v) => if i128::MIN <= v <= i128::MAX { Some(v as i128) } else { None },
        None => None,
    }
}

/// The decimal digits of `n`, most significant first, without leading zeros.
pub open spec fn decimal_digits(n: nat) -> Seq<char>
    decreases n,
{
    if n < 10 {
        seq![digit_char(n)]
    } else {
        decimal_digits(n / 10).push(digit_char(n % 10))
    }
}

/// The decimal text of `v`: a `-` before the digits of a negative number, no
/// sign otherwise.
pub open spec fn signed_digits(v: int) -> Seq<char> {
    if v < 0 {
        seq!['-'] + decimal_digits((-v) as nat)
    } else {
        decimal_digits(v as nat)
    }
}

/// A digit string is worth at least as much as any of its prefixes.
pub proof fn lemma_prefix_value(s: Seq<char>, k: int)
    requires
        0 <= k <= s.len(),
    ensures
        digits_value(s.take(k)) <= digits_value(s),
    decreases s.len(),
{
    if k == s.len() {
        assert(s.take(k) =~= s);
    } else {
        lemma_prefix_value(s.drop_last(), k);
        assert(s.drop_last().take(k) =~= s.take(k));
    }
}

/// The digits of a number are digits, at least one, and write that number.
pub proof fn lemma_decimal_digits(n: nat)
    ensures
        decimal_digits(n).len() > 0,
        all_digits(decimal_digits(n)),
        digits_value(decimal_digits(n)) == n,
    decreases n,
{
    let text = decimal_digits(n);
    if n < 10 {
        assert(text.drop_last() =~= Seq::<char>::empty());
        assert(digits_value(text.drop_last()) == 0);
    } else {
        lemma_decimal_digits(n / 10);
        assert(text.drop_last() =~= decimal_digits(n / 10));
    }
}

/// Reading the digits of a number gives the number back.
pub proof fn law_unsigned_round_trip(n: nat)
    ensures
        unsigned_decimal(decimal_digits(n)) == Some(n),
{
    lemma_decimal_digits(n);
    assert(is_digit(decimal_digits(n)[0]));
}

/// Reading the decimal text of a signed number gives the number back.
pub proof fn law_signed_round_trip(v: int)
    ensures
        signed_decimal(signed_digits(v)) == Some(v),
{
    if v < 0 {
        lemma_decimal_digits((-v) as nat);
        assert(signed_digits(v).drop_first() =~= decimal_digits((-v) as nat));
    } else {
        lemma_decimal_digits(v as nat);
        assert(is_digit(decimal_digits(v as nat)[0]));
    }
}

/// Reads the digits `chars[start..]` as a number no greater than `max`.
fn parse_magnitude(chars: &Vec<char>, start: usize, max: u128) -> (value: Option<u128>)
    requires
        start <= chars.len(),
        max >= 9,
    ensures
        value == match magnitude(chars@.skip(start as int)) {
            Some(m) => if m <= max { Some(m as u128) } else { None },
            None => None,
        },
{
    let ghost digits = chars@.skip(start as int);
    if start == chars.len() {
        return None;
    }
    let mut acc: u128 = 0;
    let mut i: usize = start;
    while i < chars.len()
        invariant
            start <= i <= chars.len(),
            digits == chars@.skip(start as int),
            all_digits(digits.take(i - start)),
            acc == digits_value(digits.take(i - start)),
            acc <= max,
            max >= 9,
        decreases chars.len() - i,
    {
        let c: char = chars[i];
        let ghost before = digits.take(i - start);
        let ghost after = digits.take(i + 1 - start);
        proof {
            assert(after.drop_last() =~= before);
            assert(after.last() == c);
        }
        if !('0' <= c && c <= '9') {
            assert(!is_digit(digits[i - start]));
            return None;
        }
        let d: u128 = (c as u32 - '0' as u32) as u128;
        if acc > (max - d) / 10 {
            proof {
                if all_digits(digits) {
                    lemma_prefix_value(digits, i + 1 - start);
                }
            }
            return None;
        }
        acc = acc * 10 + d;
        i += 1;
        proof {
            assert forall|j: int| 0 <= j < after.len() implies is_digit(#[trigger] after[j]) by {
                if j < before.len() {
                    assert(before[j] == after[j]);
                }
            }
        }
    }
    proof {
        assert(digits.take(i - start) =~= digits);
    }
    Some(acc)
}

/// Reads `s` as a `u16`, by the grammar of [`unsigned_decimal`].
pub fn parse_u16(s: &str) -> (value: Option<u16>)
    ensures
        value == decimal_u16(s@),
{
    match parse_u128_within(s, 0xffff) {
        Some(v) => Some(v as u16),
        None => None,
    }
}

/// Reads `s` as a `u128`, by the grammar of [`unsigned_decimal`].
pub fn parse_u128(s: &str) -> (value: Option<u128>)
    ensures
        value == decimal_u128(s@),
{
    parse_u128_within(s, u128::MAX)
}

/// Reads `s` as an unsigned decimal no greater than `max`.
fn parse_u128_within(s: &str, max: u128) -> (value: Option<u128>)
    requires
        max >= 9,
    ensures
        value == match unsigned_decimal(s@) {
            Some(m) => if m <= max { Some(m as u128) } else { None },
            None => None,
        },
{
    let chars = chars_of(s);
    if chars.len() > 0 && chars[0] == '+' {
        assert(chars@.skip(1) =~= s@.drop_first());
        parse_magnitude(&chars, 1, max)
    } else {
        assert(chars@.skip(0) =~= s@);
        parse_magnitude(&chars, 0, max)
    }
}

/// Reads `s` as an `i128`, by the grammar of [`signed_decimal`].
pub fn parse_i128(s: &str) -> (value: Option<i128>)
    ensures
        value == decimal_i128(s@),
{
    let chars = chars_of(s);
    if chars.len() > 0 && chars[0] == '-' {
        assert(chars@.skip(1) =~= s@.drop_first());
        match parse_magnitude(&chars, 1, 0x8000_0000_0000_0000_0000_0000_0000_0000) {
            Some(m) => {
                if m == 0x8000_0000_0000_0000_0000_0000_0000_0000 {
                    Some(i128::MIN)
                } else {
                    Some(-(m as i128))
                }
            },
            None => None,
        }
    } else if chars.len() > 0 && chars[0] == '+' {
        assert(chars@.skip(1) =~= s@.drop_first());
        match parse_magnitude(&chars, 1, 0x7fff_ffff_ffff_ffff_ffff_ffff_ffff_ffff) {
            Some(m) => Some(m as i128),
            None => None,
        }
    } else {
        assert(chars@.skip(0) =~= s@);
        match parse_magnitude(&chars, 0, 0x7fff_ffff_ffff_ffff_ffff_ffff_ffff_ffff) {
            Some(m) => Some(m as i128),
            None => None,
        }
    }
}

/// The one-character text of the digit `d`.
fn digit_text(d: u8) -> (text: &'static str)
    requires
        d < 10,
    ensures
        text@ == seq![digit_char(d as nat)],
{
    proof {
        reveal_strlit("0");
        reveal_strlit("1");
        reveal_strlit("2");
        reveal_strlit("3");
        reveal_strlit("4");
        reveal_strlit("5");
        reveal_strlit("6");
        reveal_strlit("7");
        reveal_strlit("8");
        reveal_strlit("9");
    }
    let text = if d == 0 {
        "0"
    } else if d == 1 {
        "1"
    } else if d == 2 {
        "2"
    } else if d == 3 {
        "3"
    } else if d == 4 {
        "4"
    } else if d == 5 {
        "5"
    } else if d == 6 {
        "6"
    } else if d == 7 {
        "7"
    } else if d == 8 {
        "8"
    } else {
        "9"
    };
    assert(text@ =~= seq![digit_char(d as nat)]);
    text
}

/// Appends the decimal digits of `n` to `out`.
pub fn push_decimal(out: &mut String, n: u128)
    ensures
        final(out)@ == old(out)@ + decimal_digits(n as nat),
    decreases n,
{
    if n >= 10 {
        push_decimal(out, n / 10);
    }
    out.append(digit_text((n % 10) as u8));
    assert(out@ =~= old(out)@ + decimal_digits(n as nat));
}

} // verus!
