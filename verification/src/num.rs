//! Decimal rendering and parsing of unsigned integers, and fixed-point
//! rendering of exact ratios.

use vstd::prelude::*;
use crate::text::{lemma_take_step, push_char, push_str, to_chars};

verus! {

/// The ASCII digit for `d < 10`.
pub open spec fn digit(d: nat) -> char {
    (48 + d) as char
}

/// Decimal digits of `n`, without leading zeros (`"0"` for zero).
pub open spec fn dec(n: nat) -> Seq<char>
    decreases n,
{
    if n < 10 {
        seq![digit(n)]
    } else {
        dec(n / 10).push(digit(n % 10))
    }
}

/// `n` in decimal, left-padded with zeros to at least `w` digits
/// (`format!("{:0w$}", n)`).
pub open spec fn dec_zero_padded(n: nat, w: nat) -> Seq<char> {
    if dec(n).len() >= w {
        dec(n)
    } else {
        Seq::new((w - dec(n).len()) as nat, |i: int| '0') + dec(n)
    }
}

/// `c` is an ASCII decimal digit.
pub open spec fn is_digit(c: char) -> bool {
    '0' <= c <= '9'
}

/// The value of a string of decimal digits.
pub open spec fn digits_value(d: Seq<char>) -> nat
    decreases d.len(),
{
    if d.len() == 0 {
        0
    } else {
        digits_value(d.drop_last()) * 10 + ((d.last() as nat) - 48) as nat
    }
}

/// The digits part of an unsigned integer literal: one leading `+` is
/// skipped.
pub open spec fn unsigned_body(s: Seq<char>) -> Seq<char> {
    if s.len() > 0 && s[0] == '+' {
        s.drop_first()
    } else {
        s
    }
}

/// What `str::parse` of an unsigned integer type with maximum `max` gives:
/// an optional `+`, then at least one ASCII digit and nothing else, and a
/// value that does not exceed `max`.
pub open spec fn parse_unsigned(s: Seq<char>, max: nat) -> Option<nat> {
    let d = unsigned_body(s);
    if d.len() > 0 && (forall|i: int| 0 <= i < d.len() ==> is_digit(#[trigger] d[i]))
        && digits_value(d) <= max {
        Some(digits_value(d))
    } else {
        None
    }
}

/// `10^d`.
pub open spec fn pow10(d: nat) -> nat
    decreases d,
{
    if d == 0 {
        1
    } else {
        10 * pow10((d - 1) as nat)
    }
}

/// `num / den` rounded to `d` decimal places, ties to even, expressed as an
/// integer count of `10^-d` units.
pub open spec fn rounded_units(num: nat, den: nat, d: nat) -> nat
    recommends
        den > 0,
{
    let scaled = num * pow10(d);
    let q = scaled / den;
    let r = scaled % den;
    if 2 * r > den || (2 * r == den && q % 2 == 1) {
        q + 1
    } else {
        q
    }
}

/// `num / den` written with exactly `d` decimal places, rounding ties to
/// even: the text `format!("{:.d$}", x)` gives for the exact value `x`.
pub open spec fn fixed_text(num: nat, den: nat, d: nat) -> Seq<char>
    recommends
        den > 0,
{
    let u = rounded_units(num, den, d);
    if d == 0 {
        dec(u)
    } else {
        dec(u / pow10(d)) + seq!['.'] + dec_zero_padded(u % pow10(d), d)
    }
}

proof fn lemma_dec_ascii(n: nat)
    ensures
        forall|i: int| 0 <= i < dec(n).len() ==> is_digit(#[trigger] dec(n)[i]),
        dec(n).len() >= 1,
    decreases n,
{
    if n >= 10 {
        lemma_dec_ascii(n / 10);
    }
}

/// Appends the decimal digits of `n` to `s`.
pub fn push_dec(s: &mut String, n: u128)
    ensures
        final(s)@ == old(s)@ + dec(n as nat),
    decreases n,
{
    if n >= 10 {
        push_dec(s, n / 10);
    }
    let d = (n % 10) as u32;
    let c = char_from_digit(d);
    push_char(s, c);
    assert(final(s)@ =~= old(s)@ + dec(n as nat));
}

/// The ASCII digit character for `d < 10`.
pub fn char_from_digit(d: u32) -> (c: char)
    requires
        d < 10,
    ensures
        c == digit(d as nat),
{
    match d {
        0 => '0',
        1 => '1',
        2 => '2',
        3 => '3',
        4 => '4',
        5 => '5',
        6 => '6',
        7 => '7',
        8 => '8',
        _ => '9',
    }
}

/// `n` in decimal (`n.to_string()`).
pub fn dec_string(n: u128) -> (r: String)
    ensures
        r@ == dec(n as nat),
{
    let mut r = String::new();
    push_dec(&mut r, n);
    r
}

/// Appends `n` zero-padded to `w` digits (`format!("{:0w$}", n)`).
pub fn push_dec_padded(s: &mut String, n: u128, w: usize)
    ensures
        final(s)@ == old(s)@ + dec_zero_padded(n as nat, w as nat),
{
    let t = dec_string(n);
    let tv = to_chars(t.as_str());
    let k = tv.len();
    let ghost s0 = s@;
    if k < w {
        let mut i: usize = 0;
        while i < w - k
            invariant
                i <= w - k,
                k < w,
                s@ == s0 + Seq::new(i as nat, |j: int| '0'),
            decreases w - k - i,
        {
            push_char(s, '0');
            i = i + 1;
            assert(s@ =~= s0 + Seq::new(i as nat, |j: int| '0'));
        }
    }
    push_str(s, t.as_str());
    assert(s@ =~= s0 + dec_zero_padded(n as nat, w as nat));
}

/// Parses an unsigned decimal integer not above `max` the way `str::parse`
/// does for unsigned integer types.
pub fn parse_uint(s: &str, max: u64) -> (r: Option<u64>)
    ensures
        match r {
            Some(n) => parse_unsigned(s@, max as nat) == Some(n as nat),
            None => parse_unsigned(s@, max as nat) is None,
        },
{
    let v = to_chars(s);
    let start: usize = if v.len() > 0 && v[0] == '+' {
        1
    } else {
        0
    };
    let ghost d = unsigned_body(s@);
    assert(d =~= v@.subrange(start as int, v@.len() as int));
    if start >= v.len() {
        return None;
    }
    let mut acc: u64 = 0;
    let mut i = start;
    while i < v.len()
        invariant
            start <= i <= v.len(),
            d == unsigned_body(s@),
            d == v@.subrange(start as int, v@.len() as int),
            forall|k: int| 0 <= k < i - start ==> is_digit(#[trigger] d[k]),
            acc == digits_value(d.take(i - start)),
            acc <= max,
        decreases v.len() - i,
    {
        let c = v[i];
        proof {
            lemma_take_step(d, i - start);
        }
        assert(d[i - start] == c);
        if !('0' <= c && c <= '9') {
            assert(!is_digit(d[i - start]));
            assert(parse_unsigned(s@, max as nat) is None);
            return None;
        }
        let dv = (c as u32 - 48) as u64;
        if dv > max || acc > (max - dv) / 10 {
            proof {
                assert(d.take(i - start + 1).drop_last() == d.take(i - start));
                assert(digits_value(d.take(i - start + 1)) > max);
                if forall|k: int| 0 <= k < d.len() ==> is_digit(#[trigger] d[k]) {
                    lemma_digits_value_prefix_mono(d, i - start + 1);
                }
                assert(parse_unsigned(s@, max as nat) is None);
            }
            return None;
        }
        acc = acc * 10 + dv;
        i = i + 1;
    }
    assert(d.take(i - start) =~= d);
    Some(acc)
}

/// Prefix values never exceed the value of the whole digit string.
proof fn lemma_digits_value_prefix_mono(d: Seq<char>, k: int)
    requires
        0 <= k <= d.len(),
        forall|i: int| 0 <= i < d.len() ==> is_digit(#[trigger] d[i]),
    ensures
        digits_value(d.take(k)) <= digits_value(d),
    decreases d.len() - k,
{
    if k < d.len() {
        lemma_digits_value_prefix_mono(d, k + 1);
        lemma_take_step(d, k);
    } else {
        assert(d.take(k) =~= d);
    }
}

/// `num / den` written with `d` decimal places (`d` at most 2), rounding
/// ties to even.
pub fn fixed(num: u128, den: u128, d: u32) -> (r: String)
    requires
        den > 0,
        d <= 2,
        num < 0x1_0000_0000_0000_0000_0000_0000,
    ensures
        r@ == fixed_text(num as nat, den as nat, d as nat),
{
    proof {
        reveal_with_fuel(pow10, 3);
    }
    let p: u128 = if d == 0 {
        1
    } else if d == 1 {
        10
    } else {
        100
    };
    assert(p == pow10(d as nat));
    let scaled = num * p;
    let q = scaled / den;
    let rem = scaled % den;
    let u = if rem > den - rem || (rem == den - rem && q % 2 == 1) {
        q + 1
    } else {
        q
    };
    assert(u == rounded_units(num as nat, den as nat, d as nat));
    let mut r = String::new();
    if d == 0 {
        push_dec(&mut r, u);
    } else {
        push_dec(&mut r, u / p);
        push_char(&mut r, '.');
        push_dec_padded(&mut r, u % p, d as usize);
    }
    r
}

/// Reading the decimal digits of `n` gives `n` back.
pub proof fn lemma_dec_value(n: nat)
    ensures
        digits_value(dec(n)) == n,
    decreases n,
{
    let k = n % 10;
    assert(digit(k) as nat == 48 + k);
    if n < 10 {
        assert(dec(n) =~= seq![digit(n)]);
        assert(seq![digit(n)].drop_last() =~= Seq::<char>::empty());
        assert(digits_value(dec(n)) == digits_value(Seq::<char>::empty()) * 10 + ((digit(n) as nat) - 48) as nat);
    } else {
        lemma_dec_value(n / 10);
        assert(dec(n).drop_last() =~= dec(n / 10));
        assert(dec(n).last() == digit(k));
    }
}

/// Different numbers have different decimal texts.
pub proof fn lemma_dec_injective(m: nat, n: nat)
    requires
        m != n,
    ensures
        dec(m) != dec(n),
{
    lemma_dec_value(m);
    lemma_dec_value(n);
}

/// The decimal text of a positive number is not `"0"`.
pub proof fn lemma_dec_not_zero(n: nat)
    requires
        n > 0,
    ensures
        dec(n) != "0"@,
{
    reveal_strlit("0");
    if n >= 10 {
        lemma_dec_ascii(n / 10);
        assert(dec(n).len() >= 2);
    } else {
        assert(dec(n)[0] != '0');
    }
}

} // verus!
