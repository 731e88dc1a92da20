//! Gregorian calendar arithmetic on day counts since 1970-01-01, month-day
//! parsing, and the system clock.

use vstd::prelude::*;
use crate::num::{dec, dec_zero_padded, parse_uint, parse_unsigned, push_dec_padded};
use crate::text::{split_char, split_seq};

verus! {

// ── Specifications ──────────────────────────────────────────────────────────

/// Gregorian leap year rule.
pub open spec fn is_leap_year(y: int) -> bool {
    (y % 4 == 0 && y % 100 != 0) || y % 400 == 0
}

/// Days in year `y`.
pub open spec fn year_len(y: int) -> nat {
    if is_leap_year(y) {
        366
    } else {
        365
    }
}

/// Days from 1970-01-01 to the first day of year `y` (zero for `y <= 1970`).
pub open spec fn days_before_year(y: int) -> nat
    decreases y - 1970,
{
    if y <= 1970 {
        0
    } else {
        days_before_year(y - 1) + year_len(y - 1)
    }
}

/// Days in month `m` (1-based) of year `y`.
pub open spec fn month_len(y: int, m: int) -> nat {
    if m == 2 {
        if is_leap_year(y) {
            29
        } else {
            28
        }
    } else if m == 4 || m == 6 || m == 9 || m == 11 {
        30
    } else {
        31
    }
}

/// Days from the first of January to the first day of month `m` of year `y`.
pub open spec fn days_before_month(y: int, m: int) -> nat
    decreases m,
{
    if m <= 1 {
        0
    } else {
        days_before_month(y, m - 1) + month_len(y, m - 1)
    }
}

/// The day count since 1970-01-01 of year `y`, month `m`, day `d`.
pub open spec fn day_number(y: int, m: int, d: int) -> int {
    days_before_year(y) + days_before_month(y, m) + d - 1
}

/// `(y, m, d)` is a calendar date from 1970 on.
pub open spec fn is_date(y: int, m: int, d: int) -> bool {
    y >= 1970 && 1 <= m <= 12 && 1 <= d <= month_len(y, m)
}

/// The day count that a timestamp in seconds falls on, as the 32-bit day
/// counter used for dates.
pub open spec fn day_of_timestamp(ts: nat) -> nat {
    (ts / 86400) % 0x1_0000_0000
}

// ── Lemmas ──────────────────────────────────────────────────────────────────

pub proof fn lemma_days_before_year_mono(a: int, b: int)
    requires
        a <= b,
    ensures
        days_before_year(a) <= days_before_year(b),
    decreases b - a,
{
    if a < b {
        lemma_days_before_year_mono(a, b - 1);
        if b > 1970 {
        }
    }
}

pub proof fn lemma_days_before_year_lower(y: int)
    requires
        y >= 1970,
    ensures
        days_before_year(y) >= 365 * (y - 1970),
    decreases y - 1970,
{
    if y > 1970 {
        lemma_days_before_year_lower(y - 1);
    }
}

pub proof fn lemma_days_before_month_total(y: int)
    ensures
        days_before_month(y, 13) == year_len(y),
        days_before_month(y, 12) + 31 == year_len(y),
{
    reveal_with_fuel(days_before_month, 13);
}

pub proof fn lemma_days_before_month_mono(y: int, a: int, b: int)
    requires
        a <= b,
    ensures
        days_before_month(y, a) <= days_before_month(y, b),
    decreases b - a,
{
    if a < b {
        lemma_days_before_month_mono(y, a, b - 1);
    }
}

// ── Executable operations ───────────────────────────────────────────────────

/// Gregorian leap year rule.
pub fn is_leap(y: u32) -> (b: bool)
    ensures
        b == is_leap_year(y as int),
{
    (y % 4 == 0 && y % 100 != 0) || y % 400 == 0
}

/// Days in year `y`.
pub fn days_in_year(y: u32) -> (n: u32)
    ensures
        n == year_len(y as int),
{
    if is_leap(y) {
        366
    } else {
        365
    }
}

/// Days in month `m` of year `y`.
pub fn days_in_month(y: u32, m: u32) -> (n: u32)
    ensures
        n == month_len(y as int, m as int),
{
    if m == 2 {
        if is_leap(y) {
            29
        } else {
            28
        }
    } else if m == 4 || m == 6 || m == 9 || m == 11 {
        30
    } else {
        31
    }
}

/// The calendar date `(year, month, day)` of a Unix timestamp in seconds.
/// The day count is taken modulo 2^32, as a 32-bit day counter holds it.
pub fn ts_to_ymd(ts: u64) -> (r: (u32, u32, u32))
    ensures
        is_date(r.0 as int, r.1 as int, r.2 as int),
        day_number(r.0 as int, r.1 as int, r.2 as int) == day_of_timestamp(ts as nat),
{
    let n: u32 = ((ts / 86400) % 0x1_0000_0000) as u32;
    let mut rem: u32 = n;
    let mut y: u32 = 1970;
    loop
        invariant
            1970 <= y,
            rem <= n,
            days_before_year(y as int) + rem == n,
            365 * (y - 1970) <= n - rem,
        ensures
            1970 <= y,
            rem < year_len(y as int),
            days_before_year(y as int) + rem == n,
        decreases rem,
    {
        let dy = days_in_year(y);
        if rem < dy {
            break;
        }
        rem = rem - dy;
        y = y + 1;
    }
    let mut m: u32 = 1;
    while m < 12 && rem >= days_in_month(y, m)
        invariant
            1 <= m <= 12,
            rem + days_before_month(y as int, m as int) < year_len(y as int),
            days_before_year(y as int) + days_before_month(y as int, m as int) + rem == n,
        decreases 12 - m,
    {
        rem = rem - days_in_month(y, m);
        m = m + 1;
    }
    proof {
        lemma_days_before_month_total(y as int);
    }
    (y, m, rem + 1)
}

/// The day count since 1970-01-01 of `(y, m, d)`; years before 1970 count
/// from the start of their own year.
pub fn ymd_to_days(y: u32, m: u32, d: u32) -> (r: u32)
    requires
        1 <= m <= 12,
        1 <= d,
        day_number(y as int, m as int, d as int) <= u32::MAX,
    ensures
        r == day_number(y as int, m as int, d as int),
{
    let mut days: u32 = 0;
    let mut yr: u32 = 1970;
    while yr < y
        invariant
            1970 <= yr,
            y >= 1970 ==> yr <= y,
            y < 1970 ==> yr == 1970,
            1 <= m <= 12,
            1 <= d,
            days == days_before_year(yr as int),
            day_number(y as int, m as int, d as int) <= u32::MAX,
        decreases y - yr,
    {
        proof {
            lemma_days_before_year_mono(yr as int + 1, y as int);
        }
        days = days + days_in_year(yr);
        yr = yr + 1;
    }
    proof {
        if y >= 1970 {
            assert(yr == y);
        } else {
            assert(days_before_year(y as int) == 0);
        }
        lemma_days_before_month_mono(y as int, m as int, 12);
    }
    let mut mo: u32 = 1;
    while mo < m
        invariant
            1 <= mo <= m,
            1 <= d,
            days == days_before_year(y as int) + days_before_month(y as int, mo as int),
            day_number(y as int, m as int, d as int) <= u32::MAX,
        decreases m - mo,
    {
        proof {
            lemma_days_before_month_mono(y as int, mo as int + 1, m as int);
        }
        days = days + days_in_month(y, mo);
        mo = mo + 1;
    }
    days + (d - 1)
}

/// Days from `(cy, cm, cd)` to the next `(bm, bd)` on or after it: this
/// year's if it has not passed yet, otherwise next year's.
pub open spec fn days_until_spec(cy: int, cm: int, cd: int, bm: int, bd: int) -> int {
    let target = day_number(cy, bm, bd);
    let today = day_number(cy, cm, cd);
    if target >= today {
        target - today
    } else {
        day_number(cy + 1, bm, bd) - today
    }
}

/// Days from the first of January of year `y` to month `m`, day `d`.
fn day_of_year(y: u32, m: u32, d: u32) -> (r: u32)
    requires
        1 <= m <= 12,
        1 <= d <= 31,
    ensures
        r == days_before_month(y as int, m as int) + d - 1,
        r < year_len(y as int),
{
    proof {
        lemma_days_before_month_mono(y as int, m as int, 12);
        lemma_days_before_month_total(y as int);
    }
    let mut days: u32 = 0;
    let mut mo: u32 = 1;
    while mo < m
        invariant
            1 <= mo <= m <= 12,
            days == days_before_month(y as int, mo as int),
            days_before_month(y as int, m as int) <= 335,
        decreases m - mo,
    {
        proof {
            lemma_days_before_month_mono(y as int, mo as int + 1, m as int);
        }
        days = days + days_in_month(y, mo);
        mo = mo + 1;
    }
    days + (d - 1)
}

/// Days from today `(cy, cm, cd)` until the next `(bm, bd)`.
pub fn days_until(cy: u32, cm: u32, cd: u32, bm: u32, bd: u32) -> (r: u32)
    requires
        1970 <= cy < u32::MAX,
        1 <= cm <= 12,
        1 <= cd <= 31,
        1 <= bm <= 12,
        1 <= bd <= 31,
    ensures
        r == days_until_spec(cy as int, cm as int, cd as int, bm as int, bd as int),
{
    proof {
        assert(days_before_year(cy as int + 1) == days_before_year(cy as int) + year_len(
            cy as int,
        ));
    }
    let target_this_year = day_of_year(cy, bm, bd);
    let today = day_of_year(cy, cm, cd);
    if target_this_year >= today {
        target_this_year - today
    } else {
        let target_next = day_of_year(cy + 1, bm, bd);
        days_in_year(cy) + target_next - today
    }
}

/// The `"MM-DD"` text of a month and day (`format!("{:02}-{:02}", m, d)`).
pub open spec fn month_day_text(m: nat, d: nat) -> Seq<char> {
    dec_zero_padded(m, 2) + seq!['-'] + dec_zero_padded(d, 2)
}

/// Formats a month and day as `"MM-DD"`.
pub fn format_month_day(m: u32, d: u32) -> (r: String)
    ensures
        r@ == month_day_text(m as nat, d as nat),
{
    let mut r = String::new();
    push_dec_padded(&mut r, m as u128, 2);
    crate::text::push_char(&mut r, '-');
    push_dec_padded(&mut r, d as u128, 2);
    r
}

/// A month and day read from `"M-D"` text: exactly two `-`-separated parts,
/// each an unsigned 32-bit number, with month in 1..=12 and day in 1..=31.
pub open spec fn month_day_of(s: Seq<char>) -> Option<(nat, nat)> {
    let parts = split_seq(s, '-');
    if parts.len() != 2 {
        None
    } else {
        match (parse_unsigned(parts[0], u32::MAX as nat), parse_unsigned(parts[1], u32::MAX as nat)) {
            (Some(m), Some(d)) => if 1 <= m <= 12 && 1 <= d <= 31 {
                Some((m, d))
            } else {
                None
            },
            _ => None,
        }
    }
}

/// Parses `"MM-DD"` into `(month, day)`.
pub fn parse_md(s: &str) -> (r: Option<(u32, u32)>)
    ensures
        match r {
            Some((m, d)) => month_day_of(s@) == Some((m as nat, d as nat)),
            None => month_day_of(s@) is None,
        },
{
    let parts = split_char(s, '-');
    if parts.len() != 2 {
        return None;
    }
    let m = parse_uint(parts[0].as_str(), u32::MAX as u64);
    let d = parse_uint(parts[1].as_str(), u32::MAX as u64);
    match (m, d) {
        (Some(m), Some(d)) => {
            if 1 <= m && m <= 12 && 1 <= d && d <= 31 {
                Some((m as u32, d as u32))
            } else {
                None
            }
        },
        _ => None,
    }
}

// ── The clock ───────────────────────────────────────────────────────────────

/// Seconds since the Unix epoch from `SystemTime::now()`, or `None` when the
/// clock reads before the epoch. Nothing is promised about the value: it is
/// whatever the system clock reads.
#[verifier::external_body]
pub(crate) fn now_unix_secs() -> (r: Option<u64>) {
    std::time::SystemTime::now().duration_since(std::time::UNIX_EPOCH).ok().map(|d| d.as_secs())
}

/// The sub-second nanoseconds of `SystemTime::now()` since the epoch (zero
/// when the clock reads before the epoch). `Duration::subsec_nanos` is
/// documented to be below one billion; nothing else is promised.
#[verifier::external_body]
pub(crate) fn now_subsec_nanos() -> (r: u32)
    ensures
        r < 1_000_000_000,
{
    std::time::SystemTime::now().duration_since(std::time::UNIX_EPOCH).unwrap_or_default().subsec_nanos()
}

/// Today's date from the system clock (1970-01-01 when the clock reads
/// before the epoch).
pub fn today_ymd() -> (r: (u32, u32, u32))
    ensures
        is_date(r.0 as int, r.1 as int, r.2 as int),
        day_number(r.0 as int, r.1 as int, r.2 as int) <= u32::MAX,
{
    let secs = match now_unix_secs() {
        Some(s) => s,
        None => 0,
    };
    ts_to_ymd(secs)
}

// ── Laws ────────────────────────────────────────────────────────────────────

/// Within a date, the day lies before the end of its year.
proof fn lemma_day_in_year(y: int, m: int, d: int)
    requires
        is_date(y, m, d),
    ensures
        days_before_month(y, m) + d - 1 < year_len(y),
{
    lemma_days_before_month_total(y);
    lemma_days_before_month_mono(y, m + 1, 13);
}

/// Each day count belongs to exactly one calendar date: two dates with the
/// same day count are the same date. With the contracts of `ts_to_ymd` and
/// `ymd_to_days`, converting a date to its day count and back gives the date.
pub proof fn law_date_unique(y1: int, m1: int, d1: int, y2: int, m2: int, d2: int)
    requires
        is_date(y1, m1, d1),
        is_date(y2, m2, d2),
        day_number(y1, m1, d1) == day_number(y2, m2, d2),
    ensures
        y1 == y2 && m1 == m2 && d1 == d2,
{
    lemma_day_in_year(y1, m1, d1);
    lemma_day_in_year(y2, m2, d2);
    if y1 < y2 {
        lemma_days_before_year_mono(y1 + 1, y2);
        assert(days_before_year(y1 + 1) == days_before_year(y1) + year_len(y1));
    } else if y2 < y1 {
        lemma_days_before_year_mono(y2 + 1, y1);
        assert(days_before_year(y2 + 1) == days_before_year(y2) + year_len(y2));
    } else if m1 < m2 {
        lemma_days_before_month_mono(y1, m1 + 1, m2);
    } else if m2 < m1 {
        lemma_days_before_month_mono(y1, m2 + 1, m1);
    }
}

/// The day count of a date is an exact multiple-of-a-day timestamp that
/// `ts_to_ymd` maps back to the same date.
pub proof fn law_date_roundtrip(y: int, m: int, d: int, y2: int, m2: int, d2: int)
    requires
        is_date(y, m, d),
        day_number(y, m, d) < 0x1_0000_0000,
        is_date(y2, m2, d2),
        day_number(y2, m2, d2) == day_of_timestamp((day_number(y, m, d) * 86400) as nat),
    ensures
        y2 == y && m2 == m && d2 == d,
{
    let n = day_number(y, m, d);
    assert((n * 86400) / 86400 == n) by (nonlinear_arith)
        requires
            n >= 0,
    ;
    law_date_unique(y, m, d, y2, m2, d2);
}

/// The calendar date a timestamp in seconds falls on.
pub open spec fn date_of(ts: nat) -> (int, int, int) {
    choose|y: int, m: int, d: int| is_date(y, m, d) && day_number(y, m, d) == day_of_timestamp(ts)
}

/// A date with the timestamp's day count is the timestamp's date.
pub proof fn lemma_date_of(ts: nat, y: int, m: int, d: int)
    requires
        is_date(y, m, d),
        day_number(y, m, d) == day_of_timestamp(ts),
    ensures
        date_of(ts) == (y, m, d),
{
    let (y2, m2, d2) = date_of(ts);
    assert(is_date(y2, m2, d2) && day_number(y2, m2, d2) == day_of_timestamp(ts));
    law_date_unique(y, m, d, y2, m2, d2);
}

/// A date as `"YYYY-MM-DD"`, zero-padded.
pub open spec fn iso_date_text(y: nat, m: nat, d: nat) -> Seq<char> {
    dec_zero_padded(y, 4) + "-"@ + dec_zero_padded(m, 2) + "-"@ + dec_zero_padded(d, 2)
}

/// Whether the day count of `(y, m, d)` fits in 32 bits.
pub fn day_number_fits(y: u32, m: u32, d: u32) -> (b: bool)
    requires
        1 <= m <= 12,
        1 <= d <= 31,
    ensures
        b == (day_number(y as int, m as int, d as int) <= u32::MAX),
{
    let mut days: u64 = 0;
    let mut yr: u32 = 1970;
    while yr < y
        invariant
            1970 <= yr,
            y >= 1970 ==> yr <= y,
            y < 1970 ==> yr == 1970,
            days == days_before_year(yr as int),
            days <= 366 * (yr - 1970),
        decreases y - yr,
    {
        days = days + days_in_year(yr) as u64;
        yr = yr + 1;
    }
    proof {
        if y < 1970 {
            assert(days_before_year(y as int) == 0);
        }
        lemma_days_before_month_mono(y as int, m as int, 13);
        lemma_days_before_month_total(y as int);
    }
    let mut mo: u32 = 1;
    while mo < m
        invariant
            1 <= mo <= m <= 12,
            days == days_before_year(y as int) + days_before_month(y as int, mo as int),
            days <= 366 * 0x1_0000_0000 + days_before_month(y as int, mo as int),
            days_before_month(y as int, mo as int) <= 366,
        decreases m - mo,
    {
        proof {
            lemma_days_before_month_mono(y as int, mo as int + 1, 13);
            lemma_days_before_month_total(y as int);
        }
        days = days + days_in_month(y, mo) as u64;
        mo = mo + 1;
    }
    days + (d as u64 - 1) <= u32::MAX as u64
}

/// The countdown to a yearly date is at most a year: for any day of a year
/// from 1970 on and any month `1..=12` and day `1..=31` (days past a month's
/// end roll into the next month, as in the day count), the next occurrence
/// is between 0 and 366 days away.
#[verifier::spinoff_prover]
#[verifier::rlimit(40)]
pub proof fn law_days_until_within_a_year(cy: int, cm: int, cd: int, bm: int, bd: int)
    requires
        is_date(cy, cm, cd),
        1 <= bm <= 12,
        1 <= bd <= 31,
    ensures
        0 <= days_until_spec(cy, cm, cd, bm, bd) <= 366,
{
    reveal_with_fuel(days_before_month, 13);
    lemma_day_in_year(cy, cm, cd);
    assert(days_before_year(cy + 1) == days_before_year(cy) + year_len(cy));
    if day_number(cy, bm, bd) < day_number(cy, cm, cd) {
        assert(days_before_month(cy + 1, bm) <= days_before_month(cy, bm) + 1);
    } else {
        lemma_days_before_month_mono(cy, bm, 12);
        lemma_days_before_month_total(cy);
    }
}

/// A number below 100 written with two digits.
proof fn lemma_two_digits(n: nat)
    requires
        n < 100,
    ensures
        dec_zero_padded(n, 2) == seq![crate::num::digit(n / 10), crate::num::digit(n % 10)],
{
    if n < 10 {
        assert(dec(n) == seq![crate::num::digit(n)]);
        assert(dec_zero_padded(n, 2) =~= seq![crate::num::digit(n / 10), crate::num::digit(n % 10)]);
    } else {
        assert(dec(n / 10) == seq![crate::num::digit(n / 10)]);
        assert(dec(n) =~= seq![crate::num::digit(n / 10), crate::num::digit(n % 10)]);
    }
}

/// Two digits read back as their number.
proof fn lemma_two_digits_value(n: nat)
    requires
        n < 100,
    ensures
        parse_unsigned(seq![crate::num::digit(n / 10), crate::num::digit(n % 10)], u32::MAX as nat)
            == Some(n),
{
    let s = seq![crate::num::digit(n / 10), crate::num::digit(n % 10)];
    assert((crate::num::digit(n / 10) as nat) == 48 + n / 10);
    assert((crate::num::digit(n % 10) as nat) == 48 + n % 10);
    assert(crate::num::unsigned_body(s) == s);
    reveal_with_fuel(crate::num::digits_value, 3);
    assert(s.drop_last() =~= seq![crate::num::digit(n / 10)]);
    assert(seq![crate::num::digit(n / 10)].drop_last() =~= Seq::<char>::empty());
    assert(crate::num::digits_value(s) == n);
}

/// A birthday written as `"MM-DD"` reads back as the same month and day:
/// what the wizard stores and the greetings compare is what the countdown
/// parses.
pub proof fn law_month_day_round_trip(m: nat, d: nat)
    requires
        1 <= m <= 12,
        1 <= d <= 31,
    ensures
        month_day_of(month_day_text(m, d)) == Some((m, d)),
{
    lemma_two_digits(m);
    lemma_two_digits(d);
    lemma_two_digits_value(m);
    lemma_two_digits_value(d);
    reveal_strlit("-");
    let a = seq![crate::num::digit(m / 10), crate::num::digit(m % 10)];
    let b = seq![crate::num::digit(d / 10), crate::num::digit(d % 10)];
    let t = month_day_text(m, d);
    assert(t =~= a + seq!['-'] + b);
    assert(a[0] != '-' && a[1] != '-' && b[0] != '-' && b[1] != '-') by {
        assert((a[0] as nat) >= 48 && (a[1] as nat) >= 48);
        assert((b[0] as nat) >= 48 && (b[1] as nat) >= 48);
    }
    let e = Seq::<char>::empty();
    let t1 = seq![a[0]];
    let t3 = a.push('-');
    let t4 = t3.push(b[0]);
    assert(t1.drop_last() =~= e);
    assert(a.drop_last() =~= t1);
    assert(t3.drop_last() =~= a);
    assert(t4.drop_last() =~= t3);
    assert(t.drop_last() =~= t4);
    assert(crate::text::split_state(e, '-') == (Seq::<Seq<char>>::empty(), e));
    assert(crate::text::split_state(t1, '-') == (Seq::<Seq<char>>::empty(), t1)) by {
        assert(e.push(a[0]) =~= t1);
    }
    assert(crate::text::split_state(a, '-') == (Seq::<Seq<char>>::empty(), a)) by {
        assert(t1.push(a[1]) =~= a);
    }
    assert(crate::text::split_state(t3, '-') == (seq![a], e)) by {
        assert(Seq::<Seq<char>>::empty().push(a) =~= seq![a]);
    }
    assert(crate::text::split_state(t4, '-') == (seq![a], seq![b[0]])) by {
        assert(e.push(b[0]) =~= seq![b[0]]);
    }
    assert(crate::text::split_state(t, '-') == (seq![a], b)) by {
        assert(seq![b[0]].push(b[1]) =~= b);
    }
    assert(split_seq(t, '-') =~= seq![a, b]);
}

} // verus!
