//! Unix times as UTC calendar dates and times of day, in the Gregorian
//! calendar.

use vstd::prelude::*;

use crate::number::{decimal, push_decimal};

verus! {

/// A Gregorian leap year: divisible by 4, and not by 100 unless by 400.
pub open spec fn is_leap_year(y: nat) -> bool {
    y % 4 == 0 && (y % 100 != 0 || y % 400 == 0)
}

/// The number of days of year `y`.
pub open spec fn year_length(y: nat) -> nat {
    if is_leap_year(y) {
        366
    } else {
        365
    }
}

/// The number of days of month `m` (1 to 12) of year `y`.
pub open spec fn month_length(y: nat, m: nat) -> nat {
    if m == 2 {
        if is_leap_year(y) {
            29
        } else {
            28
        }
    } else if m == 4 || m == 6 || m == 9 || m == 11 {
        30
    } else {
        31
    }
}

/// The month and day of the month of day `d` (counted from 0) of year `y`,
/// counting months from `m`.
pub open spec fn month_and_day(y: nat, m: nat, d: nat) -> (nat, nat)
    decreases 12 - m,
{
    if m >= 12 || d < month_length(y, m) {
        (m, d + 1)
    } else {
        month_and_day(y, m + 1, (d - month_length(y, m)) as nat)
    }
}

/// The date `d` days after January 1 of year `y`: its year, month and day.
pub open spec fn date_after(y: nat, d: nat) -> (nat, nat, nat)
    decreases d,
{
    if d < year_length(y) {
        (y, month_and_day(y, 1, d).0, month_and_day(y, 1, d).1)
    } else {
        date_after(y + 1, (d - year_length(y)) as nat)
    }
}

/// The number of days of the `k` years from year `y` on.
pub open spec fn days_of_years(y: nat, k: nat) -> nat
    decreases k,
{
    if k == 0 {
        0
    } else {
        year_length(y) + days_of_years(y + 1, (k - 1) as nat)
    }
}

/// Whole years can be skipped: the date does not change.
proof fn lemma_skip_years(y: nat, d: nat, k: nat)
    requires
        d >= days_of_years(y, k),
    ensures
        date_after(y, d) == date_after(y + k, (d - days_of_years(y, k)) as nat),
    decreases k,
{
    if k > 0 {
        lemma_skip_years(y + 1, (d - year_length(y)) as nat, (k - 1) as nat);
    }
}

/// The number of leap years before year `n` (from year 0 on).
pub open spec fn leap_years_before(n: nat) -> int {
    (n + 3) / 4 - (n + 99) / 100 + (n + 399) / 400
}

/// Counting the multiples of `k` below `n + 1` adds one exactly when `n`
/// is a multiple.
proof fn lemma_multiples_step(n: int, k: int)
    requires
        n >= 0,
        k > 0,
    ensures
        (n + k) / k == (n + k - 1) / k + if n % k == 0 {
            1int
        } else {
            0int
        },
{
    let q = n / k;
    let r = n % k;
    vstd::arithmetic::div_mod::lemma_fundamental_div_mod(n, k);
    assert((q + 1) * k == q * k + k) by (nonlinear_arith);
    vstd::arithmetic::div_mod::lemma_fundamental_div_mod_converse(n + k, k, q + 1, r);
    if r == 0 {
        vstd::arithmetic::div_mod::lemma_fundamental_div_mod_converse(n + k - 1, k, q, k - 1);
    } else {
        vstd::arithmetic::div_mod::lemma_fundamental_div_mod_converse(n + k - 1, k, q + 1, r - 1);
    }
}

proof fn lemma_leap_step(n: nat)
    ensures
        leap_years_before(n + 1) == leap_years_before(n) + if is_leap_year(n) {
            1int
        } else {
            0int
        },
{
    lemma_multiples_step(n as int, 4);
    lemma_multiples_step(n as int, 100);
    lemma_multiples_step(n as int, 400);
    assert(n % 400 == 0 ==> n % 100 == 0 && n % 4 == 0);
    assert(n % 100 == 0 ==> n % 4 == 0);
}

/// The days of `k` years: 365 each, and one more for each leap year.
proof fn lemma_days_of_years(y: nat, k: nat)
    ensures
        days_of_years(y, k) == 365 * k + leap_years_before(y + k) - leap_years_before(y),
    decreases k,
{
    if k > 0 {
        lemma_days_of_years(y + 1, (k - 1) as nat);
        lemma_leap_step(y);
    }
}

/// Any 400 consecutive years have 146097 days.
proof fn lemma_cycle(y: nat)
    ensures
        days_of_years(y, 400) == 146097,
{
    lemma_days_of_years(y, 400);
    assert((y + 400 + 3) / 4 == (y + 3) / 4 + 100);
    assert((y + 400 + 99) / 100 == (y + 99) / 100 + 4);
    assert((y + 400 + 399) / 400 == (y + 399) / 400 + 1);
}

/// Whole 400-year cycles can be skipped.
proof fn lemma_skip_cycles(y: nat, d: nat, c: nat)
    requires
        d >= 146097 * c,
    ensures
        date_after(y, d) == date_after(y + 400 * c, (d - 146097 * c) as nat),
    decreases c,
{
    if c > 0 {
        lemma_cycle(y);
        lemma_skip_years(y, d, 400);
        lemma_skip_cycles(y + 400, (d - 146097) as nat, (c - 1) as nat);
    }
}

fn is_leap(y: u64) -> (b: bool)
    ensures
        b == is_leap_year(y as nat),
{
    y % 4 == 0 && (y % 100 != 0 || y % 400 == 0)
}

fn year_len(y: u64) -> (r: u64)
    ensures
        r == year_length(y as nat),
{
    if is_leap(y) {
        366
    } else {
        365
    }
}

fn month_len(y: u64, m: u64) -> (r: u64)
    ensures
        r == month_length(y as nat, m as nat),
{
    if m == 2 {
        if is_leap(y) {
            29
        } else {
            28
        }
    } else if m == 4 || m == 6 || m == 9 || m == 11 {
        30
    } else {
        31
    }
}

/// The UTC date `days` days after 1970-01-01: year, month, day.
pub fn civil_date(days: u64) -> (r: (u64, u64, u64))
    ensures
        (r.0 as nat, r.1 as nat, r.2 as nat) == date_after(1970, days as nat),
{
    let c = days / 146097;
    let rest = days % 146097;
    assert(400 * c <= 400 * (u64::MAX / 146097)) by (nonlinear_arith)
        requires
            c == days / 146097,
    ;
    proof {
        assert(days == 146097 * c + rest);
        lemma_skip_cycles(1970, days as nat, c as nat);
    }
    let mut y: u64 = 1970 + 400 * c;
    let mut d: u64 = rest;
    let ghost bound: int = y + d;
    while d >= year_len(y)
        invariant
            date_after(1970, days as nat) == date_after(y as nat, d as nat),
            d < 146097,
            y + d <= bound,
            bound <= 1970 + 400 * (u64::MAX / 146097) + 146097,
        decreases d,
    {
        let len = year_len(y);
        d = d - len;
        y = y + 1;
    }
    let ghost d0 = d;
    let mut m: u64 = 1;
    while m < 12 && d >= month_len(y, m)
        invariant
            1 <= m <= 12,
            d <= d0,
            d0 < 146097,
            month_and_day(y as nat, 1, d0 as nat) == month_and_day(y as nat, m as nat, d as nat),
        decreases 12 - m,
    {
        let len = month_len(y, m);
        d = d - len;
        m = m + 1;
    }
    (y, m, d + 1)
}

/// The number of days of the months from `m` to December of year `y`.
pub open spec fn days_from_month(y: nat, m: nat) -> nat
    decreases 13 - m,
{
    if m > 12 || m == 0 {
        0
    } else {
        month_length(y, m) + days_from_month(y, m + 1)
    }
}

proof fn lemma_month_valid(y: nat, m: nat, d: nat)
    requires
        1 <= m <= 12,
        d < days_from_month(y, m),
    ensures
        m <= month_and_day(y, m, d).0 <= 12,
        1 <= month_and_day(y, m, d).1 <= month_length(y, month_and_day(y, m, d).0),
    decreases 12 - m,
{
    if m < 12 && d >= month_length(y, m) {
        lemma_month_valid(y, m + 1, (d - month_length(y, m)) as nat);
    } else if m == 12 {
        assert(days_from_month(y, 13) == 0);
    }
}

proof fn lemma_date_valid(y: nat, d: nat)
    ensures
        date_after(y, d).0 >= y,
        1 <= date_after(y, d).1 <= 12,
        1 <= date_after(y, d).2 <= month_length(date_after(y, d).0, date_after(y, d).1),
    decreases d,
{
    if d < year_length(y) {
        assert(days_from_month(y, 1) == year_length(y)) by {
            reveal_with_fuel(days_from_month, 13);
        }
        lemma_month_valid(y, 1, d);
    } else {
        lemma_date_valid(y + 1, (d - year_length(y)) as nat);
    }
}

/// The date-time written for a Unix second is a real one: a year from 1970
/// on, a month from 1 to 12, a day within that month, and a time of day
/// below 24:00:00.
pub proof fn law_utc_fields_in_range(secs: nat)
    ensures
        ({
            let date = date_after(1970, secs / 86400);
            let t = secs % 86400;
            &&& date.0 >= 1970
            &&& 1 <= date.1 <= 12
            &&& 1 <= date.2 <= month_length(date.0, date.1)
            &&& t / 3600 < 24
            &&& (t % 3600) / 60 < 60
            &&& t % 60 < 60
        }),
{
    lemma_date_valid(1970, secs / 86400);
}

/// The days of the months of a common year, January to December.
pub open spec fn common_month_lengths() -> Seq<nat> {
    seq![31, 28, 31, 30, 31, 30, 31, 31, 30, 31, 30, 31]
}

/// The days of a common year before the first of each month, January to
/// December.
pub open spec fn common_days_before_month() -> Seq<nat> {
    seq![0, 31, 59, 90, 120, 151, 181, 212, 243, 273, 304, 334]
}

/// The Gregorian month lengths: January, March, May, July, August, October
/// and December have 31 days, April, June, September and November 30, and
/// February 28, or 29 in a leap year.
pub proof fn law_month_lengths(y: nat, m: nat)
    requires
        1 <= m <= 12,
    ensures
        month_length(y, m) == common_month_lengths()[m - 1] + if m == 2 && is_leap_year(y) {
            1nat
        } else {
            0nat
        },
{
}

/// The days of year `y` before the first of month `m`.
pub open spec fn days_before_month(y: nat, m: nat) -> nat
    decreases m,
{
    if m <= 1 {
        0
    } else {
        days_before_month(y, (m - 1) as nat) + month_length(y, (m - 1) as nat)
    }
}

proof fn lemma_days_before_table(y: nat, m: nat)
    requires
        1 <= m <= 12,
    ensures
        days_before_month(y, m) == common_days_before_month()[m - 1] + if m > 2 && is_leap_year(
            y,
        ) {
            1nat
        } else {
            0nat
        },
    decreases m,
{
    if m > 1 {
        lemma_days_before_table(y, (m - 1) as nat);
    }
}

proof fn lemma_month_and_day_offset(y: nat, m: nat, e: nat)
    requires
        1 <= m <= 12,
    ensures
        1 <= month_and_day(y, m, e).0 <= 12,
        days_before_month(y, m) + e == days_before_month(y, month_and_day(y, m, e).0)
            + month_and_day(y, m, e).1 - 1,
    decreases 12 - m,
{
    if !(m >= 12 || e < month_length(y, m)) {
        lemma_month_and_day_offset(y, m + 1, (e - month_length(y, m)) as nat);
    }
}

proof fn lemma_date_after_offset(y: nat, d: nat)
    ensures
        date_after(y, d).0 >= y,
        1 <= date_after(y, d).1 <= 12,
        d == days_of_years(y, (date_after(y, d).0 - y) as nat) + days_before_month(
            date_after(y, d).0,
            date_after(y, d).1,
        ) + date_after(y, d).2 - 1,
    decreases d,
{
    if d < year_length(y) {
        lemma_month_and_day_offset(y, 1, d);
        assert(days_of_years(y, 0) == 0);
    } else {
        let rest = (d - year_length(y)) as nat;
        lemma_date_after_offset(y + 1, rest);
        let k = (date_after(y + 1, rest).0 - y) as nat;
        assert(k >= 1);
        assert(days_of_years(y, k) == year_length(y) + days_of_years(y + 1, (k - 1) as nat));
    }
}

/// The date of a day counted from 1970-01-01 is found by counting: the
/// days of the whole years since 1970 (365 each, one more for each leap
/// year), then the days of the year before its month (by the Gregorian
/// table, one more after February in a leap year), then the day of the
/// month less one, give back the day count.
pub proof fn law_day_count(d: nat)
    ensures
        ({
            let date = date_after(1970, d);
            &&& date.0 >= 1970
            &&& 1 <= date.1 <= 12
            &&& d == 365 * (date.0 - 1970) + leap_years_before(date.0) - leap_years_before(1970)
                + common_days_before_month()[date.1 - 1] + (if date.1 > 2 && is_leap_year(
                date.0,
            ) {
                1int
            } else {
                0int
            }) + date.2 - 1
        }),
{
    lemma_date_after_offset(1970, d);
    let date = date_after(1970, d);
    lemma_days_of_years(1970, (date.0 - 1970) as nat);
    lemma_days_before_table(date.0, date.1);
}

/// A number of at least two digits: a leading zero below 10.
pub open spec fn two_digits(n: nat) -> Seq<char> {
    if n < 10 {
        seq!['0'] + decimal(n)
    } else {
        decimal(n)
    }
}

/// Appends `n` with at least two digits.
pub fn push_two_digits(n: u64, out: &mut Vec<char>)
    ensures
        final(out)@ == old(out)@ + two_digits(n as nat),
{
    let ghost before = out@;
    if n < 10 {
        out.push('0');
    }
    push_decimal(n, out);
    assert(out@ =~= before + two_digits(n as nat));
}

/// The ISO-8601 UTC date-time of Unix second `secs`:
/// `YYYY-MM-DDTHH:MM:SSZ` (the year has more digits after 9999).
pub open spec fn iso_utc(secs: nat) -> Seq<char> {
    let date = date_after(1970, secs / 86400);
    let t = secs % 86400;
    decimal(date.0) + seq!['-'] + two_digits(date.1) + seq!['-'] + two_digits(date.2) + seq!['T']
        + two_digits(t / 3600) + seq![':'] + two_digits((t % 3600) / 60) + seq![':'] + two_digits(
        t % 60,
    ) + seq!['Z']
}

/// The ISO-8601 UTC date-time of Unix second `secs`, as characters.
pub fn iso_utc_chars(secs: u64) -> (r: Vec<char>)
    ensures
        r@ == iso_utc(secs as nat),
{
    let (y, m, d) = civil_date(secs / 86400);
    let t = secs % 86400;
    let mut out: Vec<char> = Vec::new();
    push_decimal(y, &mut out);
    out.push('-');
    push_two_digits(m, &mut out);
    out.push('-');
    push_two_digits(d, &mut out);
    out.push('T');
    push_two_digits(t / 3600, &mut out);
    out.push(':');
    push_two_digits((t % 3600) / 60, &mut out);
    out.push(':');
    push_two_digits(t % 60, &mut out);
    out.push('Z');
    assert(out@ =~= iso_utc(secs as nat));
    out
}

} // verus!
