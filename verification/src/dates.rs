//! Calendar arithmetic: turning seconds since the UNIX epoch into the UTC
//! date strings that request signing and daily quotas use.

use vstd::prelude::*;

use crate::text::{decimal_padded, push_char, push_decimal_padded};

verus! {

/// Gregorian leap year.
pub open spec fn leap_year(y: int) -> bool {
    (y % 4 == 0 && y % 100 != 0) || y % 400 == 0
}

/// Days in year `y`.
pub open spec fn year_len(y: int) -> int {
    if leap_year(y) {
        366
    } else {
        365
    }
}

/// Days in month `m` (1-based) of year `y`.
pub open spec fn month_len(y: int, m: int) -> int {
    if m == 2 {
        if leap_year(y) {
            29
        } else {
            28
        }
    } else if m == 4 || m == 6 || m == 9 || m == 11 {
        30
    } else {
        31
    }
}

/// Days from 1970-01-01 to the first day of year `y` (`y >= 1970`).
pub open spec fn days_to_year(y: int) -> int
    decreases y - 1970,
{
    if y <= 1970 {
        0
    } else {
        days_to_year(y - 1) + year_len(y - 1)
    }
}

/// Days from the first of January to the first of month `m` in year `y`.
pub open spec fn days_to_month(y: int, m: int) -> int
    decreases m,
{
    if m <= 1 {
        0
    } else {
        days_to_month(y, m - 1) + month_len(y, m - 1)
    }
}

/// Whether `y-m-d` is a valid date lying `days` days after 1970-01-01.
pub open spec fn is_date_of_day(days: int, y: int, m: int, d: int) -> bool {
    &&& y >= 1970
    &&& 1 <= m <= 12
    &&& 1 <= d <= month_len(y, m)
    &&& days_to_year(y) + days_to_month(y, m) + d - 1 == days
}

/// Skips whole years from `y` on: the year reached and the days left in it.
pub open spec fn year_and_rest(rem: int, y: int) -> (int, int)
    decreases rem,
{
    if rem < year_len(y) {
        (y, rem)
    } else {
        year_and_rest(rem - year_len(y), y + 1)
    }
}

/// Skips whole months of year `y` from `m` on: the month reached and the days left.
pub open spec fn month_and_rest(rem: int, y: int, m: int) -> (int, int)
    decreases 12 - m,
{
    if m >= 12 || rem < month_len(y, m) {
        (m, rem)
    } else {
        month_and_rest(rem - month_len(y, m), y, m + 1)
    }
}

/// `(year, month, day)` of the day `days` days after 1970-01-01.
pub open spec fn civil_from_days(days: int) -> (int, int, int) {
    let (y, r) = year_and_rest(days, 1970);
    let (m, r2) = month_and_rest(r, y, 1);
    (y, m, r2 + 1)
}

/// `YYYYMMDD` of the UTC day containing `secs`.
pub open spec fn short_date_spec(secs: nat) -> Seq<char> {
    let (y, m, d) = civil_from_days((secs / 86400) as int);
    decimal_padded(y as nat, 4) + decimal_padded(m as nat, 2) + decimal_padded(d as nat, 2)
}

/// `YYYYMMDDTHHMMSSZ` of `secs`.
pub open spec fn long_date_spec(secs: nat) -> Seq<char> {
    let t = secs % 86400;
    short_date_spec(secs) + seq!['T'] + decimal_padded(t / 3600, 2) + decimal_padded(
        (t % 3600) / 60,
        2,
    ) + decimal_padded(t % 60, 2) + seq!['Z']
}

/// `YYYY-MM-DD` of the UTC day containing `secs`.
pub open spec fn iso_date_spec(secs: nat) -> Seq<char> {
    let (y, m, d) = civil_from_days((secs / 86400) as int);
    decimal_padded(y as nat, 4) + seq!['-'] + decimal_padded(m as nat, 2) + seq!['-']
        + decimal_padded(d as nat, 2)
}

/// Leap year test.
pub fn is_leap(y: i64) -> (r: bool)
    ensures
        r == leap_year(y as int),
{
    (y % 4 == 0 && y % 100 != 0) || y % 400 == 0
}

fn year_len_exec(y: i64) -> (r: i64)
    ensures
        r == year_len(y as int),
{
    if is_leap(y) {
        366
    } else {
        365
    }
}

fn month_len_exec(y: i64, m: u64) -> (r: i64)
    ensures
        r == month_len(y as int, m as int),
{
    if m == 2 {
        if is_leap(y) {
            29
        } else {
            28
        }
    } else if m == 4 || m == 6 || m == 9 || m == 11 {
        30
    } else {
        31
    }
}

proof fn lemma_year_step(rem: int, y: int)
    requires
        rem >= year_len(y),
    ensures
        year_and_rest(rem, y) == year_and_rest(rem - year_len(y), y + 1),
        days_to_year(y + 1) == days_to_year(y) + year_len(y) || y < 1970,
{
}

proof fn lemma_months_fill_year(y: int)
    ensures
        days_to_month(y, 12) + 31 == year_len(y),
{
    reveal_with_fuel(days_to_month, 12);
}

/// Year, month (1-12) and day (1-31) of the day `days` days after 1970-01-01.
pub fn civil_date(days: u64) -> (r: (i64, u64, u64))
    requires
        days <= u64::MAX / 86400,
    ensures
        (r.0 as int, r.1 as int, r.2 as int) == civil_from_days(days as int),
        is_date_of_day(days as int, r.0 as int, r.1 as int, r.2 as int),
{
    let mut year: i64 = 1970;
    let mut remaining: i64 = days as i64;
    while remaining >= year_len_exec(year)
        invariant
            year >= 1970,
            remaining >= 0,
            days_to_year(year as int) + remaining == days,
            365 * (year - 1970) <= days - remaining,
            days <= u64::MAX / 86400,
            year_and_rest(days as int, 1970) == year_and_rest(remaining as int, year as int),
        decreases remaining,
    {
        let yl = year_len_exec(year);
        proof {
            lemma_year_step(remaining as int, year as int);
        }
        remaining = remaining - yl;
        year = year + 1;
    }
    let ghost rem_year = remaining as int;
    let mut month: u64 = 1;
    while month < 12 && remaining >= month_len_exec(year, month)
        invariant
            1 <= month <= 12,
            remaining >= 0,
            days_to_month(year as int, month as int) + remaining == rem_year,
            rem_year < year_len(year as int),
            month_and_rest(rem_year, year as int, 1) == month_and_rest(
                remaining as int,
                year as int,
                month as int,
            ),
        decreases 12 - month,
    {
        let ml = month_len_exec(year, month);
        remaining = remaining - ml;
        month = month + 1;
    }
    proof {
        lemma_months_fill_year(year as int);
    }
    let day = (remaining + 1) as u64;
    (year, month, day)
}

/// The UTC timestamp and day strings (`YYYYMMDDTHHMMSSZ`, `YYYYMMDD`) of `secs`.
pub fn amz_dates(secs: u64) -> (r: (String, String))
    ensures
        r.0@ == long_date_spec(secs as nat),
        r.1@ == short_date_spec(secs as nat),
{
    let (y, m, d) = civil_date(secs / 86400);
    let mut short = String::new();
    push_decimal_padded(&mut short, y as u64, 4);
    push_decimal_padded(&mut short, m, 2);
    push_decimal_padded(&mut short, d, 2);
    let t = secs % 86400;
    let mut long = short.clone();
    push_char(&mut long, 'T');
    push_decimal_padded(&mut long, t / 3600, 2);
    push_decimal_padded(&mut long, (t % 3600) / 60, 2);
    push_decimal_padded(&mut long, t % 60, 2);
    push_char(&mut long, 'Z');
    (long, short)
}

/// The UTC day of `secs` as `YYYY-MM-DD`.
pub fn iso_date(secs: u64) -> (r: String)
    ensures
        r@ == iso_date_spec(secs as nat),
{
    let (y, m, d) = civil_date(secs / 86400);
    let mut s = String::new();
    push_decimal_padded(&mut s, y as u64, 4);
    push_char(&mut s, '-');
    push_decimal_padded(&mut s, m, 2);
    push_char(&mut s, '-');
    push_decimal_padded(&mut s, d, 2);
    s
}

/// Whole seconds since the UNIX epoch from `web_time::SystemTime::now`, zero if
/// the clock reads before the epoch. Nothing is promised of the value: it is
/// the time of the call.
#[verifier::external_body]
pub fn now_secs() -> u64 {
    web_time::SystemTime::now().duration_since(web_time::SystemTime::UNIX_EPOCH).unwrap_or_default().as_secs()
}

/// The current UTC timestamp and day strings used in request signing.
pub fn now_utc() -> (r: (String, String))
    ensures
        exists|secs: nat| r.0@ == long_date_spec(secs) && r.1@ == short_date_spec(secs),
{
    let secs = now_secs();
    amz_dates(secs)
}

/// Today's UTC date as `YYYY-MM-DD`.
pub fn today_date() -> (r: String)
    ensures
        exists|secs: nat| r@ == iso_date_spec(secs),
{
    iso_date(now_secs())
}

} // verus!
