//! The proleptic Gregorian calendar, stated directly, and the law that the
//! day-count-to-date computation of the timestamps inverts it.

use vstd::prelude::*;
use crate::frontend::{pad2, pad4, spec_days_to_ymd, spec_format_rfc3339};

verus! {

/// A leap year of the Gregorian calendar.
pub open spec fn is_leap_year(y: int) -> bool {
    (y % 4 == 0 && y % 100 != 0) || y % 400 == 0
}

/// The number of days in month `m` (1 to 12) of year `y`.
pub open spec fn days_in_month(y: int, m: int) -> int {
    if m == 2 {
        if is_leap_year(y) { 29 } else { 28 }
    } else if m == 4 || m == 6 || m == 9 || m == 11 {
        30
    } else {
        31
    }
}

/// The days in the months of year `y` before month `m`.
pub open spec fn days_before_month(y: int, m: int) -> int
    decreases m,
{
    if m <= 1 {
        0
    } else {
        days_before_month(y, m - 1) + days_in_month(y, m - 1)
    }
}

/// The leap years among the years 1 to `n` (negated count below 1).
pub open spec fn leap_years_through(n: int) -> int {
    n / 4 - n / 100 + n / 400
}

/// The days from 0000-01-01 to the first of January of year `y`.
pub open spec fn days_before_year(y: int) -> int {
    365 * y + leap_years_through(y - 1) + 1
}

/// The day count since 1970-01-01 of the date `y`-`m`-`d`.
pub open spec fn days_from_civil(y: int, m: int, d: int) -> int {
    days_before_year(y) + days_before_month(y, m) + d - 1 - days_before_year(1970)
}

proof fn lemma_era_day(doe: int)
    requires
        0 <= doe < 146097,
    ensures
        ({
            let yoe = (doe - doe / 1460 + doe / 36524 - doe / 146096) / 365;
            let doy = doe - (365 * yoe + yoe / 4 - yoe / 100);
            &&& 0 <= yoe <= 399
            &&& 0 <= doy <= 365
            &&& doy == 365 ==> (yoe % 4 == 3 && (yoe % 100 != 99 || yoe == 399))
        }),
{
}

/// The days in the months before month `m` of a year, counted from January,
/// without the leap day.
spec fn common_days_before(m: int) -> int {
    if m <= 1 { 0 } else if m == 2 { 31 } else if m == 3 { 59 } else if m == 4 { 90 }
    else if m == 5 { 120 } else if m == 6 { 151 } else if m == 7 { 181 } else if m == 8 { 212 }
    else if m == 9 { 243 } else if m == 10 { 273 } else if m == 11 { 304 } else { 334 }
}

proof fn lemma_days_before_month(y: int, m: int)
    requires
        1 <= m <= 12,
    ensures
        days_before_month(y, m) == common_days_before(m) + (if m >= 3 && is_leap_year(y) { 1int } else { 0int }),
{
    reveal_with_fuel(days_before_month, 13);
}

proof fn lemma_march_month(doy: int)
    requires
        0 <= doy <= 365,
    ensures
        ({
            let mp = (5 * doy + 2) / 153;
            let before = (153 * mp + 2) / 5;
            let d = doy - before + 1;
            let m = if mp < 10 { mp + 3 } else { mp - 9 };
            &&& 0 <= mp <= 11
            &&& 1 <= d
            &&& mp < 10 ==> before == common_days_before(m) - 59 && d <= days_in_month(1, m)
            &&& mp >= 10 ==> before == common_days_before(m) + 306
            &&& mp == 10 ==> d <= 31
            &&& mp == 11 ==> d == doy - 336
        }),
{
}

proof fn lemma_div_mod_of(q: int, r: int, k: int)
    requires
        0 < k,
        0 <= r < k,
    ensures
        (k * q + r) / k == q,
        (k * q + r) % k == r,
{
    vstd::arithmetic::div_mod::lemma_div_multiples_vanish_fancy(q, r, k);
    vstd::arithmetic::div_mod::lemma_mod_multiples_vanish(q, r, k);
    vstd::arithmetic::div_mod::lemma_small_mod(r as nat, k as nat);
}

proof fn lemma_div_step(n: int, k: int)
    requires
        0 < k,
    ensures
        (n - 1) / k == (if n % k == 0 { n / k - 1 } else { n / k }),
{
    let q = n / k;
    let r = n % k;
    vstd::arithmetic::div_mod::lemma_fundamental_div_mod(n, k);
    vstd::arithmetic::div_mod::lemma_mod_bound(n, k);
    if r == 0 {
        lemma_div_mod_of(q - 1, k - 1, k);
        assert(k * (q - 1) + (k - 1) == n - 1) by (nonlinear_arith)
            requires n == k * q + r, r == 0;
    } else {
        lemma_div_mod_of(q, r - 1, k);
    }
}

proof fn lemma_leap_step(n: int)
    ensures
        leap_years_through(n) == leap_years_through(n - 1) + (if is_leap_year(n) { 1int } else { 0int }),
{
    lemma_div_step(n, 4);
    lemma_div_step(n, 100);
    lemma_div_step(n, 400);
    vstd::arithmetic::div_mod::lemma_fundamental_div_mod(n, 4);
    vstd::arithmetic::div_mod::lemma_fundamental_div_mod(n, 100);
    vstd::arithmetic::div_mod::lemma_fundamental_div_mod(n, 400);
}

proof fn lemma_era_leap_years(era: int, yoe: int)
    requires
        0 <= yoe <= 399,
    ensures
        leap_years_through(yoe + era * 400) == 97 * era + yoe / 4 - yoe / 100,
        leap_years_through(yoe + era * 400) == leap_years_through(yoe + era * 400 - 1)
            + (if is_leap_year(yoe + era * 400) { 1int } else { 0int }),
        (yoe % 4 == 3 && (yoe % 100 != 99 || yoe == 399)) ==> is_leap_year(yoe + era * 400 + 1),
{
    let y = yoe + era * 400;
    lemma_div_mod_of(100 * era + yoe / 4, yoe % 4, 4);
    lemma_div_mod_of(4 * era + yoe / 100, yoe % 100, 100);
    lemma_div_mod_of(era, yoe, 400);
    assert(4 * (100 * era + yoe / 4) + yoe % 4 == y);
    assert(100 * (4 * era + yoe / 100) + yoe % 100 == y);
    lemma_leap_step(y);
    if yoe % 4 == 3 && (yoe % 100 != 99 || yoe == 399) {
        lemma_div_mod_of(100 * era + (yoe + 1) / 4, (yoe + 1) % 4, 4);
        lemma_div_mod_of(4 * era + (yoe + 1) / 100, (yoe + 1) % 100, 100);
        lemma_div_mod_of(era + (yoe + 1) / 400, (yoe + 1) % 400, 400);
        assert(4 * (100 * era + (yoe + 1) / 4) + (yoe + 1) % 4 == y + 1);
        assert(100 * (4 * era + (yoe + 1) / 100) + (yoe + 1) % 100 == y + 1);
        assert(400 * (era + (yoe + 1) / 400) + (yoe + 1) % 400 == y + 1);
    }
}

/// The date that a day count since 1970-01-01 is turned into is a calendar
/// date (a month from 1 to 12, a day within that month) and denotes that day
/// count again: the computation is the inverse of counting the days of the
/// proleptic Gregorian calendar.
pub proof fn lemma_days_to_ymd_is_calendar_date(days: int)
    ensures
        ({
            let (y, m, d) = spec_days_to_ymd(days);
            &&& 1 <= m <= 12
            &&& 1 <= d <= days_in_month(y, m)
            &&& days_from_civil(y, m, d) == days
        }),
{
    let z = days + 719468;
    let era = z / 146097;
    let doe = z % 146097;
    assert(z == era * 146097 + doe && 0 <= doe < 146097) by {
        vstd::arithmetic::div_mod::lemma_fundamental_div_mod(z, 146097);
    }
    let yoe = (doe - doe / 1460 + doe / 36524 - doe / 146096) / 365;
    let yy = yoe + era * 400;
    let doy = doe - (365 * yoe + yoe / 4 - yoe / 100);
    lemma_era_day(doe);
    let mp = (5 * doy + 2) / 153;
    let d = doy - (153 * mp + 2) / 5 + 1;
    let m = if mp < 10 { mp + 3 } else { mp - 9 };
    let y = if m <= 2 { yy + 1 } else { yy };
    assert(spec_days_to_ymd(days) == (y, m, d));
    lemma_march_month(doy);
    lemma_days_before_month(y, m);
    lemma_era_leap_years(era, yoe);
    assert(days_before_year(1970) == 719528) by {
        assert(leap_years_through(1969) == 477);
    }
    assert(days_before_year(yy) + (if is_leap_year(yy) { 1int } else { 0int })
        == 365 * yy + 97 * era + yoe / 4 - yoe / 100 + 1);
    assert(days_before_year(yy + 1) == 365 * yy + 365 + 97 * era + yoe / 4 - yoe / 100 + 1);
}

/// The RFC 3339 text of a Unix timestamp names the moment it stands for: it is
/// a calendar date and a time of day, written as `YYYY-MM-DDTHH:MM:SSZ`, whose
/// day count since 1970-01-01 in seconds plus the seconds of the time of day
/// is the timestamp.
pub proof fn lemma_rfc3339_denotes_timestamp(secs: nat)
    ensures
        exists|y: int, m: int, d: int, hh: int, mm: int, ss: int|
            #![trigger days_from_civil(y, m, d), pad2(hh as nat), pad2(mm as nat), pad2(ss as nat)]
            {
                &&& 1 <= m <= 12
                &&& 1 <= d <= days_in_month(y, m)
                &&& 0 <= hh < 24 && 0 <= mm < 60 && 0 <= ss < 60
                &&& days_from_civil(y, m, d) * 86400 + hh * 3600 + mm * 60 + ss == secs
                &&& spec_format_rfc3339(secs) == pad4(y as nat) + seq!['-'] + pad2(m as nat) + seq!['-']
                    + pad2(d as nat) + seq!['T'] + pad2(hh as nat) + seq![':'] + pad2(mm as nat) + seq![':'] + pad2(
                    ss as nat,
                ) + seq!['Z']
            },
{
    let days = (secs / 86400) as int;
    lemma_days_to_ymd_is_calendar_date(days);
    let (y, m, d) = spec_days_to_ymd(days);
    let hh = (secs / 3600 % 24) as int;
    let mm = (secs / 60 % 60) as int;
    let ss = (secs % 60) as int;
    assert(days * 86400 + hh * 3600 + mm * 60 + ss == secs) by {
        let s = secs as int;
        vstd::arithmetic::div_mod::lemma_fundamental_div_mod(s, 86400);
        vstd::arithmetic::div_mod::lemma_fundamental_div_mod(s, 3600);
        vstd::arithmetic::div_mod::lemma_fundamental_div_mod(s, 60);
        vstd::arithmetic::div_mod::lemma_fundamental_div_mod(s / 3600, 24);
        vstd::arithmetic::div_mod::lemma_fundamental_div_mod(s / 60, 60);
        vstd::arithmetic::div_mod::lemma_div_denominator(s, 60, 60);
        vstd::arithmetic::div_mod::lemma_div_denominator(s, 3600, 24);
    }
    assert(y >= 0);
    assert(spec_format_rfc3339(secs) == pad4(y as nat) + seq!['-'] + pad2(m as nat) + seq!['-'] + pad2(d as nat)
        + seq!['T'] + pad2(hh as nat) + seq![':'] + pad2(mm as nat) + seq![':'] + pad2(ss as nat) + seq!['Z']);
    assert(days_from_civil(y, m, d) == days);
}

} // verus!
