//! Dates, and the time stamps in the names of files.

use vstd::prelude::*;
use crate::clock;
use crate::text;
use crate::text::append_padded;

verus! {

// ── The calendar ───────────────────────────────────────

/// The leap years of the Gregorian calendar.
pub open spec fn leap(year: int) -> bool {
    (year % 4 == 0 && year % 100 != 0) || year % 400 == 0
}

/// Whether `year` is a leap year.
pub fn is_leap_year(year: u64) -> (r: bool)
    ensures
        r == leap(year as int),
{
    (year % 4 == 0 && year % 100 != 0) || year % 400 == 0
}

/// The number of days of a year.
pub open spec fn year_days(year: int) -> int {
    if leap(year) {
        366
    } else {
        365
    }
}

/// The number of days of a month.
pub open spec fn month_days(year: int, month: int) -> int {
    if month == 2 {
        if leap(year) {
            29
        } else {
            28
        }
    } else if month == 4 || month == 6 || month == 9 || month == 11 {
        30
    } else {
        31
    }
}

/// The number of days from 1970-01-01 to the first day of a year.
pub open spec fn year_start(year: int) -> int
    decreases year - 1970,
{
    if year <= 1970 {
        0
    } else {
        year_start(year - 1) + year_days(year - 1)
    }
}

/// The number of days from the first day of a year to the first day of a month.
pub open spec fn month_start(year: int, month: int) -> int
    decreases month,
{
    if month <= 1 {
        0
    } else {
        month_start(year, month - 1) + month_days(year, month - 1)
    }
}

/// The dates from 1970-01-01 on.
pub open spec fn is_date(year: int, month: int, day: int) -> bool {
    &&& 1970 <= year
    &&& 1 <= month <= 12
    &&& 1 <= day <= month_days(year, month)
}

/// The number of days from 1970-01-01 to a date.
pub open spec fn day_number(year: int, month: int, day: int) -> int {
    year_start(year) + month_start(year, month) + day - 1
}

proof fn lemma_twelve_months(year: int)
    ensures
        month_start(year, 13) == year_days(year),
{
    reveal_with_fuel(month_start, 14);
}

/// The date that is `days` after 1970-01-01, as year, month and day.
pub fn days_since_epoch_to_date(days: u64) -> (r: (u64, u64, u64))
    ensures
        is_date(r.0 as int, r.1 as int, r.2 as int),
        day_number(r.0 as int, r.1 as int, r.2 as int) == days,
{
    let mut rest: u64 = days;
    let mut year: u64 = 1970;
    loop
        invariant
            1970 <= year,
            rest + year_start(year as int) == days,
            365 * (year - 1970) <= year_start(year as int),
        ensures
            rest < year_days(year as int),
        decreases rest,
    {
        let in_year: u64 = if is_leap_year(year) {
            366
        } else {
            365
        };
        if rest < in_year {
            break;
        }
        rest = rest - in_year;
        year = year + 1;
    }
    let mut month: u64 = 1;
    while month < 12 && rest >= days_of_month(year, month)
        invariant
            1 <= month <= 12,
            rest + month_start(year as int, month as int) + year_start(year as int) == days,
            rest + month_start(year as int, month as int) < year_days(year as int),
        decreases 12 - month,
    {
        rest = rest - days_of_month(year, month);
        month = month + 1;
    }
    proof {
        lemma_twelve_months(year as int);
    }
    (year, month, rest + 1)
}

fn days_of_month(year: u64, month: u64) -> (r: u64)
    ensures
        r == month_days(year as int, month as int),
{
    if month == 2 {
        if is_leap_year(year) {
            29
        } else {
            28
        }
    } else if month == 4 || month == 6 || month == 9 || month == 11 {
        30
    } else {
        31
    }
}

// ── Time stamps ────────────────────────────────────────

/// The offset of the time zone that time stamps are in, in seconds.
pub const ZONE_SECS: u64 = 28800;

/// The time stamp of a moment: the date, an underscore and the time of day.
pub open spec fn stamp(year: int, month: int, day: int, second: int) -> Seq<char> {
    text::padded(year as nat, 4) + text::padded(month as nat, 2) + text::padded(day as nat, 2)
        + "_"@ + text::padded((second / 3600) as nat, 2) + text::padded(
        (second % 3600 / 60) as nat,
        2,
    ) + text::padded((second % 60) as nat, 2)
}

/// Whether `s` is the time stamp of the moment `secs` after 1970-01-01 00:00:00 UTC.
pub open spec fn is_stamp_of(s: Seq<char>, secs: int) -> bool {
    let local = secs + ZONE_SECS;
    exists|year: int, month: int, day: int|
        {
            &&& is_date(year, month, day)
            &&& #[trigger] day_number(year, month, day) == local / 86400
            &&& s == stamp(year, month, day, local % 86400)
        }
}

/// The time stamp of the moment `secs` after 1970-01-01 00:00:00 UTC.
pub fn timestamp_of(secs: u64) -> (r: String)
    requires
        secs <= u64::MAX - ZONE_SECS,
    ensures
        is_stamp_of(r@, secs as int),
{
    let local: u64 = secs + ZONE_SECS;
    let second: u64 = local % 86400;
    let (year, month, day) = days_since_epoch_to_date(local / 86400);
    let mut r = String::new();
    append_padded(&mut r, year, 4);
    append_padded(&mut r, month, 2);
    append_padded(&mut r, day, 2);
    r.append("_");
    append_padded(&mut r, second / 3600, 2);
    append_padded(&mut r, second % 3600 / 60, 2);
    append_padded(&mut r, second % 60, 2);
    assert(r@ =~= stamp(year as int, month as int, day as int, second as int));
    assert(day_number(year as int, month as int, day as int) == local as int / 86400);
    r
}

/// The time stamp of this moment, as the clock has it.
pub fn timestamp_string() -> (r: String)
    ensures
        exists|secs: int| #[trigger]
            clock::wall_shows(secs) && is_stamp_of(
                r@,
                if secs <= u64::MAX - ZONE_SECS {
                    secs
                } else {
                    u64::MAX - ZONE_SECS
                },
            ),
{
    let secs = clock::epoch_seconds();
    assert(clock::wall_shows(secs as int));
    if secs <= u64::MAX - ZONE_SECS {
        timestamp_of(secs)
    } else {
        timestamp_of(u64::MAX - ZONE_SECS)
    }
}

// ── Laws ───────────────────────────────────────────────

proof fn lemma_year_start_grows(a: int, b: int)
    requires
        1970 <= a < b,
    ensures
        year_start(a) + year_days(a) <= year_start(b),
    decreases b - a,
{
    if a + 1 < b {
        lemma_year_start_grows(a, b - 1);
    }
}

proof fn lemma_month_start_grows(year: int, a: int, b: int)
    requires
        1 <= a < b,
    ensures
        month_start(year, a) + month_days(year, a) <= month_start(year, b),
    decreases b - a,
{
    if a + 1 < b {
        lemma_month_start_grows(year, a, b - 1);
    }
}

proof fn lemma_within_year(year: int, month: int, day: int)
    requires
        is_date(year, month, day),
    ensures
        year_start(year) <= day_number(year, month, day) < year_start(year) + year_days(year),
{
    lemma_twelve_months(year);
    lemma_month_start_grows(year, month, 13);
    if month > 1 {
        lemma_month_start_grows(year, 1, month);
    }
}

/// A later date has a greater day number: no two dates share one, so that the date of a day number is
/// the only one.
pub proof fn dates_are_told_apart(y1: int, m1: int, d1: int, y2: int, m2: int, d2: int)
    requires
        is_date(y1, m1, d1),
        is_date(y2, m2, d2),
        day_number(y1, m1, d1) == day_number(y2, m2, d2),
    ensures
        y1 == y2,
        m1 == m2,
        d1 == d2,
{
    lemma_within_year(y1, m1, d1);
    lemma_within_year(y2, m2, d2);
    if y1 < y2 {
        lemma_year_start_grows(y1, y2);
    } else if y2 < y1 {
        lemma_year_start_grows(y2, y1);
    }
    if m1 < m2 {
        lemma_month_start_grows(y1, m1, m2);
    } else if m2 < m1 {
        lemma_month_start_grows(y1, m2, m1);
    }
}

/// A moment has one time stamp.
pub proof fn stamps_are_unique(a: Seq<char>, b: Seq<char>, secs: int)
    requires
        is_stamp_of(a, secs),
        is_stamp_of(b, secs),
    ensures
        a == b,
{
    let local = secs + ZONE_SECS;
    let (y1, m1, d1) = choose|year: int, month: int, day: int|
        {
            &&& is_date(year, month, day)
            &&& #[trigger] day_number(year, month, day) == local / 86400
            &&& a == stamp(year, month, day, local % 86400)
        };
    let (y2, m2, d2) = choose|year: int, month: int, day: int|
        {
            &&& is_date(year, month, day)
            &&& #[trigger] day_number(year, month, day) == local / 86400
            &&& b == stamp(year, month, day, local % 86400)
        };
    dates_are_told_apart(y1, m1, d1, y2, m2, d2);
}

proof fn lemma_padded_len(n: nat, width: nat)
    requires
        width == 2 && n < 100 || width == 4 && n < 10000,
    ensures
        text::padded(n, width).len() == width,
{
    reveal_with_fuel(text::decimal, 5);
}

/// Up to the year 9999 a time stamp has 15 characters, and the ninth is an underscore.
pub proof fn stamps_have_one_form(year: int, month: int, day: int, second: int)
    requires
        is_date(year, month, day),
        year <= 9999,
        0 <= second < 86400,
    ensures
        stamp(year, month, day, second).len() == 15,
        stamp(year, month, day, second)[8] == '_',
{
    reveal_strlit("_");
    lemma_padded_len(year as nat, 4);
    lemma_padded_len(month as nat, 2);
    lemma_padded_len(day as nat, 2);
    lemma_padded_len((second / 3600) as nat, 2);
    lemma_padded_len((second % 3600 / 60) as nat, 2);
    lemma_padded_len((second % 60) as nat, 2);
}

/// A year is a leap year where four divides it, but not where a hundred does and four hundred does
/// not.
pub proof fn leap_years(k: int, year: u64, r: bool)
    requires
        call_ensures(is_leap_year, (year,), r),
    ensures
        year == 400 * k ==> r,
        year == 400 * k + 100 || year == 400 * k + 200 || year == 400 * k + 300 ==> !r,
        year == 4 * k + 1 || year == 4 * k + 2 || year == 4 * k + 3 ==> !r,
        year == 4 * k && year % 100 != 0 ==> r,
{
}

/// The months have the days that they have in the calendar.
pub proof fn days_of_months(year: int)
    ensures
        month_days(year, 1) == 31 && month_days(year, 3) == 31 && month_days(year, 5) == 31
            && month_days(year, 7) == 31 && month_days(year, 8) == 31 && month_days(year, 10) == 31
            && month_days(year, 12) == 31,
        month_days(year, 4) == 30 && month_days(year, 6) == 30 && month_days(year, 9) == 30
            && month_days(year, 11) == 30,
        month_days(year, 2) == (if year % 400 == 0 || year % 4 == 0 && year % 100 != 0 {
            29int
        } else {
            28int
        }),
{
}

/// The day that follows a date: the next one of the month, the first one of the next month, or the
/// first one of the next year.
pub open spec fn tomorrow(y: int, m: int, d: int) -> (int, int, int) {
    if d < 28 || d < 30 && m != 2 || d < 31 && (m == 1 || m == 3 || m == 5 || m == 7 || m == 8 || m
        == 10 || m == 12) || d == 28 && m == 2 && (y % 400 == 0 || y % 4 == 0 && y % 100 != 0) {
        (y, m, d + 1)
    } else if m < 12 {
        (y, m + 1, 1)
    } else {
        (y + 1, 1, 1)
    }
}

/// The first day is the first one of January 1970, and each later one is the day that follows the one
/// before it.
pub proof fn days_follow_each_other(days: u64, r: (u64, u64, u64), next: (u64, u64, u64))
    requires
        days < u64::MAX,
        call_ensures(days_since_epoch_to_date, (days,), r),
        call_ensures(days_since_epoch_to_date, ((days + 1) as u64,), next),
    ensures
        days == 0 ==> r == (1970u64, 1u64, 1u64),
        (next.0 as int, next.1 as int, next.2 as int) == tomorrow(
            r.0 as int,
            r.1 as int,
            r.2 as int,
        ),
{
    let (y, m, d) = (r.0 as int, r.1 as int, r.2 as int);
    if days == 0 {
        dates_are_told_apart(y, m, d, 1970, 1, 1);
    }
    let t = tomorrow(y, m, d);
    days_of_months(y);
    days_of_months(y + 1);
    lemma_twelve_months(y);
    assert(t.2 == d + 1 || d == month_days(y, m));
    if t.0 == y && t.1 == m + 1 {
        assert(month_start(y, m + 1) == month_start(y, m) + month_days(y, m));
    } else if t.0 == y + 1 {
        assert(month_start(y, 13) == month_start(y, 12) + month_days(y, 12));
        assert(year_start(y + 1) == year_start(y) + year_days(y));
    }
    assert(is_date(t.0, t.1, t.2));
    assert(day_number(t.0, t.1, t.2) == days + 1);
    dates_are_told_apart(next.0 as int, next.1 as int, next.2 as int, t.0, t.1, t.2);
}

/// A time stamp is, up to the year 9999, the four digits of the year, two each of the month and the
/// day, an underscore, and two each of the hour, the minute and the second, eight hours ahead of UTC.
#[verifier::spinoff_prover]
#[verifier::rlimit(40)]
pub proof fn stamps_are_read_back(
    secs: u64,
    r: String,
    date: (u64, u64, u64),
)
    requires
        secs <= u64::MAX - 28800,
        call_ensures(timestamp_of, (secs,), r),
        call_ensures(days_since_epoch_to_date, (((secs + 28800) / 86400) as u64,), date),
        date.0 <= 9999,
    ensures
        r@.len() == 15,
        text::number_of(r@.subrange(0, 4)) == date.0,
        text::number_of(r@.subrange(4, 6)) == date.1,
        text::number_of(r@.subrange(6, 8)) == date.2,
        r@[8] == '_',
        3600 * text::number_of(r@.subrange(9, 11)) + 60 * text::number_of(r@.subrange(11, 13))
            + text::number_of(r@.subrange(13, 15)) == (secs + 28800) % 86400,
        text::number_of(r@.subrange(11, 13)) < 60,
        text::number_of(r@.subrange(13, 15)) < 60,
{
    reveal_strlit("_");
    let local = secs + ZONE_SECS;
    let (y, m, d) = choose|year: int, month: int, day: int|
        {
            &&& is_date(year, month, day)
            &&& #[trigger] day_number(year, month, day) == local / 86400
            &&& r@ == stamp(year, month, day, local % 86400)
        };
    dates_are_told_apart(y, m, d, date.0 as int, date.1 as int, date.2 as int);
    let t = local % 86400;
    days_of_months(y);
    let a = text::padded(y as nat, 4);
    let b = text::padded(m as nat, 2);
    let c = text::padded(d as nat, 2);
    let h = text::padded((t / 3600) as nat, 2);
    let n = text::padded((t % 3600 / 60) as nat, 2);
    let s = text::padded((t % 60) as nat, 2);
    lemma_padded_len(y as nat, 4);
    lemma_padded_len(m as nat, 2);
    lemma_padded_len(d as nat, 2);
    lemma_padded_len((t / 3600) as nat, 2);
    lemma_padded_len((t % 3600 / 60) as nat, 2);
    lemma_padded_len((t % 60) as nat, 2);
    text::padding_keeps_the_number(y as nat, 4);
    text::padding_keeps_the_number(m as nat, 2);
    text::padding_keeps_the_number(d as nat, 2);
    text::padding_keeps_the_number((t / 3600) as nat, 2);
    text::padding_keeps_the_number((t % 3600 / 60) as nat, 2);
    text::padding_keeps_the_number((t % 60) as nat, 2);
    assert(r@.subrange(0, 4) =~= a);
    assert(r@.subrange(4, 6) =~= b);
    assert(r@.subrange(6, 8) =~= c);
    assert(r@.subrange(9, 11) =~= h);
    assert(r@.subrange(11, 13) =~= n);
    assert(r@.subrange(13, 15) =~= s);
}

/// The time stamp of this moment is that of the moment that the clock shows.
pub proof fn this_moment_has_its_stamp(r: String)
    requires
        call_ensures(timestamp_string, (), r),
    ensures
        exists|secs: int| #[trigger]
            clock::wall_shows(secs) && (secs <= u64::MAX - 28800 ==> is_stamp_of(r@, secs)),
{
    let secs = choose|secs: int| #[trigger]
        clock::wall_shows(secs) && is_stamp_of(
            r@,
            if secs <= u64::MAX - ZONE_SECS {
                secs
            } else {
                u64::MAX - ZONE_SECS
            },
        );
    assert(clock::wall_shows(secs));
}

} // verus!
