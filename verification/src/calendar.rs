//! Dates of the proleptic Gregorian calendar counted in days from
//! 1970-01-01, and the text of a Unix time as a UTC or local date and time.
use vstd::prelude::*;
use vstd::string::*;
use crate::number::{pad_zeros, zero_padded};

verus! {

/// Whether `y` is a leap year.
pub open spec fn is_leap(y: int) -> bool {
    (y % 4 == 0 && y % 100 != 0) || y % 400 == 0
}

/// The number of days of the year `y`.
pub open spec fn year_len(y: int) -> int {
    if is_leap(y) {
        366
    } else {
        365
    }
}

/// The number of days of the month `m` (1 to 12) of the year `y`.
pub open spec fn month_len(y: int, m: int) -> int {
    if m == 2 {
        if is_leap(y) {
            29
        } else {
            28
        }
    } else if m == 4 || m == 6 || m == 9 || m == 11 {
        30
    } else {
        31
    }
}

/// The days from 1970-01-01 to January 1 of the year `y`: the lengths of
/// the years in between, counted negative before 1970.
pub open spec fn days_before_year(y: int) -> int
    decreases (if y >= 1970 { y - 1970 } else { 1970 - y }),
{
    if y == 1970 {
        0
    } else if y > 1970 {
        days_before_year(y - 1) + year_len(y - 1)
    } else {
        days_before_year(y + 1) - year_len(y)
    }
}

/// The days of the year `y` before the first of the month `m`.
pub open spec fn days_before_month(y: int, m: int) -> int
    decreases m,
{
    if m <= 1 {
        0
    } else {
        days_before_month(y, m - 1) + month_len(y, m - 1)
    }
}

/// Whether `(y, m, d)` is a date.
pub open spec fn is_date(y: int, m: int, d: int) -> bool {
    1 <= m <= 12 && 1 <= d <= month_len(y, m)
}

/// The day number of the date `(y, m, d)`: 0 for 1970-01-01.
pub open spec fn day_number(y: int, m: int, d: int) -> int {
    days_before_year(y) + days_before_month(y, m) + d - 1
}

/// The date whose day number is `days`.
pub open spec fn date_of(days: int) -> (int, int, int) {
    choose|y: int, m: int, d: int| is_date(y, m, d) && day_number(y, m, d) == days
}

/// The text `YYYY-MM-DD hh:mm` of the UTC time `secs` seconds after the
/// Unix epoch.
pub open spec fn utc_text(secs: int) -> Seq<char> {
    let days = secs / 86400;
    let s = secs % 86400;
    let ymd = date_of(days);
    zero_padded(ymd.0, 4) + "-"@ + zero_padded(ymd.1, 2) + "-"@ + zero_padded(ymd.2, 2) + " "@
        + zero_padded(s / 3600, 2) + ":"@ + zero_padded((s % 3600) / 60, 2)
}

/// The leap years counted by the closed form of [`days_before_year`].
spec fn leaps_through(x: int) -> int {
    x / 4 - x / 100 + x / 400
}

spec fn closed_days_before_year(y: int) -> int {
    365 * (y - 1970) + leaps_through(y - 1) - leaps_through(1969)
}

proof fn lemma_closed_step(y: int)
    ensures
        closed_days_before_year(y + 1) == closed_days_before_year(y) + year_len(y),
{
    let a = y - 1;
    assert(y / 4 - a / 4 == if y % 4 == 0 { 1int } else { 0int });
    assert(y / 100 - a / 100 == if y % 100 == 0 { 1int } else { 0int });
    assert(y / 400 - a / 400 == if y % 400 == 0 { 1int } else { 0int });
    if y % 400 == 0 {
        assert(y % 100 == 0 && y % 4 == 0);
    } else if y % 100 == 0 {
        assert(y % 4 == 0);
    }
}

proof fn lemma_closed_form(y: int)
    ensures
        days_before_year(y) == closed_days_before_year(y),
    decreases (if y >= 1970 { y - 1970 } else { 1970 - y }),
{
    if y > 1970 {
        lemma_closed_form(y - 1);
        lemma_closed_step(y - 1);
    } else if y < 1970 {
        lemma_closed_form(y + 1);
        lemma_closed_step(y);
    }
}

/// Any four hundred years in a row hold 146097 days.
pub proof fn law_four_hundred_years(y: int)
    ensures
        days_before_year(y + 400) == days_before_year(y) + 146097,
{
    lemma_closed_form(y);
    lemma_closed_form(y + 400);
    let a = y - 1;
    assert((a + 400) / 4 == a / 4 + 100);
    assert((a + 400) / 100 == a / 100 + 4);
    assert((a + 400) / 400 == a / 400 + 1);
}

proof fn lemma_cycles(k: int)
    ensures
        days_before_year(1570 + 400 * k) == 146097 * (k - 1),
    decreases (if k >= 0 { k } else { -k }),
{
    if k == 0 {
        law_four_hundred_years(1570);
    } else if k > 0 {
        lemma_cycles(k - 1);
        law_four_hundred_years(1570 + 400 * (k - 1));
    } else {
        lemma_cycles(k + 1);
        law_four_hundred_years(1570 + 400 * k);
    }
}

proof fn lemma_year_of_months(y: int)
    ensures
        days_before_month(y, 13) == year_len(y),
        forall|m: int| 1 <= m <= 12 ==> #[trigger] days_before_month(y, m) + month_len(y, m) <= year_len(y),
        forall|m: int| 1 <= m <= 12 ==> 0 <= #[trigger] days_before_month(y, m),
{
    reveal_with_fuel(days_before_month, 13);
}

proof fn lemma_years_increase(a: int, b: int)
    requires
        a <= b,
    ensures
        days_before_year(a) + 365 * (b - a) <= days_before_year(b),
    decreases b - a,
{
    if a < b {
        lemma_years_increase(a, b - 1);
        assert(days_before_year(b) == days_before_year(b - 1) + year_len(b - 1));
    }
}

proof fn lemma_months_increase(y: int, a: int, b: int)
    requires
        1 <= a <= b,
    ensures
        days_before_month(y, a) + 28 * (b - a) <= days_before_month(y, b),
    decreases b - a,
{
    if a < b {
        lemma_months_increase(y, a, b - 1);
    }
}

/// A day number belongs to one date only.
pub proof fn lemma_date_unique(y1: int, m1: int, d1: int, y2: int, m2: int, d2: int)
    requires
        is_date(y1, m1, d1),
        is_date(y2, m2, d2),
        day_number(y1, m1, d1) == day_number(y2, m2, d2),
    ensures
        y1 == y2 && m1 == m2 && d1 == d2,
{
    lemma_year_of_months(y1);
    lemma_year_of_months(y2);
    assert(days_before_month(y1, m1) + d1 - 1 < year_len(y1));
    assert(days_before_month(y2, m2) + d2 - 1 < year_len(y2));
    if y1 < y2 {
        lemma_years_increase(y1 + 1, y2);
        assert(days_before_year(y1 + 1) == days_before_year(y1) + year_len(y1));
    } else if y2 < y1 {
        lemma_years_increase(y2 + 1, y1);
        assert(days_before_year(y2 + 1) == days_before_year(y2) + year_len(y2));
    }
    assert(y1 == y2);
    if m1 < m2 {
        lemma_months_increase(y1, m1 + 1, m2);
    } else if m2 < m1 {
        lemma_months_increase(y1, m2 + 1, m1);
    }
}

proof fn lemma_date_of(days: int, y: int, m: int, d: int)
    requires
        is_date(y, m, d),
        day_number(y, m, d) == days,
    ensures
        date_of(days) == (y, m, d),
{
    let ymd = date_of(days);
    lemma_date_unique(ymd.0, ymd.1, ymd.2, y, m, d);
}

fn is_leap_year(y: i64) -> (r: bool)
    ensures
        r == is_leap(y as int),
{
    (y % 4 == 0 && y % 100 != 0) || y % 400 == 0
}

fn year_length(y: i64) -> (r: i64)
    ensures
        r == year_len(y as int),
{
    if is_leap_year(y) {
        366
    } else {
        365
    }
}

fn month_length(y: i64, m: i64) -> (r: i64)
    ensures
        r == month_len(y as int, m as int),
{
    if m == 2 {
        if is_leap_year(y) {
            29
        } else {
            28
        }
    } else if m == 4 || m == 6 || m == 9 || m == 11 {
        30
    } else {
        31
    }
}

/// The date `(year, month, day)` that lies `days_since_unix_epoch` days
/// after 1970-01-01 (before it when negative).
pub fn civil_from_days(days_since_unix_epoch: i64) -> (r: (i64, i64, i64))
    requires
        days_since_unix_epoch <= i64::MAX - 719468,
    ensures
        is_date(r.0 as int, r.1 as int, r.2 as int),
        day_number(r.0 as int, r.1 as int, r.2 as int) == days_since_unix_epoch,
{
    let days = days_since_unix_epoch;
    // Days since 1570-01-01, split into whole 400-year cycles and the rest.
    let w: i64 = days + 146097;
    let era: i64 = match w.checked_div_euclid(146097) {
        Some(q) => q,
        None => 0,
    };
    assert(era == w / 146097);
    assert(0 <= w - era * 146097 < 146097) by (nonlinear_arith)
        requires
            era == w / 146097,
    ;
    assert(era * 146097 <= w);
    assert(-63200000000000i64 <= era <= 63200000000000i64) by (nonlinear_arith)
        requires
            era == w / 146097,
            w <= i64::MAX,
            w >= i64::MIN,
    ;
    let mut rem: i64 = w - era * 146097;
    let y0: i64 = 1570 + era * 400;
    let mut y: i64 = y0;
    proof {
        lemma_cycles(era as int);
    }
    while rem >= year_length(y)
        invariant
            0 <= rem,
            y0 <= y,
            days_before_year(y as int) + rem == days,
            365 * (y - y0) <= days_before_year(y as int) - days_before_year(y0 as int),
            days_before_year(y0 as int) + 146097 > days,
            -63200000000000i64 <= era <= 63200000000000i64,
            y0 == 1570 + era * 400,
        decreases rem,
    {
        let n = year_length(y);
        assert(days_before_year(y + 1) == days_before_year(y as int) + year_len(y as int));
        rem = rem - n;
        y = y + 1;
    }
    proof {
        lemma_year_of_months(y as int);
    }
    let mut m: i64 = 1;
    while rem >= month_length(y, m)
        invariant
            0 <= rem,
            1 <= m <= 12,
            days_before_month(y as int, m as int) + rem < year_len(y as int),
            days_before_year(y as int) + days_before_month(y as int, m as int) + rem == days,
            days_before_month(y as int, 13) == year_len(y as int),
        decreases rem,
    {
        let n = month_length(y, m);
        assert(days_before_month(y as int, m + 1) == days_before_month(y as int, m as int) + month_len(y as int, m as int));
        rem = rem - n;
        m = m + 1;
    }
    (y, m, rem + 1)
}

/// The text `YYYY-MM-DD hh:mm` of the UTC time `secs` seconds after the
/// Unix epoch (see [`utc_text`]).
pub fn format_unix_utc(secs: i64) -> (r: String)
    ensures
        r@ == utc_text(secs as int),
{
    let days: i64 = match secs.checked_div_euclid(86_400) {
        Some(q) => q,
        None => 0,
    };
    let day_seconds: i64 = match secs.checked_rem_euclid(86_400) {
        Some(q) => q,
        None => 0,
    };
    assert(days == secs / 86400);
    assert(day_seconds == secs % 86400);
    assert(days <= i64::MAX / 86400) by (nonlinear_arith)
        requires
            days == secs / 86400,
            secs <= i64::MAX,
    ;
    let (year, month, day) = civil_from_days(days);
    proof {
        lemma_date_of(days as int, year as int, month as int, day as int);
    }
    let hour = day_seconds / 3_600;
    let minute = (day_seconds % 3_600) / 60;
    pad_zeros(year, 4).concat("-").concat(pad_zeros(month, 2).as_str()).concat("-").concat(
        pad_zeros(day, 2).as_str(),
    ).concat(" ").concat(pad_zeros(hour, 2).as_str()).concat(":").concat(
        pad_zeros(minute, 2).as_str(),
    )
}

/// The fields that the system's `localtime_r` gives for a time: the year
/// less 1900, the month less one, the day of the month, the hour, the minute
/// and the offset from UTC in seconds.
#[derive(Clone, Copy, Debug)]
pub struct LocalTime {
    pub tm_year: i32,
    pub tm_mon: i32,
    pub tm_mday: i32,
    pub tm_hour: i32,
    pub tm_min: i32,
    pub tm_gmtoff: i64,
}

/// The text `YYYY-MM-DD hh:mm +hh:mm` of a local time.
pub open spec fn local_text(t: LocalTime) -> Seq<char> {
    let off = t.tm_gmtoff as int;
    let abs = if off < 0 { -off } else { off };
    zero_padded(t.tm_year + 1900, 4) + "-"@ + zero_padded(t.tm_mon + 1, 2) + "-"@
        + zero_padded(t.tm_mday as int, 2) + " "@ + zero_padded(t.tm_hour as int, 2) + ":"@
        + zero_padded(t.tm_min as int, 2) + " "@ + (if off >= 0 { "+"@ } else { "-"@ })
        + zero_padded(abs / 3600, 2) + ":"@ + zero_padded((abs % 3600) / 60, 2)
}

/// The text of the time `secs` seconds after the Unix epoch: in local time
/// with its offset, from the fields `local` that the system gave for it, or
/// in UTC marked `+00:00` where the system gave none.
pub open spec fn local_or_utc_text(secs: int, local: Option<LocalTime>) -> Seq<char> {
    match local {
        Some(t) => local_text(t),
        None => utc_text(secs) + " +00:00"@,
    }
}

/// The text of the time `secs` (see [`local_or_utc_text`]).
pub fn format_local_with_offset(secs: i64, local: Option<LocalTime>) -> (r: String)
    requires
        local matches Some(t) ==> t.tm_gmtoff != i64::MIN,
    ensures
        r@ == local_or_utc_text(secs as int, local),
{
    match local {
        None => format_unix_utc(secs).concat(" +00:00"),
        Some(t) => {
            let year = t.tm_year as i64 + 1900;
            let month = t.tm_mon as i64 + 1;
            let offset = t.tm_gmtoff;
            let sign = if offset >= 0 { "+" } else { "-" };
            let abs = if offset < 0 { -offset } else { offset };
            let off_hour = abs / 3600;
            let off_min = (abs % 3600) / 60;
            let r = pad_zeros(year, 4).concat("-").concat(pad_zeros(month, 2).as_str()).concat("-").concat(
                pad_zeros(t.tm_mday as i64, 2).as_str(),
            ).concat(" ").concat(pad_zeros(t.tm_hour as i64, 2).as_str()).concat(":").concat(
                pad_zeros(t.tm_min as i64, 2).as_str(),
            ).concat(" ").concat(sign).concat(pad_zeros(off_hour, 2).as_str()).concat(":").concat(
                pad_zeros(off_min, 2).as_str(),
            );
            r
        },
    }
}

/// The text of a modification time: `-` when there is none, else that of
/// [`format_local_with_offset`] for its seconds.
pub open spec fn modified_text(modified: Option<u64>, local: Option<LocalTime>) -> Seq<char> {
    match modified {
        None => "-"@,
        Some(m) => local_or_utc_text((m as i64) as int, local),
    }
}

/// The text of a modification time (see [`modified_text`]); `local` is what
/// the system gave for it as a local time.
pub fn format_modified(modified: Option<u64>, local: Option<LocalTime>) -> (r: String)
    requires
        local matches Some(t) ==> t.tm_gmtoff != i64::MIN,
    ensures
        r@ == modified_text(modified, local),
{
    match modified {
        None => String::from_str("-"),
        Some(m) => format_local_with_offset(m as i64, local),
    }
}

} // verus!
