//! Moments, wall clock time and their texts.
//!
//! The clock, the local time zone and the texts of dates come from `chrono`. What is trusted of
//! it stands in this file, in the functions marked `external_body`.

use chrono::{DateTime, Datelike, FixedOffset, Local, NaiveDateTime, TimeDelta, TimeZone, Timelike};
use vstd::prelude::*;

use crate::text;

verus! {

/// The first second that `chrono` represents: midnight of January 1st, 262144 BCE.
pub const FIRST_SECOND: i64 = -8334601228800;

/// The last second that `chrono` represents: the end of December 31st, 262142.
pub const LAST_SECOND: i64 = 8210266876799;

/// The pattern of the time in a backup's name.
pub const NAME_PATTERN: &'static str = "%Y%m%d_%H%M%S";

/// The pattern of the time at which the next backup is expected.
pub const ESTIMATE_PATTERN: &'static str = "%Y-%m-%d %H:%M:%S";

/// A moment: seconds since January 1st, 1970 UTC, and nanoseconds within the second.
#[derive(Debug, Clone, Copy, PartialEq, Eq, Structural)]
pub struct Timestamp {
    pub secs: i64,
    pub nanos: u32,
}

impl Timestamp {
    /// Whether `chrono` represents the moment.
    pub open spec fn valid(self) -> bool {
        &&& FIRST_SECOND <= self.secs <= LAST_SECOND
        &&& self.nanos < 1_000_000_000
    }

    /// Whether a clock may show the moment: it is not before 1970.
    pub open spec fn can_be_now(self) -> bool {
        self.valid() && self.secs >= 0
    }

    /// Nanoseconds since January 1st, 1970 UTC.
    pub open spec fn total_nanos(self) -> int {
        self.secs * 1_000_000_000 + self.nanos
    }

    /// The moment at the given second and nanosecond, if there is one.
    pub fn new(secs: i64, nanos: u32) -> (r: Option<Timestamp>)
        ensures
            r == (if (Timestamp { secs, nanos }).valid() {
                Some(Timestamp { secs, nanos })
            } else {
                None
            }),
    {
        if FIRST_SECOND <= secs && secs <= LAST_SECOND && nanos < 1_000_000_000 {
            Some(Timestamp { secs, nanos })
        } else {
            None
        }
    }
}

pub open spec fn is_leap_year(year: int) -> bool {
    year % 4 == 0 && (year % 100 != 0 || year % 400 == 0)
}

pub open spec fn days_in_month(year: int, month: int) -> int {
    if month == 2 {
        if is_leap_year(year) {
            29
        } else {
            28
        }
    } else if month == 4 || month == 6 || month == 9 || month == 11 {
        30
    } else {
        31
    }
}

/// How many days lie between January 1st, 1970 and the given date of the Gregorian calendar.
/// Years are counted from March, so that a leap day ends its year.
pub open spec fn day_number(year: int, month: int, day: int) -> int {
    let y = if month <= 2 {
        year - 1
    } else {
        year
    };
    let months_since_march = (month + 9) % 12;
    365 * y + y / 4 - y / 100 + y / 400 + (153 * months_since_march + 2) / 5 + day - 719469
}

proof fn lemma_multiples_up_to(year: int, n: int)
    requires
        n == 4 || n == 100 || n == 400,
    ensures
        year / n - (year - 1) / n == if year % n == 0 {
            1int
        } else {
            0
        },
{
    if n == 4 {
        assert(year / 4 - (year - 1) / 4 == if year % 4 == 0 {
            1int
        } else {
            0
        });
    } else if n == 100 {
        assert(year / 100 - (year - 1) / 100 == if year % 100 == 0 {
            1int
        } else {
            0
        });
    } else {
        assert(year / 400 - (year - 1) / 400 == if year % 400 == 0 {
            1int
        } else {
            0
        });
    }
}

proof fn lemma_leap_days(year: int)
    ensures
        year / 4 - (year - 1) / 4 - (year / 100 - (year - 1) / 100) + (year / 400 - (year - 1) / 400)
            == if is_leap_year(year) {
            1int
        } else {
            0
        },
{
    lemma_multiples_up_to(year, 4);
    lemma_multiples_up_to(year, 100);
    lemma_multiples_up_to(year, 400);
    assert(year % 400 == 0 ==> year % 100 == 0);
    assert(year % 100 == 0 ==> year % 4 == 0);
}

/// Days are numbered one after the other, from January 1st, 1970 on: the number of the next day of
/// the month, of the first of the next month and of the first of the next year is one more.
pub proof fn law_days_are_counted(year: int, month: int, day: int)
    requires
        1 <= month <= 12,
        1 <= day <= days_in_month(year, month),
    ensures
        day_number(1970, 1, 1) == 0,
        day < days_in_month(year, month) ==> day_number(year, month, day + 1) == day_number(
            year,
            month,
            day,
        ) + 1,
        day == days_in_month(year, month) && month < 12 ==> day_number(year, month + 1, 1)
            == day_number(year, month, day) + 1,
        day == days_in_month(year, month) && month == 12 ==> day_number(year + 1, 1, 1)
            == day_number(year, month, day) + 1,
{
    lemma_leap_days(year);
}

proof fn lemma_days_within_a_year(year: int, month: int, day: int)
    requires
        1 <= month <= 12,
        1 <= day <= days_in_month(year, month),
    ensures
        day_number(year, 1, 1) <= day_number(year, month, day) < day_number(year + 1, 1, 1),
{
    lemma_leap_days(year);
}

proof fn lemma_days_within_years(a: int, b: int)
    requires
        a <= b,
    ensures
        day_number(a, 1, 1) <= day_number(b, 1, 1),
{
}

proof fn lemma_days_within_a_month(year: int, a: int, b: int, day_a: int, day_b: int)
    requires
        1 <= a < b <= 12,
        1 <= day_a <= days_in_month(year, a),
        1 <= day_b <= days_in_month(year, b),
    ensures
        day_number(year, a, day_a) < day_number(year, b, day_b),
{
    lemma_leap_days(year);
}

/// A date has a lower number than another exactly when its year is earlier, or in the same year
/// its month, or in the same month its day.
pub proof fn law_dates_are_numbered_in_order(
    year_a: int,
    month_a: int,
    day_a: int,
    year_b: int,
    month_b: int,
    day_b: int,
)
    requires
        1 <= month_a <= 12,
        1 <= day_a <= days_in_month(year_a, month_a),
        1 <= month_b <= 12,
        1 <= day_b <= days_in_month(year_b, month_b),
    ensures
        day_number(year_a, month_a, day_a) < day_number(year_b, month_b, day_b) <==> year_a < year_b
            || year_a == year_b && (month_a < month_b || month_a == month_b && day_a < day_b),
        day_number(year_a, month_a, day_a) == day_number(year_b, month_b, day_b) <==> year_a
            == year_b && month_a == month_b && day_a == day_b,
{
    lemma_days_within_a_year(year_a, month_a, day_a);
    lemma_days_within_a_year(year_b, month_b, day_b);
    if year_a < year_b {
        lemma_days_within_years(year_a + 1, year_b);
    } else if year_b < year_a {
        lemma_days_within_years(year_b + 1, year_a);
    } else if month_a < month_b {
        lemma_days_within_a_month(year_a, month_a, month_b, day_a, day_b);
    } else if month_b < month_a {
        lemma_days_within_a_month(year_a, month_b, month_a, day_b, day_a);
    }
}

/// The first and the last second that are represented are those of the calendar.
pub proof fn law_calendar_has_its_ends()
    ensures
        FIRST_SECOND == day_number(-262143, 1, 1) * 86400,
        LAST_SECOND == day_number(262142, 12, 31) * 86400 + 86399,
{
}

/// A date and a time of day, as a calendar and a clock on the wall show them.
#[derive(Debug, Clone, Copy, PartialEq, Eq, Structural)]
pub struct WallTime {
    pub year: i32,
    pub month: u32,
    pub day: u32,
    pub hour: u32,
    pub minute: u32,
    pub second: u32,
    /// Nanoseconds within the second; a thousand million and more within a leap second.
    pub nanos: u32,
}

impl WallTime {
    /// Whether the calendar has the date and the day the time.
    pub open spec fn valid(self) -> bool {
        &&& -262144 <= self.year <= 262143
        &&& 1 <= self.month <= 12
        &&& 1 <= self.day <= days_in_month(self.year as int, self.month as int)
        &&& self.hour < 24
        &&& self.minute < 60
        &&& self.second < 60
        &&& self.nanos < 1_000_000_000 || self.nanos < 2_000_000_000 && self.second == 59
    }

    /// The seconds between the start of January 1st, 1970 and this time, on the same wall.
    pub open spec fn seconds(self) -> int {
        day_number(self.year as int, self.month as int, self.day as int) * 86400 + self.hour * 3600
            + self.minute * 60 + self.second
    }

    /// The start of the second that this time lies in.
    pub open spec fn whole_second(self) -> WallTime {
        WallTime { nanos: 0, ..self }
    }
}

/// A moment together with what clocks show at it in some time zone.
#[derive(Debug, Clone, Copy, PartialEq, Eq, Structural)]
pub struct LocalTime {
    pub at: Timestamp,
    /// How many seconds the wall is ahead of UTC.
    pub offset: i32,
    pub wall: WallTime,
}

impl LocalTime {
    /// Whether the wall shows the moment, in a zone less than a day away from UTC.
    pub open spec fn valid(self) -> bool {
        &&& self.at.valid()
        &&& -86400 < self.offset < 86400
        &&& self.wall.valid()
        &&& self.wall.seconds() == self.at.secs + self.offset
        &&& self.wall.nanos == self.at.nanos
    }
}

/// A year as `chrono` writes it: four digits, and a sign and at least four digits outside of the
/// years 0 to 9999.
pub open spec fn year_text(year: int) -> Seq<char> {
    if 0 <= year <= 9999 {
        text::four_digits(year)
    } else if year > 9999 {
        seq!['+'] + text::decimal(year as nat)
    } else if year >= -9999 {
        seq!['-'] + text::four_digits(-year)
    } else {
        seq!['-'] + text::decimal((-year) as nat)
    }
}

/// The time in a backup's name, such as `20240131_235959`.
pub open spec fn name_stamp(w: WallTime) -> Seq<char> {
    year_text(w.year as int) + text::two_digits(w.month as int) + text::two_digits(w.day as int)
        + seq!['_'] + text::two_digits(w.hour as int) + text::two_digits(w.minute as int)
        + text::two_digits(w.second as int)
}

/// A date and a time for people to read, such as `2024-01-31 23:59:59`.
pub open spec fn readable_stamp(w: WallTime) -> Seq<char> {
    year_text(w.year as int) + seq!['-'] + text::two_digits(w.month as int) + seq!['-']
        + text::two_digits(w.day as int) + seq![' '] + text::two_digits(w.hour as int) + seq![':']
        + text::two_digits(w.minute as int) + seq![':'] + text::two_digits(w.second as int)
}

/// The fraction of a second: nothing, milliseconds, microseconds or nanoseconds, whichever is the
/// shortest that loses nothing.
pub open spec fn fraction_text(nanos: int) -> Seq<char> {
    if nanos == 0 {
        Seq::empty()
    } else if nanos % 1_000_000 == 0 {
        seq!['.'] + text::last_digits(nanos / 1_000_000, 3)
    } else if nanos % 1_000 == 0 {
        seq!['.'] + text::last_digits(nanos / 1_000, 6)
    } else {
        seq!['.'] + text::last_digits(nanos, 9)
    }
}

/// How far the wall is ahead of UTC, in hours and minutes, rounded to the minute.
pub open spec fn offset_text(offset: int) -> Seq<char> {
    let minutes = (if offset < 0 {
        -offset
    } else {
        offset
    } + 30) / 60;
    seq![
        if offset < 0 {
            '-'
        } else {
            '+'
        },
    ] + text::two_digits(minutes / 60) + seq![':'] + text::two_digits(minutes % 60)
}

/// A moment by RFC 3339, such as `2024-01-31T23:59:59.250-03:00`.
pub open spec fn rfc3339_text(t: LocalTime) -> Seq<char> {
    let w = t.wall;
    year_text(w.year as int) + seq!['-'] + text::two_digits(w.month as int) + seq!['-']
        + text::two_digits(w.day as int) + seq!['T'] + text::two_digits(w.hour as int) + seq![':']
        + text::two_digits(w.minute as int) + seq![':'] + text::two_digits(w.second as int)
        + fraction_text(w.nanos as int) + offset_text(t.offset as int)
}

/// What `chrono` reads in `text` by `pattern`: a date and a time, or nothing where it finds none.
pub uninterp spec fn parsed_time(text: Seq<char>, pattern: Seq<char>) -> Option<WallTime>;

/// The current moment, by `chrono::Local::now`.
///
/// Which moment that is, and which zone the wall is in, rests on the machine. Trusted: the wall
/// shows the moment, and the moment is not before 1970. A machine whose clock is set to an
/// earlier year, or to a zone that is a day away from UTC, makes `chrono` panic.
#[verifier::external_body]
pub(crate) fn local_now() -> (r: LocalTime)
    ensures
        r.valid(),
        r.at.can_be_now(),
{
    let d = Local::now();
    LocalTime {
        at: Timestamp { secs: d.timestamp(), nanos: d.timestamp_subsec_nanos() },
        offset: d.offset().local_minus_utc(),
        wall: WallTime {
            year: d.year(), month: d.month(), day: d.day(),
            hour: d.hour(), minute: d.minute(), second: d.second(), nanos: d.nanosecond(),
        },
    }
}

/// Whether the clock has shown `t`: a reading of [`local_now`], and nothing else, is one.
pub closed spec fn is_reading(t: LocalTime) -> bool {
    call_ensures(local_now, (), t)
}

fn call_clock<F: Fn() -> LocalTime>(f: F) -> (r: LocalTime)
    requires
        call_requires(f, ()),
    ensures
        call_ensures(f, (), r),
{
    f()
}

/// Reads the clock.
pub(crate) fn read_clock() -> (r: LocalTime)
    ensures
        r.valid(),
        r.at.can_be_now(),
        is_reading(r),
{
    call_clock(local_now)
}

/// The moment `seconds` after another one, by the addition of `chrono::DateTime<Local>` and
/// `chrono::TimeDelta`.
///
/// Trusted: the wall shows the moment that many seconds on. Which zone the wall is in rests on
/// the machine and on the new moment.
#[verifier::external_body]
pub(crate) fn local_time_after(now: &LocalTime, seconds: i64) -> (r: LocalTime)
    requires
        now.valid(),
        FIRST_SECOND <= now.at.secs + seconds <= LAST_SECOND,
    ensures
        r.valid(),
        r.at.secs == now.at.secs + seconds,
        r.at.nanos == now.at.nanos,
{
    let d = Local.timestamp_opt(now.at.secs, now.at.nanos).unwrap() + TimeDelta::seconds(seconds);
    LocalTime {
        at: Timestamp { secs: d.timestamp(), nanos: d.timestamp_subsec_nanos() },
        offset: d.offset().local_minus_utc(),
        wall: WallTime {
            year: d.year(), month: d.month(), day: d.day(),
            hour: d.hour(), minute: d.minute(), second: d.second(), nanos: d.nanosecond(),
        },
    }
}

/// Whether clocks show `e` so many seconds after they show `now`: a result of
/// [`local_time_after`], and nothing else, is such a time.
pub closed spec fn is_local_time_after(now: LocalTime, seconds: int, e: LocalTime) -> bool {
    exists|s: i64| s == seconds && #[trigger] call_ensures(local_time_after, (&now, s), e)
}

fn call_later<F: Fn(&LocalTime, i64) -> LocalTime>(f: F, now: &LocalTime, seconds: i64) -> (r:
    LocalTime)
    requires
        call_requires(f, (now, seconds)),
    ensures
        call_ensures(f, (now, seconds), r),
{
    f(now, seconds)
}

/// What clocks show `seconds` after they show `now`.
pub(crate) fn read_clock_after(now: &LocalTime, seconds: i64) -> (r: LocalTime)
    requires
        now.valid(),
        FIRST_SECOND <= now.at.secs + seconds <= LAST_SECOND,
    ensures
        r.valid(),
        r.at.secs == now.at.secs + seconds,
        r.at.nanos == now.at.nanos,
        is_local_time_after(*now, seconds as int, r),
{
    call_later(local_time_after, now, seconds)
}

/// A reading is what [`local_now`] has returned, unchanged, and a later time what
/// [`local_time_after`] has returned for that reading and that many seconds.
pub(crate) proof fn law_readings_come_from_the_clock(t: LocalTime, seconds: i64, e: LocalTime)
    ensures
        is_reading(t) ==> call_ensures(local_now, (), t),
        is_local_time_after(t, seconds as int, e) ==> call_ensures(
            local_time_after,
            (&t, seconds),
            e,
        ),
{
}

/// A time that the clock has shown is one that a wall shows, and not before 1970.
pub proof fn law_readings_are_times(t: LocalTime)
    requires
        is_reading(t),
    ensures
        t.valid(),
        t.at.can_be_now(),
{
}

/// The whole seconds in a number of nanoseconds, rounded towards zero.
pub open spec fn whole_seconds(nanos: int) -> int {
    if nanos >= 0 {
        nanos / 1_000_000_000
    } else {
        -(-nanos / 1_000_000_000)
    }
}

/// The whole seconds from `earlier` to `now`, by `chrono::DateTime::signed_duration_since` and
/// the `num_seconds` of what it returns.
///
/// Trusted: the difference is rounded towards zero, and negative where `earlier` lies ahead.
#[verifier::external_body]
pub(crate) fn elapsed_seconds(now: Timestamp, earlier: Timestamp) -> (r: i64)
    requires
        now.valid(),
        earlier.valid(),
    ensures
        r == whole_seconds(now.total_nanos() - earlier.total_nanos()),
{
    let now = DateTime::from_timestamp(now.secs, now.nanos).unwrap();
    let earlier = DateTime::from_timestamp(earlier.secs, earlier.nanos).unwrap();
    now.signed_duration_since(earlier).num_seconds()
}

/// The text of a moment by a pattern, by `chrono::DateTime::format`.
///
/// Trusted, of the two patterns that are in use: which text comes out, and that
/// `chrono::NaiveDateTime::parse_from_str` reads a backup's stamp back to the second where the
/// year has four digits and no sign.
#[verifier::external_body]
pub(crate) fn format_local(t: &LocalTime, pattern: &str) -> (r: String)
    requires
        t.valid(),
        pattern@ == NAME_PATTERN@ || pattern@ == ESTIMATE_PATTERN@,
    ensures
        pattern@ == NAME_PATTERN@ ==> r@ == name_stamp(t.wall),
        pattern@ == ESTIMATE_PATTERN@ ==> r@ == readable_stamp(t.wall),
        pattern@ == NAME_PATTERN@ && 0 <= t.wall.year <= 9999 ==> parsed_time(r@, pattern@)
            == Some(t.wall.whole_second()),
{
    let zone = FixedOffset::east_opt(t.offset).unwrap();
    zone.timestamp_opt(t.at.secs, t.at.nanos).unwrap().format(pattern).to_string()
}

/// A moment by RFC 3339, by `chrono::DateTime::to_rfc3339`.
///
/// Trusted: which text comes out.
#[verifier::external_body]
pub(crate) fn format_rfc3339(t: &LocalTime) -> (r: String)
    requires
        t.valid(),
    ensures
        r@ == rfc3339_text(*t),
{
    let zone = FixedOffset::east_opt(t.offset).unwrap();
    zone.timestamp_opt(t.at.secs, t.at.nanos).unwrap().to_rfc3339()
}

/// The date and the time that a text holds by a pattern, by
/// `chrono::NaiveDateTime::parse_from_str`.
///
/// Trusted: what is read depends on the text and the pattern alone, and a backup's stamp reads
/// back to the second where the year has four digits and no sign.
#[verifier::external_body]
pub(crate) fn parse_wall_time(s: &str, pattern: &str) -> (r: Option<WallTime>)
    ensures
        r == parsed_time(s@, pattern@),
        forall|w: WallTime|
            w.valid() && 0 <= w.year <= 9999 && s@ == #[trigger] name_stamp(w) && pattern@
                == NAME_PATTERN@ ==> r == Some(w.whole_second()),
{
    match NaiveDateTime::parse_from_str(s, pattern) {
        Ok(d) => Some(WallTime {
            year: d.year(), month: d.month(), day: d.day(),
            hour: d.hour(), minute: d.minute(), second: d.second(), nanos: d.nanosecond(),
        }),
        Err(_) => None,
    }
}

} // verus!
