//! The clock: the creation time of a record, as text.
//!
//! An instant is a number of seconds since 1970-01-01T00:00:00 UTC, leap
//! seconds not counted, and a number of nanoseconds into that second.

use chrono::{DateTime, Utc};
use vstd::prelude::*;

verus! {

/// The first second of the calendar: -262143-01-01T00:00:00.
pub const FIRST_SECOND: i64 = -8_334_601_228_800;

/// The last second of the calendar: +262142-12-31T23:59:59.
pub const LAST_SECOND: i64 = 8_210_266_876_799;

/// The first second of the year 0000: 0000-01-01T00:00:00.
pub const FIRST_SECOND_OF_YEAR_0: i64 = -62_167_219_200;

/// The last second of the year 9999: 9999-12-31T23:59:59.
pub const LAST_SECOND_OF_YEAR_9999: i64 = 253_402_300_799;

/// Nanoseconds in a second.
pub const NANOS_PER_SECOND: u32 = 1_000_000_000;

/// Whether `secs` and `nanos` are an instant of the calendar.
pub open spec fn is_instant(secs: i64, nanos: u32) -> bool {
    FIRST_SECOND <= secs <= LAST_SECOND && nanos < NANOS_PER_SECOND
}

/// Whether the instant's year is written in four digits: the years 0000 to
/// 9999.
pub open spec fn has_four_digit_year(secs: i64) -> bool {
    FIRST_SECOND_OF_YEAR_0 <= secs <= LAST_SECOND_OF_YEAR_9999
}

/// Whether `c` is a decimal digit.
pub open spec fn is_digit(c: char) -> bool {
    '0' <= c && c <= '9'
}

/// Whether the `n` characters of `s` from position `at` on are digits.
pub open spec fn digits_at(s: Seq<char>, at: int, n: int) -> bool {
    forall|i: int| at <= i < at + n ==> is_digit(#[trigger] s[i])
}

/// The number that the `n` digits of `s` from position `at` on write.
pub open spec fn number_at(s: Seq<char>, at: int, n: int) -> int
    decreases n,
{
    if n <= 0 {
        0
    } else {
        10 * number_at(s, at, n - 1) + (s[at + n - 1] as int - '0' as int)
    }
}

/// Whether `s` holds a field of two digits at position `at` whose number
/// lies between `low` and `high`.
pub open spec fn is_field(s: Seq<char>, at: int, low: int, high: int) -> bool {
    digits_at(s, at, 2) && low <= number_at(s, at, 2) <= high
}

/// Whether `s` starts with a year of `n` characters: four digits for the
/// years 0000 to 9999, a plus sign and five or more digits for a later
/// year, a minus sign and four or more digits for an earlier one.
pub open spec fn is_year(s: Seq<char>, n: int) -> bool {
    ||| n == 4 && digits_at(s, 0, 4)
    ||| n >= 6 && s[0] == '+' && digits_at(s, 1, n - 1)
    ||| n >= 5 && s[0] == '-' && digits_at(s, 1, n - 1)
}

/// The year that the first `n` characters of `s` write.
pub open spec fn year_of(s: Seq<char>, n: int) -> int {
    if n == 4 {
        number_at(s, 0, 4)
    } else if s[0] == '-' {
        -number_at(s, 1, n - 1)
    } else {
        number_at(s, 1, n - 1)
    }
}

/// Whether `year` has a 29th of February.
pub open spec fn is_leap_year(year: int) -> bool {
    year % 4 == 0 && (year % 100 != 0 || year % 400 == 0)
}

/// The number of days of `month` in `year`.
pub open spec fn days_in_month(year: int, month: int) -> int {
    if month == 2 {
        if is_leap_year(year) {
            29
        } else {
            28
        }
    } else if month == 4 || month == 6 || month == 9 || month == 11 {
        30
    } else {
        31
    }
}

/// Whether `s` holds `-MM-DDTHH:MM:SS` from position `at` on, for a day of
/// `year` and a time of that day: the month from 01 to 12, the day from 01
/// to the last of that month, the hour from 00 to 23, the minute from 00
/// to 59, the second from 00 to 60.
pub open spec fn is_month_to_second(s: Seq<char>, at: int, year: int) -> bool {
    &&& s[at] == '-' && is_field(s, at + 1, 1, 12)
    &&& s[at + 3] == '-' && is_field(s, at + 4, 1, days_in_month(year, number_at(s, at + 1, 2)))
    &&& s[at + 6] == 'T' && is_field(s, at + 7, 0, 23)
    &&& s[at + 9] == ':' && is_field(s, at + 10, 0, 59)
    &&& s[at + 12] == ':' && is_field(s, at + 13, 0, 60)
}

/// Whether the `n` characters of `s` from position `at` on are a fraction of
/// a second as the clock writes it: nothing, or a point and three, six or
/// nine digits.
pub open spec fn is_clock_fraction(s: Seq<char>, at: int, n: int) -> bool {
    ||| n == 0
    ||| (n == 4 || n == 7 || n == 10) && s[at] == '.' && digits_at(s, at + 1, n - 1)
}

/// The offset that every timestamp of the clock ends with.
pub open spec fn utc_offset() -> Seq<char> {
    seq!['+', '0', '0', ':', '0', '0']
}

/// A timestamp of the clock with a year of `year` characters and a fraction
/// of `fraction` characters: year, month to second, fraction, `+00:00`.
pub open spec fn is_utc_timestamp_of(s: Seq<char>, year: int, fraction: int) -> bool {
    &&& s.len() == year + 15 + fraction + 6
    &&& is_year(s, year)
    &&& is_month_to_second(s, year, year_of(s, year))
    &&& is_clock_fraction(s, year + 15, fraction)
    &&& s.subrange(year + 15 + fraction, s.len() as int) == utc_offset()
}

/// Whether `s` is a timestamp as the clock writes it, such as
/// `2021-03-04T05:06:07.089+00:00`: a day of the calendar, a time of that
/// day and the offset of UTC.
pub open spec fn is_utc_timestamp(s: Seq<char>) -> bool {
    exists|year: int, fraction: int| is_utc_timestamp_of(s, year, fraction)
}

/// Whether the `n` characters of `s` from position `at` on are a fraction of
/// a second in an RFC 3339 date-time: nothing, or a point and one or more
/// digits.
pub open spec fn is_rfc3339_fraction(s: Seq<char>, at: int, n: int) -> bool {
    ||| n == 0
    ||| n >= 2 && s[at] == '.' && digits_at(s, at + 1, n - 1)
}

/// Whether `s` ends, from position `at` on, with an RFC 3339 offset: `Z`,
/// or a sign, the hours from 00 to 23, a colon and the minutes from 00 to
/// 59.
pub open spec fn is_rfc3339_offset(s: Seq<char>, at: int) -> bool {
    ||| s.len() == at + 1 && s[at] == 'Z'
    ||| {
        &&& s.len() == at + 6
        &&& (s[at] == '+' || s[at] == '-')
        &&& is_field(s, at + 1, 0, 23)
        &&& s[at + 3] == ':'
        &&& is_field(s, at + 4, 0, 59)
    }
}

/// Whether `s` is an RFC 3339 date-time: a year of four digits, a day of
/// that year and a time of that day, each field within its range, an
/// optional fraction of a second, and an offset.
pub open spec fn is_rfc3339(s: Seq<char>) -> bool {
    exists|fraction: int|
        {
            &&& s.len() >= 19 + fraction
            &&& digits_at(s, 0, 4)
            &&& is_month_to_second(s, 4, number_at(s, 0, 4))
            &&& #[trigger] is_rfc3339_fraction(s, 19, fraction)
            &&& is_rfc3339_offset(s, 19 + fraction)
        }
}

/// A timestamp of the clock whose year has four digits is an RFC 3339
/// date-time, and no timestamp of the clock is empty.
pub proof fn lemma_utc_timestamp_is_rfc3339(s: Seq<char>)
    requires
        is_utc_timestamp(s),
    ensures
        s.len() >= 25,
        is_digit(s[0]) ==> is_rfc3339(s),
{
    let (year, fraction): (int, int) = choose|year: int, fraction: int|
        is_utc_timestamp_of(s, year, fraction);
    if is_digit(s[0]) {
        let at: int = 19 + fraction;
        let tail = s.subrange(at, s.len() as int);
        assert forall|i: int| 0 <= i < 6 implies s[at + i] == #[trigger] utc_offset()[i] by {
            assert(tail[i] == s[at + i]);
        }
        assert(is_rfc3339_offset(s, at)) by {
            reveal_with_fuel(number_at, 3);
        }
        assert(is_rfc3339_fraction(s, 19, fraction));
    }
}

/// The text that the formatter writes for the instant `secs`, `nanos`. It
/// depends on the instant alone.
pub uninterp spec fn rfc3339_text(secs: i64, nanos: u32) -> Seq<char>;

/// Whether `s` is the text of an instant that the clock can read: one from
/// 1970 on.
pub open spec fn is_clock_reading(s: Seq<char>) -> bool {
    exists|secs: i64, nanos: u32|
        0 <= secs && is_instant(secs, nanos) && s == #[trigger] rfc3339_text(secs, nanos)
}

/// `chrono::Utc::now`, taken apart by `DateTime::timestamp` and
/// `DateTime::timestamp_subsec_nanos`: the system's clock as an instant. The
/// reading has no name, as it is the time. Claimed is what holds of every
/// reading: it is an instant of the calendar, not before 1970, as
/// `Utc::now` measures the time since then and builds a date-time of the
/// calendar from it. `Utc::now` does not return where the system's clock
/// stands before 1970 or past the calendar.
#[verifier::external_body]
fn utc_now() -> (now: (i64, u32))
    ensures
        0 <= now.0,
        is_instant(now.0, now.1),
{
    let now = Utc::now();
    (now.timestamp(), now.timestamp_subsec_nanos())
}

/// `chrono::DateTime::from_timestamp` and `DateTime::to_rfc3339` on its
/// result: an instant of the calendar, written out in UTC. Claimed is that
/// the text depends on the instant alone, and the form that the formatter
/// gives it: the year in four digits from 0000 to 9999, else with its sign;
/// month, day, hour, minute and second of a day of the calendar in two
/// digits each; the fraction of a second in three, six or nine digits
/// where it is not zero; and the offset `+00:00`.
#[verifier::external_body]
fn to_rfc3339(secs: i64, nanos: u32) -> (stamp: String)
    requires
        is_instant(secs, nanos),
    ensures
        stamp@ == rfc3339_text(secs, nanos),
        is_utc_timestamp(stamp@),
        has_four_digit_year(secs) ==> is_digit(stamp@[0]),
{
    DateTime::from_timestamp(secs, nanos).unwrap().to_rfc3339()
}

/// Reads the system's clock.
pub struct ClockService;

impl ClockService {
    /// A clock that reads the system's time.
    pub fn new() -> (service: ClockService) {
        ClockService
    }

    /// The instant `secs`, `nanos` as text, such as
    /// `2021-03-04T05:06:07.089+00:00`; nothing where it is no instant of
    /// the calendar. For an instant of the years 0000 to 9999 the text is
    /// an RFC 3339 date-time.
    pub fn created_on_at(&self, secs: i64, nanos: u32) -> (stamp: Option<String>)
        ensures
            stamp is Some <==> is_instant(secs, nanos),
            stamp matches Some(text) ==> {
                &&& text@ == rfc3339_text(secs, nanos)
                &&& is_utc_timestamp(text@)
                &&& text@.len() >= 25
                &&& has_four_digit_year(secs) ==> is_rfc3339(text@)
            },
    {
        if FIRST_SECOND <= secs && secs <= LAST_SECOND && nanos < NANOS_PER_SECOND {
            let text = to_rfc3339(secs, nanos);
            proof {
                lemma_utc_timestamp_is_rfc3339(text@);
            }
            Some(text)
        } else {
            None
        }
    }

    /// The current time in UTC as text, such as
    /// `2021-03-04T05:06:07.089+00:00`: the text of the instant that the
    /// system's clock reads. Up to the year 9999 it is an RFC 3339
    /// date-time.
    pub fn created_on(&self) -> (stamp: String)
        ensures
            is_clock_reading(stamp@),
            is_utc_timestamp(stamp@),
            stamp@.len() >= 25,
            is_digit(stamp@[0]) ==> is_rfc3339(stamp@),
    {
        let (secs, nanos) = utc_now();
        let stamp = self.created_on_at(secs, nanos).unwrap();
        proof {
            lemma_utc_timestamp_is_rfc3339(stamp@);
        }
        stamp
    }
}

} // verus!
