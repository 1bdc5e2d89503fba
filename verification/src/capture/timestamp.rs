//! Packet timestamps.
//!
//! libpcap hands every packet a `struct timeval`: whole seconds since the Unix
//! epoch plus a microsecond remainder. This module keeps those raw numbers and
//! converts them to readable text on demand. The raw values are never
//! discarded, and times are UTC: a capture is evidence, and UTC means a
//! timestamp still means the same thing on someone else's machine.

use vstd::prelude::*;
use vstd::std_specs::convert::IntoSpec;

use crate::text::{push_char, push_i64, push_i64_zero_padded, push_str, signed_digits, zero_padded};

verus! {

/// Number of microseconds in a second.
pub const MICROS_PER_SECOND: i64 = 1_000_000;

/// A packet timestamp exactly as the capture driver reported it.
#[derive(Debug, Clone, Copy, PartialEq, Eq, PartialOrd, Ord, Hash)]
pub struct PacketTimestamp {
    seconds: i64,
    microseconds: i64,
}

/// Whether a microsecond remainder lies inside one second, as a well-formed
/// `timeval`'s does.
pub open spec fn valid_micros(microseconds: int) -> bool {
    0 <= microseconds < MICROS_PER_SECOND
}

impl PacketTimestamp {
    /// Whole seconds since the Unix epoch, as reported.
    pub closed spec fn spec_seconds(self) -> i64 {
        self.seconds
    }

    /// Microsecond remainder, as reported.
    pub closed spec fn spec_microseconds(self) -> i64 {
        self.microseconds
    }

    /// The timestamp as microseconds since the epoch, when it is a point in
    /// time at all.
    pub open spec fn spec_micros_since_epoch(self) -> Option<int> {
        if valid_micros(self.spec_microseconds() as int) {
            Some(self.spec_seconds() * MICROS_PER_SECOND + self.spec_microseconds())
        } else {
            None
        }
    }

    /// Whether `self` is stamped no later than `other`, comparing seconds
    /// first and microseconds second, the way the stored fields order.
    pub open spec fn spec_not_after(self, other: PacketTimestamp) -> bool {
        self.spec_seconds() < other.spec_seconds() || (self.spec_seconds() == other.spec_seconds()
            && self.spec_microseconds() <= other.spec_microseconds())
    }

    /// Stores a `timeval` as reported, without validating it.
    ///
    /// Validation happens at formatting time so that an odd timestamp is
    /// *reported* rather than rejected.
    pub fn from_parts(seconds: i64, microseconds: i64) -> (timestamp: Self)
        ensures
            timestamp.spec_seconds() == seconds,
            timestamp.spec_microseconds() == microseconds,
    {
        Self { seconds, microseconds }
    }

    /// Whole seconds since the Unix epoch, as reported.
    #[verifier::when_used_as_spec(spec_seconds)]
    pub fn seconds(self) -> (seconds: i64)
        ensures
            seconds == self.spec_seconds(),
    {
        self.seconds
    }

    /// Microsecond remainder, as reported.
    #[verifier::when_used_as_spec(spec_microseconds)]
    pub fn microseconds(self) -> (microseconds: i64)
        ensures
            microseconds == self.spec_microseconds(),
    {
        self.microseconds
    }

    /// Microseconds since the epoch, or `None` when the remainder is outside
    /// one second and the timestamp is therefore not a point in time.
    pub fn micros_since_epoch(self) -> (micros: Option<i128>)
        ensures
            micros matches Some(m) ==> self.spec_micros_since_epoch() == Some(m as int),
            micros is None ==> self.spec_micros_since_epoch() is None,
    {
        if self.microseconds < 0 || self.microseconds >= MICROS_PER_SECOND {
            return None;
        }
        Some(self.seconds as i128 * MICROS_PER_SECOND as i128 + self.microseconds as i128)
    }

    /// Whether `self` is stamped no later than `other`.
    pub fn not_after(self, other: PacketTimestamp) -> (earlier: bool)
        ensures
            earlier == self.spec_not_after(other),
    {
        self.seconds < other.seconds || (self.seconds == other.seconds && self.microseconds
            <= other.microseconds)
    }
}

/// The earliest Unix timestamp the calendar conversion accepts: the first
/// second of the year -9999, UTC.
pub const EARLIEST_CALENDAR_SECOND: i64 = -377_705_116_800;

/// The latest Unix timestamp the calendar conversion accepts: the last second
/// of the year 9999, UTC.
pub const LATEST_CALENDAR_SECOND: i64 = 253_402_300_799;

/// The proleptic Gregorian date `(year, month, day)` of the day that lies
/// `days` days after 1970-01-01 (before it, when negative).
///
/// Days are counted in 400-year eras of 146 097 days from 0000-03-01, so that
/// the leap day falls at the end of each year of the count; the year of the
/// era, the day of that year and then the month (from March) follow from it.
pub open spec fn civil_from_days(days: int) -> (int, int, int) {
    let z = days + 719_468;
    let era = z / 146_097;
    let day_of_era = z % 146_097;
    let year_of_era = (day_of_era - day_of_era / 1_460 + day_of_era / 36_524 - day_of_era / 146_096) / 365;
    let day_of_year = day_of_era - (365 * year_of_era + year_of_era / 4 - year_of_era / 100);
    let shifted_month = (5 * day_of_year + 2) / 153;
    let day = day_of_year - (153 * shifted_month + 2) / 5 + 1;
    let month = if shifted_month < 10 {
        shifted_month + 3
    } else {
        shifted_month - 9
    };
    let year = era * 400 + year_of_era + if month <= 2 {
        1int
    } else {
        0int
    };
    (year, month, day)
}

/// The UTC date of a Unix timestamp: the date of the day it falls in.
pub open spec fn utc_calendar_date(seconds: int) -> (int, int, int) {
    civil_from_days(seconds / 86_400)
}

/// The UTC date and time of a Unix timestamp, by
/// `time::OffsetDateTime::from_unix_timestamp`.
///
/// The contract claims of that function: it succeeds exactly on the
/// timestamps from the first second of the year -9999 to the last second of
/// the year 9999; the time of day is the timestamp's Euclidean remainder
/// modulo one day, split into hours, minutes and seconds; the date is the
/// proleptic Gregorian date of the day the timestamp falls in
/// (`utc_calendar_date`), with a month from 1 to 12 and a day from 1 to 31.
#[verifier::external_body]
fn utc_date_time(seconds: i64) -> (parts: Option<(i32, u8, u8, u8, u8, u8)>)
    ensures
        parts is Some <==> EARLIEST_CALENDAR_SECOND <= seconds <= LATEST_CALENDAR_SECOND,
        parts matches Some((year, month, day, hour, minute, second)) ==> {
            &&& (year as int, month as int, day as int) == utc_calendar_date(seconds as int)
            &&& 1 <= month <= 12
            &&& 1 <= day <= 31
            &&& hour == (seconds % 86_400) / 3_600
            &&& minute == (seconds % 3_600) / 60
            &&& second == seconds % 60
        },
{
    match time::OffsetDateTime::from_unix_timestamp(seconds) {
        Ok(moment) => Some(
            (
                moment.year(),
                u8::from(moment.month()),
                moment.day(),
                moment.hour(),
                moment.minute(),
                moment.second(),
            ),
        ),
        Err(_) => None,
    }
}

/// `HH:MM:SS.ffffff` for a time of day and a microsecond remainder.
pub open spec fn clock_text(seconds: int, microseconds: int) -> Seq<char> {
    zero_padded((seconds % 86_400) / 3_600, 2) + seq![':'] + zero_padded((seconds % 3_600) / 60, 2)
        + seq![':'] + zero_padded(seconds % 60, 2) + seq!['.'] + zero_padded(microseconds, 6)
}

/// `[raw <sec>.<usec>]`: a `timeval` exactly as reported.
pub open spec fn raw_text(seconds: int, microseconds: int) -> Seq<char> {
    seq!['[', 'r', 'a', 'w', ' '] + signed_digits(seconds) + seq!['.'] + signed_digits(microseconds)
        + seq![']']
}

impl PacketTimestamp {
    /// Whether the timestamp is a point in time the calendar can name.
    pub open spec fn spec_convertible(self) -> bool {
        &&& valid_micros(self.spec_microseconds() as int)
        &&& EARLIEST_CALENDAR_SECOND <= self.spec_seconds() <= LATEST_CALENDAR_SECOND
    }

    /// The text `format_time_of_day` writes.
    pub open spec fn spec_time_of_day(self) -> Seq<char> {
        if self.spec_convertible() {
            clock_text(self.spec_seconds() as int, self.spec_microseconds() as int)
        } else {
            raw_text(self.spec_seconds() as int, self.spec_microseconds() as int)
        }
    }

    /// The text `format_datetime` writes.
    pub open spec fn spec_datetime(self) -> Seq<char> {
        if self.spec_convertible() {
            let (year, month, day) = utc_calendar_date(self.spec_seconds() as int);
            zero_padded(year, 4) + seq!['-'] + zero_padded(month, 2) + seq!['-'] + zero_padded(day, 2)
                + seq![' '] + clock_text(self.spec_seconds() as int, self.spec_microseconds() as int)
                + seq![' ', 'U', 'T', 'C']
        } else {
            raw_text(self.spec_seconds() as int, self.spec_microseconds() as int)
        }
    }

    /// Appends `HH:MM:SS.ffffff` for a converted time of day.
    fn push_clock(out: &mut String, hour: u8, minute: u8, second: u8, microseconds: i64)
        ensures
            final(out)@ == old(out)@ + zero_padded(hour as int, 2) + seq![':'] + zero_padded(minute as int, 2)
                + seq![':'] + zero_padded(second as int, 2) + seq!['.'] + zero_padded(microseconds as int, 6),
    {
        push_i64_zero_padded(out, hour as i64, 2);
        push_char(out, ':');
        push_i64_zero_padded(out, minute as i64, 2);
        push_char(out, ':');
        push_i64_zero_padded(out, second as i64, 2);
        push_char(out, '.');
        push_i64_zero_padded(out, microseconds, 6);
    }

    /// The unconverted `timeval`, used whenever conversion is impossible.
    fn format_raw(self) -> (text: String)
        ensures
            text@ == raw_text(self.spec_seconds() as int, self.spec_microseconds() as int),
    {
        let mut out = String::new();
        push_str(&mut out, "[raw ");
        push_i64(&mut out, self.seconds);
        push_char(&mut out, '.');
        push_i64(&mut out, self.microseconds);
        push_char(&mut out, ']');
        proof {
            reveal_strlit("[raw ");
            assert(out@ =~= raw_text(self.spec_seconds() as int, self.spec_microseconds() as int));
        }
        out
    }

    /// `HH:MM:SS.ffffff` in UTC, for per-packet output.
    ///
    /// Falls back to `[raw <sec>.<usec>]` when the timestamp cannot be
    /// represented, so the evidence survives even when the conversion does not.
    pub fn format_time_of_day(self) -> (text: String)
        ensures
            text@ == self.spec_time_of_day(),
    {
        if self.microseconds < 0 || self.microseconds >= MICROS_PER_SECOND {
            return self.format_raw();
        }
        match utc_date_time(self.seconds) {
            Some((_year, _month, _day, hour, minute, second)) => {
                let mut out = String::new();
                Self::push_clock(&mut out, hour, minute, second, self.microseconds);
                proof {
                    assert(out@ =~= clock_text(self.spec_seconds() as int, self.spec_microseconds() as int));
                }
                out
            },
            None => self.format_raw(),
        }
    }

    /// `YYYY-MM-DD HH:MM:SS.ffffff UTC`, for summaries.
    ///
    /// Falls back to `[raw <sec>.<usec>]` as `format_time_of_day` does.
    pub fn format_datetime(self) -> (text: String)
        ensures
            text@ == self.spec_datetime(),
    {
        if self.microseconds < 0 || self.microseconds >= MICROS_PER_SECOND {
            return self.format_raw();
        }
        match utc_date_time(self.seconds) {
            Some((year, month, day, hour, minute, second)) => {
                let mut out = String::new();
                push_i64_zero_padded(&mut out, year as i64, 4);
                push_char(&mut out, '-');
                push_i64_zero_padded(&mut out, month as i64, 2);
                push_char(&mut out, '-');
                push_i64_zero_padded(&mut out, day as i64, 2);
                push_char(&mut out, ' ');
                Self::push_clock(&mut out, hour, minute, second, self.microseconds);
                push_str(&mut out, " UTC");
                proof {
                    reveal_strlit(" UTC");
                    assert(out@ =~= self.spec_datetime());
                }
                out
            },
            None => self.format_raw(),
        }
    }
}

/// Two reported timestamps are the same value exactly when their seconds and
/// microseconds agree.
pub proof fn lemma_timestamp_fields_determine(a: PacketTimestamp, b: PacketTimestamp)
    requires
        a.spec_seconds() == b.spec_seconds(),
        a.spec_microseconds() == b.spec_microseconds(),
    ensures
        a == b,
{
}

/// Widens a `timeval` field to `i64`.
///
/// `time_t` and `suseconds_t` are 64-bit on Linux and macOS but 32-bit on
/// Windows, so this conversion is a no-op on some targets and load-bearing on
/// others.
pub fn widen<T: Into<i64>>(value: T) -> (wide: i64)
    ensures
        T::obeys_into_spec() ==> wide == value.into_spec(),
{
    value.into()
}

} // verus!
