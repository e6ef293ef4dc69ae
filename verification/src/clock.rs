//! Calendar texts for a reading of the wall clock.
//!
//! The calendar is chrono's. The program reads the clock and hands the
//! seconds since the Unix epoch to `WallClock::at`.

use vstd::prelude::*;
use crate::digits::digit_text;

verus! {

/// The pattern of the time of day in a status line.
pub const TIME_OF_DAY_PATTERN: &'static str = "%H:%M:%S";

/// The pattern of a session's name.
pub const SESSION_PATTERN: &'static str = "%Y%m%d_%H%M%S";

/// The first second of the year 1, in seconds since the Unix epoch.
pub const FIRST_SECOND: i64 = -62_135_596_800;

/// The last second of the year 9999, in seconds since the Unix epoch.
pub const LAST_SECOND: i64 = 253_402_300_799;

/// The text that chrono writes for a time in UTC, given as seconds since
/// the Unix epoch, under a `strftime` pattern.
pub uninterp spec fn utc_text(unix_secs: int, pattern: Seq<char>) -> Seq<char>;

/// Whether a moment lies in the years 1 to 9999.
pub open spec fn in_calendar(unix_secs: int) -> bool {
    FIRST_SECOND <= unix_secs <= LAST_SECOND
}

/// A number below 100 in two digits.
pub open spec fn two_digits(n: int) -> Seq<char> {
    digit_text((n / 10) as nat) + digit_text((n % 10) as nat)
}

/// The time of day of a moment in UTC as `HH:MM:SS`.
pub open spec fn time_of_day_text(unix_secs: int) -> Seq<char> {
    let second_of_day = unix_secs % 86400;
    two_digits(second_of_day / 3600) + ":"@ + two_digits((second_of_day / 60) % 60) + ":"@
        + two_digits(second_of_day % 60)
}

/// `chrono::DateTime::from_timestamp` and then `DateTime::format`, written
/// out with `DelayedFormat::write_to`.
///
/// Trusted. If a text comes back, it is the one chrono writes for these
/// seconds and this pattern, and it depends on nothing else. Under
/// `%H:%M:%S` that text is the hour, the minute and the second of the day,
/// two digits each. For a moment in the years 1 to 9999 and one of the two
/// patterns of this module a text does come back. `None` where chrono has
/// no date for the seconds or rejects the pattern.
#[verifier::external_body]
fn format_utc(unix_secs: i64, pattern: &str) -> (r: Option<String>)
    ensures
        r matches Some(text) ==> text@ == utc_text(unix_secs as int, pattern@),
        r matches Some(text) ==> (pattern@ == TIME_OF_DAY_PATTERN@ ==> text@ == time_of_day_text(
            unix_secs as int,
        )),
        in_calendar(unix_secs as int) && (pattern@ == TIME_OF_DAY_PATTERN@ || pattern@
            == SESSION_PATTERN@) ==> r is Some,
{
    let time = chrono::DateTime::from_timestamp(unix_secs, 0)?;
    let mut text = String::new();
    time.format(pattern).write_to(&mut text).ok()?;
    Some(text)
}

/// The time of day shown where chrono gave none.
pub open spec fn no_time_of_day() -> Seq<char> {
    "--:--:--"@
}

/// The session name used where chrono gave none.
pub open spec fn no_session_name() -> Seq<char> {
    "unknown"@
}

/// A text from the calendar, or the stand-in where there is none.
pub fn text_or(text: Option<String>, stand_in: &str) -> (r: String)
    ensures
        r@ == match text {
            Some(t) => t@,
            None => stand_in@,
        },
{
    match text {
        Some(t) => t,
        None => String::from_str(stand_in),
    }
}

/// One reading of the wall clock, as the two texts the dashboard needs.
#[derive(Debug, Clone, PartialEq, Eq)]
pub struct WallClock {
    /// The time of day, `HH:MM:SS`.
    pub time_of_day: String,
    /// The name of a session started now, `YYYYMMDD_HHMMSS`.
    pub session_name: String,
}

impl WallClock {
    /// Whether the texts are those of a given moment. In the years 1 to
    /// 9999 they are the time of day and what chrono writes for the
    /// session's name; outside of them each may be its stand-in.
    pub open spec fn is_at(self, unix_secs: int) -> bool {
        &&& self.time_of_day@ == time_of_day_text(unix_secs) || (!in_calendar(unix_secs)
            && self.time_of_day@ == no_time_of_day())
        &&& self.session_name@ == utc_text(unix_secs, SESSION_PATTERN@) || (!in_calendar(unix_secs)
            && self.session_name@ == no_session_name())
    }

    /// The texts for a moment, given as seconds since the Unix epoch.
    pub fn at(unix_secs: i64) -> (r: Self)
        ensures
            r.is_at(unix_secs as int),
    {
        let time_of_day = text_or(format_utc(unix_secs, TIME_OF_DAY_PATTERN), "--:--:--");
        let session_name = text_or(format_utc(unix_secs, SESSION_PATTERN), "unknown");
        WallClock { time_of_day, session_name }
    }
}

} // verus!
