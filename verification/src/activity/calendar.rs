//! Dates, moments, and time zones, as the `chrono` and `chrono-tz` crates know them.
//!
//! A date is a number of days since 1970-01-01. A moment without a zone is a
//! number of seconds since 1970-01-01T00:00:00 on its own clock, with the
//! nanoseconds past that second; during a leap second the nanoseconds run on
//! past a thousand million.

use chrono::{DateTime, Local, NaiveDate, NaiveDateTime, Offset, TimeZone, Utc};
use chrono_tz::Tz;
use vstd::prelude::*;

verus! {

/// The date that `chrono::NaiveDate::parse_from_str` reads from a text in a given format.
pub uninterp spec fn parsed_date(text: Seq<char>, format: Seq<char>) -> Option<i32>;

/// The `%Y-%m-%d` form that `chrono::NaiveDate` gives to a date that it can hold.
pub uninterp spec fn date_text(days: i32) -> Option<Seq<char>>;

/// The moment that `chrono::NaiveDateTime::parse_from_str` reads from a text in a given format.
pub uninterp spec fn parsed_moment(text: Seq<char>, format: Seq<char>) -> Option<(i64, u32)>;

/// Whether the `chrono-tz` database holds a time zone of this name.
pub uninterp spec fn is_timezone(name: Seq<char>) -> bool;

/// The Unix time in milliseconds at which clocks in a zone of the `chrono-tz`
/// database first show a moment.
pub uninterp spec fn zone_instant(name: Seq<char>, seconds: i64, nanos: u32) -> Option<i64>;

/// Whether a number of seconds lies within the years that `chrono` can hold.
pub open spec fn chrono_seconds(seconds: int) -> bool {
    -10_000_000_000_000 < seconds < 10_000_000_000_000
}

/// Whether a number of milliseconds lies within the years that `chrono` can hold.
pub open spec fn chrono_millis(millis: int) -> bool {
    -10_000_000_000_000_000 < millis < 10_000_000_000_000_000
}

/// Whether a Unix time in milliseconds is one that a `chrono::DateTime` shows:
/// from the start of the year -262143 to the end of the year 262142.
pub open spec fn chrono_holds(millis: int) -> bool {
    -8_334_601_228_800_000 <= millis <= 8_210_266_876_799_999
}

/// Whether two times in milliseconds are whole seconds and less than a day
/// apart, as are a clock of any zone and one that shows UTC.
pub open spec fn is_zone_shift(a: int, b: int) -> bool {
    -86_400_000 < a - b < 86_400_000 && (a - b) % 1000 == 0
}

/// Whether a Unix time in milliseconds can be when a clock shows a moment.
pub open spec fn can_show(millis: int, seconds: int, nanos: int) -> bool {
    is_zone_shift(millis, seconds * 1000 + nanos / 1_000_000)
}

/// Whether a calendar can show a date at a Unix time in milliseconds: where
/// `chrono` can hold that time there is one, and away from the first and the
/// last day that it can hold, the date is that of a clock of some zone.
pub open spec fn can_be_date(millis: i64, date: Option<Seq<char>>) -> bool {
    &&& date is Some == chrono_holds(millis as int)
    &&& chrono_holds(millis - 86_400_000) && chrono_holds(millis + 86_400_000) ==> exists|
        shown: i64,
    |
        #[trigger] is_zone_shift(shown as int, millis as int) && utc_date_text(shown) == date
}

/// Calls `chrono::NaiveDate::parse_from_str`. A date that was read has a
/// `%Y-%m-%d` form.
#[verifier::external_body]
pub(crate) fn parse_date(text: &str, format: &str) -> (date: Option<i32>)
    ensures
        date == parsed_date(text@, format@),
        date matches Some(days) ==> date_text(days) is Some,
{
    NaiveDate::parse_from_str(text, format).ok().map(|date| date.to_epoch_days())
}

/// Calls `chrono::NaiveDate::format` with `%Y-%m-%d` on the date so many days
/// after 1970-01-01, where `chrono::NaiveDate::from_epoch_days` has one.
#[verifier::external_body]
pub(crate) fn format_date(days: i32) -> (text: Option<String>)
    ensures
        text.deep_view() == date_text(days),
{
    NaiveDate::from_epoch_days(days).map(|date| date.format("%Y-%m-%d").to_string())
}

/// Calls `chrono::NaiveDateTime::parse_from_str`. Its years end before 262144
/// on either side, and its nanoseconds stay below two thousand million.
#[verifier::external_body]
pub(crate) fn parse_moment(text: &str, format: &str) -> (moment: Option<(i64, u32)>)
    ensures
        moment == parsed_moment(text@, format@),
        moment matches Some(m) ==> chrono_seconds(m.0 as int) && m.1 < 2_000_000_000,
{
    let moment = NaiveDateTime::parse_from_str(text, format).ok()?.and_utc();
    Some((moment.timestamp(), moment.timestamp_subsec_nanos()))
}

/// Calls `chrono_tz::Tz::from_str`, which looks the name up as it is written.
#[verifier::external_body]
pub(crate) fn known_timezone(name: &str) -> (known: bool)
    ensures
        known == is_timezone(name@),
{
    name.parse::<Tz>().is_ok()
}

/// Calls `chrono_tz::Tz::from_local_datetime` and takes the earliest instant
/// that it gives. There is none for a name that is no zone's, nor for a moment
/// that the zone's clocks skip.
#[verifier::external_body]
pub(crate) fn instant_in_zone(name: &str, seconds: i64, nanos: u32) -> (instant: Option<i64>)
    ensures
        instant == zone_instant(name@, seconds, nanos),
        instant matches Some(millis) ==> chrono_millis(millis as int),
{
    let zone: Tz = name.parse().ok()?;
    let moment = DateTime::from_timestamp(seconds, nanos)?.naive_utc();
    zone.from_local_datetime(&moment).earliest().map(|instant| instant.timestamp_millis())
}

/// Calls `chrono::Local::from_local_datetime` and takes the earliest instant
/// that it gives, in milliseconds. Which one it gives depends on the zone that
/// the machine is set to, and is not stated: only that `chrono` can hold it, and
/// that it is whole seconds and less than a day from when a clock that shows UTC
/// shows the moment, as every offset that `chrono::FixedOffset` can hold is.
#[verifier::external_body]
pub(crate) fn instant_here(seconds: i64, nanos: u32) -> (instant: Option<i64>)
    ensures
        instant matches Some(millis) ==> chrono_millis(millis as int) && can_show(
            millis as int,
            seconds as int,
            nanos as int,
        ),
{
    let moment = DateTime::from_timestamp(seconds, nanos)?.naive_utc();
    Local.from_local_datetime(&moment).earliest().map(|instant| instant.timestamp_millis())
}

/// The `%Y-%m-%d` form of the UTC date at a Unix time in milliseconds, where `chrono` can hold it.
pub uninterp spec fn utc_date_text(millis: i64) -> Option<Seq<char>>;

/// Calls `chrono::Utc::timestamp_millis_opt` and formats the date of the instant as `%Y-%m-%d`.
#[verifier::external_body]
pub(crate) fn utc_date(millis: i64) -> (date: Option<String>)
    ensures
        date.deep_view() == utc_date_text(millis),
{
    Utc.timestamp_millis_opt(millis).single().map(|instant| instant.format("%Y-%m-%d").to_string())
}

/// Calls `chrono::Local::timestamp_millis_opt` and formats the date of the
/// instant as `%Y-%m-%d`. Which date it gives depends on the zone that the
/// machine is set to, and is not stated: only that it gives one for the times
/// that `chrono` can hold, and that this is the UTC date of a time whole seconds
/// and less than a day away, the offset being one of `chrono::FixedOffset`.
#[verifier::external_body]
pub(crate) fn date_here(millis: i64) -> (date: Option<String>)
    ensures
        can_be_date(millis, date.deep_view()),
{
    Local.timestamp_millis_opt(millis).single().map(|instant| instant.format("%Y-%m-%d").to_string())
}

/// The abbreviation of a zone of the `chrono-tz` database, and its offset east
/// of UTC in seconds, at a Unix time in milliseconds.
pub uninterp spec fn zone_time(name: Seq<char>, millis: i64) -> Option<(Seq<char>, i32)>;

/// Calls `timestamp_millis_opt` of a `chrono_tz::Tz` for the instant at a Unix
/// time in milliseconds, and gives the zone's abbreviation, which is the `%Z`
/// form of the instant, and its offset east of UTC in seconds. A zone that the
/// database holds has them at every time that `chrono` can hold.
#[verifier::external_body]
pub(crate) fn zone_at(name: &str, millis: i64) -> (time: Option<(String, i32)>)
    ensures
        time.deep_view() == zone_time(name@, millis),
        time is Some == (is_timezone(name@) && chrono_holds(millis as int)),
{
    let zone: Tz = name.parse().ok()?;
    let instant = zone.timestamp_millis_opt(millis).single()?;
    Some((instant.format("%Z").to_string(), instant.offset().fix().local_minus_utc()))
}

} // verus!
