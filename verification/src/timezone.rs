//! The time zone of the system.

use vstd::prelude::*;

use crate::activity::calendar::{chrono_holds, is_timezone, zone_at, zone_time};
use crate::activity::summary::{city_of, zone_city};
use crate::model::{TimezoneState, TimezoneStateModel};
use crate::text::joined;
use crate::time::unix_ms_i64;

verus! {

/// The state to show of a time zone, given its abbreviation and offset at that time.
pub open spec fn state_of(timezone: Seq<char>, abbreviation: Seq<char>, offset: i32)
    -> TimezoneStateModel {
    TimezoneStateModel {
        available: true,
        timezone,
        city: zone_city(timezone),
        abbreviation,
        utc_offset_seconds: offset,
        error: None,
    }
}

/// The state to show of a time zone, given its abbreviation and offset at that time.
pub fn timezone_state(timezone: &str, abbreviation: String, utc_offset_seconds: i32) -> (state:
    TimezoneState)
    ensures
        state.deep_view() == state_of(timezone@, abbreviation@, utc_offset_seconds),
{
    TimezoneState {
        available: true,
        timezone: timezone.to_string(),
        city: city_of(timezone),
        abbreviation,
        utc_offset_seconds,
        error: None,
    }
}

/// The state to show of a time zone at a Unix time in milliseconds. The zone
/// tells its abbreviation and offset at that time.
pub open spec fn state_at_time(timezone: Seq<char>, millis: i64) -> TimezoneStateModel {
    let (abbreviation, offset) = zone_time(timezone, millis)->0;
    state_of(timezone, abbreviation, offset)
}

/// The state to show of a time zone at a Unix time in milliseconds. One that is
/// not known is an error.
pub fn state_at(timezone: &str, millis: i64) -> (state: Result<TimezoneState, String>)
    requires
        chrono_holds(millis as int),
    ensures
        match state {
            Ok(state) => is_timezone(timezone@) && state.deep_view() == state_at_time(
                timezone@,
                millis,
            ),
            Err(message) => !is_timezone(timezone@) && message@ == "parse timezone "@ + timezone@,
        },
{
    match zone_at(timezone, millis) {
        Some((abbreviation, offset)) => Ok(timezone_state(timezone, abbreviation, offset)),
        None => Err(joined("parse timezone ", timezone)),
    }
}

/// The state to show of a time zone now. One that is not known is an error.
pub fn state_for_timezone(timezone: &str) -> (state: Result<TimezoneState, String>)
    ensures
        match state {
            Ok(state) => is_timezone(timezone@) && exists|now: i64|
                chrono_holds(now as int) && state.deep_view() == #[trigger] state_at_time(
                    timezone@,
                    now,
                ),
            Err(message) => !is_timezone(timezone@) && message@ == "parse timezone "@ + timezone@,
        },
{
    state_at(timezone, unix_ms_i64())
}

// Laws

/// What is shown of a zone is its own name, city, abbreviation and offset.
pub proof fn zone_shows_its_own(timezone: Seq<char>, abbreviation: Seq<char>, offset: i32)
    ensures
        ({
            let state = state_of(timezone, abbreviation, offset);
            &&& state.available && state.error is None
            &&& state.timezone == timezone
            &&& state.city == zone_city(timezone)
            &&& state.abbreviation == abbreviation
            &&& state.utc_offset_seconds == offset
        }),
{
}

} // verus!
