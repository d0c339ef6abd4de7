//! The time now.

use vstd::prelude::*;

use crate::activity::calendar::chrono_holds;

verus! {

/// Calls `chrono::Utc::now` for the Unix time in milliseconds, which does not
/// return where the clock of the machine shows a time before 1970. Which time
/// it shows is not stated, only that `chrono` can hold it.
#[verifier::external_body]
fn now_millis() -> (millis: i64)
    ensures
        chrono_holds(millis as int),
{
    chrono::Utc::now().timestamp_millis()
}

/// A Unix time as an unsigned number: zero for times before 1970.
pub fn unsigned_millis(millis: i64) -> (unsigned: u64)
    ensures
        unsigned == if millis < 0 {
            0
        } else {
            millis as int
        },
{
    if millis < 0 {
        0
    } else {
        millis as u64
    }
}

/// The Unix time now in milliseconds.
pub fn unix_ms() -> (millis: u64)
    ensures
        chrono_holds(millis as int),
{
    unsigned_millis(now_millis())
}

/// The Unix time now in milliseconds.
pub fn unix_ms_i64() -> (millis: i64)
    ensures
        chrono_holds(millis as int),
{
    now_millis()
}

} // verus!
