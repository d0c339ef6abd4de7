//! Why a notification was closed, as the desktop notification protocol numbers it.

use vstd::prelude::*;

verus! {

/// The notification ran out of time.
pub const EXPIRED: u32 = 1;

/// The user dismissed the notification.
pub const DISMISSED: u32 = 2;

/// The program that sent the notification closed it.
pub const CLOSED_BY_CALL: u32 = 3;

/// The notification was closed for another reason.
pub const UNDEFINED: u32 = 4;

} // verus!
