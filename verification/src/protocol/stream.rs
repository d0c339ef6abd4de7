//! Event stream names accepted by subscriptions.

use vstd::prelude::*;

verus! {

/// Activity summary changed.
pub const ACTIVITY: &'static str = "activity.changed";

/// Workspace state changed.
pub const WORKSPACES: &'static str = "workspaces.changed";

/// Media player state changed.
pub const MEDIA: &'static str = "media.changed";

/// Audio state changed.
pub const AUDIO: &'static str = "audio.changed";

/// Backlight state changed.
pub const BRIGHTNESS: &'static str = "brightness.changed";

/// Battery state changed.
pub const BATTERY: &'static str = "battery.changed";

/// Power profile state changed.
pub const POWER_PROFILE: &'static str = "power-profile.changed";

/// Sleep capability or inhibitor state changed.
pub const POWER_SLEEP: &'static str = "power-sleep.changed";

/// Keyboard LED, keyboard backlight, or privacy hardware state changed.
pub const OSD_HARDWARE: &'static str = "osd-hardware.changed";

/// Notification summary changed.
pub const NOTIFICATIONS: &'static str = "notifications.changed";

/// Active notification collection changed.
pub const NOTIFICATION_ACTIVE: &'static str = "notifications.active.changed";

/// Update readiness changed.
pub const UPDATES: &'static str = "updates.changed";

/// System timezone changed.
pub const TIMEZONE: &'static str = "timezone.changed";

} // verus!
