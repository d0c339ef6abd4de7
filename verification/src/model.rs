//! State of every domain that the bar shows.

use vstd::prelude::*;

use crate::activity::model::{ActivityState, ActivityStateModel, Measure};
use crate::activity::notifications::model::{ActiveNotification, ActiveNotificationModel};
use crate::record::Record;

verus! {

/// State of all domains at one time.
#[derive(Debug, PartialEq, Eq)]
pub struct BarSnapshot {
    pub activity: ActivityState,
    pub workspaces: WorkspaceState,
    pub media: MediaState,
    pub audio: AudioState,
    pub brightness: BrightnessState,
    pub battery: BatteryState,
    pub power_profile: PowerProfileState,
    pub power_sleep: PowerSleepState,
    pub osd_hardware: OsdHardwareState,
    pub notifications: NotificationState,
    pub notification_active: NotificationActiveState,
    pub updates: UpdateState,
    pub timezone: TimezoneState,
}

/// What a [`BarSnapshot`] holds.
#[verifier::ext_equal]
pub struct BarSnapshotModel {
    pub activity: ActivityStateModel,
    pub workspaces: WorkspaceStateModel,
    pub media: MediaStateModel,
    pub audio: AudioStateModel,
    pub brightness: BrightnessStateModel,
    pub battery: BatteryStateModel,
    pub power_profile: PowerProfileStateModel,
    pub power_sleep: PowerSleepStateModel,
    pub osd_hardware: OsdHardwareStateModel,
    pub notifications: NotificationStateModel,
    pub notification_active: NotificationActiveStateModel,
    pub updates: UpdateStateModel,
    pub timezone: TimezoneStateModel,
}

impl DeepView for BarSnapshot {
    type V = BarSnapshotModel;

    open spec fn deep_view(&self) -> BarSnapshotModel {
        BarSnapshotModel {
            activity: self.activity.deep_view(),
            workspaces: self.workspaces.deep_view(),
            media: self.media.deep_view(),
            audio: self.audio.deep_view(),
            brightness: self.brightness.deep_view(),
            battery: self.battery.deep_view(),
            power_profile: self.power_profile.deep_view(),
            power_sleep: self.power_sleep.deep_view(),
            osd_hardware: self.osd_hardware.deep_view(),
            notifications: self.notifications.deep_view(),
            notification_active: self.notification_active.deep_view(),
            updates: self.updates.deep_view(),
            timezone: self.timezone.deep_view(),
        }
    }
}

impl Record for BarSnapshot {
    fn same(&self, other: &Self) -> (same: bool) {
        self.activity.same(&other.activity)
            && self.workspaces.same(&other.workspaces)
            && self.media.same(&other.media)
            && self.audio.same(&other.audio)
            && self.brightness.same(&other.brightness)
            && self.battery.same(&other.battery)
            && self.power_profile.same(&other.power_profile)
            && self.power_sleep.same(&other.power_sleep)
            && self.osd_hardware.same(&other.osd_hardware)
            && self.notifications.same(&other.notifications)
            && self.notification_active.same(&other.notification_active)
            && self.updates.same(&other.updates)
            && self.timezone.same(&other.timezone)
    }

    fn copy(&self) -> (copy: Self) {
        BarSnapshot {
            activity: self.activity.copy(),
            workspaces: self.workspaces.copy(),
            media: self.media.copy(),
            audio: self.audio.copy(),
            brightness: self.brightness.copy(),
            battery: self.battery.copy(),
            power_profile: self.power_profile.copy(),
            power_sleep: self.power_sleep.copy(),
            osd_hardware: self.osd_hardware.copy(),
            notifications: self.notifications.copy(),
            notification_active: self.notification_active.copy(),
            updates: self.updates.copy(),
            timezone: self.timezone.copy(),
        }
    }
}

impl Clone for BarSnapshot {
    fn clone(&self) -> (copy: Self)
        ensures
            copy.deep_view() == self.deep_view(),
    {
        self.copy()
    }
}

impl BarSnapshotModel {
    /// What a default [`BarSnapshot`] holds.
    pub open spec fn initial() -> BarSnapshotModel {
        BarSnapshotModel {
            activity: ActivityStateModel::initial(),
            workspaces: WorkspaceStateModel::initial(),
            media: MediaStateModel::initial(),
            audio: AudioStateModel::initial(),
            brightness: BrightnessStateModel::initial(),
            battery: BatteryStateModel::initial(),
            power_profile: PowerProfileStateModel::initial(),
            power_sleep: PowerSleepStateModel::initial(),
            osd_hardware: OsdHardwareStateModel::initial(),
            notifications: NotificationStateModel::initial(),
            notification_active: NotificationActiveStateModel::initial(),
            updates: UpdateStateModel::initial(),
            timezone: TimezoneStateModel::initial(),
        }
    }
}

impl Default for BarSnapshot {
    fn default() -> (value: BarSnapshot)
        ensures
            value.deep_view() == BarSnapshotModel::initial(),
    {
        let value = BarSnapshot {
            activity: ActivityState::default(),
            workspaces: WorkspaceState::default(),
            media: MediaState::default(),
            audio: AudioState::default(),
            brightness: BrightnessState::default(),
            battery: BatteryState::default(),
            power_profile: PowerProfileState::default(),
            power_sleep: PowerSleepState::default(),
            osd_hardware: OsdHardwareState::default(),
            notifications: NotificationState::default(),
            notification_active: NotificationActiveState::default(),
            updates: UpdateState::default(),
            timezone: TimezoneState::default(),
        };
        assert(value.deep_view() =~= BarSnapshotModel::initial());
        value
    }
}

/// The time zone of the system.
#[derive(Debug, PartialEq, Eq)]
pub struct TimezoneState {
    pub available: bool,
    pub timezone: String,
    pub city: String,
    pub abbreviation: String,
    pub utc_offset_seconds: i32,
    pub error: Option<String>,
}

/// What a [`TimezoneState`] holds.
#[verifier::ext_equal]
pub struct TimezoneStateModel {
    pub available: bool,
    pub timezone: Seq<char>,
    pub city: Seq<char>,
    pub abbreviation: Seq<char>,
    pub utc_offset_seconds: i32,
    pub error: Option<Seq<char>>,
}

impl DeepView for TimezoneState {
    type V = TimezoneStateModel;

    open spec fn deep_view(&self) -> TimezoneStateModel {
        TimezoneStateModel {
            available: self.available.deep_view(),
            timezone: self.timezone.deep_view(),
            city: self.city.deep_view(),
            abbreviation: self.abbreviation.deep_view(),
            utc_offset_seconds: self.utc_offset_seconds.deep_view(),
            error: self.error.deep_view(),
        }
    }
}

impl Record for TimezoneState {
    fn same(&self, other: &Self) -> (same: bool) {
        self.available.same(&other.available)
            && self.timezone.same(&other.timezone)
            && self.city.same(&other.city)
            && self.abbreviation.same(&other.abbreviation)
            && self.utc_offset_seconds.same(&other.utc_offset_seconds)
            && self.error.same(&other.error)
    }

    fn copy(&self) -> (copy: Self) {
        TimezoneState {
            available: self.available.copy(),
            timezone: self.timezone.copy(),
            city: self.city.copy(),
            abbreviation: self.abbreviation.copy(),
            utc_offset_seconds: self.utc_offset_seconds.copy(),
            error: self.error.copy(),
        }
    }
}

impl Clone for TimezoneState {
    fn clone(&self) -> (copy: Self)
        ensures
            copy.deep_view() == self.deep_view(),
    {
        self.copy()
    }
}

impl TimezoneStateModel {
    /// What a default [`TimezoneState`] holds.
    pub open spec fn initial() -> TimezoneStateModel {
        TimezoneStateModel {
            available: false,
            timezone: Seq::empty(),
            city: Seq::empty(),
            abbreviation: Seq::empty(),
            utc_offset_seconds: 0,
            error: None,
        }
    }
}

impl Default for TimezoneState {
    fn default() -> (value: TimezoneState)
        ensures
            value.deep_view() == TimezoneStateModel::initial(),
    {
        let value = TimezoneState {
            available: false,
            timezone: String::new(),
            city: String::new(),
            abbreviation: String::new(),
            utc_offset_seconds: 0,
            error: None,
        };
        assert(value.deep_view() =~= TimezoneStateModel::initial());
        value
    }
}

/// System updates that are ready to be applied.
#[derive(Debug, PartialEq, Eq)]
pub struct UpdateState {
    pub available: bool,
    pub ready: bool,
    pub lanes: Vec<UpdateLane>,
    pub state_directory: String,
    pub error: Option<String>,
}

/// What a [`UpdateState`] holds.
#[verifier::ext_equal]
pub struct UpdateStateModel {
    pub available: bool,
    pub ready: bool,
    pub lanes: Seq<UpdateLaneModel>,
    pub state_directory: Seq<char>,
    pub error: Option<Seq<char>>,
}

impl DeepView for UpdateState {
    type V = UpdateStateModel;

    open spec fn deep_view(&self) -> UpdateStateModel {
        UpdateStateModel {
            available: self.available.deep_view(),
            ready: self.ready.deep_view(),
            lanes: self.lanes.deep_view(),
            state_directory: self.state_directory.deep_view(),
            error: self.error.deep_view(),
        }
    }
}

impl Record for UpdateState {
    fn same(&self, other: &Self) -> (same: bool) {
        self.available.same(&other.available)
            && self.ready.same(&other.ready)
            && self.lanes.same(&other.lanes)
            && self.state_directory.same(&other.state_directory)
            && self.error.same(&other.error)
    }

    fn copy(&self) -> (copy: Self) {
        UpdateState {
            available: self.available.copy(),
            ready: self.ready.copy(),
            lanes: self.lanes.copy(),
            state_directory: self.state_directory.copy(),
            error: self.error.copy(),
        }
    }
}

impl Clone for UpdateState {
    fn clone(&self) -> (copy: Self)
        ensures
            copy.deep_view() == self.deep_view(),
    {
        self.copy()
    }
}

impl UpdateStateModel {
    /// What a default [`UpdateState`] holds.
    pub open spec fn initial() -> UpdateStateModel {
        UpdateStateModel {
            available: false,
            ready: false,
            lanes: Seq::empty(),
            state_directory: Seq::empty(),
            error: None,
        }
    }
}

impl Default for UpdateState {
    fn default() -> (value: UpdateState)
        ensures
            value.deep_view() == UpdateStateModel::initial(),
    {
        let value = UpdateState {
            available: false,
            ready: false,
            lanes: Vec::new(),
            state_directory: String::new(),
            error: None,
        };
        assert(value.deep_view() =~= UpdateStateModel::initial());
        value
    }
}

/// One stream of system updates.
#[derive(Debug, PartialEq, Eq)]
pub struct UpdateLane {
    pub name: String,
    pub ready: bool,
    pub revision: Option<String>,
    pub base_hash: Option<String>,
    pub created_at: Option<u64>,
    pub auto_apply: bool,
    pub system: Option<String>,
}

/// What a [`UpdateLane`] holds.
#[verifier::ext_equal]
pub struct UpdateLaneModel {
    pub name: Seq<char>,
    pub ready: bool,
    pub revision: Option<Seq<char>>,
    pub base_hash: Option<Seq<char>>,
    pub created_at: Option<u64>,
    pub auto_apply: bool,
    pub system: Option<Seq<char>>,
}

impl DeepView for UpdateLane {
    type V = UpdateLaneModel;

    open spec fn deep_view(&self) -> UpdateLaneModel {
        UpdateLaneModel {
            name: self.name.deep_view(),
            ready: self.ready.deep_view(),
            revision: self.revision.deep_view(),
            base_hash: self.base_hash.deep_view(),
            created_at: self.created_at.deep_view(),
            auto_apply: self.auto_apply.deep_view(),
            system: self.system.deep_view(),
        }
    }
}

impl Record for UpdateLane {
    fn same(&self, other: &Self) -> (same: bool) {
        self.name.same(&other.name)
            && self.ready.same(&other.ready)
            && self.revision.same(&other.revision)
            && self.base_hash.same(&other.base_hash)
            && self.created_at.same(&other.created_at)
            && self.auto_apply.same(&other.auto_apply)
            && self.system.same(&other.system)
    }

    fn copy(&self) -> (copy: Self) {
        UpdateLane {
            name: self.name.copy(),
            ready: self.ready.copy(),
            revision: self.revision.copy(),
            base_hash: self.base_hash.copy(),
            created_at: self.created_at.copy(),
            auto_apply: self.auto_apply.copy(),
            system: self.system.copy(),
        }
    }
}

impl Clone for UpdateLane {
    fn clone(&self) -> (copy: Self)
        ensures
            copy.deep_view() == self.deep_view(),
    {
        self.copy()
    }
}

impl UpdateLaneModel {
    /// What a default [`UpdateLane`] holds.
    pub open spec fn initial() -> UpdateLaneModel {
        UpdateLaneModel {
            name: Seq::empty(),
            ready: false,
            revision: None,
            base_hash: None,
            created_at: None,
            auto_apply: false,
            system: None,
        }
    }
}

impl Default for UpdateLane {
    fn default() -> (value: UpdateLane)
        ensures
            value.deep_view() == UpdateLaneModel::initial(),
    {
        let value = UpdateLane {
            name: String::new(),
            ready: false,
            revision: None,
            base_hash: None,
            created_at: None,
            auto_apply: false,
            system: None,
        };
        assert(value.deep_view() =~= UpdateLaneModel::initial());
        value
    }
}

/// Notifications that are shown.
#[derive(Debug, PartialEq, Eq)]
pub struct NotificationActiveState {
    pub available: bool,
    pub revision: u64,
    pub notifications: Vec<ActiveNotification>,
    pub error: Option<String>,
}

/// What a [`NotificationActiveState`] holds.
#[verifier::ext_equal]
pub struct NotificationActiveStateModel {
    pub available: bool,
    pub revision: u64,
    pub notifications: Seq<ActiveNotificationModel>,
    pub error: Option<Seq<char>>,
}

impl DeepView for NotificationActiveState {
    type V = NotificationActiveStateModel;

    open spec fn deep_view(&self) -> NotificationActiveStateModel {
        NotificationActiveStateModel {
            available: self.available.deep_view(),
            revision: self.revision.deep_view(),
            notifications: self.notifications.deep_view(),
            error: self.error.deep_view(),
        }
    }
}

impl Record for NotificationActiveState {
    fn same(&self, other: &Self) -> (same: bool) {
        self.available.same(&other.available)
            && self.revision.same(&other.revision)
            && self.notifications.same(&other.notifications)
            && self.error.same(&other.error)
    }

    fn copy(&self) -> (copy: Self) {
        NotificationActiveState {
            available: self.available.copy(),
            revision: self.revision.copy(),
            notifications: self.notifications.copy(),
            error: self.error.copy(),
        }
    }
}

impl Clone for NotificationActiveState {
    fn clone(&self) -> (copy: Self)
        ensures
            copy.deep_view() == self.deep_view(),
    {
        self.copy()
    }
}

impl NotificationActiveStateModel {
    /// What a default [`NotificationActiveState`] holds.
    pub open spec fn initial() -> NotificationActiveStateModel {
        NotificationActiveStateModel {
            available: false,
            revision: 0,
            notifications: Seq::empty(),
            error: None,
        }
    }
}

impl Default for NotificationActiveState {
    fn default() -> (value: NotificationActiveState)
        ensures
            value.deep_view() == NotificationActiveStateModel::initial(),
    {
        let value = NotificationActiveState {
            available: false,
            revision: 0,
            notifications: Vec::new(),
            error: None,
        };
        assert(value.deep_view() =~= NotificationActiveStateModel::initial());
        value
    }
}

/// Summary of notifications.
#[derive(Debug, PartialEq, Eq)]
pub struct NotificationState {
    pub available: bool,
    pub count: u32,
    pub dnd: bool,
    pub dnd_until_unix_ms: Option<u64>,
    pub inhibited: bool,
    pub text: String,
    pub tooltip: String,
    pub alt: String,
    pub class_name: String,
    pub backend: String,
    pub history_revision: u64,
    pub error: Option<String>,
}

/// What a [`NotificationState`] holds.
#[verifier::ext_equal]
pub struct NotificationStateModel {
    pub available: bool,
    pub count: u32,
    pub dnd: bool,
    pub dnd_until_unix_ms: Option<u64>,
    pub inhibited: bool,
    pub text: Seq<char>,
    pub tooltip: Seq<char>,
    pub alt: Seq<char>,
    pub class_name: Seq<char>,
    pub backend: Seq<char>,
    pub history_revision: u64,
    pub error: Option<Seq<char>>,
}

impl DeepView for NotificationState {
    type V = NotificationStateModel;

    open spec fn deep_view(&self) -> NotificationStateModel {
        NotificationStateModel {
            available: self.available.deep_view(),
            count: self.count.deep_view(),
            dnd: self.dnd.deep_view(),
            dnd_until_unix_ms: self.dnd_until_unix_ms.deep_view(),
            inhibited: self.inhibited.deep_view(),
            text: self.text.deep_view(),
            tooltip: self.tooltip.deep_view(),
            alt: self.alt.deep_view(),
            class_name: self.class_name.deep_view(),
            backend: self.backend.deep_view(),
            history_revision: self.history_revision.deep_view(),
            error: self.error.deep_view(),
        }
    }
}

impl Record for NotificationState {
    fn same(&self, other: &Self) -> (same: bool) {
        self.available.same(&other.available)
            && self.count.same(&other.count)
            && self.dnd.same(&other.dnd)
            && self.dnd_until_unix_ms.same(&other.dnd_until_unix_ms)
            && self.inhibited.same(&other.inhibited)
            && self.text.same(&other.text)
            && self.tooltip.same(&other.tooltip)
            && self.alt.same(&other.alt)
            && self.class_name.same(&other.class_name)
            && self.backend.same(&other.backend)
            && self.history_revision.same(&other.history_revision)
            && self.error.same(&other.error)
    }

    fn copy(&self) -> (copy: Self) {
        NotificationState {
            available: self.available.copy(),
            count: self.count.copy(),
            dnd: self.dnd.copy(),
            dnd_until_unix_ms: self.dnd_until_unix_ms.copy(),
            inhibited: self.inhibited.copy(),
            text: self.text.copy(),
            tooltip: self.tooltip.copy(),
            alt: self.alt.copy(),
            class_name: self.class_name.copy(),
            backend: self.backend.copy(),
            history_revision: self.history_revision.copy(),
            error: self.error.copy(),
        }
    }
}

impl Clone for NotificationState {
    fn clone(&self) -> (copy: Self)
        ensures
            copy.deep_view() == self.deep_view(),
    {
        self.copy()
    }
}

impl NotificationStateModel {
    /// What a default [`NotificationState`] holds.
    pub open spec fn initial() -> NotificationStateModel {
        NotificationStateModel {
            available: false,
            count: 0,
            dnd: false,
            dnd_until_unix_ms: None,
            inhibited: false,
            text: Seq::empty(),
            tooltip: Seq::empty(),
            alt: Seq::empty(),
            class_name: Seq::empty(),
            backend: Seq::empty(),
            history_revision: 0,
            error: None,
        }
    }
}

impl Default for NotificationState {
    fn default() -> (value: NotificationState)
        ensures
            value.deep_view() == NotificationStateModel::initial(),
    {
        let value = NotificationState {
            available: false,
            count: 0,
            dnd: false,
            dnd_until_unix_ms: None,
            inhibited: false,
            text: String::new(),
            tooltip: String::new(),
            alt: String::new(),
            class_name: String::new(),
            backend: String::new(),
            history_revision: 0,
            error: None,
        };
        assert(value.deep_view() =~= NotificationStateModel::initial());
        value
    }
}

/// Power profiles and what holds them.
#[derive(Debug, PartialEq, Eq)]
pub struct PowerProfileState {
    pub available: bool,
    pub profile: String,
    pub driver: String,
    pub profiles: Vec<PowerProfile>,
    pub performance_degraded: String,
    pub version: String,
    pub battery_aware: Option<bool>,
    pub actions: Vec<PowerProfileAction>,
    pub active_holds: Vec<PowerProfileHold>,
    pub error: Option<String>,
}

/// What a [`PowerProfileState`] holds.
#[verifier::ext_equal]
pub struct PowerProfileStateModel {
    pub available: bool,
    pub profile: Seq<char>,
    pub driver: Seq<char>,
    pub profiles: Seq<PowerProfileModel>,
    pub performance_degraded: Seq<char>,
    pub version: Seq<char>,
    pub battery_aware: Option<bool>,
    pub actions: Seq<PowerProfileActionModel>,
    pub active_holds: Seq<PowerProfileHoldModel>,
    pub error: Option<Seq<char>>,
}

impl DeepView for PowerProfileState {
    type V = PowerProfileStateModel;

    open spec fn deep_view(&self) -> PowerProfileStateModel {
        PowerProfileStateModel {
            available: self.available.deep_view(),
            profile: self.profile.deep_view(),
            driver: self.driver.deep_view(),
            profiles: self.profiles.deep_view(),
            performance_degraded: self.performance_degraded.deep_view(),
            version: self.version.deep_view(),
            battery_aware: self.battery_aware.deep_view(),
            actions: self.actions.deep_view(),
            active_holds: self.active_holds.deep_view(),
            error: self.error.deep_view(),
        }
    }
}

impl Record for PowerProfileState {
    fn same(&self, other: &Self) -> (same: bool) {
        self.available.same(&other.available)
            && self.profile.same(&other.profile)
            && self.driver.same(&other.driver)
            && self.profiles.same(&other.profiles)
            && self.performance_degraded.same(&other.performance_degraded)
            && self.version.same(&other.version)
            && self.battery_aware.same(&other.battery_aware)
            && self.actions.same(&other.actions)
            && self.active_holds.same(&other.active_holds)
            && self.error.same(&other.error)
    }

    fn copy(&self) -> (copy: Self) {
        PowerProfileState {
            available: self.available.copy(),
            profile: self.profile.copy(),
            driver: self.driver.copy(),
            profiles: self.profiles.copy(),
            performance_degraded: self.performance_degraded.copy(),
            version: self.version.copy(),
            battery_aware: self.battery_aware.copy(),
            actions: self.actions.copy(),
            active_holds: self.active_holds.copy(),
            error: self.error.copy(),
        }
    }
}

impl Clone for PowerProfileState {
    fn clone(&self) -> (copy: Self)
        ensures
            copy.deep_view() == self.deep_view(),
    {
        self.copy()
    }
}

impl PowerProfileStateModel {
    /// What a default [`PowerProfileState`] holds.
    pub open spec fn initial() -> PowerProfileStateModel {
        PowerProfileStateModel {
            available: false,
            profile: Seq::empty(),
            driver: Seq::empty(),
            profiles: Seq::empty(),
            performance_degraded: Seq::empty(),
            version: Seq::empty(),
            battery_aware: None,
            actions: Seq::empty(),
            active_holds: Seq::empty(),
            error: None,
        }
    }
}

impl Default for PowerProfileState {
    fn default() -> (value: PowerProfileState)
        ensures
            value.deep_view() == PowerProfileStateModel::initial(),
    {
        let value = PowerProfileState {
            available: false,
            profile: String::new(),
            driver: String::new(),
            profiles: Vec::new(),
            performance_degraded: String::new(),
            version: String::new(),
            battery_aware: None,
            actions: Vec::new(),
            active_holds: Vec::new(),
            error: None,
        };
        assert(value.deep_view() =~= PowerProfileStateModel::initial());
        value
    }
}

/// One power profile.
#[derive(Debug, PartialEq, Eq)]
pub struct PowerProfile {
    pub name: String,
    pub driver: String,
    pub platform_driver: String,
}

/// What a [`PowerProfile`] holds.
#[verifier::ext_equal]
pub struct PowerProfileModel {
    pub name: Seq<char>,
    pub driver: Seq<char>,
    pub platform_driver: Seq<char>,
}

impl DeepView for PowerProfile {
    type V = PowerProfileModel;

    open spec fn deep_view(&self) -> PowerProfileModel {
        PowerProfileModel {
            name: self.name.deep_view(),
            driver: self.driver.deep_view(),
            platform_driver: self.platform_driver.deep_view(),
        }
    }
}

impl Record for PowerProfile {
    fn same(&self, other: &Self) -> (same: bool) {
        self.name.same(&other.name)
            && self.driver.same(&other.driver)
            && self.platform_driver.same(&other.platform_driver)
    }

    fn copy(&self) -> (copy: Self) {
        PowerProfile {
            name: self.name.copy(),
            driver: self.driver.copy(),
            platform_driver: self.platform_driver.copy(),
        }
    }
}

impl Clone for PowerProfile {
    fn clone(&self) -> (copy: Self)
        ensures
            copy.deep_view() == self.deep_view(),
    {
        self.copy()
    }
}

impl PowerProfileModel {
    /// What a default [`PowerProfile`] holds.
    pub open spec fn initial() -> PowerProfileModel {
        PowerProfileModel {
            name: Seq::empty(),
            driver: Seq::empty(),
            platform_driver: Seq::empty(),
        }
    }
}

impl Default for PowerProfile {
    fn default() -> (value: PowerProfile)
        ensures
            value.deep_view() == PowerProfileModel::initial(),
    {
        let value = PowerProfile {
            name: String::new(),
            driver: String::new(),
            platform_driver: String::new(),
        };
        assert(value.deep_view() =~= PowerProfileModel::initial());
        value
    }
}

/// Something that the power daemon does along with a profile.
#[derive(Debug, PartialEq, Eq)]
pub struct PowerProfileAction {
    pub name: String,
    pub description: String,
    pub enabled: bool,
}

/// What a [`PowerProfileAction`] holds.
#[verifier::ext_equal]
pub struct PowerProfileActionModel {
    pub name: Seq<char>,
    pub description: Seq<char>,
    pub enabled: bool,
}

impl DeepView for PowerProfileAction {
    type V = PowerProfileActionModel;

    open spec fn deep_view(&self) -> PowerProfileActionModel {
        PowerProfileActionModel {
            name: self.name.deep_view(),
            description: self.description.deep_view(),
            enabled: self.enabled.deep_view(),
        }
    }
}

impl Record for PowerProfileAction {
    fn same(&self, other: &Self) -> (same: bool) {
        self.name.same(&other.name)
            && self.description.same(&other.description)
            && self.enabled.same(&other.enabled)
    }

    fn copy(&self) -> (copy: Self) {
        PowerProfileAction {
            name: self.name.copy(),
            description: self.description.copy(),
            enabled: self.enabled.copy(),
        }
    }
}

impl Clone for PowerProfileAction {
    fn clone(&self) -> (copy: Self)
        ensures
            copy.deep_view() == self.deep_view(),
    {
        self.copy()
    }
}

impl PowerProfileActionModel {
    /// What a default [`PowerProfileAction`] holds.
    pub open spec fn initial() -> PowerProfileActionModel {
        PowerProfileActionModel {
            name: Seq::empty(),
            description: Seq::empty(),
            enabled: false,
        }
    }
}

impl Default for PowerProfileAction {
    fn default() -> (value: PowerProfileAction)
        ensures
            value.deep_view() == PowerProfileActionModel::initial(),
    {
        let value = PowerProfileAction {
            name: String::new(),
            description: String::new(),
            enabled: false,
        };
        assert(value.deep_view() =~= PowerProfileActionModel::initial());
        value
    }
}

/// A program's request to stay on a profile.
#[derive(Debug, PartialEq, Eq)]
pub struct PowerProfileHold {
    pub application_id: String,
    pub profile: String,
    pub reason: String,
}

/// What a [`PowerProfileHold`] holds.
#[verifier::ext_equal]
pub struct PowerProfileHoldModel {
    pub application_id: Seq<char>,
    pub profile: Seq<char>,
    pub reason: Seq<char>,
}

impl DeepView for PowerProfileHold {
    type V = PowerProfileHoldModel;

    open spec fn deep_view(&self) -> PowerProfileHoldModel {
        PowerProfileHoldModel {
            application_id: self.application_id.deep_view(),
            profile: self.profile.deep_view(),
            reason: self.reason.deep_view(),
        }
    }
}

impl Record for PowerProfileHold {
    fn same(&self, other: &Self) -> (same: bool) {
        self.application_id.same(&other.application_id)
            && self.profile.same(&other.profile)
            && self.reason.same(&other.reason)
    }

    fn copy(&self) -> (copy: Self) {
        PowerProfileHold {
            application_id: self.application_id.copy(),
            profile: self.profile.copy(),
            reason: self.reason.copy(),
        }
    }
}

impl Clone for PowerProfileHold {
    fn clone(&self) -> (copy: Self)
        ensures
            copy.deep_view() == self.deep_view(),
    {
        self.copy()
    }
}

impl PowerProfileHoldModel {
    /// What a default [`PowerProfileHold`] holds.
    pub open spec fn initial() -> PowerProfileHoldModel {
        PowerProfileHoldModel {
            application_id: Seq::empty(),
            profile: Seq::empty(),
            reason: Seq::empty(),
        }
    }
}

impl Default for PowerProfileHold {
    fn default() -> (value: PowerProfileHold)
        ensures
            value.deep_view() == PowerProfileHoldModel::initial(),
    {
        let value = PowerProfileHold {
            application_id: String::new(),
            profile: String::new(),
            reason: String::new(),
        };
        assert(value.deep_view() =~= PowerProfileHoldModel::initial());
        value
    }
}

/// What the session can do to sleep, and what keeps it awake.
#[derive(Debug, PartialEq, Eq)]
pub struct PowerSleepState {
    pub available: bool,
    pub can_suspend: String,
    pub can_hibernate: String,
    pub preparing_for_sleep: bool,
    pub lock_before_sleep: bool,
    pub inhibitors: Vec<SleepInhibitor>,
    pub error: Option<String>,
}

/// What a [`PowerSleepState`] holds.
#[verifier::ext_equal]
pub struct PowerSleepStateModel {
    pub available: bool,
    pub can_suspend: Seq<char>,
    pub can_hibernate: Seq<char>,
    pub preparing_for_sleep: bool,
    pub lock_before_sleep: bool,
    pub inhibitors: Seq<SleepInhibitorModel>,
    pub error: Option<Seq<char>>,
}

impl DeepView for PowerSleepState {
    type V = PowerSleepStateModel;

    open spec fn deep_view(&self) -> PowerSleepStateModel {
        PowerSleepStateModel {
            available: self.available.deep_view(),
            can_suspend: self.can_suspend.deep_view(),
            can_hibernate: self.can_hibernate.deep_view(),
            preparing_for_sleep: self.preparing_for_sleep.deep_view(),
            lock_before_sleep: self.lock_before_sleep.deep_view(),
            inhibitors: self.inhibitors.deep_view(),
            error: self.error.deep_view(),
        }
    }
}

impl Record for PowerSleepState {
    fn same(&self, other: &Self) -> (same: bool) {
        self.available.same(&other.available)
            && self.can_suspend.same(&other.can_suspend)
            && self.can_hibernate.same(&other.can_hibernate)
            && self.preparing_for_sleep.same(&other.preparing_for_sleep)
            && self.lock_before_sleep.same(&other.lock_before_sleep)
            && self.inhibitors.same(&other.inhibitors)
            && self.error.same(&other.error)
    }

    fn copy(&self) -> (copy: Self) {
        PowerSleepState {
            available: self.available.copy(),
            can_suspend: self.can_suspend.copy(),
            can_hibernate: self.can_hibernate.copy(),
            preparing_for_sleep: self.preparing_for_sleep.copy(),
            lock_before_sleep: self.lock_before_sleep.copy(),
            inhibitors: self.inhibitors.copy(),
            error: self.error.copy(),
        }
    }
}

impl Clone for PowerSleepState {
    fn clone(&self) -> (copy: Self)
        ensures
            copy.deep_view() == self.deep_view(),
    {
        self.copy()
    }
}

impl PowerSleepStateModel {
    /// What a default [`PowerSleepState`] holds.
    pub open spec fn initial() -> PowerSleepStateModel {
        PowerSleepStateModel {
            available: false,
            can_suspend: Seq::empty(),
            can_hibernate: Seq::empty(),
            preparing_for_sleep: false,
            lock_before_sleep: false,
            inhibitors: Seq::empty(),
            error: None,
        }
    }
}

impl Default for PowerSleepState {
    fn default() -> (value: PowerSleepState)
        ensures
            value.deep_view() == PowerSleepStateModel::initial(),
    {
        let value = PowerSleepState {
            available: false,
            can_suspend: String::new(),
            can_hibernate: String::new(),
            preparing_for_sleep: false,
            lock_before_sleep: false,
            inhibitors: Vec::new(),
            error: None,
        };
        assert(value.deep_view() =~= PowerSleepStateModel::initial());
        value
    }
}

/// A program's request to delay or block sleep.
#[derive(Debug, PartialEq, Eq)]
pub struct SleepInhibitor {
    pub what: String,
    pub who: String,
    pub why: String,
    pub mode: String,
    pub uid: u32,
    pub pid: u32,
}

/// What a [`SleepInhibitor`] holds.
#[verifier::ext_equal]
pub struct SleepInhibitorModel {
    pub what: Seq<char>,
    pub who: Seq<char>,
    pub why: Seq<char>,
    pub mode: Seq<char>,
    pub uid: u32,
    pub pid: u32,
}

impl DeepView for SleepInhibitor {
    type V = SleepInhibitorModel;

    open spec fn deep_view(&self) -> SleepInhibitorModel {
        SleepInhibitorModel {
            what: self.what.deep_view(),
            who: self.who.deep_view(),
            why: self.why.deep_view(),
            mode: self.mode.deep_view(),
            uid: self.uid.deep_view(),
            pid: self.pid.deep_view(),
        }
    }
}

impl Record for SleepInhibitor {
    fn same(&self, other: &Self) -> (same: bool) {
        self.what.same(&other.what)
            && self.who.same(&other.who)
            && self.why.same(&other.why)
            && self.mode.same(&other.mode)
            && self.uid.same(&other.uid)
            && self.pid.same(&other.pid)
    }

    fn copy(&self) -> (copy: Self) {
        SleepInhibitor {
            what: self.what.copy(),
            who: self.who.copy(),
            why: self.why.copy(),
            mode: self.mode.copy(),
            uid: self.uid.copy(),
            pid: self.pid.copy(),
        }
    }
}

impl Clone for SleepInhibitor {
    fn clone(&self) -> (copy: Self)
        ensures
            copy.deep_view() == self.deep_view(),
    {
        self.copy()
    }
}

impl SleepInhibitorModel {
    /// What a default [`SleepInhibitor`] holds.
    pub open spec fn initial() -> SleepInhibitorModel {
        SleepInhibitorModel {
            what: Seq::empty(),
            who: Seq::empty(),
            why: Seq::empty(),
            mode: Seq::empty(),
            uid: 0,
            pid: 0,
        }
    }
}

impl Default for SleepInhibitor {
    fn default() -> (value: SleepInhibitor)
        ensures
            value.deep_view() == SleepInhibitorModel::initial(),
    {
        let value = SleepInhibitor {
            what: String::new(),
            who: String::new(),
            why: String::new(),
            mode: String::new(),
            uid: 0,
            pid: 0,
        };
        assert(value.deep_view() =~= SleepInhibitorModel::initial());
        value
    }
}

/// Keyboard lights and privacy switches.
#[derive(Debug, PartialEq, Eq)]
pub struct OsdHardwareState {
    pub available: bool,
    pub caps_lock: bool,
    pub num_lock: bool,
    pub keyboard_backlight_percent: Option<u8>,
    pub microphone_privacy: bool,
    pub camera_privacy: bool,
    pub error: Option<String>,
}

/// What a [`OsdHardwareState`] holds.
#[verifier::ext_equal]
pub struct OsdHardwareStateModel {
    pub available: bool,
    pub caps_lock: bool,
    pub num_lock: bool,
    pub keyboard_backlight_percent: Option<u8>,
    pub microphone_privacy: bool,
    pub camera_privacy: bool,
    pub error: Option<Seq<char>>,
}

impl DeepView for OsdHardwareState {
    type V = OsdHardwareStateModel;

    open spec fn deep_view(&self) -> OsdHardwareStateModel {
        OsdHardwareStateModel {
            available: self.available.deep_view(),
            caps_lock: self.caps_lock.deep_view(),
            num_lock: self.num_lock.deep_view(),
            keyboard_backlight_percent: self.keyboard_backlight_percent.deep_view(),
            microphone_privacy: self.microphone_privacy.deep_view(),
            camera_privacy: self.camera_privacy.deep_view(),
            error: self.error.deep_view(),
        }
    }
}

impl Record for OsdHardwareState {
    fn same(&self, other: &Self) -> (same: bool) {
        self.available.same(&other.available)
            && self.caps_lock.same(&other.caps_lock)
            && self.num_lock.same(&other.num_lock)
            && self.keyboard_backlight_percent.same(&other.keyboard_backlight_percent)
            && self.microphone_privacy.same(&other.microphone_privacy)
            && self.camera_privacy.same(&other.camera_privacy)
            && self.error.same(&other.error)
    }

    fn copy(&self) -> (copy: Self) {
        OsdHardwareState {
            available: self.available.copy(),
            caps_lock: self.caps_lock.copy(),
            num_lock: self.num_lock.copy(),
            keyboard_backlight_percent: self.keyboard_backlight_percent.copy(),
            microphone_privacy: self.microphone_privacy.copy(),
            camera_privacy: self.camera_privacy.copy(),
            error: self.error.copy(),
        }
    }
}

impl Clone for OsdHardwareState {
    fn clone(&self) -> (copy: Self)
        ensures
            copy.deep_view() == self.deep_view(),
    {
        self.copy()
    }
}

impl OsdHardwareStateModel {
    /// What a default [`OsdHardwareState`] holds.
    pub open spec fn initial() -> OsdHardwareStateModel {
        OsdHardwareStateModel {
            available: false,
            caps_lock: false,
            num_lock: false,
            keyboard_backlight_percent: None,
            microphone_privacy: false,
            camera_privacy: false,
            error: None,
        }
    }
}

impl Default for OsdHardwareState {
    fn default() -> (value: OsdHardwareState)
        ensures
            value.deep_view() == OsdHardwareStateModel::initial(),
    {
        let value = OsdHardwareState {
            available: false,
            caps_lock: false,
            num_lock: false,
            keyboard_backlight_percent: None,
            microphone_privacy: false,
            camera_privacy: false,
            error: None,
        };
        assert(value.deep_view() =~= OsdHardwareStateModel::initial());
        value
    }
}

/// The batteries together, and what is being done with them.
#[derive(Debug, PartialEq, Eq)]
pub struct BatteryState {
    pub available: bool,
    pub native_path: String,
    pub percentage: u8,
    pub state: String,
    pub charging: bool,
    pub plugged: bool,
    pub power_uw: u64,
    pub time_to_empty_seconds: u64,
    pub time_to_full_seconds: u64,
    pub health_percent: Option<u8>,
    pub cycles: Option<u32>,
    pub warning: bool,
    pub critical: bool,
    pub policy: BatteryPolicyState,
    pub operation: BatteryOperationState,
    pub protection: BatteryProtectionState,
    pub devices: Vec<BatteryDeviceState>,
    pub history: BatteryHistoryState,
    pub error: Option<String>,
}

/// What a [`BatteryState`] holds.
#[verifier::ext_equal]
pub struct BatteryStateModel {
    pub available: bool,
    pub native_path: Seq<char>,
    pub percentage: u8,
    pub state: Seq<char>,
    pub charging: bool,
    pub plugged: bool,
    pub power_uw: u64,
    pub time_to_empty_seconds: u64,
    pub time_to_full_seconds: u64,
    pub health_percent: Option<u8>,
    pub cycles: Option<u32>,
    pub warning: bool,
    pub critical: bool,
    pub policy: BatteryPolicyStateModel,
    pub operation: BatteryOperationStateModel,
    pub protection: BatteryProtectionStateModel,
    pub devices: Seq<BatteryDeviceStateModel>,
    pub history: BatteryHistoryStateModel,
    pub error: Option<Seq<char>>,
}

impl DeepView for BatteryState {
    type V = BatteryStateModel;

    open spec fn deep_view(&self) -> BatteryStateModel {
        BatteryStateModel {
            available: self.available.deep_view(),
            native_path: self.native_path.deep_view(),
            percentage: self.percentage.deep_view(),
            state: self.state.deep_view(),
            charging: self.charging.deep_view(),
            plugged: self.plugged.deep_view(),
            power_uw: self.power_uw.deep_view(),
            time_to_empty_seconds: self.time_to_empty_seconds.deep_view(),
            time_to_full_seconds: self.time_to_full_seconds.deep_view(),
            health_percent: self.health_percent.deep_view(),
            cycles: self.cycles.deep_view(),
            warning: self.warning.deep_view(),
            critical: self.critical.deep_view(),
            policy: self.policy.deep_view(),
            operation: self.operation.deep_view(),
            protection: self.protection.deep_view(),
            devices: self.devices.deep_view(),
            history: self.history.deep_view(),
            error: self.error.deep_view(),
        }
    }
}

impl Record for BatteryState {
    fn same(&self, other: &Self) -> (same: bool) {
        self.available.same(&other.available)
            && self.native_path.same(&other.native_path)
            && self.percentage.same(&other.percentage)
            && self.state.same(&other.state)
            && self.charging.same(&other.charging)
            && self.plugged.same(&other.plugged)
            && self.power_uw.same(&other.power_uw)
            && self.time_to_empty_seconds.same(&other.time_to_empty_seconds)
            && self.time_to_full_seconds.same(&other.time_to_full_seconds)
            && self.health_percent.same(&other.health_percent)
            && self.cycles.same(&other.cycles)
            && self.warning.same(&other.warning)
            && self.critical.same(&other.critical)
            && self.policy.same(&other.policy)
            && self.operation.same(&other.operation)
            && self.protection.same(&other.protection)
            && self.devices.same(&other.devices)
            && self.history.same(&other.history)
            && self.error.same(&other.error)
    }

    fn copy(&self) -> (copy: Self) {
        BatteryState {
            available: self.available.copy(),
            native_path: self.native_path.copy(),
            percentage: self.percentage.copy(),
            state: self.state.copy(),
            charging: self.charging.copy(),
            plugged: self.plugged.copy(),
            power_uw: self.power_uw.copy(),
            time_to_empty_seconds: self.time_to_empty_seconds.copy(),
            time_to_full_seconds: self.time_to_full_seconds.copy(),
            health_percent: self.health_percent.copy(),
            cycles: self.cycles.copy(),
            warning: self.warning.copy(),
            critical: self.critical.copy(),
            policy: self.policy.copy(),
            operation: self.operation.copy(),
            protection: self.protection.copy(),
            devices: self.devices.copy(),
            history: self.history.copy(),
            error: self.error.copy(),
        }
    }
}

impl Clone for BatteryState {
    fn clone(&self) -> (copy: Self)
        ensures
            copy.deep_view() == self.deep_view(),
    {
        self.copy()
    }
}

impl BatteryStateModel {
    /// What a default [`BatteryState`] holds.
    pub open spec fn initial() -> BatteryStateModel {
        BatteryStateModel {
            available: false,
            native_path: Seq::empty(),
            percentage: 0,
            state: Seq::empty(),
            charging: false,
            plugged: false,
            power_uw: 0,
            time_to_empty_seconds: 0,
            time_to_full_seconds: 0,
            health_percent: None,
            cycles: None,
            warning: false,
            critical: false,
            policy: BatteryPolicyStateModel::initial(),
            operation: BatteryOperationStateModel::initial(),
            protection: BatteryProtectionStateModel::initial(),
            devices: Seq::empty(),
            history: BatteryHistoryStateModel::initial(),
            error: None,
        }
    }
}

impl Default for BatteryState {
    fn default() -> (value: BatteryState)
        ensures
            value.deep_view() == BatteryStateModel::initial(),
    {
        let value = BatteryState {
            available: false,
            native_path: String::new(),
            percentage: 0,
            state: String::new(),
            charging: false,
            plugged: false,
            power_uw: 0,
            time_to_empty_seconds: 0,
            time_to_full_seconds: 0,
            health_percent: None,
            cycles: None,
            warning: false,
            critical: false,
            policy: BatteryPolicyState::default(),
            operation: BatteryOperationState::default(),
            protection: BatteryProtectionState::default(),
            devices: Vec::new(),
            history: BatteryHistoryState::default(),
            error: None,
        };
        assert(value.deep_view() =~= BatteryStateModel::initial());
        value
    }
}

/// When the user is alerted, and what the daemon does by itself.
#[derive(Debug, PartialEq, Eq)]
pub struct BatteryPolicyState {
    pub warning_percent: u8,
    pub critical_percent: u8,
    pub notify_when_full: bool,
    pub auto_power_saver: bool,
}

/// What a [`BatteryPolicyState`] holds.
#[verifier::ext_equal]
pub struct BatteryPolicyStateModel {
    pub warning_percent: u8,
    pub critical_percent: u8,
    pub notify_when_full: bool,
    pub auto_power_saver: bool,
}

impl DeepView for BatteryPolicyState {
    type V = BatteryPolicyStateModel;

    open spec fn deep_view(&self) -> BatteryPolicyStateModel {
        BatteryPolicyStateModel {
            warning_percent: self.warning_percent.deep_view(),
            critical_percent: self.critical_percent.deep_view(),
            notify_when_full: self.notify_when_full.deep_view(),
            auto_power_saver: self.auto_power_saver.deep_view(),
        }
    }
}

impl Record for BatteryPolicyState {
    fn same(&self, other: &Self) -> (same: bool) {
        self.warning_percent.same(&other.warning_percent)
            && self.critical_percent.same(&other.critical_percent)
            && self.notify_when_full.same(&other.notify_when_full)
            && self.auto_power_saver.same(&other.auto_power_saver)
    }

    fn copy(&self) -> (copy: Self) {
        BatteryPolicyState {
            warning_percent: self.warning_percent.copy(),
            critical_percent: self.critical_percent.copy(),
            notify_when_full: self.notify_when_full.copy(),
            auto_power_saver: self.auto_power_saver.copy(),
        }
    }
}

impl Clone for BatteryPolicyState {
    fn clone(&self) -> (copy: Self)
        ensures
            copy.deep_view() == self.deep_view(),
    {
        self.copy()
    }
}

impl BatteryPolicyStateModel {
    /// What a default [`BatteryPolicyState`] holds.
    pub open spec fn initial() -> BatteryPolicyStateModel {
        BatteryPolicyStateModel {
            warning_percent: 0,
            critical_percent: 0,
            notify_when_full: false,
            auto_power_saver: false,
        }
    }
}

impl Default for BatteryPolicyState {
    fn default() -> (value: BatteryPolicyState)
        ensures
            value.deep_view() == BatteryPolicyStateModel::initial(),
    {
        let value = BatteryPolicyState {
            warning_percent: 0,
            critical_percent: 0,
            notify_when_full: false,
            auto_power_saver: false,
        };
        assert(value.deep_view() =~= BatteryPolicyStateModel::initial());
        value
    }
}

/// An operation on a battery that outlives the daemon.
#[derive(Debug, PartialEq, Eq)]
pub struct BatteryOperationState {
    pub kind: String,
    pub battery_id: String,
    pub phase: String,
    pub started_unix_ms: u64,
    pub expires_unix_ms: u64,
}

/// What a [`BatteryOperationState`] holds.
#[verifier::ext_equal]
pub struct BatteryOperationStateModel {
    pub kind: Seq<char>,
    pub battery_id: Seq<char>,
    pub phase: Seq<char>,
    pub started_unix_ms: u64,
    pub expires_unix_ms: u64,
}

impl DeepView for BatteryOperationState {
    type V = BatteryOperationStateModel;

    open spec fn deep_view(&self) -> BatteryOperationStateModel {
        BatteryOperationStateModel {
            kind: self.kind.deep_view(),
            battery_id: self.battery_id.deep_view(),
            phase: self.phase.deep_view(),
            started_unix_ms: self.started_unix_ms.deep_view(),
            expires_unix_ms: self.expires_unix_ms.deep_view(),
        }
    }
}

impl Record for BatteryOperationState {
    fn same(&self, other: &Self) -> (same: bool) {
        self.kind.same(&other.kind)
            && self.battery_id.same(&other.battery_id)
            && self.phase.same(&other.phase)
            && self.started_unix_ms.same(&other.started_unix_ms)
            && self.expires_unix_ms.same(&other.expires_unix_ms)
    }

    fn copy(&self) -> (copy: Self) {
        BatteryOperationState {
            kind: self.kind.copy(),
            battery_id: self.battery_id.copy(),
            phase: self.phase.copy(),
            started_unix_ms: self.started_unix_ms.copy(),
            expires_unix_ms: self.expires_unix_ms.copy(),
        }
    }
}

impl Clone for BatteryOperationState {
    fn clone(&self) -> (copy: Self)
        ensures
            copy.deep_view() == self.deep_view(),
    {
        self.copy()
    }
}

impl BatteryOperationStateModel {
    /// What a default [`BatteryOperationState`] holds.
    pub open spec fn initial() -> BatteryOperationStateModel {
        BatteryOperationStateModel {
            kind: Seq::empty(),
            battery_id: Seq::empty(),
            phase: Seq::empty(),
            started_unix_ms: 0,
            expires_unix_ms: 0,
        }
    }
}

impl Default for BatteryOperationState {
    fn default() -> (value: BatteryOperationState)
        ensures
            value.deep_view() == BatteryOperationStateModel::initial(),
    {
        let value = BatteryOperationState {
            kind: String::new(),
            battery_id: String::new(),
            phase: String::new(),
            started_unix_ms: 0,
            expires_unix_ms: 0,
        };
        assert(value.deep_view() =~= BatteryOperationStateModel::initial());
        value
    }
}

/// One battery. Energies are in microwatt hours, voltages in microvolts.
#[derive(Debug, PartialEq, Eq)]
pub struct BatteryDeviceState {
    pub id: String,
    pub vendor: String,
    pub model: String,
    pub serial: String,
    pub present: bool,
    pub percentage: u8,
    pub state: String,
    pub power_uw: u64,
    pub energy_now_uwh: Option<u64>,
    pub energy_full_uwh: Option<u64>,
    pub energy_full_design_uwh: Option<u64>,
    pub voltage_uv: Option<u64>,
    pub health_percent: Option<u8>,
    pub cycles: Option<u32>,
    pub protection: BatteryProtectionState,
}

/// What a [`BatteryDeviceState`] holds.
#[verifier::ext_equal]
pub struct BatteryDeviceStateModel {
    pub id: Seq<char>,
    pub vendor: Seq<char>,
    pub model: Seq<char>,
    pub serial: Seq<char>,
    pub present: bool,
    pub percentage: u8,
    pub state: Seq<char>,
    pub power_uw: u64,
    pub energy_now_uwh: Option<u64>,
    pub energy_full_uwh: Option<u64>,
    pub energy_full_design_uwh: Option<u64>,
    pub voltage_uv: Option<u64>,
    pub health_percent: Option<u8>,
    pub cycles: Option<u32>,
    pub protection: BatteryProtectionStateModel,
}

impl DeepView for BatteryDeviceState {
    type V = BatteryDeviceStateModel;

    open spec fn deep_view(&self) -> BatteryDeviceStateModel {
        BatteryDeviceStateModel {
            id: self.id.deep_view(),
            vendor: self.vendor.deep_view(),
            model: self.model.deep_view(),
            serial: self.serial.deep_view(),
            present: self.present.deep_view(),
            percentage: self.percentage.deep_view(),
            state: self.state.deep_view(),
            power_uw: self.power_uw.deep_view(),
            energy_now_uwh: self.energy_now_uwh.deep_view(),
            energy_full_uwh: self.energy_full_uwh.deep_view(),
            energy_full_design_uwh: self.energy_full_design_uwh.deep_view(),
            voltage_uv: self.voltage_uv.deep_view(),
            health_percent: self.health_percent.deep_view(),
            cycles: self.cycles.deep_view(),
            protection: self.protection.deep_view(),
        }
    }
}

impl Record for BatteryDeviceState {
    fn same(&self, other: &Self) -> (same: bool) {
        self.id.same(&other.id)
            && self.vendor.same(&other.vendor)
            && self.model.same(&other.model)
            && self.serial.same(&other.serial)
            && self.present.same(&other.present)
            && self.percentage.same(&other.percentage)
            && self.state.same(&other.state)
            && self.power_uw.same(&other.power_uw)
            && self.energy_now_uwh.same(&other.energy_now_uwh)
            && self.energy_full_uwh.same(&other.energy_full_uwh)
            && self.energy_full_design_uwh.same(&other.energy_full_design_uwh)
            && self.voltage_uv.same(&other.voltage_uv)
            && self.health_percent.same(&other.health_percent)
            && self.cycles.same(&other.cycles)
            && self.protection.same(&other.protection)
    }

    fn copy(&self) -> (copy: Self) {
        BatteryDeviceState {
            id: self.id.copy(),
            vendor: self.vendor.copy(),
            model: self.model.copy(),
            serial: self.serial.copy(),
            present: self.present.copy(),
            percentage: self.percentage.copy(),
            state: self.state.copy(),
            power_uw: self.power_uw.copy(),
            energy_now_uwh: self.energy_now_uwh.copy(),
            energy_full_uwh: self.energy_full_uwh.copy(),
            energy_full_design_uwh: self.energy_full_design_uwh.copy(),
            voltage_uv: self.voltage_uv.copy(),
            health_percent: self.health_percent.copy(),
            cycles: self.cycles.copy(),
            protection: self.protection.copy(),
        }
    }
}

impl Clone for BatteryDeviceState {
    fn clone(&self) -> (copy: Self)
        ensures
            copy.deep_view() == self.deep_view(),
    {
        self.copy()
    }
}

impl BatteryDeviceStateModel {
    /// What a default [`BatteryDeviceState`] holds.
    pub open spec fn initial() -> BatteryDeviceStateModel {
        BatteryDeviceStateModel {
            id: Seq::empty(),
            vendor: Seq::empty(),
            model: Seq::empty(),
            serial: Seq::empty(),
            present: false,
            percentage: 0,
            state: Seq::empty(),
            power_uw: 0,
            energy_now_uwh: None,
            energy_full_uwh: None,
            energy_full_design_uwh: None,
            voltage_uv: None,
            health_percent: None,
            cycles: None,
            protection: BatteryProtectionStateModel::initial(),
        }
    }
}

impl Default for BatteryDeviceState {
    fn default() -> (value: BatteryDeviceState)
        ensures
            value.deep_view() == BatteryDeviceStateModel::initial(),
    {
        let value = BatteryDeviceState {
            id: String::new(),
            vendor: String::new(),
            model: String::new(),
            serial: String::new(),
            present: false,
            percentage: 0,
            state: String::new(),
            power_uw: 0,
            energy_now_uwh: None,
            energy_full_uwh: None,
            energy_full_design_uwh: None,
            voltage_uv: None,
            health_percent: None,
            cycles: None,
            protection: BatteryProtectionState::default(),
        };
        assert(value.deep_view() =~= BatteryDeviceStateModel::initial());
        value
    }
}

/// Charge limits of a battery, as they are and as they should be.
#[derive(Debug, PartialEq, Eq)]
pub struct BatteryProtectionState {
    pub supported: bool,
    pub backend: String,
    pub managed: bool,
    pub enabled: bool,
    pub start_percent: Option<u8>,
    pub end_percent: Option<u8>,
    pub desired_start_percent: Option<u8>,
    pub desired_end_percent: Option<u8>,
    pub desired_enabled: bool,
    pub thresholds_verified: bool,
    pub charge_once_active: bool,
    pub supports_start: bool,
    pub supports_end: bool,
    pub supports_charge_behaviour: bool,
    pub charge_behaviour: Option<String>,
    pub available_behaviours: Vec<String>,
    pub error: Option<String>,
}

/// What a [`BatteryProtectionState`] holds.
#[verifier::ext_equal]
pub struct BatteryProtectionStateModel {
    pub supported: bool,
    pub backend: Seq<char>,
    pub managed: bool,
    pub enabled: bool,
    pub start_percent: Option<u8>,
    pub end_percent: Option<u8>,
    pub desired_start_percent: Option<u8>,
    pub desired_end_percent: Option<u8>,
    pub desired_enabled: bool,
    pub thresholds_verified: bool,
    pub charge_once_active: bool,
    pub supports_start: bool,
    pub supports_end: bool,
    pub supports_charge_behaviour: bool,
    pub charge_behaviour: Option<Seq<char>>,
    pub available_behaviours: Seq<Seq<char>>,
    pub error: Option<Seq<char>>,
}

impl DeepView for BatteryProtectionState {
    type V = BatteryProtectionStateModel;

    open spec fn deep_view(&self) -> BatteryProtectionStateModel {
        BatteryProtectionStateModel {
            supported: self.supported.deep_view(),
            backend: self.backend.deep_view(),
            managed: self.managed.deep_view(),
            enabled: self.enabled.deep_view(),
            start_percent: self.start_percent.deep_view(),
            end_percent: self.end_percent.deep_view(),
            desired_start_percent: self.desired_start_percent.deep_view(),
            desired_end_percent: self.desired_end_percent.deep_view(),
            desired_enabled: self.desired_enabled.deep_view(),
            thresholds_verified: self.thresholds_verified.deep_view(),
            charge_once_active: self.charge_once_active.deep_view(),
            supports_start: self.supports_start.deep_view(),
            supports_end: self.supports_end.deep_view(),
            supports_charge_behaviour: self.supports_charge_behaviour.deep_view(),
            charge_behaviour: self.charge_behaviour.deep_view(),
            available_behaviours: self.available_behaviours.deep_view(),
            error: self.error.deep_view(),
        }
    }
}

impl Record for BatteryProtectionState {
    fn same(&self, other: &Self) -> (same: bool) {
        self.supported.same(&other.supported)
            && self.backend.same(&other.backend)
            && self.managed.same(&other.managed)
            && self.enabled.same(&other.enabled)
            && self.start_percent.same(&other.start_percent)
            && self.end_percent.same(&other.end_percent)
            && self.desired_start_percent.same(&other.desired_start_percent)
            && self.desired_end_percent.same(&other.desired_end_percent)
            && self.desired_enabled.same(&other.desired_enabled)
            && self.thresholds_verified.same(&other.thresholds_verified)
            && self.charge_once_active.same(&other.charge_once_active)
            && self.supports_start.same(&other.supports_start)
            && self.supports_end.same(&other.supports_end)
            && self.supports_charge_behaviour.same(&other.supports_charge_behaviour)
            && self.charge_behaviour.same(&other.charge_behaviour)
            && self.available_behaviours.same(&other.available_behaviours)
            && self.error.same(&other.error)
    }

    fn copy(&self) -> (copy: Self) {
        BatteryProtectionState {
            supported: self.supported.copy(),
            backend: self.backend.copy(),
            managed: self.managed.copy(),
            enabled: self.enabled.copy(),
            start_percent: self.start_percent.copy(),
            end_percent: self.end_percent.copy(),
            desired_start_percent: self.desired_start_percent.copy(),
            desired_end_percent: self.desired_end_percent.copy(),
            desired_enabled: self.desired_enabled.copy(),
            thresholds_verified: self.thresholds_verified.copy(),
            charge_once_active: self.charge_once_active.copy(),
            supports_start: self.supports_start.copy(),
            supports_end: self.supports_end.copy(),
            supports_charge_behaviour: self.supports_charge_behaviour.copy(),
            charge_behaviour: self.charge_behaviour.copy(),
            available_behaviours: self.available_behaviours.copy(),
            error: self.error.copy(),
        }
    }
}

impl Clone for BatteryProtectionState {
    fn clone(&self) -> (copy: Self)
        ensures
            copy.deep_view() == self.deep_view(),
    {
        self.copy()
    }
}

impl BatteryProtectionStateModel {
    /// What a default [`BatteryProtectionState`] holds.
    pub open spec fn initial() -> BatteryProtectionStateModel {
        BatteryProtectionStateModel {
            supported: false,
            backend: Seq::empty(),
            managed: false,
            enabled: false,
            start_percent: None,
            end_percent: None,
            desired_start_percent: None,
            desired_end_percent: None,
            desired_enabled: false,
            thresholds_verified: false,
            charge_once_active: false,
            supports_start: false,
            supports_end: false,
            supports_charge_behaviour: false,
            charge_behaviour: None,
            available_behaviours: Seq::empty(),
            error: None,
        }
    }
}

impl Default for BatteryProtectionState {
    fn default() -> (value: BatteryProtectionState)
        ensures
            value.deep_view() == BatteryProtectionStateModel::initial(),
    {
        let value = BatteryProtectionState {
            supported: false,
            backend: String::new(),
            managed: false,
            enabled: false,
            start_percent: None,
            end_percent: None,
            desired_start_percent: None,
            desired_end_percent: None,
            desired_enabled: false,
            thresholds_verified: false,
            charge_once_active: false,
            supports_start: false,
            supports_end: false,
            supports_charge_behaviour: false,
            charge_behaviour: None,
            available_behaviours: Vec::new(),
            error: None,
        };
        assert(value.deep_view() =~= BatteryProtectionStateModel::initial());
        value
    }
}

/// The course of the battery over the last days.
#[derive(Debug, PartialEq, Eq)]
pub struct BatteryHistoryState {
    pub retention_days: u8,
    pub last_charge_timestamp_ms: u64,
    pub latest_timestamp_ms: u64,
    pub active_duration_ms: u64,
    pub points: Vec<BatteryHistoryPoint>,
}

/// What a [`BatteryHistoryState`] holds.
#[verifier::ext_equal]
pub struct BatteryHistoryStateModel {
    pub retention_days: u8,
    pub last_charge_timestamp_ms: u64,
    pub latest_timestamp_ms: u64,
    pub active_duration_ms: u64,
    pub points: Seq<BatteryHistoryPointModel>,
}

impl DeepView for BatteryHistoryState {
    type V = BatteryHistoryStateModel;

    open spec fn deep_view(&self) -> BatteryHistoryStateModel {
        BatteryHistoryStateModel {
            retention_days: self.retention_days.deep_view(),
            last_charge_timestamp_ms: self.last_charge_timestamp_ms.deep_view(),
            latest_timestamp_ms: self.latest_timestamp_ms.deep_view(),
            active_duration_ms: self.active_duration_ms.deep_view(),
            points: self.points.deep_view(),
        }
    }
}

impl Record for BatteryHistoryState {
    fn same(&self, other: &Self) -> (same: bool) {
        self.retention_days.same(&other.retention_days)
            && self.last_charge_timestamp_ms.same(&other.last_charge_timestamp_ms)
            && self.latest_timestamp_ms.same(&other.latest_timestamp_ms)
            && self.active_duration_ms.same(&other.active_duration_ms)
            && self.points.same(&other.points)
    }

    fn copy(&self) -> (copy: Self) {
        BatteryHistoryState {
            retention_days: self.retention_days.copy(),
            last_charge_timestamp_ms: self.last_charge_timestamp_ms.copy(),
            latest_timestamp_ms: self.latest_timestamp_ms.copy(),
            active_duration_ms: self.active_duration_ms.copy(),
            points: self.points.copy(),
        }
    }
}

impl Clone for BatteryHistoryState {
    fn clone(&self) -> (copy: Self)
        ensures
            copy.deep_view() == self.deep_view(),
    {
        self.copy()
    }
}

impl BatteryHistoryStateModel {
    /// What a default [`BatteryHistoryState`] holds.
    pub open spec fn initial() -> BatteryHistoryStateModel {
        BatteryHistoryStateModel {
            retention_days: 0,
            last_charge_timestamp_ms: 0,
            latest_timestamp_ms: 0,
            active_duration_ms: 0,
            points: Seq::empty(),
        }
    }
}

impl Default for BatteryHistoryState {
    fn default() -> (value: BatteryHistoryState)
        ensures
            value.deep_view() == BatteryHistoryStateModel::initial(),
    {
        let value = BatteryHistoryState {
            retention_days: 0,
            last_charge_timestamp_ms: 0,
            latest_timestamp_ms: 0,
            active_duration_ms: 0,
            points: Vec::new(),
        };
        assert(value.deep_view() =~= BatteryHistoryStateModel::initial());
        value
    }
}

/// The battery at one time. Power is in hundredths of a watt.
#[derive(Debug, PartialEq, Eq)]
pub struct BatteryHistoryPoint {
    pub timestamp_ms: u64,
    pub active_time_ms: u64,
    pub continuous: bool,
    pub mode: String,
    pub percentage: u8,
    pub power_centiwatts: u64,
    pub time_to_full_seconds: Option<u64>,
    pub charging: bool,
    pub plugged: bool,
}

/// What a [`BatteryHistoryPoint`] holds.
#[verifier::ext_equal]
pub struct BatteryHistoryPointModel {
    pub timestamp_ms: u64,
    pub active_time_ms: u64,
    pub continuous: bool,
    pub mode: Seq<char>,
    pub percentage: u8,
    pub power_centiwatts: u64,
    pub time_to_full_seconds: Option<u64>,
    pub charging: bool,
    pub plugged: bool,
}

impl DeepView for BatteryHistoryPoint {
    type V = BatteryHistoryPointModel;

    open spec fn deep_view(&self) -> BatteryHistoryPointModel {
        BatteryHistoryPointModel {
            timestamp_ms: self.timestamp_ms.deep_view(),
            active_time_ms: self.active_time_ms.deep_view(),
            continuous: self.continuous.deep_view(),
            mode: self.mode.deep_view(),
            percentage: self.percentage.deep_view(),
            power_centiwatts: self.power_centiwatts.deep_view(),
            time_to_full_seconds: self.time_to_full_seconds.deep_view(),
            charging: self.charging.deep_view(),
            plugged: self.plugged.deep_view(),
        }
    }
}

impl Record for BatteryHistoryPoint {
    fn same(&self, other: &Self) -> (same: bool) {
        self.timestamp_ms.same(&other.timestamp_ms)
            && self.active_time_ms.same(&other.active_time_ms)
            && self.continuous.same(&other.continuous)
            && self.mode.same(&other.mode)
            && self.percentage.same(&other.percentage)
            && self.power_centiwatts.same(&other.power_centiwatts)
            && self.time_to_full_seconds.same(&other.time_to_full_seconds)
            && self.charging.same(&other.charging)
            && self.plugged.same(&other.plugged)
    }

    fn copy(&self) -> (copy: Self) {
        BatteryHistoryPoint {
            timestamp_ms: self.timestamp_ms.copy(),
            active_time_ms: self.active_time_ms.copy(),
            continuous: self.continuous.copy(),
            mode: self.mode.copy(),
            percentage: self.percentage.copy(),
            power_centiwatts: self.power_centiwatts.copy(),
            time_to_full_seconds: self.time_to_full_seconds.copy(),
            charging: self.charging.copy(),
            plugged: self.plugged.copy(),
        }
    }
}

impl Clone for BatteryHistoryPoint {
    fn clone(&self) -> (copy: Self)
        ensures
            copy.deep_view() == self.deep_view(),
    {
        self.copy()
    }
}

impl BatteryHistoryPointModel {
    /// What a default [`BatteryHistoryPoint`] holds.
    pub open spec fn initial() -> BatteryHistoryPointModel {
        BatteryHistoryPointModel {
            timestamp_ms: 0,
            active_time_ms: 0,
            continuous: false,
            mode: Seq::empty(),
            percentage: 0,
            power_centiwatts: 0,
            time_to_full_seconds: None,
            charging: false,
            plugged: false,
        }
    }
}

impl Default for BatteryHistoryPoint {
    fn default() -> (value: BatteryHistoryPoint)
        ensures
            value.deep_view() == BatteryHistoryPointModel::initial(),
    {
        let value = BatteryHistoryPoint {
            timestamp_ms: 0,
            active_time_ms: 0,
            continuous: false,
            mode: String::new(),
            percentage: 0,
            power_centiwatts: 0,
            time_to_full_seconds: None,
            charging: false,
            plugged: false,
        };
        assert(value.deep_view() =~= BatteryHistoryPointModel::initial());
        value
    }
}

/// The backlight of the display.
#[derive(Debug, PartialEq, Eq)]
pub struct BrightnessState {
    pub available: bool,
    pub device: String,
    pub brightness: u64,
    pub max_brightness: u64,
    pub percent: u8,
    pub error: Option<String>,
}

/// What a [`BrightnessState`] holds.
#[verifier::ext_equal]
pub struct BrightnessStateModel {
    pub available: bool,
    pub device: Seq<char>,
    pub brightness: u64,
    pub max_brightness: u64,
    pub percent: u8,
    pub error: Option<Seq<char>>,
}

impl DeepView for BrightnessState {
    type V = BrightnessStateModel;

    open spec fn deep_view(&self) -> BrightnessStateModel {
        BrightnessStateModel {
            available: self.available.deep_view(),
            device: self.device.deep_view(),
            brightness: self.brightness.deep_view(),
            max_brightness: self.max_brightness.deep_view(),
            percent: self.percent.deep_view(),
            error: self.error.deep_view(),
        }
    }
}

impl Record for BrightnessState {
    fn same(&self, other: &Self) -> (same: bool) {
        self.available.same(&other.available)
            && self.device.same(&other.device)
            && self.brightness.same(&other.brightness)
            && self.max_brightness.same(&other.max_brightness)
            && self.percent.same(&other.percent)
            && self.error.same(&other.error)
    }

    fn copy(&self) -> (copy: Self) {
        BrightnessState {
            available: self.available.copy(),
            device: self.device.copy(),
            brightness: self.brightness.copy(),
            max_brightness: self.max_brightness.copy(),
            percent: self.percent.copy(),
            error: self.error.copy(),
        }
    }
}

impl Clone for BrightnessState {
    fn clone(&self) -> (copy: Self)
        ensures
            copy.deep_view() == self.deep_view(),
    {
        self.copy()
    }
}

impl BrightnessStateModel {
    /// What a default [`BrightnessState`] holds.
    pub open spec fn initial() -> BrightnessStateModel {
        BrightnessStateModel {
            available: false,
            device: Seq::empty(),
            brightness: 0,
            max_brightness: 0,
            percent: 0,
            error: None,
        }
    }
}

impl Default for BrightnessState {
    fn default() -> (value: BrightnessState)
        ensures
            value.deep_view() == BrightnessStateModel::initial(),
    {
        let value = BrightnessState {
            available: false,
            device: String::new(),
            brightness: 0,
            max_brightness: 0,
            percent: 0,
            error: None,
        };
        assert(value.deep_view() =~= BrightnessStateModel::initial());
        value
    }
}

/// The default output and input.
#[derive(Debug, PartialEq, Eq)]
pub struct AudioState {
    pub available: bool,
    pub sink_name: String,
    pub sink_description: String,
    pub volume_percent: u8,
    pub muted: bool,
    pub input_available: bool,
    pub source_name: String,
    pub source_description: String,
    pub input_muted: bool,
    pub error: Option<String>,
}

/// What a [`AudioState`] holds.
#[verifier::ext_equal]
pub struct AudioStateModel {
    pub available: bool,
    pub sink_name: Seq<char>,
    pub sink_description: Seq<char>,
    pub volume_percent: u8,
    pub muted: bool,
    pub input_available: bool,
    pub source_name: Seq<char>,
    pub source_description: Seq<char>,
    pub input_muted: bool,
    pub error: Option<Seq<char>>,
}

impl DeepView for AudioState {
    type V = AudioStateModel;

    open spec fn deep_view(&self) -> AudioStateModel {
        AudioStateModel {
            available: self.available.deep_view(),
            sink_name: self.sink_name.deep_view(),
            sink_description: self.sink_description.deep_view(),
            volume_percent: self.volume_percent.deep_view(),
            muted: self.muted.deep_view(),
            input_available: self.input_available.deep_view(),
            source_name: self.source_name.deep_view(),
            source_description: self.source_description.deep_view(),
            input_muted: self.input_muted.deep_view(),
            error: self.error.deep_view(),
        }
    }
}

impl Record for AudioState {
    fn same(&self, other: &Self) -> (same: bool) {
        self.available.same(&other.available)
            && self.sink_name.same(&other.sink_name)
            && self.sink_description.same(&other.sink_description)
            && self.volume_percent.same(&other.volume_percent)
            && self.muted.same(&other.muted)
            && self.input_available.same(&other.input_available)
            && self.source_name.same(&other.source_name)
            && self.source_description.same(&other.source_description)
            && self.input_muted.same(&other.input_muted)
            && self.error.same(&other.error)
    }

    fn copy(&self) -> (copy: Self) {
        AudioState {
            available: self.available.copy(),
            sink_name: self.sink_name.copy(),
            sink_description: self.sink_description.copy(),
            volume_percent: self.volume_percent.copy(),
            muted: self.muted.copy(),
            input_available: self.input_available.copy(),
            source_name: self.source_name.copy(),
            source_description: self.source_description.copy(),
            input_muted: self.input_muted.copy(),
            error: self.error.copy(),
        }
    }
}

impl Clone for AudioState {
    fn clone(&self) -> (copy: Self)
        ensures
            copy.deep_view() == self.deep_view(),
    {
        self.copy()
    }
}

impl AudioStateModel {
    /// What a default [`AudioState`] holds.
    pub open spec fn initial() -> AudioStateModel {
        AudioStateModel {
            available: false,
            sink_name: Seq::empty(),
            sink_description: Seq::empty(),
            volume_percent: 0,
            muted: false,
            input_available: false,
            source_name: Seq::empty(),
            source_description: Seq::empty(),
            input_muted: false,
            error: None,
        }
    }
}

impl Default for AudioState {
    fn default() -> (value: AudioState)
        ensures
            value.deep_view() == AudioStateModel::initial(),
    {
        let value = AudioState {
            available: false,
            sink_name: String::new(),
            sink_description: String::new(),
            volume_percent: 0,
            muted: false,
            input_available: false,
            source_name: String::new(),
            source_description: String::new(),
            input_muted: false,
            error: None,
        };
        assert(value.deep_view() =~= AudioStateModel::initial());
        value
    }
}

/// Media players of the session.
#[derive(Debug, PartialEq, Eq)]
pub struct MediaState {
    pub available: bool,
    pub active_player: Option<String>,
    pub players: Vec<MediaPlayer>,
    pub error: Option<String>,
}

/// What a [`MediaState`] holds.
#[verifier::ext_equal]
pub struct MediaStateModel {
    pub available: bool,
    pub active_player: Option<Seq<char>>,
    pub players: Seq<MediaPlayerModel>,
    pub error: Option<Seq<char>>,
}

impl DeepView for MediaState {
    type V = MediaStateModel;

    open spec fn deep_view(&self) -> MediaStateModel {
        MediaStateModel {
            available: self.available.deep_view(),
            active_player: self.active_player.deep_view(),
            players: self.players.deep_view(),
            error: self.error.deep_view(),
        }
    }
}

impl Record for MediaState {
    fn same(&self, other: &Self) -> (same: bool) {
        self.available.same(&other.available)
            && self.active_player.same(&other.active_player)
            && self.players.same(&other.players)
            && self.error.same(&other.error)
    }

    fn copy(&self) -> (copy: Self) {
        MediaState {
            available: self.available.copy(),
            active_player: self.active_player.copy(),
            players: self.players.copy(),
            error: self.error.copy(),
        }
    }
}

impl Clone for MediaState {
    fn clone(&self) -> (copy: Self)
        ensures
            copy.deep_view() == self.deep_view(),
    {
        self.copy()
    }
}

impl MediaStateModel {
    /// What a default [`MediaState`] holds.
    pub open spec fn initial() -> MediaStateModel {
        MediaStateModel {
            available: false,
            active_player: None,
            players: Seq::empty(),
            error: None,
        }
    }
}

impl Default for MediaState {
    fn default() -> (value: MediaState)
        ensures
            value.deep_view() == MediaStateModel::initial(),
    {
        let value = MediaState {
            available: false,
            active_player: None,
            players: Vec::new(),
            error: None,
        };
        assert(value.deep_view() =~= MediaStateModel::initial());
        value
    }
}

/// One media player.
#[derive(Debug, PartialEq, Eq)]
pub struct MediaPlayer {
    pub id: String,
    pub identity: String,
    pub desktop_entry: String,
    pub playback_status: String,
    pub title: String,
    pub artist: String,
    pub album: String,
    pub art_url: String,
    pub length_us: u64,
    pub position_us: u64,
    pub position_observed_at_unix_ms: u64,
    pub playback_rate: Measure,
    pub can_control: bool,
    pub can_play: bool,
    pub can_pause: bool,
    pub can_next: bool,
    pub can_previous: bool,
}

/// What a [`MediaPlayer`] holds.
#[verifier::ext_equal]
pub struct MediaPlayerModel {
    pub id: Seq<char>,
    pub identity: Seq<char>,
    pub desktop_entry: Seq<char>,
    pub playback_status: Seq<char>,
    pub title: Seq<char>,
    pub artist: Seq<char>,
    pub album: Seq<char>,
    pub art_url: Seq<char>,
    pub length_us: u64,
    pub position_us: u64,
    pub position_observed_at_unix_ms: u64,
    pub playback_rate: Measure,
    pub can_control: bool,
    pub can_play: bool,
    pub can_pause: bool,
    pub can_next: bool,
    pub can_previous: bool,
}

impl DeepView for MediaPlayer {
    type V = MediaPlayerModel;

    open spec fn deep_view(&self) -> MediaPlayerModel {
        MediaPlayerModel {
            id: self.id.deep_view(),
            identity: self.identity.deep_view(),
            desktop_entry: self.desktop_entry.deep_view(),
            playback_status: self.playback_status.deep_view(),
            title: self.title.deep_view(),
            artist: self.artist.deep_view(),
            album: self.album.deep_view(),
            art_url: self.art_url.deep_view(),
            length_us: self.length_us.deep_view(),
            position_us: self.position_us.deep_view(),
            position_observed_at_unix_ms: self.position_observed_at_unix_ms.deep_view(),
            playback_rate: self.playback_rate.deep_view(),
            can_control: self.can_control.deep_view(),
            can_play: self.can_play.deep_view(),
            can_pause: self.can_pause.deep_view(),
            can_next: self.can_next.deep_view(),
            can_previous: self.can_previous.deep_view(),
        }
    }
}

impl Record for MediaPlayer {
    fn same(&self, other: &Self) -> (same: bool) {
        self.id.same(&other.id)
            && self.identity.same(&other.identity)
            && self.desktop_entry.same(&other.desktop_entry)
            && self.playback_status.same(&other.playback_status)
            && self.title.same(&other.title)
            && self.artist.same(&other.artist)
            && self.album.same(&other.album)
            && self.art_url.same(&other.art_url)
            && self.length_us.same(&other.length_us)
            && self.position_us.same(&other.position_us)
            && self.position_observed_at_unix_ms.same(&other.position_observed_at_unix_ms)
            && self.playback_rate.same(&other.playback_rate)
            && self.can_control.same(&other.can_control)
            && self.can_play.same(&other.can_play)
            && self.can_pause.same(&other.can_pause)
            && self.can_next.same(&other.can_next)
            && self.can_previous.same(&other.can_previous)
    }

    fn copy(&self) -> (copy: Self) {
        MediaPlayer {
            id: self.id.copy(),
            identity: self.identity.copy(),
            desktop_entry: self.desktop_entry.copy(),
            playback_status: self.playback_status.copy(),
            title: self.title.copy(),
            artist: self.artist.copy(),
            album: self.album.copy(),
            art_url: self.art_url.copy(),
            length_us: self.length_us.copy(),
            position_us: self.position_us.copy(),
            position_observed_at_unix_ms: self.position_observed_at_unix_ms.copy(),
            playback_rate: self.playback_rate.copy(),
            can_control: self.can_control.copy(),
            can_play: self.can_play.copy(),
            can_pause: self.can_pause.copy(),
            can_next: self.can_next.copy(),
            can_previous: self.can_previous.copy(),
        }
    }
}

impl Clone for MediaPlayer {
    fn clone(&self) -> (copy: Self)
        ensures
            copy.deep_view() == self.deep_view(),
    {
        self.copy()
    }
}

impl MediaPlayerModel {
    /// What a default [`MediaPlayer`] holds.
    pub open spec fn initial() -> MediaPlayerModel {
        MediaPlayerModel {
            id: Seq::empty(),
            identity: Seq::empty(),
            desktop_entry: Seq::empty(),
            playback_status: Seq::empty(),
            title: Seq::empty(),
            artist: Seq::empty(),
            album: Seq::empty(),
            art_url: Seq::empty(),
            length_us: 0,
            position_us: 0,
            position_observed_at_unix_ms: 0,
            playback_rate: Measure::initial(),
            can_control: false,
            can_play: false,
            can_pause: false,
            can_next: false,
            can_previous: false,
        }
    }
}

impl Default for MediaPlayer {
    fn default() -> (value: MediaPlayer)
        ensures
            value.deep_view() == MediaPlayerModel::initial(),
    {
        let value = MediaPlayer {
            id: String::new(),
            identity: String::new(),
            desktop_entry: String::new(),
            playback_status: String::new(),
            title: String::new(),
            artist: String::new(),
            album: String::new(),
            art_url: String::new(),
            length_us: 0,
            position_us: 0,
            position_observed_at_unix_ms: 0,
            playback_rate: Measure::default(),
            can_control: false,
            can_play: false,
            can_pause: false,
            can_next: false,
            can_previous: false,
        };
        assert(value.deep_view() =~= MediaPlayerModel::initial());
        value
    }
}

/// Workspaces, monitors, and the active window.
#[derive(Debug, PartialEq, Eq)]
pub struct WorkspaceState {
    pub available: bool,
    pub focused_monitor: Option<String>,
    pub active_window: Option<ActiveWindow>,
    pub monitors: Vec<MonitorState>,
    pub workspaces: Vec<Workspace>,
    pub error: Option<String>,
}

/// What a [`WorkspaceState`] holds.
#[verifier::ext_equal]
pub struct WorkspaceStateModel {
    pub available: bool,
    pub focused_monitor: Option<Seq<char>>,
    pub active_window: Option<ActiveWindowModel>,
    pub monitors: Seq<MonitorStateModel>,
    pub workspaces: Seq<WorkspaceModel>,
    pub error: Option<Seq<char>>,
}

impl DeepView for WorkspaceState {
    type V = WorkspaceStateModel;

    open spec fn deep_view(&self) -> WorkspaceStateModel {
        WorkspaceStateModel {
            available: self.available.deep_view(),
            focused_monitor: self.focused_monitor.deep_view(),
            active_window: self.active_window.deep_view(),
            monitors: self.monitors.deep_view(),
            workspaces: self.workspaces.deep_view(),
            error: self.error.deep_view(),
        }
    }
}

impl Record for WorkspaceState {
    fn same(&self, other: &Self) -> (same: bool) {
        self.available.same(&other.available)
            && self.focused_monitor.same(&other.focused_monitor)
            && self.active_window.same(&other.active_window)
            && self.monitors.same(&other.monitors)
            && self.workspaces.same(&other.workspaces)
            && self.error.same(&other.error)
    }

    fn copy(&self) -> (copy: Self) {
        WorkspaceState {
            available: self.available.copy(),
            focused_monitor: self.focused_monitor.copy(),
            active_window: self.active_window.copy(),
            monitors: self.monitors.copy(),
            workspaces: self.workspaces.copy(),
            error: self.error.copy(),
        }
    }
}

impl Clone for WorkspaceState {
    fn clone(&self) -> (copy: Self)
        ensures
            copy.deep_view() == self.deep_view(),
    {
        self.copy()
    }
}

impl WorkspaceStateModel {
    /// What a default [`WorkspaceState`] holds.
    pub open spec fn initial() -> WorkspaceStateModel {
        WorkspaceStateModel {
            available: false,
            focused_monitor: None,
            active_window: None,
            monitors: Seq::empty(),
            workspaces: Seq::empty(),
            error: None,
        }
    }
}

impl Default for WorkspaceState {
    fn default() -> (value: WorkspaceState)
        ensures
            value.deep_view() == WorkspaceStateModel::initial(),
    {
        let value = WorkspaceState {
            available: false,
            focused_monitor: None,
            active_window: None,
            monitors: Vec::new(),
            workspaces: Vec::new(),
            error: None,
        };
        assert(value.deep_view() =~= WorkspaceStateModel::initial());
        value
    }
}

/// The window that has the focus.
#[derive(Debug, PartialEq, Eq)]
pub struct ActiveWindow {
    pub address: String,
    pub title: String,
    pub class_name: String,
    pub initial_class: String,
    pub workspace_id: i64,
    pub fullscreen: bool,
    pub floating: bool,
}

/// What a [`ActiveWindow`] holds.
#[verifier::ext_equal]
pub struct ActiveWindowModel {
    pub address: Seq<char>,
    pub title: Seq<char>,
    pub class_name: Seq<char>,
    pub initial_class: Seq<char>,
    pub workspace_id: i64,
    pub fullscreen: bool,
    pub floating: bool,
}

impl DeepView for ActiveWindow {
    type V = ActiveWindowModel;

    open spec fn deep_view(&self) -> ActiveWindowModel {
        ActiveWindowModel {
            address: self.address.deep_view(),
            title: self.title.deep_view(),
            class_name: self.class_name.deep_view(),
            initial_class: self.initial_class.deep_view(),
            workspace_id: self.workspace_id.deep_view(),
            fullscreen: self.fullscreen.deep_view(),
            floating: self.floating.deep_view(),
        }
    }
}

impl Record for ActiveWindow {
    fn same(&self, other: &Self) -> (same: bool) {
        self.address.same(&other.address)
            && self.title.same(&other.title)
            && self.class_name.same(&other.class_name)
            && self.initial_class.same(&other.initial_class)
            && self.workspace_id.same(&other.workspace_id)
            && self.fullscreen.same(&other.fullscreen)
            && self.floating.same(&other.floating)
    }

    fn copy(&self) -> (copy: Self) {
        ActiveWindow {
            address: self.address.copy(),
            title: self.title.copy(),
            class_name: self.class_name.copy(),
            initial_class: self.initial_class.copy(),
            workspace_id: self.workspace_id.copy(),
            fullscreen: self.fullscreen.copy(),
            floating: self.floating.copy(),
        }
    }
}

impl Clone for ActiveWindow {
    fn clone(&self) -> (copy: Self)
        ensures
            copy.deep_view() == self.deep_view(),
    {
        self.copy()
    }
}

/// One monitor.
#[derive(Debug, PartialEq, Eq)]
pub struct MonitorState {
    pub id: i64,
    pub name: String,
    pub focused: bool,
    pub active_workspace_id: i64,
}

/// What a [`MonitorState`] holds.
#[verifier::ext_equal]
pub struct MonitorStateModel {
    pub id: i64,
    pub name: Seq<char>,
    pub focused: bool,
    pub active_workspace_id: i64,
}

impl DeepView for MonitorState {
    type V = MonitorStateModel;

    open spec fn deep_view(&self) -> MonitorStateModel {
        MonitorStateModel {
            id: self.id.deep_view(),
            name: self.name.deep_view(),
            focused: self.focused.deep_view(),
            active_workspace_id: self.active_workspace_id.deep_view(),
        }
    }
}

impl Record for MonitorState {
    fn same(&self, other: &Self) -> (same: bool) {
        self.id.same(&other.id)
            && self.name.same(&other.name)
            && self.focused.same(&other.focused)
            && self.active_workspace_id.same(&other.active_workspace_id)
    }

    fn copy(&self) -> (copy: Self) {
        MonitorState {
            id: self.id.copy(),
            name: self.name.copy(),
            focused: self.focused.copy(),
            active_workspace_id: self.active_workspace_id.copy(),
        }
    }
}

impl Clone for MonitorState {
    fn clone(&self) -> (copy: Self)
        ensures
            copy.deep_view() == self.deep_view(),
    {
        self.copy()
    }
}

/// One workspace.
#[derive(Debug, PartialEq, Eq)]
pub struct Workspace {
    pub id: i64,
    pub name: String,
    pub monitor: String,
    pub windows: u32,
    pub urgent: bool,
    pub fullscreen: bool,
    pub last_window_title: String,
}

/// What a [`Workspace`] holds.
#[verifier::ext_equal]
pub struct WorkspaceModel {
    pub id: i64,
    pub name: Seq<char>,
    pub monitor: Seq<char>,
    pub windows: u32,
    pub urgent: bool,
    pub fullscreen: bool,
    pub last_window_title: Seq<char>,
}

impl DeepView for Workspace {
    type V = WorkspaceModel;

    open spec fn deep_view(&self) -> WorkspaceModel {
        WorkspaceModel {
            id: self.id.deep_view(),
            name: self.name.deep_view(),
            monitor: self.monitor.deep_view(),
            windows: self.windows.deep_view(),
            urgent: self.urgent.deep_view(),
            fullscreen: self.fullscreen.deep_view(),
            last_window_title: self.last_window_title.deep_view(),
        }
    }
}

impl Record for Workspace {
    fn same(&self, other: &Self) -> (same: bool) {
        self.id.same(&other.id)
            && self.name.same(&other.name)
            && self.monitor.same(&other.monitor)
            && self.windows.same(&other.windows)
            && self.urgent.same(&other.urgent)
            && self.fullscreen.same(&other.fullscreen)
            && self.last_window_title.same(&other.last_window_title)
    }

    fn copy(&self) -> (copy: Self) {
        Workspace {
            id: self.id.copy(),
            name: self.name.copy(),
            monitor: self.monitor.copy(),
            windows: self.windows.copy(),
            urgent: self.urgent.copy(),
            fullscreen: self.fullscreen.copy(),
            last_window_title: self.last_window_title.copy(),
        }
    }
}

impl Clone for Workspace {
    fn clone(&self) -> (copy: Self)
        ensures
            copy.deep_view() == self.deep_view(),
    {
        self.copy()
    }
}

} // verus!
