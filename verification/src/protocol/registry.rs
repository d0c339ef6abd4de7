//! Methods and streams of the protocol.

use vstd::prelude::*;

use crate::protocol::stream;
use crate::record::Record;
use crate::text::same_text;

verus! {

/// Stable protocol family name.
pub const NAME: &'static str = "bar-api";

/// Current protocol contract version.
pub const VERSION: u8 = 1;

/// Methods of the protocol.
#[derive(Clone, Copy, Debug, PartialEq, Eq, Structural)]
pub enum Method {
    /// `bar.snapshot`
    BarSnapshot,
    /// `activity.queryRange`
    ActivityQueryRange,
    /// `activity.refresh`
    ActivityRefresh,
    /// `todos.create`
    TodosCreate,
    /// `todos.complete`
    TodosComplete,
    /// `todos.delete`
    TodosDelete,
    /// `workspace.focus`
    WorkspaceFocus,
    /// `media.operation`
    MediaOperation,
    /// `audio.adjust`
    AudioAdjust,
    /// `audio.setMuted`
    AudioSetMuted,
    /// `audio.setInputMuted`
    AudioSetInputMuted,
    /// `brightness.adjust`
    BrightnessAdjust,
    /// `brightness.set`
    BrightnessSet,
    /// `battery.history`
    BatteryHistory,
    /// `battery.setThresholds`
    BatterySetThresholds,
    /// `battery.setProtection`
    BatterySetProtection,
    /// `battery.chargeOnce`
    BatteryChargeOnce,
    /// `battery.setChargingInhibited`
    BatterySetChargingInhibited,
    /// `battery.startCalibration`
    BatteryStartCalibration,
    /// `battery.cancelCalibration`
    BatteryCancelCalibration,
    /// `battery.setAlertPolicy`
    BatterySetAlertPolicy,
    /// `powerProfile.set`
    PowerProfileSet,
    /// `powerProfile.setBatteryAware`
    PowerProfileSetBatteryAware,
    /// `powerProfile.setActionEnabled`
    PowerProfileSetActionEnabled,
    /// `powerSleep.lock`
    PowerSleepLock,
    /// `powerSleep.suspend`
    PowerSleepSuspend,
    /// `powerSleep.hibernate`
    PowerSleepHibernate,
    /// `notifications.togglePanel`
    NotificationsTogglePanel,
    /// `notifications.toggleDnd`
    NotificationsToggleDnd,
    /// `notifications.setDnd`
    NotificationsSetDnd,
    /// `notifications.list`
    NotificationsList,
    /// `notifications.dismiss`
    NotificationsDismiss,
    /// `notifications.clear`
    NotificationsClear,
    /// `notifications.clearGroup`
    NotificationsClearGroup,
    /// `notifications.snooze`
    NotificationsSnooze,
    /// `notifications.invokeAction`
    NotificationsInvokeAction,
    /// `notifications.reply`
    NotificationsReply,
    /// `updates.refresh`
    UpdatesRefresh,
}

impl DeepView for Method {
    type V = Method;

    open spec fn deep_view(&self) -> Method {
        *self
    }
}

impl Record for Method {
    fn same(&self, other: &Self) -> (same: bool) {
        *self == *other
    }

    fn copy(&self) -> (copy: Self) {
        *self
    }
}

/// Event streams of the protocol.
#[derive(Clone, Copy, Debug, PartialEq, Eq, Structural)]
pub enum Stream {
    /// `activity.changed`
    Activity,
    /// `workspaces.changed`
    Workspaces,
    /// `media.changed`
    Media,
    /// `audio.changed`
    Audio,
    /// `brightness.changed`
    Brightness,
    /// `battery.changed`
    Battery,
    /// `power-profile.changed`
    PowerProfile,
    /// `power-sleep.changed`
    PowerSleep,
    /// `osd-hardware.changed`
    OsdHardware,
    /// `notifications.changed`
    Notifications,
    /// `notifications.active.changed`
    NotificationActive,
    /// `updates.changed`
    Updates,
    /// `timezone.changed`
    Timezone,
}

impl DeepView for Stream {
    type V = Stream;

    open spec fn deep_view(&self) -> Stream {
        *self
    }
}

impl Record for Stream {
    fn same(&self, other: &Self) -> (same: bool) {
        *self == *other
    }

    fn copy(&self) -> (copy: Self) {
        *self
    }
}

/// A method with an example of its parameters, as JSON, and the name of what it gives.
#[derive(Debug, PartialEq, Eq)]
pub struct MethodEntry {
    pub name: String,
    pub params: String,
    pub result: String,
}

/// What a [`MethodEntry`] holds.
#[verifier::ext_equal]
pub struct MethodEntryModel {
    pub name: Seq<char>,
    pub params: Seq<char>,
    pub result: Seq<char>,
}

impl DeepView for MethodEntry {
    type V = MethodEntryModel;

    open spec fn deep_view(&self) -> MethodEntryModel {
        MethodEntryModel {
            name: self.name.deep_view(),
            params: self.params.deep_view(),
            result: self.result.deep_view(),
        }
    }
}

impl Record for MethodEntry {
    fn same(&self, other: &Self) -> (same: bool) {
        self.name.same(&other.name)
            && self.params.same(&other.params)
            && self.result.same(&other.result)
    }

    fn copy(&self) -> (copy: Self) {
        MethodEntry {
            name: self.name.copy(),
            params: self.params.copy(),
            result: self.result.copy(),
        }
    }
}

impl Clone for MethodEntry {
    fn clone(&self) -> (copy: Self)
        ensures
            copy.deep_view() == self.deep_view(),
    {
        self.copy()
    }
}

/// A stream with the events that it carries.
#[derive(Debug, PartialEq, Eq)]
pub struct StreamEntry {
    pub name: String,
    pub events: Vec<String>,
}

/// What a [`StreamEntry`] holds.
#[verifier::ext_equal]
pub struct StreamEntryModel {
    pub name: Seq<char>,
    pub events: Seq<Seq<char>>,
}

impl DeepView for StreamEntry {
    type V = StreamEntryModel;

    open spec fn deep_view(&self) -> StreamEntryModel {
        StreamEntryModel {
            name: self.name.deep_view(),
            events: self.events.deep_view(),
        }
    }
}

impl Record for StreamEntry {
    fn same(&self, other: &Self) -> (same: bool) {
        self.name.same(&other.name)
            && self.events.same(&other.events)
    }

    fn copy(&self) -> (copy: Self) {
        StreamEntry {
            name: self.name.copy(),
            events: self.events.copy(),
        }
    }
}

impl Clone for StreamEntry {
    fn clone(&self) -> (copy: Self)
        ensures
            copy.deep_view() == self.deep_view(),
    {
        self.copy()
    }
}

/// All methods and streams of the protocol.
#[derive(Debug, PartialEq, Eq)]
pub struct Registry {
    pub protocol: String,
    pub version: u8,
    pub methods: Vec<MethodEntry>,
    pub streams: Vec<StreamEntry>,
}

/// What a [`Registry`] holds.
#[verifier::ext_equal]
pub struct RegistryModel {
    pub protocol: Seq<char>,
    pub version: u8,
    pub methods: Seq<MethodEntryModel>,
    pub streams: Seq<StreamEntryModel>,
}

impl DeepView for Registry {
    type V = RegistryModel;

    open spec fn deep_view(&self) -> RegistryModel {
        RegistryModel {
            protocol: self.protocol.deep_view(),
            version: self.version.deep_view(),
            methods: self.methods.deep_view(),
            streams: self.streams.deep_view(),
        }
    }
}

impl Record for Registry {
    fn same(&self, other: &Self) -> (same: bool) {
        self.protocol.same(&other.protocol)
            && self.version.same(&other.version)
            && self.methods.same(&other.methods)
            && self.streams.same(&other.streams)
    }

    fn copy(&self) -> (copy: Self) {
        Registry {
            protocol: self.protocol.copy(),
            version: self.version.copy(),
            methods: self.methods.copy(),
            streams: self.streams.copy(),
        }
    }
}

impl Clone for Registry {
    fn clone(&self) -> (copy: Self)
        ensures
            copy.deep_view() == self.deep_view(),
    {
        self.copy()
    }
}

impl Method {
    /// The name that clients call the method by.
    pub open spec fn name_text(self) -> Seq<char> {
        match self {
            Method::BarSnapshot => "bar.snapshot"@,
            Method::ActivityQueryRange => "activity.queryRange"@,
            Method::ActivityRefresh => "activity.refresh"@,
            Method::TodosCreate => "todos.create"@,
            Method::TodosComplete => "todos.complete"@,
            Method::TodosDelete => "todos.delete"@,
            Method::WorkspaceFocus => "workspace.focus"@,
            Method::MediaOperation => "media.operation"@,
            Method::AudioAdjust => "audio.adjust"@,
            Method::AudioSetMuted => "audio.setMuted"@,
            Method::AudioSetInputMuted => "audio.setInputMuted"@,
            Method::BrightnessAdjust => "brightness.adjust"@,
            Method::BrightnessSet => "brightness.set"@,
            Method::BatteryHistory => "battery.history"@,
            Method::BatterySetThresholds => "battery.setThresholds"@,
            Method::BatterySetProtection => "battery.setProtection"@,
            Method::BatteryChargeOnce => "battery.chargeOnce"@,
            Method::BatterySetChargingInhibited => "battery.setChargingInhibited"@,
            Method::BatteryStartCalibration => "battery.startCalibration"@,
            Method::BatteryCancelCalibration => "battery.cancelCalibration"@,
            Method::BatterySetAlertPolicy => "battery.setAlertPolicy"@,
            Method::PowerProfileSet => "powerProfile.set"@,
            Method::PowerProfileSetBatteryAware => "powerProfile.setBatteryAware"@,
            Method::PowerProfileSetActionEnabled => "powerProfile.setActionEnabled"@,
            Method::PowerSleepLock => "powerSleep.lock"@,
            Method::PowerSleepSuspend => "powerSleep.suspend"@,
            Method::PowerSleepHibernate => "powerSleep.hibernate"@,
            Method::NotificationsTogglePanel => "notifications.togglePanel"@,
            Method::NotificationsToggleDnd => "notifications.toggleDnd"@,
            Method::NotificationsSetDnd => "notifications.setDnd"@,
            Method::NotificationsList => "notifications.list"@,
            Method::NotificationsDismiss => "notifications.dismiss"@,
            Method::NotificationsClear => "notifications.clear"@,
            Method::NotificationsClearGroup => "notifications.clearGroup"@,
            Method::NotificationsSnooze => "notifications.snooze"@,
            Method::NotificationsInvokeAction => "notifications.invokeAction"@,
            Method::NotificationsReply => "notifications.reply"@,
            Method::UpdatesRefresh => "updates.refresh"@,
        }
    }

    /// The name that clients call the method by.
    pub fn name(&self) -> (text: &'static str)
        ensures
            text@ == self.name_text(),
    {
        match self {
            Method::BarSnapshot => "bar.snapshot",
            Method::ActivityQueryRange => "activity.queryRange",
            Method::ActivityRefresh => "activity.refresh",
            Method::TodosCreate => "todos.create",
            Method::TodosComplete => "todos.complete",
            Method::TodosDelete => "todos.delete",
            Method::WorkspaceFocus => "workspace.focus",
            Method::MediaOperation => "media.operation",
            Method::AudioAdjust => "audio.adjust",
            Method::AudioSetMuted => "audio.setMuted",
            Method::AudioSetInputMuted => "audio.setInputMuted",
            Method::BrightnessAdjust => "brightness.adjust",
            Method::BrightnessSet => "brightness.set",
            Method::BatteryHistory => "battery.history",
            Method::BatterySetThresholds => "battery.setThresholds",
            Method::BatterySetProtection => "battery.setProtection",
            Method::BatteryChargeOnce => "battery.chargeOnce",
            Method::BatterySetChargingInhibited => "battery.setChargingInhibited",
            Method::BatteryStartCalibration => "battery.startCalibration",
            Method::BatteryCancelCalibration => "battery.cancelCalibration",
            Method::BatterySetAlertPolicy => "battery.setAlertPolicy",
            Method::PowerProfileSet => "powerProfile.set",
            Method::PowerProfileSetBatteryAware => "powerProfile.setBatteryAware",
            Method::PowerProfileSetActionEnabled => "powerProfile.setActionEnabled",
            Method::PowerSleepLock => "powerSleep.lock",
            Method::PowerSleepSuspend => "powerSleep.suspend",
            Method::PowerSleepHibernate => "powerSleep.hibernate",
            Method::NotificationsTogglePanel => "notifications.togglePanel",
            Method::NotificationsToggleDnd => "notifications.toggleDnd",
            Method::NotificationsSetDnd => "notifications.setDnd",
            Method::NotificationsList => "notifications.list",
            Method::NotificationsDismiss => "notifications.dismiss",
            Method::NotificationsClear => "notifications.clear",
            Method::NotificationsClearGroup => "notifications.clearGroup",
            Method::NotificationsSnooze => "notifications.snooze",
            Method::NotificationsInvokeAction => "notifications.invokeAction",
            Method::NotificationsReply => "notifications.reply",
            Method::UpdatesRefresh => "updates.refresh",
        }
    }
}

impl Method {
    /// An example of the parameters, as JSON.
    pub open spec fn params_text(self) -> Seq<char> {
        match self {
            Method::BarSnapshot => "{}"@,
            Method::ActivityQueryRange => "{ \"from_unix_ms\": 1767225600000, \"to_unix_ms\": 1769904000000 }"@,
            Method::ActivityRefresh => "{}"@,
            Method::TodosCreate => "{ \"title\": \"Plan release\", \"due_unix_ms\": null, \"due_date\": \"2026-01-20\", \"priority\": 3 }"@,
            Method::TodosComplete => "{ \"id\": \"local-1\", \"completed\": true }"@,
            Method::TodosDelete => "{ \"id\": \"local-1\" }"@,
            Method::WorkspaceFocus => "{ \"workspace_id\": 1, \"on_current_monitor\": false }"@,
            Method::MediaOperation => "{ \"operation\": \"play-pause\", \"player_id\": null }"@,
            Method::AudioAdjust => "{ \"delta_percent\": 5 }"@,
            Method::AudioSetMuted => "{ \"muted\": null }"@,
            Method::AudioSetInputMuted => "{ \"muted\": null }"@,
            Method::BrightnessAdjust => "{ \"delta_percent\": 5 }"@,
            Method::BrightnessSet => "{ \"percent\": 50 }"@,
            Method::BatteryHistory => "{}"@,
            Method::BatterySetThresholds => "{ \"battery_id\": \"BAT0\", \"start_percent\": 75, \"end_percent\": 80 }"@,
            Method::BatterySetProtection => "{ \"battery_id\": \"BAT0\", \"enabled\": true, \"start_percent\": 75, \"end_percent\": 80 }"@,
            Method::BatteryChargeOnce => "{ \"battery_id\": \"BAT0\" }"@,
            Method::BatterySetChargingInhibited => "{ \"battery_id\": \"BAT0\", \"enabled\": true }"@,
            Method::BatteryStartCalibration => "{ \"battery_id\": \"BAT0\" }"@,
            Method::BatteryCancelCalibration => "{ \"battery_id\": \"BAT0\" }"@,
            Method::BatterySetAlertPolicy => "{ \"warning_percent\": 25, \"critical_percent\": 12, \"notify_when_full\": true, \"auto_power_saver\": true }"@,
            Method::PowerProfileSet => "{ \"profile\": \"balanced\" }"@,
            Method::PowerProfileSetBatteryAware => "{ \"enabled\": true }"@,
            Method::PowerProfileSetActionEnabled => "{ \"action\": \"amdgpu_panel_power\", \"enabled\": true }"@,
            Method::PowerSleepLock => "{}"@,
            Method::PowerSleepSuspend => "{}"@,
            Method::PowerSleepHibernate => "{}"@,
            Method::NotificationsTogglePanel => "{}"@,
            Method::NotificationsToggleDnd => "{}"@,
            Method::NotificationsSetDnd => "{ \"enabled\": true, \"until_unix_ms\": 1768467500000 }"@,
            Method::NotificationsList => "{ \"before_history_id\": null, \"limit\": 50 }"@,
            Method::NotificationsDismiss => "{ \"id\": 1 }"@,
            Method::NotificationsClear => "{}"@,
            Method::NotificationsClearGroup => "{ \"group_key\": \"calendar\" }"@,
            Method::NotificationsSnooze => "{ \"id\": 1, \"until_unix_ms\": 1768467500000 }"@,
            Method::NotificationsInvokeAction => "{ \"id\": 1, \"action_key\": \"default\", \"activation_token\": null }"@,
            Method::NotificationsReply => "{ \"id\": 1, \"text\": \"Reply\" }"@,
            Method::UpdatesRefresh => "{}"@,
        }
    }

    /// An example of the parameters, as JSON.
    pub fn params(&self) -> (text: &'static str)
        ensures
            text@ == self.params_text(),
    {
        match self {
            Method::BarSnapshot => "{}",
            Method::ActivityQueryRange => "{ \"from_unix_ms\": 1767225600000, \"to_unix_ms\": 1769904000000 }",
            Method::ActivityRefresh => "{}",
            Method::TodosCreate => "{ \"title\": \"Plan release\", \"due_unix_ms\": null, \"due_date\": \"2026-01-20\", \"priority\": 3 }",
            Method::TodosComplete => "{ \"id\": \"local-1\", \"completed\": true }",
            Method::TodosDelete => "{ \"id\": \"local-1\" }",
            Method::WorkspaceFocus => "{ \"workspace_id\": 1, \"on_current_monitor\": false }",
            Method::MediaOperation => "{ \"operation\": \"play-pause\", \"player_id\": null }",
            Method::AudioAdjust => "{ \"delta_percent\": 5 }",
            Method::AudioSetMuted => "{ \"muted\": null }",
            Method::AudioSetInputMuted => "{ \"muted\": null }",
            Method::BrightnessAdjust => "{ \"delta_percent\": 5 }",
            Method::BrightnessSet => "{ \"percent\": 50 }",
            Method::BatteryHistory => "{}",
            Method::BatterySetThresholds => "{ \"battery_id\": \"BAT0\", \"start_percent\": 75, \"end_percent\": 80 }",
            Method::BatterySetProtection => "{ \"battery_id\": \"BAT0\", \"enabled\": true, \"start_percent\": 75, \"end_percent\": 80 }",
            Method::BatteryChargeOnce => "{ \"battery_id\": \"BAT0\" }",
            Method::BatterySetChargingInhibited => "{ \"battery_id\": \"BAT0\", \"enabled\": true }",
            Method::BatteryStartCalibration => "{ \"battery_id\": \"BAT0\" }",
            Method::BatteryCancelCalibration => "{ \"battery_id\": \"BAT0\" }",
            Method::BatterySetAlertPolicy => "{ \"warning_percent\": 25, \"critical_percent\": 12, \"notify_when_full\": true, \"auto_power_saver\": true }",
            Method::PowerProfileSet => "{ \"profile\": \"balanced\" }",
            Method::PowerProfileSetBatteryAware => "{ \"enabled\": true }",
            Method::PowerProfileSetActionEnabled => "{ \"action\": \"amdgpu_panel_power\", \"enabled\": true }",
            Method::PowerSleepLock => "{}",
            Method::PowerSleepSuspend => "{}",
            Method::PowerSleepHibernate => "{}",
            Method::NotificationsTogglePanel => "{}",
            Method::NotificationsToggleDnd => "{}",
            Method::NotificationsSetDnd => "{ \"enabled\": true, \"until_unix_ms\": 1768467500000 }",
            Method::NotificationsList => "{ \"before_history_id\": null, \"limit\": 50 }",
            Method::NotificationsDismiss => "{ \"id\": 1 }",
            Method::NotificationsClear => "{}",
            Method::NotificationsClearGroup => "{ \"group_key\": \"calendar\" }",
            Method::NotificationsSnooze => "{ \"id\": 1, \"until_unix_ms\": 1768467500000 }",
            Method::NotificationsInvokeAction => "{ \"id\": 1, \"action_key\": \"default\", \"activation_token\": null }",
            Method::NotificationsReply => "{ \"id\": 1, \"text\": \"Reply\" }",
            Method::UpdatesRefresh => "{}",
        }
    }
}

impl Method {
    /// The name of what the method gives.
    pub open spec fn result_text(self) -> Seq<char> {
        match self {
            Method::BarSnapshot => "snapshot"@,
            Method::ActivityQueryRange => "activity_range"@,
            Method::ActivityRefresh => "activity"@,
            Method::TodosCreate => "todo"@,
            Method::TodosComplete => "todo"@,
            Method::TodosDelete => "deleted"@,
            Method::WorkspaceFocus => "operation"@,
            Method::MediaOperation => "operation"@,
            Method::AudioAdjust => "audio"@,
            Method::AudioSetMuted => "audio"@,
            Method::AudioSetInputMuted => "audio"@,
            Method::BrightnessAdjust => "brightness"@,
            Method::BrightnessSet => "brightness"@,
            Method::BatteryHistory => "history"@,
            Method::BatterySetThresholds => "battery"@,
            Method::BatterySetProtection => "battery"@,
            Method::BatteryChargeOnce => "battery"@,
            Method::BatterySetChargingInhibited => "battery"@,
            Method::BatteryStartCalibration => "battery"@,
            Method::BatteryCancelCalibration => "battery"@,
            Method::BatterySetAlertPolicy => "battery"@,
            Method::PowerProfileSet => "power_profile"@,
            Method::PowerProfileSetBatteryAware => "power_profile"@,
            Method::PowerProfileSetActionEnabled => "power_profile"@,
            Method::PowerSleepLock => "power_sleep"@,
            Method::PowerSleepSuspend => "power_sleep"@,
            Method::PowerSleepHibernate => "power_sleep"@,
            Method::NotificationsTogglePanel => "operation"@,
            Method::NotificationsToggleDnd => "operation"@,
            Method::NotificationsSetDnd => "notifications"@,
            Method::NotificationsList => "notification_history"@,
            Method::NotificationsDismiss => "operation"@,
            Method::NotificationsClear => "operation"@,
            Method::NotificationsClearGroup => "operation"@,
            Method::NotificationsSnooze => "operation"@,
            Method::NotificationsInvokeAction => "operation"@,
            Method::NotificationsReply => "operation"@,
            Method::UpdatesRefresh => "updates"@,
        }
    }

    /// The name of what the method gives.
    pub fn result(&self) -> (text: &'static str)
        ensures
            text@ == self.result_text(),
    {
        match self {
            Method::BarSnapshot => "snapshot",
            Method::ActivityQueryRange => "activity_range",
            Method::ActivityRefresh => "activity",
            Method::TodosCreate => "todo",
            Method::TodosComplete => "todo",
            Method::TodosDelete => "deleted",
            Method::WorkspaceFocus => "operation",
            Method::MediaOperation => "operation",
            Method::AudioAdjust => "audio",
            Method::AudioSetMuted => "audio",
            Method::AudioSetInputMuted => "audio",
            Method::BrightnessAdjust => "brightness",
            Method::BrightnessSet => "brightness",
            Method::BatteryHistory => "history",
            Method::BatterySetThresholds => "battery",
            Method::BatterySetProtection => "battery",
            Method::BatteryChargeOnce => "battery",
            Method::BatterySetChargingInhibited => "battery",
            Method::BatteryStartCalibration => "battery",
            Method::BatteryCancelCalibration => "battery",
            Method::BatterySetAlertPolicy => "battery",
            Method::PowerProfileSet => "power_profile",
            Method::PowerProfileSetBatteryAware => "power_profile",
            Method::PowerProfileSetActionEnabled => "power_profile",
            Method::PowerSleepLock => "power_sleep",
            Method::PowerSleepSuspend => "power_sleep",
            Method::PowerSleepHibernate => "power_sleep",
            Method::NotificationsTogglePanel => "operation",
            Method::NotificationsToggleDnd => "operation",
            Method::NotificationsSetDnd => "notifications",
            Method::NotificationsList => "notification_history",
            Method::NotificationsDismiss => "operation",
            Method::NotificationsClear => "operation",
            Method::NotificationsClearGroup => "operation",
            Method::NotificationsSnooze => "operation",
            Method::NotificationsInvokeAction => "operation",
            Method::NotificationsReply => "operation",
            Method::UpdatesRefresh => "updates",
        }
    }
}

impl Stream {
    /// The name that clients subscribe to the stream by.
    pub open spec fn name_text(self) -> Seq<char> {
        match self {
            Stream::Activity => stream::ACTIVITY@,
            Stream::Workspaces => stream::WORKSPACES@,
            Stream::Media => stream::MEDIA@,
            Stream::Audio => stream::AUDIO@,
            Stream::Brightness => stream::BRIGHTNESS@,
            Stream::Battery => stream::BATTERY@,
            Stream::PowerProfile => stream::POWER_PROFILE@,
            Stream::PowerSleep => stream::POWER_SLEEP@,
            Stream::OsdHardware => stream::OSD_HARDWARE@,
            Stream::Notifications => stream::NOTIFICATIONS@,
            Stream::NotificationActive => stream::NOTIFICATION_ACTIVE@,
            Stream::Updates => stream::UPDATES@,
            Stream::Timezone => stream::TIMEZONE@,
        }
    }

    /// The name that clients subscribe to the stream by.
    pub fn name(&self) -> (text: &'static str)
        ensures
            text@ == self.name_text(),
    {
        match self {
            Stream::Activity => stream::ACTIVITY,
            Stream::Workspaces => stream::WORKSPACES,
            Stream::Media => stream::MEDIA,
            Stream::Audio => stream::AUDIO,
            Stream::Brightness => stream::BRIGHTNESS,
            Stream::Battery => stream::BATTERY,
            Stream::PowerProfile => stream::POWER_PROFILE,
            Stream::PowerSleep => stream::POWER_SLEEP,
            Stream::OsdHardware => stream::OSD_HARDWARE,
            Stream::Notifications => stream::NOTIFICATIONS,
            Stream::NotificationActive => stream::NOTIFICATION_ACTIVE,
            Stream::Updates => stream::UPDATES,
            Stream::Timezone => stream::TIMEZONE,
        }
    }
}

/// All methods in order.
pub open spec fn all_methods() -> Seq<Method> {
    seq![
        Method::BarSnapshot,
        Method::ActivityQueryRange,
        Method::ActivityRefresh,
        Method::TodosCreate,
        Method::TodosComplete,
        Method::TodosDelete,
        Method::WorkspaceFocus,
        Method::MediaOperation,
        Method::AudioAdjust,
        Method::AudioSetMuted,
        Method::AudioSetInputMuted,
        Method::BrightnessAdjust,
        Method::BrightnessSet,
        Method::BatteryHistory,
        Method::BatterySetThresholds,
        Method::BatterySetProtection,
        Method::BatteryChargeOnce,
        Method::BatterySetChargingInhibited,
        Method::BatteryStartCalibration,
        Method::BatteryCancelCalibration,
        Method::BatterySetAlertPolicy,
        Method::PowerProfileSet,
        Method::PowerProfileSetBatteryAware,
        Method::PowerProfileSetActionEnabled,
        Method::PowerSleepLock,
        Method::PowerSleepSuspend,
        Method::PowerSleepHibernate,
        Method::NotificationsTogglePanel,
        Method::NotificationsToggleDnd,
        Method::NotificationsSetDnd,
        Method::NotificationsList,
        Method::NotificationsDismiss,
        Method::NotificationsClear,
        Method::NotificationsClearGroup,
        Method::NotificationsSnooze,
        Method::NotificationsInvokeAction,
        Method::NotificationsReply,
        Method::UpdatesRefresh,
    ]
}

/// All methods in order.
pub fn methods() -> (all: Vec<Method>)
    ensures
        all@ == all_methods(),
{
    let mut all: Vec<Method> = Vec::new();
    all.push(Method::BarSnapshot);
    all.push(Method::ActivityQueryRange);
    all.push(Method::ActivityRefresh);
    all.push(Method::TodosCreate);
    all.push(Method::TodosComplete);
    all.push(Method::TodosDelete);
    all.push(Method::WorkspaceFocus);
    all.push(Method::MediaOperation);
    all.push(Method::AudioAdjust);
    all.push(Method::AudioSetMuted);
    all.push(Method::AudioSetInputMuted);
    all.push(Method::BrightnessAdjust);
    all.push(Method::BrightnessSet);
    all.push(Method::BatteryHistory);
    all.push(Method::BatterySetThresholds);
    all.push(Method::BatterySetProtection);
    all.push(Method::BatteryChargeOnce);
    all.push(Method::BatterySetChargingInhibited);
    all.push(Method::BatteryStartCalibration);
    all.push(Method::BatteryCancelCalibration);
    all.push(Method::BatterySetAlertPolicy);
    all.push(Method::PowerProfileSet);
    all.push(Method::PowerProfileSetBatteryAware);
    all.push(Method::PowerProfileSetActionEnabled);
    all.push(Method::PowerSleepLock);
    all.push(Method::PowerSleepSuspend);
    all.push(Method::PowerSleepHibernate);
    all.push(Method::NotificationsTogglePanel);
    all.push(Method::NotificationsToggleDnd);
    all.push(Method::NotificationsSetDnd);
    all.push(Method::NotificationsList);
    all.push(Method::NotificationsDismiss);
    all.push(Method::NotificationsClear);
    all.push(Method::NotificationsClearGroup);
    all.push(Method::NotificationsSnooze);
    all.push(Method::NotificationsInvokeAction);
    all.push(Method::NotificationsReply);
    all.push(Method::UpdatesRefresh);
    assert(all@ =~= all_methods());
    all
}

/// Every method is in the list, at its place.
proof fn lemma_methods_listed(item: Method)
    ensures
        all_methods().contains(item),
{
    let all = all_methods();
    match item {
        Method::BarSnapshot => assert(all[0] == item),
        Method::ActivityQueryRange => assert(all[1] == item),
        Method::ActivityRefresh => assert(all[2] == item),
        Method::TodosCreate => assert(all[3] == item),
        Method::TodosComplete => assert(all[4] == item),
        Method::TodosDelete => assert(all[5] == item),
        Method::WorkspaceFocus => assert(all[6] == item),
        Method::MediaOperation => assert(all[7] == item),
        Method::AudioAdjust => assert(all[8] == item),
        Method::AudioSetMuted => assert(all[9] == item),
        Method::AudioSetInputMuted => assert(all[10] == item),
        Method::BrightnessAdjust => assert(all[11] == item),
        Method::BrightnessSet => assert(all[12] == item),
        Method::BatteryHistory => assert(all[13] == item),
        Method::BatterySetThresholds => assert(all[14] == item),
        Method::BatterySetProtection => assert(all[15] == item),
        Method::BatteryChargeOnce => assert(all[16] == item),
        Method::BatterySetChargingInhibited => assert(all[17] == item),
        Method::BatteryStartCalibration => assert(all[18] == item),
        Method::BatteryCancelCalibration => assert(all[19] == item),
        Method::BatterySetAlertPolicy => assert(all[20] == item),
        Method::PowerProfileSet => assert(all[21] == item),
        Method::PowerProfileSetBatteryAware => assert(all[22] == item),
        Method::PowerProfileSetActionEnabled => assert(all[23] == item),
        Method::PowerSleepLock => assert(all[24] == item),
        Method::PowerSleepSuspend => assert(all[25] == item),
        Method::PowerSleepHibernate => assert(all[26] == item),
        Method::NotificationsTogglePanel => assert(all[27] == item),
        Method::NotificationsToggleDnd => assert(all[28] == item),
        Method::NotificationsSetDnd => assert(all[29] == item),
        Method::NotificationsList => assert(all[30] == item),
        Method::NotificationsDismiss => assert(all[31] == item),
        Method::NotificationsClear => assert(all[32] == item),
        Method::NotificationsClearGroup => assert(all[33] == item),
        Method::NotificationsSnooze => assert(all[34] == item),
        Method::NotificationsInvokeAction => assert(all[35] == item),
        Method::NotificationsReply => assert(all[36] == item),
        Method::UpdatesRefresh => assert(all[37] == item),
    }
}

/// All streams in order.
pub open spec fn all_streams() -> Seq<Stream> {
    seq![
        Stream::Activity,
        Stream::Workspaces,
        Stream::Media,
        Stream::Audio,
        Stream::Brightness,
        Stream::Battery,
        Stream::PowerProfile,
        Stream::PowerSleep,
        Stream::OsdHardware,
        Stream::Notifications,
        Stream::NotificationActive,
        Stream::Updates,
        Stream::Timezone,
    ]
}

/// All streams in order.
pub fn streams() -> (all: Vec<Stream>)
    ensures
        all@ == all_streams(),
{
    let mut all: Vec<Stream> = Vec::new();
    all.push(Stream::Activity);
    all.push(Stream::Workspaces);
    all.push(Stream::Media);
    all.push(Stream::Audio);
    all.push(Stream::Brightness);
    all.push(Stream::Battery);
    all.push(Stream::PowerProfile);
    all.push(Stream::PowerSleep);
    all.push(Stream::OsdHardware);
    all.push(Stream::Notifications);
    all.push(Stream::NotificationActive);
    all.push(Stream::Updates);
    all.push(Stream::Timezone);
    assert(all@ =~= all_streams());
    all
}

/// Every stream is in the list, at its place.
proof fn lemma_streams_listed(item: Stream)
    ensures
        all_streams().contains(item),
{
    let all = all_streams();
    match item {
        Stream::Activity => assert(all[0] == item),
        Stream::Workspaces => assert(all[1] == item),
        Stream::Media => assert(all[2] == item),
        Stream::Audio => assert(all[3] == item),
        Stream::Brightness => assert(all[4] == item),
        Stream::Battery => assert(all[5] == item),
        Stream::PowerProfile => assert(all[6] == item),
        Stream::PowerSleep => assert(all[7] == item),
        Stream::OsdHardware => assert(all[8] == item),
        Stream::Notifications => assert(all[9] == item),
        Stream::NotificationActive => assert(all[10] == item),
        Stream::Updates => assert(all[11] == item),
        Stream::Timezone => assert(all[12] == item),
    }
}

/// No two methods have the same name.
pub proof fn method_names_are_distinct(a: Method, b: Method)
    requires
        a.name_text() == b.name_text(),
    ensures
        a == b,
{
    reveal_strlit("bar.snapshot");
    assert("bar.snapshot"@.len() == 12);
    reveal_strlit("activity.queryRange");
    assert("activity.queryRange"@.len() == 19);
    reveal_strlit("activity.refresh");
    assert("activity.refresh"@.len() == 16);
    reveal_strlit("todos.create");
    assert("todos.create"@.len() == 12);
    reveal_strlit("todos.complete");
    assert("todos.complete"@.len() == 14);
    reveal_strlit("todos.delete");
    assert("todos.delete"@.len() == 12);
    reveal_strlit("workspace.focus");
    assert("workspace.focus"@.len() == 15);
    reveal_strlit("media.operation");
    assert("media.operation"@.len() == 15);
    reveal_strlit("audio.adjust");
    assert("audio.adjust"@.len() == 12);
    reveal_strlit("audio.setMuted");
    assert("audio.setMuted"@.len() == 14);
    reveal_strlit("audio.setInputMuted");
    assert("audio.setInputMuted"@.len() == 19);
    reveal_strlit("brightness.adjust");
    assert("brightness.adjust"@.len() == 17);
    reveal_strlit("brightness.set");
    assert("brightness.set"@.len() == 14);
    reveal_strlit("battery.history");
    assert("battery.history"@.len() == 15);
    reveal_strlit("battery.setThresholds");
    assert("battery.setThresholds"@.len() == 21);
    reveal_strlit("battery.setProtection");
    assert("battery.setProtection"@.len() == 21);
    reveal_strlit("battery.chargeOnce");
    assert("battery.chargeOnce"@.len() == 18);
    reveal_strlit("battery.setChargingInhibited");
    assert("battery.setChargingInhibited"@.len() == 28);
    reveal_strlit("battery.startCalibration");
    assert("battery.startCalibration"@.len() == 24);
    reveal_strlit("battery.cancelCalibration");
    assert("battery.cancelCalibration"@.len() == 25);
    reveal_strlit("battery.setAlertPolicy");
    assert("battery.setAlertPolicy"@.len() == 22);
    reveal_strlit("powerProfile.set");
    assert("powerProfile.set"@.len() == 16);
    reveal_strlit("powerProfile.setBatteryAware");
    assert("powerProfile.setBatteryAware"@.len() == 28);
    reveal_strlit("powerProfile.setActionEnabled");
    assert("powerProfile.setActionEnabled"@.len() == 29);
    reveal_strlit("powerSleep.lock");
    assert("powerSleep.lock"@.len() == 15);
    reveal_strlit("powerSleep.suspend");
    assert("powerSleep.suspend"@.len() == 18);
    reveal_strlit("powerSleep.hibernate");
    assert("powerSleep.hibernate"@.len() == 20);
    reveal_strlit("notifications.togglePanel");
    assert("notifications.togglePanel"@.len() == 25);
    reveal_strlit("notifications.toggleDnd");
    assert("notifications.toggleDnd"@.len() == 23);
    reveal_strlit("notifications.setDnd");
    assert("notifications.setDnd"@.len() == 20);
    reveal_strlit("notifications.list");
    assert("notifications.list"@.len() == 18);
    reveal_strlit("notifications.dismiss");
    assert("notifications.dismiss"@.len() == 21);
    reveal_strlit("notifications.clear");
    assert("notifications.clear"@.len() == 19);
    reveal_strlit("notifications.clearGroup");
    assert("notifications.clearGroup"@.len() == 24);
    reveal_strlit("notifications.snooze");
    assert("notifications.snooze"@.len() == 20);
    reveal_strlit("notifications.invokeAction");
    assert("notifications.invokeAction"@.len() == 26);
    reveal_strlit("notifications.reply");
    assert("notifications.reply"@.len() == 19);
    reveal_strlit("updates.refresh");
    assert("updates.refresh"@.len() == 15);
    assert("bar.snapshot"@[0] != "todos.create"@[0]);
    assert("bar.snapshot"@[0] != "todos.delete"@[0]);
    assert("todos.create"@[6] != "todos.delete"@[6]);
    assert("workspace.focus"@[0] != "media.operation"@[0]);
    assert("bar.snapshot"@[0] != "audio.adjust"@[0]);
    assert("todos.create"@[0] != "audio.adjust"@[0]);
    assert("todos.delete"@[0] != "audio.adjust"@[0]);
    assert("todos.complete"@[0] != "audio.setMuted"@[0]);
    assert("activity.queryRange"@[1] != "audio.setInputMuted"@[1]);
    assert("todos.complete"@[0] != "brightness.set"@[0]);
    assert("audio.setMuted"@[0] != "brightness.set"@[0]);
    assert("workspace.focus"@[0] != "battery.history"@[0]);
    assert("media.operation"@[0] != "battery.history"@[0]);
    assert("battery.setThresholds"@[11] != "battery.setProtection"@[11]);
    assert("activity.refresh"@[0] != "powerProfile.set"@[0]);
    assert("battery.setChargingInhibited"@[0] != "powerProfile.setBatteryAware"@[0]);
    assert("workspace.focus"@[0] != "powerSleep.lock"@[0]);
    assert("media.operation"@[0] != "powerSleep.lock"@[0]);
    assert("battery.history"@[0] != "powerSleep.lock"@[0]);
    assert("battery.chargeOnce"@[0] != "powerSleep.suspend"@[0]);
    assert("battery.cancelCalibration"@[0] != "notifications.togglePanel"@[0]);
    assert("powerSleep.hibernate"@[0] != "notifications.setDnd"@[0]);
    assert("battery.chargeOnce"@[0] != "notifications.list"@[0]);
    assert("powerSleep.suspend"@[0] != "notifications.list"@[0]);
    assert("battery.setThresholds"@[0] != "notifications.dismiss"@[0]);
    assert("battery.setProtection"@[0] != "notifications.dismiss"@[0]);
    assert("activity.queryRange"@[0] != "notifications.clear"@[0]);
    assert("audio.setInputMuted"@[0] != "notifications.clear"@[0]);
    assert("battery.startCalibration"@[0] != "notifications.clearGroup"@[0]);
    assert("powerSleep.hibernate"@[0] != "notifications.snooze"@[0]);
    assert("notifications.setDnd"@[15] != "notifications.snooze"@[15]);
    assert("activity.queryRange"@[0] != "notifications.reply"@[0]);
    assert("audio.setInputMuted"@[0] != "notifications.reply"@[0]);
    assert("notifications.clear"@[14] != "notifications.reply"@[14]);
    assert("workspace.focus"@[0] != "updates.refresh"@[0]);
    assert("media.operation"@[0] != "updates.refresh"@[0]);
    assert("battery.history"@[0] != "updates.refresh"@[0]);
    assert("powerSleep.lock"@[0] != "updates.refresh"@[0]);
}

/// No two streams have the same name.
pub proof fn stream_names_are_distinct(a: Stream, b: Stream)
    requires
        a.name_text() == b.name_text(),
    ensures
        a == b,
{
    reveal_strlit("activity.changed");
    assert("activity.changed"@.len() == 16);
    reveal_strlit("workspaces.changed");
    assert("workspaces.changed"@.len() == 18);
    reveal_strlit("media.changed");
    assert("media.changed"@.len() == 13);
    reveal_strlit("audio.changed");
    assert("audio.changed"@.len() == 13);
    reveal_strlit("brightness.changed");
    assert("brightness.changed"@.len() == 18);
    reveal_strlit("battery.changed");
    assert("battery.changed"@.len() == 15);
    reveal_strlit("power-profile.changed");
    assert("power-profile.changed"@.len() == 21);
    reveal_strlit("power-sleep.changed");
    assert("power-sleep.changed"@.len() == 19);
    reveal_strlit("osd-hardware.changed");
    assert("osd-hardware.changed"@.len() == 20);
    reveal_strlit("notifications.changed");
    assert("notifications.changed"@.len() == 21);
    reveal_strlit("notifications.active.changed");
    assert("notifications.active.changed"@.len() == 28);
    reveal_strlit("updates.changed");
    assert("updates.changed"@.len() == 15);
    reveal_strlit("timezone.changed");
    assert("timezone.changed"@.len() == 16);
    assert("media.changed"@[0] != "audio.changed"@[0]);
    assert("workspaces.changed"@[0] != "brightness.changed"@[0]);
    assert("power-profile.changed"@[0] != "notifications.changed"@[0]);
    assert("battery.changed"@[0] != "updates.changed"@[0]);
    assert("activity.changed"@[0] != "timezone.changed"@[0]);
}

impl Method {
    /// The method that has a name.
    pub fn from_name(name: &str) -> (method: Option<Method>)
        ensures
            match method {
                Some(method) => method.name_text() == name@,
                None => forall|method: Method| #[trigger] method.name_text() != name@,
            },
    {
        let all = methods();
        let mut i: usize = 0;
        while i < all.len()
            invariant
                i <= all@.len(),
                all@ == all_methods(),
                forall|k: int| 0 <= k < i ==> (#[trigger] all@[k]).name_text() != name@,
            decreases all@.len() - i,
        {
            let method = all[i];
            if same_text(method.name(), name) {
                return Some(method);
            }
            i = i + 1;
        }
        assert forall|method: Method| #[trigger] method.name_text() != name@ by {
            lemma_methods_listed(method);
            let k = choose|k: int| 0 <= k < all@.len() && all@[k] == method;
            assert(all@[k].name_text() != name@);
        }
        None
    }
}

impl Stream {
    /// The stream that has a name.
    pub fn from_name(name: &str) -> (stream: Option<Stream>)
        ensures
            match stream {
                Some(stream) => stream.name_text() == name@,
                None => forall|stream: Stream| #[trigger] stream.name_text() != name@,
            },
    {
        let all = streams();
        let mut i: usize = 0;
        while i < all.len()
            invariant
                i <= all@.len(),
                all@ == all_streams(),
                forall|k: int| 0 <= k < i ==> (#[trigger] all@[k]).name_text() != name@,
            decreases all@.len() - i,
        {
            let stream = all[i];
            if same_text(stream.name(), name) {
                return Some(stream);
            }
            i = i + 1;
        }
        assert forall|stream: Stream| #[trigger] stream.name_text() != name@ by {
            lemma_streams_listed(stream);
            let k = choose|k: int| 0 <= k < all@.len() && all@[k] == stream;
            assert(all@[k].name_text() != name@);
        }
        None
    }
}

/// What the registry says of a method.
pub open spec fn method_entry(method: Method) -> MethodEntryModel {
    MethodEntryModel {
        name: method.name_text(),
        params: method.params_text(),
        result: method.result_text(),
    }
}

/// What the registry says of a stream: every stream carries the same events.
pub open spec fn stream_entry(stream: Stream) -> StreamEntryModel {
    StreamEntryModel {
        name: stream.name_text(),
        events: seq!["subscribed"@, "changed"@, "lagged"@],
    }
}

fn stream_events() -> (events: Vec<String>)
    ensures
        events.deep_view() == seq!["subscribed"@, "changed"@, "lagged"@],
{
    let mut events: Vec<String> = Vec::new();
    events.push("subscribed".to_string());
    events.push("changed".to_string());
    events.push("lagged".to_string());
    assert(events.deep_view() =~= seq!["subscribed"@, "changed"@, "lagged"@]);
    events
}

/// Machine-readable method and stream metadata: every method and every stream, in order.
pub fn registry() -> (registry: Registry)
    ensures
        registry.deep_view() == (RegistryModel {
            protocol: NAME@,
            version: VERSION,
            methods: all_methods().map_values(|method: Method| method_entry(method)),
            streams: all_streams().map_values(|stream: Stream| stream_entry(stream)),
        }),
{
    let all = methods();
    let mut entries: Vec<MethodEntry> = Vec::new();
    let mut i: usize = 0;
    while i < all.len()
        invariant
            i <= all@.len(),
            all@ == all_methods(),
            entries@.len() == i,
            forall|k: int|
                0 <= k < i ==> (#[trigger] entries@[k]).deep_view() == method_entry(all@[k]),
        decreases all@.len() - i,
    {
        let method = all[i];
        entries.push(
            MethodEntry {
                name: method.name().to_string(),
                params: method.params().to_string(),
                result: method.result().to_string(),
            },
        );
        i = i + 1;
    }
    let channels = streams();
    let mut stream_entries: Vec<StreamEntry> = Vec::new();
    let mut j: usize = 0;
    while j < channels.len()
        invariant
            j <= channels@.len(),
            channels@ == all_streams(),
            stream_entries@.len() == j,
            forall|k: int|
                0 <= k < j ==> (#[trigger] stream_entries@[k]).deep_view() == stream_entry(
                    channels@[k],
                ),
        decreases channels@.len() - j,
    {
        let stream = channels[j];
        stream_entries.push(
            StreamEntry { name: stream.name().to_string(), events: stream_events() },
        );
        j = j + 1;
    }
    assert(entries.deep_view() =~= all_methods().map_values(
        |method: Method| method_entry(method),
    ));
    assert(stream_entries.deep_view() =~= all_streams().map_values(
        |stream: Stream| stream_entry(stream),
    ));
    Registry {
        protocol: NAME.to_string(),
        version: VERSION,
        methods: entries,
        streams: stream_entries,
    }
}

// Laws

/// Each method is called by this name.
pub proof fn methods_are_called_by_name(method: Method)
    ensures
        method == Method::BarSnapshot ==> method.name_text() == "bar.snapshot"@,
        method == Method::ActivityQueryRange ==> method.name_text() == "activity.queryRange"@,
        method == Method::ActivityRefresh ==> method.name_text() == "activity.refresh"@,
        method == Method::TodosCreate ==> method.name_text() == "todos.create"@,
        method == Method::TodosComplete ==> method.name_text() == "todos.complete"@,
        method == Method::TodosDelete ==> method.name_text() == "todos.delete"@,
        method == Method::WorkspaceFocus ==> method.name_text() == "workspace.focus"@,
        method == Method::MediaOperation ==> method.name_text() == "media.operation"@,
        method == Method::AudioAdjust ==> method.name_text() == "audio.adjust"@,
        method == Method::AudioSetMuted ==> method.name_text() == "audio.setMuted"@,
        method == Method::AudioSetInputMuted ==> method.name_text() == "audio.setInputMuted"@,
        method == Method::BrightnessAdjust ==> method.name_text() == "brightness.adjust"@,
        method == Method::BrightnessSet ==> method.name_text() == "brightness.set"@,
        method == Method::BatteryHistory ==> method.name_text() == "battery.history"@,
        method == Method::BatterySetThresholds ==> method.name_text() == "battery.setThresholds"@,
        method == Method::BatterySetProtection ==> method.name_text() == "battery.setProtection"@,
        method == Method::BatteryChargeOnce ==> method.name_text() == "battery.chargeOnce"@,
        method == Method::BatterySetChargingInhibited ==> method.name_text()
            == "battery.setChargingInhibited"@,
        method == Method::BatteryStartCalibration ==> method.name_text()
            == "battery.startCalibration"@,
        method == Method::BatteryCancelCalibration ==> method.name_text()
            == "battery.cancelCalibration"@,
        method == Method::BatterySetAlertPolicy ==> method.name_text() == "battery.setAlertPolicy"@,
        method == Method::PowerProfileSet ==> method.name_text() == "powerProfile.set"@,
        method == Method::PowerProfileSetBatteryAware ==> method.name_text()
            == "powerProfile.setBatteryAware"@,
        method == Method::PowerProfileSetActionEnabled ==> method.name_text()
            == "powerProfile.setActionEnabled"@,
        method == Method::PowerSleepLock ==> method.name_text() == "powerSleep.lock"@,
        method == Method::PowerSleepSuspend ==> method.name_text() == "powerSleep.suspend"@,
        method == Method::PowerSleepHibernate ==> method.name_text() == "powerSleep.hibernate"@,
        method == Method::NotificationsTogglePanel ==> method.name_text()
            == "notifications.togglePanel"@,
        method == Method::NotificationsToggleDnd ==> method.name_text()
            == "notifications.toggleDnd"@,
        method == Method::NotificationsSetDnd ==> method.name_text() == "notifications.setDnd"@,
        method == Method::NotificationsList ==> method.name_text() == "notifications.list"@,
        method == Method::NotificationsDismiss ==> method.name_text() == "notifications.dismiss"@,
        method == Method::NotificationsClear ==> method.name_text() == "notifications.clear"@,
        method == Method::NotificationsClearGroup ==> method.name_text()
            == "notifications.clearGroup"@,
        method == Method::NotificationsSnooze ==> method.name_text() == "notifications.snooze"@,
        method == Method::NotificationsInvokeAction ==> method.name_text()
            == "notifications.invokeAction"@,
        method == Method::NotificationsReply ==> method.name_text() == "notifications.reply"@,
        method == Method::UpdatesRefresh ==> method.name_text() == "updates.refresh"@,
{
}

/// Each stream has this name, and tells who listens, what changes and what was
/// missed.
pub proof fn streams_are_known_by_name(stream: Stream)
    ensures
        stream == Stream::Activity ==> stream.name_text() == "activity.changed"@,
        stream == Stream::Workspaces ==> stream.name_text() == "workspaces.changed"@,
        stream == Stream::Media ==> stream.name_text() == "media.changed"@,
        stream == Stream::Audio ==> stream.name_text() == "audio.changed"@,
        stream == Stream::Brightness ==> stream.name_text() == "brightness.changed"@,
        stream == Stream::Battery ==> stream.name_text() == "battery.changed"@,
        stream == Stream::PowerProfile ==> stream.name_text() == "power-profile.changed"@,
        stream == Stream::PowerSleep ==> stream.name_text() == "power-sleep.changed"@,
        stream == Stream::OsdHardware ==> stream.name_text() == "osd-hardware.changed"@,
        stream == Stream::Notifications ==> stream.name_text() == "notifications.changed"@,
        stream == Stream::NotificationActive ==> stream.name_text() == "notifications.active.changed"@,
        stream == Stream::Updates ==> stream.name_text() == "updates.changed"@,
        stream == Stream::Timezone ==> stream.name_text() == "timezone.changed"@,
        stream_entry(stream).name == stream.name_text(),
        stream_entry(stream).events == seq!["subscribed"@, "changed"@, "lagged"@],
{
}

/// The registry lists every method and every stream.
pub proof fn registry_lists_all(method: Method, stream: Stream)
    ensures
        all_methods().contains(method),
        all_streams().contains(stream),
        method_entry(method).name == method.name_text(),
        method_entry(method).params == method.params_text(),
        method_entry(method).result == method.result_text(),
{
    let methods = all_methods();
    assert(methods[0] == Method::BarSnapshot);
    assert(methods[1] == Method::ActivityQueryRange);
    assert(methods[2] == Method::ActivityRefresh);
    assert(methods[3] == Method::TodosCreate);
    assert(methods[4] == Method::TodosComplete);
    assert(methods[5] == Method::TodosDelete);
    assert(methods[6] == Method::WorkspaceFocus);
    assert(methods[7] == Method::MediaOperation);
    assert(methods[8] == Method::AudioAdjust);
    assert(methods[9] == Method::AudioSetMuted);
    assert(methods[10] == Method::AudioSetInputMuted);
    assert(methods[11] == Method::BrightnessAdjust);
    assert(methods[12] == Method::BrightnessSet);
    assert(methods[13] == Method::BatteryHistory);
    assert(methods[14] == Method::BatterySetThresholds);
    assert(methods[15] == Method::BatterySetProtection);
    assert(methods[16] == Method::BatteryChargeOnce);
    assert(methods[17] == Method::BatterySetChargingInhibited);
    assert(methods[18] == Method::BatteryStartCalibration);
    assert(methods[19] == Method::BatteryCancelCalibration);
    assert(methods[20] == Method::BatterySetAlertPolicy);
    assert(methods[21] == Method::PowerProfileSet);
    assert(methods[22] == Method::PowerProfileSetBatteryAware);
    assert(methods[23] == Method::PowerProfileSetActionEnabled);
    assert(methods[24] == Method::PowerSleepLock);
    assert(methods[25] == Method::PowerSleepSuspend);
    assert(methods[26] == Method::PowerSleepHibernate);
    assert(methods[27] == Method::NotificationsTogglePanel);
    assert(methods[28] == Method::NotificationsToggleDnd);
    assert(methods[29] == Method::NotificationsSetDnd);
    assert(methods[30] == Method::NotificationsList);
    assert(methods[31] == Method::NotificationsDismiss);
    assert(methods[32] == Method::NotificationsClear);
    assert(methods[33] == Method::NotificationsClearGroup);
    assert(methods[34] == Method::NotificationsSnooze);
    assert(methods[35] == Method::NotificationsInvokeAction);
    assert(methods[36] == Method::NotificationsReply);
    assert(methods[37] == Method::UpdatesRefresh);
    let streams = all_streams();
    assert(streams[0] == Stream::Activity);
    assert(streams[1] == Stream::Workspaces);
    assert(streams[2] == Stream::Media);
    assert(streams[3] == Stream::Audio);
    assert(streams[4] == Stream::Brightness);
    assert(streams[5] == Stream::Battery);
    assert(streams[6] == Stream::PowerProfile);
    assert(streams[7] == Stream::PowerSleep);
    assert(streams[8] == Stream::OsdHardware);
    assert(streams[9] == Stream::Notifications);
    assert(streams[10] == Stream::NotificationActive);
    assert(streams[11] == Stream::Updates);
    assert(streams[12] == Stream::Timezone);
}

} // verus!
