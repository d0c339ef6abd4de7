//! Current state of all domains, with an event for every change.

use vstd::prelude::*;

use crate::activity::model::{ActivityState, ActivityStateModel};
use crate::model::{
    AudioState, AudioStateModel, BarSnapshot, BarSnapshotModel, BatteryState, BatteryStateModel,
    BrightnessState, BrightnessStateModel, MediaState, MediaStateModel, NotificationActiveState,
    NotificationActiveStateModel, NotificationState, NotificationStateModel, OsdHardwareState,
    OsdHardwareStateModel, PowerProfileState, PowerProfileStateModel, PowerSleepState,
    PowerSleepStateModel, TimezoneState, TimezoneStateModel, UpdateState, UpdateStateModel,
    WorkspaceState, WorkspaceStateModel,
};
use crate::protocol::registry::Stream;
use crate::protocol::stream;
use crate::record::Record;

verus! {

/// State of all domains. A value that is put in either is what the domain holds
/// already, or takes its place and is announced on the domain's stream.
pub struct StateStore {
    snapshot: BarSnapshot,
}

impl View for StateStore {
    type V = BarSnapshotModel;

    closed spec fn view(&self) -> BarSnapshotModel {
        self.snapshot.deep_view()
    }
}

/// The stream to announce a change on, where there was one.
pub open spec fn announced(changed: bool, stream: Seq<char>, event: Option<&'static str>) -> bool {
    match event {
        Some(name) => changed && name@ == stream,
        None => !changed,
    }
}

impl StateStore {
    /// A store in which nothing is available.
    pub fn new() -> (store: StateStore)
        ensures
            store@ == BarSnapshotModel::initial(),
    {
        StateStore { snapshot: BarSnapshot::default() }
    }

    /// State of all domains.
    pub fn snapshot(&self) -> (snapshot: &BarSnapshot)
        ensures
            snapshot.deep_view() == self@,
    {
        &self.snapshot
    }

    /// Puts in the `activity` domain. Gives the stream to announce the value on, if it is new.
    pub fn update_activity(&mut self, value: ActivityState) -> (event: Option<&'static str>)
        ensures
            final(self)@ == (BarSnapshotModel { activity: value.deep_view(), ..old(self)@ }),
            announced(old(self)@.activity != value.deep_view(), stream::ACTIVITY@, event),
    {
        if self.snapshot.activity.same(&value) {
            return None;
        }
        self.snapshot.activity = value;
        Some(stream::ACTIVITY)
    }

    /// Puts in the `workspaces` domain. Gives the stream to announce the value on, if it is new.
    pub fn update_workspaces(&mut self, value: WorkspaceState) -> (event: Option<&'static str>)
        ensures
            final(self)@ == (BarSnapshotModel { workspaces: value.deep_view(), ..old(self)@ }),
            announced(old(self)@.workspaces != value.deep_view(), stream::WORKSPACES@, event),
    {
        if self.snapshot.workspaces.same(&value) {
            return None;
        }
        self.snapshot.workspaces = value;
        Some(stream::WORKSPACES)
    }

    /// Puts in the `media` domain. Gives the stream to announce the value on, if it is new.
    pub fn update_media(&mut self, value: MediaState) -> (event: Option<&'static str>)
        ensures
            final(self)@ == (BarSnapshotModel { media: value.deep_view(), ..old(self)@ }),
            announced(old(self)@.media != value.deep_view(), stream::MEDIA@, event),
    {
        if self.snapshot.media.same(&value) {
            return None;
        }
        self.snapshot.media = value;
        Some(stream::MEDIA)
    }

    /// Puts in the `audio` domain. Gives the stream to announce the value on, if it is new.
    pub fn update_audio(&mut self, value: AudioState) -> (event: Option<&'static str>)
        ensures
            final(self)@ == (BarSnapshotModel { audio: value.deep_view(), ..old(self)@ }),
            announced(old(self)@.audio != value.deep_view(), stream::AUDIO@, event),
    {
        if self.snapshot.audio.same(&value) {
            return None;
        }
        self.snapshot.audio = value;
        Some(stream::AUDIO)
    }

    /// Puts in the `brightness` domain. Gives the stream to announce the value on, if it is new.
    pub fn update_brightness(&mut self, value: BrightnessState) -> (event: Option<&'static str>)
        ensures
            final(self)@ == (BarSnapshotModel { brightness: value.deep_view(), ..old(self)@ }),
            announced(old(self)@.brightness != value.deep_view(), stream::BRIGHTNESS@, event),
    {
        if self.snapshot.brightness.same(&value) {
            return None;
        }
        self.snapshot.brightness = value;
        Some(stream::BRIGHTNESS)
    }

    /// Puts in the `battery` domain. Gives the stream to announce the value on, if it is new.
    pub fn update_battery(&mut self, value: BatteryState) -> (event: Option<&'static str>)
        ensures
            final(self)@ == (BarSnapshotModel { battery: value.deep_view(), ..old(self)@ }),
            announced(old(self)@.battery != value.deep_view(), stream::BATTERY@, event),
    {
        if self.snapshot.battery.same(&value) {
            return None;
        }
        self.snapshot.battery = value;
        Some(stream::BATTERY)
    }

    /// Puts in the `power_profile` domain. Gives the stream to announce the value on, if it is new.
    pub fn update_power_profile(&mut self, value: PowerProfileState) -> (event: Option<&'static str>)
        ensures
            final(self)@ == (BarSnapshotModel { power_profile: value.deep_view(), ..old(self)@ }),
            announced(old(self)@.power_profile != value.deep_view(), stream::POWER_PROFILE@, event),
    {
        if self.snapshot.power_profile.same(&value) {
            return None;
        }
        self.snapshot.power_profile = value;
        Some(stream::POWER_PROFILE)
    }

    /// Puts in the `power_sleep` domain. Gives the stream to announce the value on, if it is new.
    pub fn update_power_sleep(&mut self, value: PowerSleepState) -> (event: Option<&'static str>)
        ensures
            final(self)@ == (BarSnapshotModel { power_sleep: value.deep_view(), ..old(self)@ }),
            announced(old(self)@.power_sleep != value.deep_view(), stream::POWER_SLEEP@, event),
    {
        if self.snapshot.power_sleep.same(&value) {
            return None;
        }
        self.snapshot.power_sleep = value;
        Some(stream::POWER_SLEEP)
    }

    /// Puts in the `osd_hardware` domain. Gives the stream to announce the value on, if it is new.
    pub fn update_osd_hardware(&mut self, value: OsdHardwareState) -> (event: Option<&'static str>)
        ensures
            final(self)@ == (BarSnapshotModel { osd_hardware: value.deep_view(), ..old(self)@ }),
            announced(old(self)@.osd_hardware != value.deep_view(), stream::OSD_HARDWARE@, event),
    {
        if self.snapshot.osd_hardware.same(&value) {
            return None;
        }
        self.snapshot.osd_hardware = value;
        Some(stream::OSD_HARDWARE)
    }

    /// Puts in the `notifications` domain. Gives the stream to announce the value on, if it is new.
    pub fn update_notifications(&mut self, value: NotificationState) -> (event: Option<&'static str>)
        ensures
            final(self)@ == (BarSnapshotModel { notifications: value.deep_view(), ..old(self)@ }),
            announced(old(self)@.notifications != value.deep_view(), stream::NOTIFICATIONS@, event),
    {
        if self.snapshot.notifications.same(&value) {
            return None;
        }
        self.snapshot.notifications = value;
        Some(stream::NOTIFICATIONS)
    }

    /// Puts in the `notification_active` domain. Gives the stream to announce the value on, if it is new.
    pub fn update_notification_active(&mut self, value: NotificationActiveState) -> (event: Option<&'static str>)
        ensures
            final(self)@ == (BarSnapshotModel { notification_active: value.deep_view(), ..old(self)@ }),
            announced(old(self)@.notification_active != value.deep_view(), stream::NOTIFICATION_ACTIVE@, event),
    {
        if self.snapshot.notification_active.same(&value) {
            return None;
        }
        self.snapshot.notification_active = value;
        Some(stream::NOTIFICATION_ACTIVE)
    }

    /// Puts in the `updates` domain. Gives the stream to announce the value on, if it is new.
    pub fn update_updates(&mut self, value: UpdateState) -> (event: Option<&'static str>)
        ensures
            final(self)@ == (BarSnapshotModel { updates: value.deep_view(), ..old(self)@ }),
            announced(old(self)@.updates != value.deep_view(), stream::UPDATES@, event),
    {
        if self.snapshot.updates.same(&value) {
            return None;
        }
        self.snapshot.updates = value;
        Some(stream::UPDATES)
    }

    /// Puts in the `timezone` domain. Gives the stream to announce the value on, if it is new.
    pub fn update_timezone(&mut self, value: TimezoneState) -> (event: Option<&'static str>)
        ensures
            final(self)@ == (BarSnapshotModel { timezone: value.deep_view(), ..old(self)@ }),
            announced(old(self)@.timezone != value.deep_view(), stream::TIMEZONE@, event),
    {
        if self.snapshot.timezone.same(&value) {
            return None;
        }
        self.snapshot.timezone = value;
        Some(stream::TIMEZONE)
    }
}

// What a stream shows

/// The state of one domain.
#[derive(Debug, PartialEq, Eq)]
pub enum DomainState {
    Activity(ActivityState),
    Workspaces(WorkspaceState),
    Media(MediaState),
    Audio(AudioState),
    Brightness(BrightnessState),
    Battery(BatteryState),
    PowerProfile(PowerProfileState),
    PowerSleep(PowerSleepState),
    OsdHardware(OsdHardwareState),
    Notifications(NotificationState),
    NotificationActive(NotificationActiveState),
    Updates(UpdateState),
    Timezone(TimezoneState),
}

/// What a [`DomainState`] holds.
pub enum DomainStateModel {
    Activity(ActivityStateModel),
    Workspaces(WorkspaceStateModel),
    Media(MediaStateModel),
    Audio(AudioStateModel),
    Brightness(BrightnessStateModel),
    Battery(BatteryStateModel),
    PowerProfile(PowerProfileStateModel),
    PowerSleep(PowerSleepStateModel),
    OsdHardware(OsdHardwareStateModel),
    Notifications(NotificationStateModel),
    NotificationActive(NotificationActiveStateModel),
    Updates(UpdateStateModel),
    Timezone(TimezoneStateModel),
}

impl DeepView for DomainState {
    type V = DomainStateModel;

    open spec fn deep_view(&self) -> DomainStateModel {
        match self {
            DomainState::Activity(state) => DomainStateModel::Activity(state.deep_view()),
            DomainState::Workspaces(state) => DomainStateModel::Workspaces(state.deep_view()),
            DomainState::Media(state) => DomainStateModel::Media(state.deep_view()),
            DomainState::Audio(state) => DomainStateModel::Audio(state.deep_view()),
            DomainState::Brightness(state) => DomainStateModel::Brightness(state.deep_view()),
            DomainState::Battery(state) => DomainStateModel::Battery(state.deep_view()),
            DomainState::PowerProfile(state) => DomainStateModel::PowerProfile(state.deep_view()),
            DomainState::PowerSleep(state) => DomainStateModel::PowerSleep(state.deep_view()),
            DomainState::OsdHardware(state) => DomainStateModel::OsdHardware(state.deep_view()),
            DomainState::Notifications(state) => DomainStateModel::Notifications(state.deep_view()),
            DomainState::NotificationActive(state) => DomainStateModel::NotificationActive(state.deep_view()),
            DomainState::Updates(state) => DomainStateModel::Updates(state.deep_view()),
            DomainState::Timezone(state) => DomainStateModel::Timezone(state.deep_view()),
        }
    }
}

/// The state of the domain that a stream is about.
pub open spec fn domain_of(stream: Stream, snapshot: BarSnapshotModel) -> DomainStateModel {
    match stream {
        Stream::Activity => DomainStateModel::Activity(snapshot.activity),
        Stream::Workspaces => DomainStateModel::Workspaces(snapshot.workspaces),
        Stream::Media => DomainStateModel::Media(snapshot.media),
        Stream::Audio => DomainStateModel::Audio(snapshot.audio),
        Stream::Brightness => DomainStateModel::Brightness(snapshot.brightness),
        Stream::Battery => DomainStateModel::Battery(snapshot.battery),
        Stream::PowerProfile => DomainStateModel::PowerProfile(snapshot.power_profile),
        Stream::PowerSleep => DomainStateModel::PowerSleep(snapshot.power_sleep),
        Stream::OsdHardware => DomainStateModel::OsdHardware(snapshot.osd_hardware),
        Stream::Notifications => DomainStateModel::Notifications(snapshot.notifications),
        Stream::NotificationActive => DomainStateModel::NotificationActive(snapshot.notification_active),
        Stream::Updates => DomainStateModel::Updates(snapshot.updates),
        Stream::Timezone => DomainStateModel::Timezone(snapshot.timezone),
    }
}

/// The state of the domain that a stream is about, complete.
pub fn stream_state(stream: Stream, snapshot: &BarSnapshot) -> (state: DomainState)
    ensures
        state.deep_view() == domain_of(stream, snapshot.deep_view()),
{
    match stream {
        Stream::Activity => DomainState::Activity(snapshot.activity.copy()),
        Stream::Workspaces => DomainState::Workspaces(snapshot.workspaces.copy()),
        Stream::Media => DomainState::Media(snapshot.media.copy()),
        Stream::Audio => DomainState::Audio(snapshot.audio.copy()),
        Stream::Brightness => DomainState::Brightness(snapshot.brightness.copy()),
        Stream::Battery => DomainState::Battery(snapshot.battery.copy()),
        Stream::PowerProfile => DomainState::PowerProfile(snapshot.power_profile.copy()),
        Stream::PowerSleep => DomainState::PowerSleep(snapshot.power_sleep.copy()),
        Stream::OsdHardware => DomainState::OsdHardware(snapshot.osd_hardware.copy()),
        Stream::Notifications => DomainState::Notifications(snapshot.notifications.copy()),
        Stream::NotificationActive => DomainState::NotificationActive(snapshot.notification_active.copy()),
        Stream::Updates => DomainState::Updates(snapshot.updates.copy()),
        Stream::Timezone => DomainState::Timezone(snapshot.timezone.copy()),
    }
}

/// What a new subscriber is sent first of the stream of a name: the current
/// state of its domain. There is nothing to send where no stream has the name.
pub fn initial_stream_data(name: &str, snapshot: &BarSnapshot) -> (data: Option<DomainState>)
    ensures
        match data {
            Some(state) => exists|stream: Stream| #[trigger]
                stream.name_text() == name@ && state.deep_view() == domain_of(
                    stream,
                    snapshot.deep_view(),
                ),
            None => forall|stream: Stream| #[trigger] stream.name_text() != name@,
        },
{
    match Stream::from_name(name) {
        Some(stream) => Some(stream_state(stream, snapshot)),
        None => None,
    }
}

/// A client that is sent the first value of every stream knows all of the
/// snapshot: two snapshots that differ show a difference on some stream.
pub proof fn streams_show_the_whole_snapshot(a: BarSnapshotModel, b: BarSnapshotModel)
    requires
        forall|stream: Stream| #[trigger] domain_of(stream, a) == domain_of(stream, b),
    ensures
        a == b,
{
    assert(domain_of(Stream::Activity, a) == domain_of(Stream::Activity, b));
    assert(domain_of(Stream::Workspaces, a) == domain_of(Stream::Workspaces, b));
    assert(domain_of(Stream::Media, a) == domain_of(Stream::Media, b));
    assert(domain_of(Stream::Audio, a) == domain_of(Stream::Audio, b));
    assert(domain_of(Stream::Brightness, a) == domain_of(Stream::Brightness, b));
    assert(domain_of(Stream::Battery, a) == domain_of(Stream::Battery, b));
    assert(domain_of(Stream::PowerProfile, a) == domain_of(Stream::PowerProfile, b));
    assert(domain_of(Stream::PowerSleep, a) == domain_of(Stream::PowerSleep, b));
    assert(domain_of(Stream::OsdHardware, a) == domain_of(Stream::OsdHardware, b));
    assert(domain_of(Stream::Notifications, a) == domain_of(Stream::Notifications, b));
    assert(domain_of(Stream::NotificationActive, a) == domain_of(Stream::NotificationActive, b));
    assert(domain_of(Stream::Updates, a) == domain_of(Stream::Updates, b));
    assert(domain_of(Stream::Timezone, a) == domain_of(Stream::Timezone, b));
}

// Laws

/// Each stream sends the state of its own domain.
pub proof fn streams_send_their_own_domain(snapshot: BarSnapshotModel)
    ensures
        domain_of(Stream::Activity, snapshot) == DomainStateModel::Activity(snapshot.activity),
        domain_of(Stream::Workspaces, snapshot) == DomainStateModel::Workspaces(
            snapshot.workspaces,
        ),
        domain_of(Stream::Media, snapshot) == DomainStateModel::Media(snapshot.media),
        domain_of(Stream::Audio, snapshot) == DomainStateModel::Audio(snapshot.audio),
        domain_of(Stream::Brightness, snapshot) == DomainStateModel::Brightness(
            snapshot.brightness,
        ),
        domain_of(Stream::Battery, snapshot) == DomainStateModel::Battery(snapshot.battery),
        domain_of(Stream::PowerProfile, snapshot) == DomainStateModel::PowerProfile(
            snapshot.power_profile,
        ),
        domain_of(Stream::PowerSleep, snapshot) == DomainStateModel::PowerSleep(
            snapshot.power_sleep,
        ),
        domain_of(Stream::OsdHardware, snapshot) == DomainStateModel::OsdHardware(
            snapshot.osd_hardware,
        ),
        domain_of(Stream::Notifications, snapshot) == DomainStateModel::Notifications(
            snapshot.notifications,
        ),
        domain_of(Stream::NotificationActive, snapshot) == DomainStateModel::NotificationActive(
            snapshot.notification_active,
        ),
        domain_of(Stream::Updates, snapshot) == DomainStateModel::Updates(snapshot.updates),
        domain_of(Stream::Timezone, snapshot) == DomainStateModel::Timezone(snapshot.timezone),
{
}

/// A change is announced on the stream of its name if and only if there is one.
pub proof fn changes_are_announced(changed: bool, stream: Seq<char>, event: Option<&'static str>)
    requires
        announced(changed, stream, event),
    ensures
        changed <==> event is Some,
        event matches Some(name) ==> name@ == stream,
{
}

} // verus!
