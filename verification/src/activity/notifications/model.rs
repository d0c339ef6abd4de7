//! Notification values.

use vstd::prelude::*;

use crate::record::Record;
use crate::text::is_empty;

verus! {

/// How long a notification stays that leaves it to the daemon, in milliseconds.
pub const DEFAULT_TIMEOUT_MS: u64 = 5_000;

/// Something that a user can do about a notification.
#[derive(Debug, PartialEq, Eq)]
pub struct NotificationAction {
    pub key: String,
    pub label: String,
}

/// What a [`NotificationAction`] holds.
#[verifier::ext_equal]
pub struct NotificationActionModel {
    pub key: Seq<char>,
    pub label: Seq<char>,
}

impl DeepView for NotificationAction {
    type V = NotificationActionModel;

    open spec fn deep_view(&self) -> NotificationActionModel {
        NotificationActionModel {
            key: self.key.deep_view(),
            label: self.label.deep_view(),
        }
    }
}

impl Record for NotificationAction {
    fn same(&self, other: &Self) -> (same: bool) {
        self.key.same(&other.key)
            && self.label.same(&other.label)
    }

    fn copy(&self) -> (copy: Self) {
        NotificationAction {
            key: self.key.copy(),
            label: self.label.copy(),
        }
    }
}

impl Clone for NotificationAction {
    fn clone(&self) -> (copy: Self)
        ensures
            copy.deep_view() == self.deep_view(),
    {
        self.copy()
    }
}

impl NotificationActionModel {
    /// What a default [`NotificationAction`] holds.
    pub open spec fn initial() -> NotificationActionModel {
        NotificationActionModel {
            key: Seq::empty(),
            label: Seq::empty(),
        }
    }
}

impl Default for NotificationAction {
    fn default() -> (value: NotificationAction)
        ensures
            value.deep_view() == NotificationActionModel::initial(),
    {
        let value = NotificationAction {
            key: String::new(),
            label: String::new(),
        };
        assert(value.deep_view() =~= NotificationActionModel::initial());
        value
    }
}

/// What a program says of how to show a notification.
#[derive(Debug, PartialEq, Eq)]
pub struct NotificationHints {
    pub urgency: u8,
    pub category: String,
    pub desktop_entry: String,
    pub image_path: String,
    pub sound_name: String,
    pub sound_file: String,
    pub resident: bool,
    pub transient: bool,
    pub suppress_sound: bool,
    pub image_data_present: bool,
}

/// What a [`NotificationHints`] holds.
#[verifier::ext_equal]
pub struct NotificationHintsModel {
    pub urgency: u8,
    pub category: Seq<char>,
    pub desktop_entry: Seq<char>,
    pub image_path: Seq<char>,
    pub sound_name: Seq<char>,
    pub sound_file: Seq<char>,
    pub resident: bool,
    pub transient: bool,
    pub suppress_sound: bool,
    pub image_data_present: bool,
}

impl DeepView for NotificationHints {
    type V = NotificationHintsModel;

    open spec fn deep_view(&self) -> NotificationHintsModel {
        NotificationHintsModel {
            urgency: self.urgency.deep_view(),
            category: self.category.deep_view(),
            desktop_entry: self.desktop_entry.deep_view(),
            image_path: self.image_path.deep_view(),
            sound_name: self.sound_name.deep_view(),
            sound_file: self.sound_file.deep_view(),
            resident: self.resident.deep_view(),
            transient: self.transient.deep_view(),
            suppress_sound: self.suppress_sound.deep_view(),
            image_data_present: self.image_data_present.deep_view(),
        }
    }
}

impl Record for NotificationHints {
    fn same(&self, other: &Self) -> (same: bool) {
        self.urgency.same(&other.urgency)
            && self.category.same(&other.category)
            && self.desktop_entry.same(&other.desktop_entry)
            && self.image_path.same(&other.image_path)
            && self.sound_name.same(&other.sound_name)
            && self.sound_file.same(&other.sound_file)
            && self.resident.same(&other.resident)
            && self.transient.same(&other.transient)
            && self.suppress_sound.same(&other.suppress_sound)
            && self.image_data_present.same(&other.image_data_present)
    }

    fn copy(&self) -> (copy: Self) {
        NotificationHints {
            urgency: self.urgency.copy(),
            category: self.category.copy(),
            desktop_entry: self.desktop_entry.copy(),
            image_path: self.image_path.copy(),
            sound_name: self.sound_name.copy(),
            sound_file: self.sound_file.copy(),
            resident: self.resident.copy(),
            transient: self.transient.copy(),
            suppress_sound: self.suppress_sound.copy(),
            image_data_present: self.image_data_present.copy(),
        }
    }
}

impl Clone for NotificationHints {
    fn clone(&self) -> (copy: Self)
        ensures
            copy.deep_view() == self.deep_view(),
    {
        self.copy()
    }
}

impl NotificationHintsModel {
    /// What a default [`NotificationHints`] holds.
    pub open spec fn initial() -> NotificationHintsModel {
        NotificationHintsModel {
            urgency: 0,
            category: Seq::empty(),
            desktop_entry: Seq::empty(),
            image_path: Seq::empty(),
            sound_name: Seq::empty(),
            sound_file: Seq::empty(),
            resident: false,
            transient: false,
            suppress_sound: false,
            image_data_present: false,
        }
    }
}

impl Default for NotificationHints {
    fn default() -> (value: NotificationHints)
        ensures
            value.deep_view() == NotificationHintsModel::initial(),
    {
        let value = NotificationHints {
            urgency: 0,
            category: String::new(),
            desktop_entry: String::new(),
            image_path: String::new(),
            sound_name: String::new(),
            sound_file: String::new(),
            resident: false,
            transient: false,
            suppress_sound: false,
            image_data_present: false,
        };
        assert(value.deep_view() =~= NotificationHintsModel::initial());
        value
    }
}

/// A notification as a program sends it.
#[derive(Debug, PartialEq, Eq)]
pub struct IncomingNotification {
    pub app_name: String,
    pub app_icon: String,
    pub summary: String,
    pub body: String,
    pub actions: Vec<NotificationAction>,
    pub hints: NotificationHints,
    pub expire_timeout: i32,
}

/// What a [`IncomingNotification`] holds.
#[verifier::ext_equal]
pub struct IncomingNotificationModel {
    pub app_name: Seq<char>,
    pub app_icon: Seq<char>,
    pub summary: Seq<char>,
    pub body: Seq<char>,
    pub actions: Seq<NotificationActionModel>,
    pub hints: NotificationHintsModel,
    pub expire_timeout: i32,
}

impl DeepView for IncomingNotification {
    type V = IncomingNotificationModel;

    open spec fn deep_view(&self) -> IncomingNotificationModel {
        IncomingNotificationModel {
            app_name: self.app_name.deep_view(),
            app_icon: self.app_icon.deep_view(),
            summary: self.summary.deep_view(),
            body: self.body.deep_view(),
            actions: self.actions.deep_view(),
            hints: self.hints.deep_view(),
            expire_timeout: self.expire_timeout.deep_view(),
        }
    }
}

impl Record for IncomingNotification {
    fn same(&self, other: &Self) -> (same: bool) {
        self.app_name.same(&other.app_name)
            && self.app_icon.same(&other.app_icon)
            && self.summary.same(&other.summary)
            && self.body.same(&other.body)
            && self.actions.same(&other.actions)
            && self.hints.same(&other.hints)
            && self.expire_timeout.same(&other.expire_timeout)
    }

    fn copy(&self) -> (copy: Self) {
        IncomingNotification {
            app_name: self.app_name.copy(),
            app_icon: self.app_icon.copy(),
            summary: self.summary.copy(),
            body: self.body.copy(),
            actions: self.actions.copy(),
            hints: self.hints.copy(),
            expire_timeout: self.expire_timeout.copy(),
        }
    }
}

impl Clone for IncomingNotification {
    fn clone(&self) -> (copy: Self)
        ensures
            copy.deep_view() == self.deep_view(),
    {
        self.copy()
    }
}

impl IncomingNotificationModel {
    /// What a default [`IncomingNotification`] holds.
    pub open spec fn initial() -> IncomingNotificationModel {
        IncomingNotificationModel {
            app_name: Seq::empty(),
            app_icon: Seq::empty(),
            summary: Seq::empty(),
            body: Seq::empty(),
            actions: Seq::empty(),
            hints: NotificationHintsModel::initial(),
            expire_timeout: 0,
        }
    }
}

impl Default for IncomingNotification {
    fn default() -> (value: IncomingNotification)
        ensures
            value.deep_view() == IncomingNotificationModel::initial(),
    {
        let value = IncomingNotification {
            app_name: String::new(),
            app_icon: String::new(),
            summary: String::new(),
            body: String::new(),
            actions: Vec::new(),
            hints: NotificationHints::default(),
            expire_timeout: 0,
        };
        assert(value.deep_view() =~= IncomingNotificationModel::initial());
        value
    }
}

/// A notification that has not been closed.
#[derive(Debug, PartialEq, Eq)]
pub struct ActiveNotification {
    pub id: u32,
    pub app_name: String,
    pub app_icon: String,
    pub summary: String,
    pub body: String,
    pub actions: Vec<NotificationAction>,
    pub hints: NotificationHints,
    pub created_unix_ms: u64,
    pub updated_unix_ms: u64,
    pub expires_unix_ms: Option<u64>,
    pub group_key: String,
    pub source_monitor: String,
    pub snoozed_until_unix_ms: Option<u64>,
}

/// What a [`ActiveNotification`] holds.
#[verifier::ext_equal]
pub struct ActiveNotificationModel {
    pub id: u32,
    pub app_name: Seq<char>,
    pub app_icon: Seq<char>,
    pub summary: Seq<char>,
    pub body: Seq<char>,
    pub actions: Seq<NotificationActionModel>,
    pub hints: NotificationHintsModel,
    pub created_unix_ms: u64,
    pub updated_unix_ms: u64,
    pub expires_unix_ms: Option<u64>,
    pub group_key: Seq<char>,
    pub source_monitor: Seq<char>,
    pub snoozed_until_unix_ms: Option<u64>,
}

impl DeepView for ActiveNotification {
    type V = ActiveNotificationModel;

    open spec fn deep_view(&self) -> ActiveNotificationModel {
        ActiveNotificationModel {
            id: self.id.deep_view(),
            app_name: self.app_name.deep_view(),
            app_icon: self.app_icon.deep_view(),
            summary: self.summary.deep_view(),
            body: self.body.deep_view(),
            actions: self.actions.deep_view(),
            hints: self.hints.deep_view(),
            created_unix_ms: self.created_unix_ms.deep_view(),
            updated_unix_ms: self.updated_unix_ms.deep_view(),
            expires_unix_ms: self.expires_unix_ms.deep_view(),
            group_key: self.group_key.deep_view(),
            source_monitor: self.source_monitor.deep_view(),
            snoozed_until_unix_ms: self.snoozed_until_unix_ms.deep_view(),
        }
    }
}

impl Record for ActiveNotification {
    fn same(&self, other: &Self) -> (same: bool) {
        self.id.same(&other.id)
            && self.app_name.same(&other.app_name)
            && self.app_icon.same(&other.app_icon)
            && self.summary.same(&other.summary)
            && self.body.same(&other.body)
            && self.actions.same(&other.actions)
            && self.hints.same(&other.hints)
            && self.created_unix_ms.same(&other.created_unix_ms)
            && self.updated_unix_ms.same(&other.updated_unix_ms)
            && self.expires_unix_ms.same(&other.expires_unix_ms)
            && self.group_key.same(&other.group_key)
            && self.source_monitor.same(&other.source_monitor)
            && self.snoozed_until_unix_ms.same(&other.snoozed_until_unix_ms)
    }

    fn copy(&self) -> (copy: Self) {
        ActiveNotification {
            id: self.id.copy(),
            app_name: self.app_name.copy(),
            app_icon: self.app_icon.copy(),
            summary: self.summary.copy(),
            body: self.body.copy(),
            actions: self.actions.copy(),
            hints: self.hints.copy(),
            created_unix_ms: self.created_unix_ms.copy(),
            updated_unix_ms: self.updated_unix_ms.copy(),
            expires_unix_ms: self.expires_unix_ms.copy(),
            group_key: self.group_key.copy(),
            source_monitor: self.source_monitor.copy(),
            snoozed_until_unix_ms: self.snoozed_until_unix_ms.copy(),
        }
    }
}

impl Clone for ActiveNotification {
    fn clone(&self) -> (copy: Self)
        ensures
            copy.deep_view() == self.deep_view(),
    {
        self.copy()
    }
}

impl ActiveNotificationModel {
    /// What a default [`ActiveNotification`] holds.
    pub open spec fn initial() -> ActiveNotificationModel {
        ActiveNotificationModel {
            id: 0,
            app_name: Seq::empty(),
            app_icon: Seq::empty(),
            summary: Seq::empty(),
            body: Seq::empty(),
            actions: Seq::empty(),
            hints: NotificationHintsModel::initial(),
            created_unix_ms: 0,
            updated_unix_ms: 0,
            expires_unix_ms: None,
            group_key: Seq::empty(),
            source_monitor: Seq::empty(),
            snoozed_until_unix_ms: None,
        }
    }
}

impl Default for ActiveNotification {
    fn default() -> (value: ActiveNotification)
        ensures
            value.deep_view() == ActiveNotificationModel::initial(),
    {
        let value = ActiveNotification {
            id: 0,
            app_name: String::new(),
            app_icon: String::new(),
            summary: String::new(),
            body: String::new(),
            actions: Vec::new(),
            hints: NotificationHints::default(),
            created_unix_ms: 0,
            updated_unix_ms: 0,
            expires_unix_ms: None,
            group_key: String::new(),
            source_monitor: String::new(),
            snoozed_until_unix_ms: None,
        };
        assert(value.deep_view() =~= ActiveNotificationModel::initial());
        value
    }
}

/// A notification of the past or the present, with its place in the history.
#[derive(Debug, PartialEq, Eq)]
pub struct HistoryNotification {
    pub history_id: i64,
    pub notification: ActiveNotification,
    pub closed_unix_ms: Option<u64>,
    pub close_reason: Option<u32>,
}

/// What a [`HistoryNotification`] holds.
#[verifier::ext_equal]
pub struct HistoryNotificationModel {
    pub history_id: i64,
    pub notification: ActiveNotificationModel,
    pub closed_unix_ms: Option<u64>,
    pub close_reason: Option<u32>,
}

impl DeepView for HistoryNotification {
    type V = HistoryNotificationModel;

    open spec fn deep_view(&self) -> HistoryNotificationModel {
        HistoryNotificationModel {
            history_id: self.history_id.deep_view(),
            notification: self.notification.deep_view(),
            closed_unix_ms: self.closed_unix_ms.deep_view(),
            close_reason: self.close_reason.deep_view(),
        }
    }
}

impl Record for HistoryNotification {
    fn same(&self, other: &Self) -> (same: bool) {
        self.history_id.same(&other.history_id)
            && self.notification.same(&other.notification)
            && self.closed_unix_ms.same(&other.closed_unix_ms)
            && self.close_reason.same(&other.close_reason)
    }

    fn copy(&self) -> (copy: Self) {
        HistoryNotification {
            history_id: self.history_id.copy(),
            notification: self.notification.copy(),
            closed_unix_ms: self.closed_unix_ms.copy(),
            close_reason: self.close_reason.copy(),
        }
    }
}

impl Clone for HistoryNotification {
    fn clone(&self) -> (copy: Self)
        ensures
            copy.deep_view() == self.deep_view(),
    {
        self.copy()
    }
}

/// What happened to a notification.
#[derive(Debug, PartialEq, Eq)]
pub enum NotificationSignal {
    Closed { id: u32, reason: u32 },
    ActionInvoked { id: u32, action_key: String },
    ActivationToken { id: u32, token: String },
    Replied { id: u32, text: String },
}

/// What a [`NotificationSignal`] says.
pub enum NotificationSignalModel {
    Closed { id: u32, reason: u32 },
    ActionInvoked { id: u32, action_key: Seq<char> },
    ActivationToken { id: u32, token: Seq<char> },
    Replied { id: u32, text: Seq<char> },
}

impl DeepView for NotificationSignal {
    type V = NotificationSignalModel;

    open spec fn deep_view(&self) -> NotificationSignalModel {
        match self {
            NotificationSignal::Closed { id, reason } => NotificationSignalModel::Closed {
                id: *id,
                reason: *reason,
            },
            NotificationSignal::ActionInvoked { id, action_key } =>
                NotificationSignalModel::ActionInvoked { id: *id, action_key: action_key@ },
            NotificationSignal::ActivationToken { id, token } =>
                NotificationSignalModel::ActivationToken { id: *id, token: token@ },
            NotificationSignal::Replied { id, text } => NotificationSignalModel::Replied {
                id: *id,
                text: text@,
            },
        }
    }
}

impl Clone for NotificationSignal {
    fn clone(&self) -> (copy: Self)
        ensures
            copy.deep_view() == self.deep_view(),
    {
        match self {
            NotificationSignal::Closed { id, reason } => NotificationSignal::Closed {
                id: *id,
                reason: *reason,
            },
            NotificationSignal::ActionInvoked { id, action_key } =>
                NotificationSignal::ActionInvoked { id: *id, action_key: action_key.clone() },
            NotificationSignal::ActivationToken { id, token } =>
                NotificationSignal::ActivationToken { id: *id, token: token.clone() },
            NotificationSignal::Replied { id, text } => NotificationSignal::Replied {
                id: *id,
                text: text.clone(),
            },
        }
    }
}

/// How long a notification stays, in milliseconds: until it is closed where
/// there is no answer. Zero asks for that; a negative time leaves it to the
/// daemon, which lets urgent notifications stay.
pub open spec fn timeout_of(requested: i32, urgency: u8) -> Option<u64> {
    if requested == 0 {
        None
    } else if requested > 0 {
        Some(requested as u64)
    } else if urgency >= 2 {
        None
    } else {
        Some(DEFAULT_TIMEOUT_MS)
    }
}

/// How long a notification stays, in milliseconds.
pub fn effective_timeout_ms(requested: i32, urgency: u8) -> (timeout: Option<u64>)
    ensures
        timeout == timeout_of(requested, urgency),
{
    if requested == 0 {
        None
    } else if requested > 0 {
        Some(requested as u64)
    } else if urgency >= 2 {
        None
    } else {
        Some(DEFAULT_TIMEOUT_MS)
    }
}

/// A sum of times, the greatest where it is too great.
pub open spec fn time_sum(a: u64, b: u64) -> u64 {
    if a + b > u64::MAX {
        u64::MAX
    } else {
        (a + b) as u64
    }
}

/// The group of a notification: its desktop entry, else its program.
pub open spec fn group_of(incoming: IncomingNotificationModel) -> Seq<char> {
    if incoming.hints.desktop_entry.len() > 0 {
        incoming.hints.desktop_entry
    } else if incoming.app_name.len() > 0 {
        incoming.app_name
    } else {
        "unknown"@
    }
}

/// What becomes of a notification that comes in.
pub open spec fn activated(id: u32, incoming: IncomingNotificationModel, now: u64)
    -> ActiveNotificationModel {
    ActiveNotificationModel {
        id,
        app_name: incoming.app_name,
        app_icon: incoming.app_icon,
        summary: incoming.summary,
        body: incoming.body,
        actions: incoming.actions,
        hints: incoming.hints,
        created_unix_ms: now,
        updated_unix_ms: now,
        expires_unix_ms: match timeout_of(incoming.expire_timeout, incoming.hints.urgency) {
            Some(timeout) => Some(time_sum(now, timeout)),
            None => None,
        },
        group_key: group_of(incoming),
        source_monitor: Seq::empty(),
        snoozed_until_unix_ms: None,
    }
}

impl ActiveNotification {
    /// What becomes of a notification that comes in.
    pub fn from_incoming(id: u32, incoming: IncomingNotification, now: u64) -> (active: Self)
        ensures
            active.deep_view() == activated(id, incoming.deep_view(), now),
    {
        let expires_unix_ms = match effective_timeout_ms(
            incoming.expire_timeout,
            incoming.hints.urgency,
        ) {
            Some(timeout) => Some(now.saturating_add(timeout)),
            None => None,
        };
        let group_key = if !is_empty(incoming.hints.desktop_entry.as_str()) {
            incoming.hints.desktop_entry.clone()
        } else if !is_empty(incoming.app_name.as_str()) {
            incoming.app_name.clone()
        } else {
            "unknown".to_string()
        };
        ActiveNotification {
            id,
            app_name: incoming.app_name,
            app_icon: incoming.app_icon,
            summary: incoming.summary,
            body: incoming.body,
            actions: incoming.actions,
            hints: incoming.hints,
            created_unix_ms: now,
            updated_unix_ms: now,
            expires_unix_ms,
            group_key,
            source_monitor: String::new(),
            snoozed_until_unix_ms: None,
        }
    }

    /// Puts a notification that comes in in this one's place. It keeps the id
    /// and the time at which this one was made.
    pub fn replace_from(&mut self, incoming: IncomingNotification, now: u64)
        ensures
            final(self).deep_view() == (ActiveNotificationModel {
                created_unix_ms: old(self).created_unix_ms,
                ..activated(old(self).id, incoming.deep_view(), now)
            }),
    {
        let created: u64 = self.created_unix_ms;
        *self = ActiveNotification::from_incoming(self.id, incoming, now);
        self.created_unix_ms = created;
    }
}

} // verus!
