use bar_daemon::activity::notifications::close_reason;
use bar_daemon::activity::notifications::engine::{
    NotificationEngine, NotifyError, PersistenceCommand,
};
use bar_daemon::activity::notifications::model::{
    effective_timeout_ms, ActiveNotification, IncomingNotification, NotificationAction,
    NotificationHints, NotificationSignal,
};
use bar_daemon::activity::notifications::persistence::{is_stored, read_dnd, write_dnd};
use bar_daemon::activity::notifications::policy::{NotificationPolicy, PolicyError};
use bar_daemon::activity::notifications::server::{
    capabilities, flatten_actions, internal_notification, normalize_hints, outgoing_hints,
    pair_actions,
};
use bar_daemon::activity::notifications::swaync::{
    ended_state, is_chosen, next_retry, notification_count, status_state, status_state_in,
    WaybarStatus,
};
use bar_daemon::model::NotificationState;
use bar_daemon::properties::{Property, PropertyValue};

fn notification(summary: &str, timeout_ms: i32) -> IncomingNotification {
    IncomingNotification {
        app_name: "test".into(),
        app_icon: String::new(),
        summary: summary.into(),
        body: String::new(),
        actions: Vec::new(),
        hints: NotificationHints::default(),
        expire_timeout: timeout_ms,
    }
}

fn send(engine: &mut NotificationEngine, replaces: u32, summary: &str, timeout: i32, now: u64) -> u32 {
    engine.notify(replaces, notification(summary, timeout), String::new(), now).unwrap().0
}

fn property(key: &str, value: PropertyValue) -> Property {
    Property { key: key.into(), value }
}

#[test]
fn allocates_replaces_and_updates_summary() {
    let mut engine = NotificationEngine::new();
    let first = send(&mut engine, 0, "first", 0, 10);
    let replaced = send(&mut engine, first, "replacement", 0, 20);
    assert_eq!(first, replaced);
    assert_eq!(engine.active()[0].summary, "replacement");
    assert_eq!(engine.active()[0].created_unix_ms, 10);
    assert_eq!(engine.publish().0.count, 1);
}

#[test]
fn snoozes_restores_and_clears_groups() {
    let mut engine = NotificationEngine::new();
    let first = send(&mut engine, 0, "first", 0, 100);
    send(&mut engine, 0, "second", 0, 100);
    assert!(engine.snooze(first, 110, 100).0);
    assert_eq!(engine.publish().0.count, 1);
    assert_eq!(engine.next_expiry_delay(100), Some(10));
    engine.expire_due(110);
    assert_eq!(engine.publish().0.count, 2);
    assert_eq!(engine.clear_group("test", 111).0, 2);
    assert!(engine.active().is_empty());
}

#[test]
fn timed_dnd_expires() {
    let mut engine = NotificationEngine::new();
    engine.set_dnd(true, Some(110));
    assert!(engine.publish().0.dnd);
    assert_eq!(engine.next_expiry_delay(100), Some(10));
    engine.expire_due(110);
    assert!(!engine.publish().0.dnd);
    assert_eq!(engine.publish().0.dnd_until_unix_ms, None);
}

#[test]
fn expires_and_emits_close_reason() {
    let mut engine = NotificationEngine::new();
    send(&mut engine, 0, "short", 5, 100);
    assert_eq!(engine.next_expiry_delay(100), Some(5));
    let effects = engine.expire_due(105);
    assert_eq!(
        effects.signals[0],
        NotificationSignal::Closed { id: 1, reason: close_reason::EXPIRED }
    );
    assert_eq!(engine.next_expiry_delay(105), None);
}

#[test]
fn normalizes_common_notification_hints() {
    let hints = vec![
        property("urgency", PropertyValue::Byte(2)),
        property("resident", PropertyValue::Flag(true)),
    ];
    let normalized = normalize_hints(&hints);
    assert_eq!(normalized.urgency, 2);
    assert!(normalized.resident);
}

#[test]
fn hints_that_are_absent_have_defaults() {
    let normalized = normalize_hints(&vec![
        property("urgency", PropertyValue::Byte(9)),
        property("image_path", PropertyValue::Text("/a.png".into())),
        property("image-data", PropertyValue::Other),
    ]);
    assert_eq!(normalized.urgency, 2);
    assert_eq!(normalized.image_path, "/a.png");
    assert!(normalized.image_data_present);
    assert!(!normalized.transient);
    assert_eq!(normalize_hints(&Vec::new()).urgency, 1);
}

#[test]
fn hints_that_are_sent_are_read_back() {
    let hints = NotificationHints {
        urgency: 2,
        category: "device".into(),
        ..NotificationHints::default()
    };
    let read = normalize_hints(&outgoing_hints(&hints));
    assert_eq!(read.urgency, 2);
    assert_eq!(read.category, "device");
    assert_eq!(outgoing_hints(&NotificationHints::default()).len(), 1);
}

#[test]
fn parses_waybar_status_and_dnd_class() {
    let state = status_state(WaybarStatus {
        text: "3".into(),
        alt: "dnd-notification".into(),
        tooltip: "3 Notifications".into(),
        class_name: "dnd-notification".into(),
    });
    assert_eq!(state.count, 3);
    assert!(state.dnd);
    assert_eq!(state.tooltip, "3 Notifications");
}

#[test]
fn status_words_are_told_apart_in_either_case() {
    let status = WaybarStatus { text: "1".into(), alt: "DND-Inhibited".into(), ..WaybarStatus::default() };
    let state = status_state(status.clone());
    assert!(state.dnd && state.inhibited);
    let plain = status_state_in(status, "notification ");
    assert!(!plain.dnd && !plain.inhibited);
}

#[test]
fn a_status_stream_that_ends_leaves_the_count() {
    let state = ended_state(NotificationState { count: 3, available: true, ..NotificationState::default() });
    assert_eq!(state.count, 3);
    assert!(!state.available);
    assert!(state.error.is_some());
}

#[test]
fn caps_subscription_retry_backoff() {
    assert_eq!(next_retry(1_500), 3_000);
    assert_eq!(next_retry(20_000), 30_000);
    assert_eq!(next_retry(30_000), 30_000);
    assert_eq!(next_retry(u64::MAX), 30_000);
}

#[test]
fn tolerates_decorated_and_empty_counts() {
    assert_eq!(notification_count("󰂚 12"), 12);
    assert_eq!(notification_count("none"), 0);
}

#[test]
fn the_other_daemon_is_chosen_in_either_case() {
    assert!(is_chosen(Some("SwayNC")));
    assert!(!is_chosen(Some("native")));
    assert!(!is_chosen(None));
}

#[test]
fn timeouts_follow_the_urgency() {
    assert_eq!(effective_timeout_ms(0, 1), None);
    assert_eq!(effective_timeout_ms(7_000, 2), Some(7_000));
    assert_eq!(effective_timeout_ms(-1, 1), Some(5_000));
    assert_eq!(effective_timeout_ms(-1, 2), None);
}

#[test]
fn notifications_that_are_too_large_are_refused() {
    let policy = NotificationPolicy::default();
    let with = |change: fn(&mut IncomingNotification)| {
        let mut notification = notification("x", 0);
        change(&mut notification);
        notification
    };
    assert_eq!(policy.validate(&with(|_| {})), Ok(()));
    assert_eq!(
        policy.validate(&with(|n| n.summary = "x".repeat(1 << 20))),
        Err(PolicyError::SummaryTooLong)
    );
    assert_eq!(
        policy.validate(&with(|n| n.body = "x".repeat(1 << 20))),
        Err(PolicyError::BodyTooLong)
    );
    assert_eq!(
        policy.validate(&with(|n| n.actions = vec![NotificationAction::default(); 1_000])),
        Err(PolicyError::TooManyActions)
    );
    assert_eq!(
        policy.validate(&with(|n| n.actions = vec![NotificationAction::default()])),
        Err(PolicyError::EmptyActionKey)
    );
    let mut engine = NotificationEngine::new();
    assert_eq!(
        engine
            .notify(0, with(|n| n.body = "x".repeat(1 << 20)), String::new(), 1)
            .unwrap_err(),
        NotifyError::Policy(PolicyError::BodyTooLong)
    );
}

#[test]
fn the_oldest_notification_makes_room() {
    let mut engine = NotificationEngine::new();
    let limit = NotificationPolicy::default().maximum_active;
    for i in 0..limit {
        send(&mut engine, 0, "n", 0, 10 + i as u64);
    }
    assert_eq!(engine.active().len(), limit);
    let (id, effects) =
        engine.notify(0, notification("last", 0), "eDP-1".into(), 99_999).unwrap();
    assert_eq!(engine.active().len(), limit);
    assert!(engine.active().iter().any(|item| item.id == id && item.source_monitor == "eDP-1"));
    assert_eq!(
        effects.signals,
        vec![NotificationSignal::Closed { id: 1, reason: close_reason::UNDEFINED }]
    );
    assert_eq!(effects.commands.len(), 2);
}

#[test]
fn closing_takes_one_notification_out() {
    let mut engine = NotificationEngine::new();
    let first = send(&mut engine, 0, "first", 0, 1);
    let second = send(&mut engine, 0, "second", 0, 1);
    let (closed, effects) = engine.close(first, close_reason::CLOSED_BY_CALL, 5);
    assert!(closed);
    assert_eq!(
        effects.commands,
        vec![PersistenceCommand::Close {
            id: first,
            closed_unix_ms: 5,
            reason: close_reason::CLOSED_BY_CALL
        }]
    );
    assert_eq!(engine.active().iter().map(|item| item.id).collect::<Vec<_>>(), [second]);
    assert!(!engine.dismiss(first, 6).0);
    assert_eq!(engine.clear(7).0, 1);
    assert_eq!(engine.clear(8).0, 0);
}

#[test]
fn actions_close_what_is_not_resident() {
    let mut engine = NotificationEngine::new();
    let mut incoming = notification("choose", 0);
    incoming.actions = vec![NotificationAction { key: "default".into(), label: "Open".into() }];
    let id = engine.notify(0, incoming.clone(), String::new(), 1).unwrap().0;
    incoming.hints.resident = true;
    let resident = engine.notify(0, incoming, String::new(), 1).unwrap().0;
    assert!(!engine.invoke_action(id, "other", None, 2).0);
    let (found, effects) = engine.invoke_action(id, "default", Some("token".into()), 2);
    assert!(found);
    assert_eq!(
        effects.signals,
        vec![
            NotificationSignal::ActivationToken { id, token: "token".into() },
            NotificationSignal::ActionInvoked { id, action_key: "default".into() },
            NotificationSignal::Closed { id, reason: close_reason::DISMISSED },
        ]
    );
    assert!(engine.invoke_action(resident, "default", None, 3).0);
    assert_eq!(engine.active().len(), 1);
    assert!(engine.reply(resident, "hi").0);
    assert!(!engine.reply(resident, "").0);
}

#[test]
fn toggling_dnd_twice_brings_it_back() {
    let mut engine = NotificationEngine::new();
    assert!(engine.toggle_dnd().0);
    assert_eq!(engine.publish().0.class_name, "dnd-notification");
    assert!(!engine.toggle_dnd().0);
    assert_eq!(engine.publish().0.class_name, "notification");
    assert!(!engine.set_dnd(false, Some(5)).changed);
}

#[test]
fn stored_notifications_come_back_and_ids_go_on() {
    let stored = ActiveNotification::from_incoming(41, notification("kept", 0), 10);
    let (mut engine, effects) = NotificationEngine::build(vec![stored], true, Some(50), 60);
    assert_eq!(
        effects.commands,
        vec![PersistenceCommand::SetDnd { enabled: false, until_unix_ms: None }]
    );
    assert!(!engine.publish().0.dnd);
    assert_eq!(send(&mut engine, 0, "new", 0, 61), 42);
    assert_eq!(engine.publish().0.tooltip, "2 Notifications");
}

#[test]
fn actions_come_in_pairs() {
    let words = vec!["default".to_string(), "Open".to_string()];
    let actions = pair_actions(&words).unwrap();
    assert_eq!(actions[0].key, "default");
    assert_eq!(flatten_actions(&actions), words);
    assert!(pair_actions(&vec!["default".to_string()]).is_none());
    assert!(capabilities().contains(&"actions".to_string()));
}

#[test]
fn internal_notifications_name_the_daemon() {
    let sent = internal_notification("battery", "Low", "Plug in", 9);
    assert_eq!(sent.app_name, "bar-daemon");
    assert_eq!(sent.hints.urgency, 2);
    assert_eq!(sent.hints.category, "device");
    assert_eq!(sent.expire_timeout, -1);
}

#[test]
fn does_not_retain_transient_notifications() {
    let mut incoming = notification("x", 0);
    assert!(is_stored(&ActiveNotification::from_incoming(8, incoming.clone(), 100)));
    incoming.hints.transient = true;
    assert!(!is_stored(&ActiveNotification::from_incoming(8, incoming, 100)));
}

#[test]
fn the_wish_not_to_be_disturbed_is_stored() {
    assert_eq!(write_dnd(true, Some(7)), ("true", Some("7".to_string())));
    assert_eq!(write_dnd(false, Some(7)), ("false", None));
    assert_eq!(read_dnd(Some("true"), Some("7")), (true, Some(7)));
    assert_eq!(read_dnd(Some("false"), Some("7")), (false, None));
    assert_eq!(read_dnd(Some("true"), Some("soon")), (true, None));
    assert_eq!(read_dnd(None, None), (false, None));
}

#[test]
fn a_snoozed_notification_comes_back_on_time() {
    let mut engine = NotificationEngine::new();
    let id = send(&mut engine, 0, "later", 1_000, 100);
    assert!(engine.snooze(id, 5_000, 200).0);
    engine.expire_due(4_999);
    assert_eq!(engine.active().len(), 1);
    assert_eq!(engine.active()[0].snoozed_until_unix_ms, Some(5_000));
    assert_eq!(engine.publish().0.count, 0);
    engine.expire_due(5_000);
    assert_eq!(engine.publish().0.count, 1);
    engine.expire_due(9_999);
    assert_eq!(engine.publish().0.count, 1);
    engine.expire_due(10_000);
    assert_eq!(engine.publish().0.count, 0);
    assert!(engine.active().is_empty());
}
