use bar_daemon::activity::notifications::engine::NotificationEngine;
use bar_daemon::activity::notifications::model::{
    IncomingNotification, NotificationAction, NotificationHints, NotificationSignal,
};
use bar_daemon::api::dispatch::{
    answer_head, daemon_unavailable, dispatch, invalid_parameters, unreadable_parameters,
};
use bar_daemon::api::effects::{failed, plan_focus, plan_media, Effect, MediaPlan};
use bar_daemon::api::notifications::{
    check_id, dismiss, invoke_action, native_required, plan_history, reply, snooze,
};
use bar_daemon::media::MediaService;
use bar_daemon::model::{
    BarSnapshot, MediaPlayer, MediaState, NotificationState, PowerProfileState, WorkspaceState,
};
use bar_daemon::protocol::registry::{methods, registry, streams, Method, Stream, NAME, VERSION};
use bar_daemon::protocol::stream;
use bar_daemon::sorting::stable_sort;
use bar_daemon::hyprland::{HyprWorkspace, WorkspaceOrder};
use bar_daemon::state::{initial_stream_data, stream_state, DomainState, StateStore};
use bar_daemon::subscriptions::{
    deliveries, owner_lost, stream_selected, StreamNews, SubscriptionTable,
};

fn notification(summary: &str) -> IncomingNotification {
    IncomingNotification {
        app_name: "test".into(),
        app_icon: String::new(),
        summary: summary.into(),
        body: String::new(),
        actions: Vec::new(),
        hints: NotificationHints::default(),
        expire_timeout: 0,
    }
}

// What is offered

#[test]
fn registry_matches_constants() {
    let value = registry();
    let names: Vec<String> = value.methods.iter().map(|entry| entry.name.clone()).collect();
    let constants: Vec<&str> = methods().iter().map(|method| method.name()).collect();
    assert_eq!(names, constants);
    let stream_names: Vec<String> =
        value.streams.iter().map(|entry| entry.name.clone()).collect();
    let stream_constants: Vec<&str> = streams().iter().map(|stream| stream.name()).collect();
    assert_eq!(stream_names, stream_constants);
    let mut unique = names.clone();
    unique.sort();
    unique.dedup();
    assert_eq!(unique.len(), names.len());
    let mut unique = stream_names.clone();
    unique.sort();
    unique.dedup();
    assert_eq!(unique.len(), stream_names.len());
    assert_eq!((value.protocol.as_str(), value.version), ("bar-api", 1));
}

#[test]
fn names_lead_back_to_methods_and_streams() {
    for method in methods() {
        assert_eq!(Method::from_name(method.name()), Some(method));
    }
    for stream in streams() {
        assert_eq!(Stream::from_name(stream.name()), Some(stream));
    }
    assert_eq!(Method::from_name("bar.nothing"), None);
    assert_eq!((NAME, VERSION), ("bar-api", 1));
}

// What is sent

#[test]
fn selects_only_subscribed_event_streams() {
    let streams = vec![stream::AUDIO.to_string(), stream::MEDIA.to_string()];
    assert!(stream_selected(&streams, stream::AUDIO));
    assert!(!stream_selected(&streams, stream::BATTERY));
}

#[test]
fn initial_subscription_includes_current_domain_state() {
    let data = initial_stream_data(stream::WORKSPACES, &BarSnapshot::default());
    let Some(DomainState::Workspaces(workspaces)) = data else {
        panic!("the stream of workspaces shows workspaces");
    };
    assert_eq!(workspaces.available, false);
}

#[test]
fn every_stream_begins_with_its_own_domain() {
    let snapshot = BarSnapshot {
        notifications: NotificationState { count: 2, ..NotificationState::default() },
        workspaces: WorkspaceState { available: true, ..WorkspaceState::default() },
        ..BarSnapshot::default()
    };
    assert_eq!(
        initial_stream_data(stream::NOTIFICATIONS, &snapshot),
        Some(DomainState::Notifications(snapshot.notifications.clone()))
    );
    assert_eq!(
        stream_state(Stream::Workspaces, &snapshot),
        DomainState::Workspaces(snapshot.workspaces.clone())
    );
    assert_eq!(
        stream_state(Stream::Audio, &snapshot),
        DomainState::Audio(BarSnapshot::default().audio)
    );
    assert_eq!(initial_stream_data("nothing.changed", &snapshot), None);
}

#[test]
fn only_emits_changed_domain_values() {
    let mut store = StateStore::new();
    let state = WorkspaceState { available: true, ..WorkspaceState::default() };
    assert_eq!(store.update_workspaces(state.clone()), Some(stream::WORKSPACES));
    assert_eq!(store.snapshot().workspaces.available, true);
    assert_eq!(store.update_workspaces(state), None);
}

#[test]
fn snapshot_and_subscription_share_one_update_boundary() {
    let mut store = StateStore::new();
    assert!(!store.snapshot().workspaces.available);
    let event = store.update_workspaces(WorkspaceState {
        available: true,
        ..WorkspaceState::default()
    });
    assert_eq!(event, Some(stream::WORKSPACES));
    assert_eq!(store.snapshot().workspaces.available, true);
}

#[test]
fn a_change_touches_one_domain() {
    let mut store = StateStore::new();
    let state = NotificationState { count: 2, ..NotificationState::default() };
    assert_eq!(store.update_notifications(state), Some(stream::NOTIFICATIONS));
    let expected = BarSnapshot {
        notifications: NotificationState { count: 2, ..NotificationState::default() },
        ..BarSnapshot::default()
    };
    assert_eq!(*store.snapshot(), expected);
}

#[test]
fn only_its_owner_ends_a_subscription() {
    let mut table = SubscriptionTable::new();
    let streams = vec![stream::AUDIO.to_string()];
    let first = table.subscribe(&streams, Some(":1.5".into())).unwrap();
    let second = table.subscribe(&streams, Some(":1.6".into())).unwrap();
    assert_eq!((first.as_str(), second.as_str()), ("subscription-1", "subscription-2"));
    let refused = table.cancel(&first, &Some(":1.6".into())).unwrap_err();
    assert_eq!(refused.code, "request-not-found");
    assert_eq!(refused.message, "No active request named subscription-1");
    assert!(table.cancel(&first, &Some(":1.5".into())).is_ok());
    assert!(table.cancel(&first, &Some(":1.5".into())).is_err());
    table.remove(&second);
    assert!(table.cancel(&second, &Some(":1.6".into())).is_err());
}

#[test]
fn unknown_streams_are_refused() {
    let mut table = SubscriptionTable::new();
    let error = table
        .subscribe(&vec![stream::AUDIO.to_string(), "rain.changed".to_string()], None)
        .unwrap_err();
    assert_eq!(error.code, "unsupported-stream");
    assert_eq!(error.message, "Unsupported bar-api stream: rain.changed");
    assert_eq!(table.subscribe(&Vec::new(), None).unwrap(), "subscription-1");
}

#[test]
fn clients_hear_of_their_streams() {
    let streams = vec![stream::AUDIO.to_string(), stream::MEDIA.to_string()];
    let sent = |news: StreamNews| {
        deliveries(&streams, news)
            .into_iter()
            .map(|delivery| (delivery.stream, delivery.event))
            .collect::<Vec<_>>()
    };
    assert_eq!(
        sent(StreamNews::Started),
        vec![
            (stream::AUDIO.to_string(), "subscribed"),
            (stream::MEDIA.to_string(), "subscribed")
        ]
    );
    assert_eq!(
        sent(StreamNews::Changed(stream::MEDIA.into())),
        vec![(stream::MEDIA.to_string(), "changed")]
    );
    assert!(sent(StreamNews::Changed(stream::BATTERY.into())).is_empty());
    assert_eq!(sent(StreamNews::Lagged)[1].1, "lagged");
}

#[test]
fn clients_that_leave_the_bus_are_noticed() {
    assert!(owner_lost(":1.5", ":1.5", ":1.5", ""));
    assert!(!owner_lost(":1.5", ":1.6", ":1.6", ""));
    assert!(!owner_lost(":1.5", ":1.5", "", ":1.5"));
}

// What is asked

#[test]
fn returns_versioned_snapshot() {
    let method = dispatch("bar.snapshot");
    assert_eq!(method, Ok(Method::BarSnapshot));
    let head = answer_head(method.err());
    assert_eq!(head.protocol, "bar-api");
    assert_eq!(head.version, 1);
    assert_eq!(head.ok, true);
    assert_eq!(*StateStore::new().snapshot(), BarSnapshot::default());
}

#[test]
fn refusals_are_answered_with_their_reason() {
    let head = answer_head(dispatch("bar.nothing").err());
    assert_eq!((head.protocol.as_str(), head.version, head.ok), ("bar-api", 1, false));
    assert_eq!(head.error.unwrap().code, "unsupported-method");
}

#[test]
fn methods_that_are_not_offered_are_refused() {
    let error = dispatch("bar.nothing").unwrap_err();
    assert_eq!(error.code, "unsupported-method");
    assert_eq!(error.message, "Unsupported bar-api method: bar.nothing");
    assert_eq!(
        invalid_parameters(Method::TodosCreate, "bad").message,
        "todos.create parameters are invalid: bad"
    );
    assert_eq!(unreadable_parameters("eof").message, "invalid params JSON: eof");
    assert_eq!(daemon_unavailable().code, "daemon-unavailable");
}

#[test]
fn rejects_unsupported_media_operation_without_accessing_dbus() {
    let error = plan_media("shuffle", None, None, &None).unwrap_err();
    assert_eq!(error.code, "media-operation-failed");
}

#[test]
fn cycles_media_players_without_calling_mpris() {
    let mut store = StateStore::new();
    store.update_media(MediaState {
        available: true,
        active_player: Some("first".into()),
        players: vec![
            MediaPlayer { id: "first".into(), ..MediaPlayer::default() },
            MediaPlayer { id: "second".into(), ..MediaPlayer::default() },
        ],
        error: None,
    });
    let mut media = MediaService::new();
    assert_eq!(plan_media("cycle", None, None, &None), Ok(MediaPlan::Cycle));
    let state = media.cycle(store.snapshot().media.clone()).unwrap();
    assert_eq!(state.active_player.as_deref(), Some("second"));
    store.update_media(state);
    assert_eq!(store.snapshot().media.active_player.as_deref(), Some("second"));
}

#[test]
fn validates_media_seek_before_calling_mpris() {
    let missing = plan_media("seek", None, None, &None).unwrap_err();
    let out_of_range = plan_media("seek", None, Some(86_401), &None).unwrap_err();
    assert_eq!(missing.code, "validation-error");
    assert_eq!(out_of_range.code, "media-operation-failed");
    assert_eq!(
        plan_media("seek", None, Some(-5), &Some("shown".into())),
        Ok(MediaPlan::Seek {
            player_id: Some("shown".into()),
            offset_seconds: -5,
            offset_us: -5_000_000,
        })
    );
    assert_eq!(
        plan_media("next", Some("named".into()), None, &Some("shown".into())),
        Ok(MediaPlan::Call { player_id: Some("named".into()), method: "Next".into() })
    );
}

#[test]
fn successful_power_profile_effect_updates_the_snapshot() {
    let mut store = StateStore::new();
    let state = PowerProfileState {
        available: true,
        profile: "balanced".into(),
        ..PowerProfileState::default()
    };
    assert_eq!(store.update_power_profile(state.clone()), Some(stream::POWER_PROFILE));
    assert_eq!(store.snapshot().power_profile, state);
}

#[test]
fn controls_native_notifications() {
    let mut engine = NotificationEngine::new();
    let id = engine.notify(0, notification("summary"), String::new(), 1).unwrap().0;
    engine.set_dnd(true, None);
    assert_eq!(engine.publish().0.dnd, true);
    assert!(dismiss(&mut engine, id, 2).is_ok());
    assert!(engine.active().is_empty());
}

#[test]
fn requests_about_notifications_that_are_not_there_are_refused() {
    let mut engine = NotificationEngine::new();
    assert_eq!(check_id(0).unwrap_err().message, "notification id must be positive");
    assert_eq!(dismiss(&mut engine, 0, 1).unwrap_err().code, "validation-error");
    let absent = dismiss(&mut engine, 7, 1).unwrap_err();
    assert_eq!(absent.code, "notification-not-found");
    assert_eq!(absent.message, "notification 7 is not active");
    assert_eq!(reply(&engine, 7, "hi").unwrap_err().code, "notification-not-found");
    assert_eq!(snooze(&mut engine, 7, 9, 1).unwrap_err().code, "notification-not-found");
    assert_eq!(
        invoke_action(&mut engine, 7, "default", None, 1).unwrap_err().code,
        "notification-action-not-found"
    );
    assert_eq!(native_required().code, "native-notifications-required");
}

#[test]
fn requests_about_notifications_take_effect() {
    let mut engine = NotificationEngine::new();
    let mut incoming = notification("choose");
    incoming.actions = vec![NotificationAction { key: "default".into(), label: "Open".into() }];
    let id = engine.notify(0, incoming, String::new(), 1).unwrap().0;
    assert_eq!(
        reply(&engine, id, "hi").unwrap().signals,
        vec![NotificationSignal::Replied { id, text: "hi".into() }]
    );
    assert!(snooze(&mut engine, id, 50, 2).is_ok());
    assert_eq!(engine.publish().0.count, 0);
    assert!(invoke_action(&mut engine, id, "default", None, 3).is_ok());
    assert!(engine.active().is_empty());
}

#[test]
fn history_comes_in_pages() {
    assert_eq!(plan_history(None, 50), Ok(50));
    assert_eq!(plan_history(Some(3), 5_000), Ok(200));
    let error = plan_history(Some(0), 5).unwrap_err();
    assert_eq!(error.message, "before_history_id must be positive or null");
}

#[test]
fn failures_carry_the_code_of_their_operation() {
    assert_eq!(failed(Effect::Audio, "no node").code, "audio-operation-failed");
    assert_eq!(failed(Effect::TodoCreate, "x").code, "todo-create-failed");
    assert_eq!(failed(Effect::NotificationHistory, "x").message, "x");
    let error = plan_focus(0, false).unwrap_err();
    assert_eq!(error.code, "workspace-focus-failed");
    assert_eq!(error.message, "workspace_id must be a positive integer");
    assert!(plan_focus(2, false).is_ok());
}

// Order

#[test]
fn sorting_keeps_equal_items_in_their_order() {
    let item = |id: i64, name: &str| HyprWorkspace {
        id,
        name: name.into(),
        ..HyprWorkspace::default()
    };
    let sorted = stable_sort::<HyprWorkspace, WorkspaceOrder>(vec![
        item(2, "a"),
        item(1, "b"),
        item(2, "c"),
        item(1, "d"),
    ]);
    let names: Vec<&str> = sorted.iter().map(|item| item.name.as_str()).collect();
    assert_eq!(names, ["b", "d", "a", "c"]);
}
