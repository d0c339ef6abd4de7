use bar_daemon::activity::model::Measure;
use bar_daemon::audio::{
    apply_props, audio_state, default_node_name, disappeared, is_default_metadata, is_relevant,
    new_node, node_kind, plan_mute, plan_volume, preferred_node, read_props, requested_mute,
    DefaultNodes, NodeKind, NodeProperty, NodeWrite, ObjectKind, PropsValues, SinkProbe, NO_SINK,
    NO_SOURCE,
};
use bar_daemon::brightness::{
    adjusted_percent, choose_device, is_valid_percent, percent, raw_brightness, read_device,
    BacklightDevice, BacklightError, BacklightFiles,
};
use bar_daemon::hyprland::{
    check_focus, focus_command, refresh_event, workspace_state, HyprMonitor, HyprWindow,
    HyprWorkspace, HyprlandClient, Instance,
};
use bar_daemon::media::{
    is_player_name, next_player_id, operation_method, read_player, read_player_in,
    resolve_player, seek_offset_microseconds, select_active_player, sort_players, MediaService,
    PlayerReading,
};
use bar_daemon::model::{
    BatteryPolicyState, BatteryState, MediaPlayer, MediaState, PowerProfile, PowerProfileAction,
    PowerProfileState, PowerSleepState, SleepInhibitor,
};
use bar_daemon::osd_hardware::{led_kind, read_state, Led, LedKind};
use bar_daemon::power::{
    self, check_action, check_battery_aware, check_known_profile, check_offered_profile,
    parse_action, parse_hold, parse_profile, should_hold_power_saver, HoldAction,
    LowBatteryHold, PowerReading,
};
use bar_daemon::properties::{
    property_i64, property_string, property_strings, Property, PropertyValue,
};
use bar_daemon::sleep::{
    self, capability_available, failed_state, plan, sleep_state, SleepAction, SleepStep,
};
use bar_daemon::time::{unix_ms, unix_ms_i64, unsigned_millis};
use bar_daemon::timezone::{state_at, state_for_timezone, timezone_state};
use bar_daemon::updates::{self, read_lane, LaneFiles};

fn player(id: &str, status: &str, spotify: bool, controllable: bool) -> MediaPlayer {
    MediaPlayer {
        id: id.into(),
        identity: if spotify { "Spotify".into() } else { id.into() },
        desktop_entry: String::new(),
        playback_status: status.into(),
        can_control: controllable,
        ..MediaPlayer::default()
    }
}

fn text(key: &str, value: &str) -> Property {
    Property { key: key.into(), value: PropertyValue::Text(value.into()) }
}

fn flag(key: &str, value: bool) -> Property {
    Property { key: key.into(), value: PropertyValue::Flag(value) }
}

fn backlight(name: &str, brightness: Option<&str>, actual: Option<&str>, max: &str) -> BacklightFiles {
    BacklightFiles {
        name: name.into(),
        path: format!("/sys/class/backlight/{name}"),
        max_brightness: Some(max.into()),
        brightness: brightness.map(str::to_string),
        actual_brightness: actual.map(str::to_string),
    }
}

// Audio

#[test]
fn parses_default_metadata() {
    assert_eq!(
        default_node_name(r#"{"name":"alsa_output.test"}"#).as_deref(),
        Some("alsa_output.test")
    );
    assert!(default_node_name("invalid").is_none());
}

#[test]
fn selects_the_default_pipewire_node() {
    let nodes = vec![
        SinkProbe { id: 1, name: "fallback".into(), ..SinkProbe::default() },
        SinkProbe { id: 2, name: "preferred".into(), muted: true, ..SinkProbe::default() },
    ];
    let selected = preferred_node(&nodes, "preferred").unwrap();
    assert_eq!(selected.name, "preferred");
    assert!(selected.muted);
    assert_eq!(preferred_node(&nodes, "missing").unwrap().name, "fallback");
    assert!(preferred_node(&Vec::new(), "x").is_none());
}

#[test]
fn nodes_are_told_apart_by_their_class() {
    assert_eq!(node_kind(Some("Audio/Sink")), Some(NodeKind::Sink));
    assert_eq!(node_kind(Some("Audio/Source")), Some(NodeKind::Source));
    assert_eq!(node_kind(Some("Video/Source")), None);
    assert!(is_default_metadata(Some("default")));
    assert!(!is_default_metadata(None));
    let node = new_node(3, NodeKind::Sink, Some("alsa".into()), None, Some("Speaker".into()));
    assert_eq!((node.id, node.name.as_str(), node.description.as_str()), (3, "alsa", "Speaker"));
}

#[test]
fn properties_of_a_node_are_taken_over() {
    let mut node = SinkProbe::default();
    let volume = Measure { bits: 0.125f64.to_bits() };
    apply_props(
        &mut node,
        PropsValues { volume: Some(volume), channels: Some(2), muted: Some(true) },
    );
    apply_props(&mut node, PropsValues::default());
    assert_eq!((node.volume, node.channels, node.muted), (volume, 2, true));
}

#[test]
fn default_nodes_follow_their_metadata() {
    let mut defaults = DefaultNodes::default();
    defaults.set(Some("default.audio.sink"), Some(r#"{"name":"speaker"}"#));
    defaults.set(Some("default.audio.source"), Some(r#"{"name":"mic"}"#));
    defaults.set(Some("default.video.source"), Some(r#"{"name":"camera"}"#));
    assert_eq!((defaults.sink_name.as_str(), defaults.source_name.as_str()), ("speaker", "mic"));
}

#[test]
fn audio_shows_sink_and_source() {
    let sink = SinkProbe { name: "speaker".into(), muted: true, ..SinkProbe::default() };
    let source = SinkProbe { name: "mic".into(), ..SinkProbe::default() };
    let state = audio_state(sink.clone(), Some(source), 40);
    assert!(state.available && state.muted && state.input_available && !state.input_muted);
    assert_eq!((state.volume_percent, state.source_name.as_str()), (40, "mic"));
    assert!(!audio_state(sink, None, 40).input_available);
    assert!(requested_mute(None, false));
    assert!(!requested_mute(Some(false), false));
}

#[test]
fn objects_that_matter_are_told_apart() {
    assert!(is_relevant(ObjectKind::Node, Some("Audio/Source"), None));
    assert!(!is_relevant(ObjectKind::Node, Some("Video/Source"), Some("default")));
    assert!(is_relevant(ObjectKind::Metadata, None, Some("default")));
    assert!(!is_relevant(ObjectKind::Other, Some("Audio/Sink"), Some("default")));
}

#[test]
fn later_properties_of_a_node_count() {
    let quiet = Measure { bits: 0.25f64.to_bits() };
    let loud = Measure { bits: 0.75f64.to_bits() };
    let values = read_props(&vec![
        NodeProperty::Volume(loud),
        NodeProperty::Muted(true),
        NodeProperty::ChannelVolumes { channels: 2, mean: Some(quiet) },
    ]);
    assert_eq!(
        values,
        PropsValues { volume: Some(quiet), channels: Some(2), muted: Some(true) }
    );
    let silent = read_props(&vec![NodeProperty::ChannelVolumes { channels: 0, mean: None }]);
    assert_eq!(silent, PropsValues { volume: None, channels: Some(1), muted: None });
}

#[test]
fn volume_and_mute_are_written_to_the_node() {
    let volume = Measure { bits: 0.5f64.to_bits() };
    let sink = SinkProbe { id: 4, channels: 0, muted: true, ..SinkProbe::default() };
    assert_eq!(
        plan_volume(Some(sink.clone()), volume),
        Ok(NodeWrite { id: 4, channels: 1, volume: Some(volume), muted: Some(false) })
    );
    assert_eq!(plan_volume(None, volume), Err(NO_SINK));
    assert_eq!(
        plan_mute(NodeKind::Sink, Some(sink.clone()), None).unwrap().muted,
        Some(false)
    );
    assert_eq!(
        plan_mute(NodeKind::Sink, Some(sink), Some(true)).unwrap().muted,
        Some(true)
    );
    assert_eq!(plan_mute(NodeKind::Source, None, None), Err(NO_SOURCE));
    assert_eq!(disappeared(NodeKind::Source), "default PipeWire source disappeared");
}

// Brightness

#[test]
fn discovers_highest_resolution_backlight() {
    let devices: Vec<BacklightDevice> = [
        backlight("small", None, Some("5"), "10"),
        backlight("panel", None, Some("600"), "1000"),
    ]
    .into_iter()
    .filter_map(|files| read_device(files).unwrap())
    .collect();
    let device = choose_device(&devices).unwrap();
    assert_eq!(device.name, "panel");
    assert_eq!(device.state().percent, 60);
}

#[test]
fn prefers_requested_brightness_over_hardware_feedback() {
    let device = read_device(backlight("panel", Some("600"), Some("550"), "1000"))
        .unwrap()
        .unwrap();
    let state = choose_device(&vec![device]).unwrap().state();
    assert_eq!(state.brightness, 600);
    assert_eq!(state.percent, 60);
}

#[test]
fn rounds_and_bounds_percentages() {
    assert_eq!(percent(1, 3), 33);
    assert_eq!(percent(200, 100), 100);
    assert_eq!(percent(1, 0), 0);
}

#[test]
fn nonzero_percent_never_turns_off_low_resolution_backlight() {
    assert_eq!(raw_brightness(10, 1), 1);
    assert_eq!(raw_brightness(10, 5), 1);
    assert_eq!(raw_brightness(10, 100), 10);
}

#[test]
fn brightness_moves_within_its_bounds() {
    let device = read_device(backlight("panel", Some("600"), None, "1000")).unwrap().unwrap();
    assert_eq!(adjusted_percent(&device, 10), 70);
    assert_eq!(adjusted_percent(&device, 500), 100);
    assert_eq!(adjusted_percent(&device, -500), 1);
    assert_eq!(device.target(70), 700);
    assert!(is_valid_percent(1) && is_valid_percent(100));
    assert!(!is_valid_percent(0) && !is_valid_percent(101));
}

#[test]
fn backlights_that_cannot_be_read_are_told_apart() {
    assert_eq!(
        read_device(backlight("panel", Some("x"), None, "1000")),
        Err(BacklightError::Brightness)
    );
    assert!(choose_device(&Vec::new()).is_none());
}

// Workspaces

#[test]
fn parses_and_orders_workspace_snapshot() {
    let workspaces = vec![
        HyprWorkspace {
            id: 5,
            name: "5".into(),
            monitor: "eDP-1".into(),
            windows: 1,
            has_fullscreen: true,
            last_window_title: "Scratchpad".into(),
            ..HyprWorkspace::default()
        },
        HyprWorkspace {
            id: 1,
            name: "1".into(),
            monitor: "eDP-1".into(),
            windows: 2,
            urgent: true,
            ..HyprWorkspace::default()
        },
    ];
    let monitors = vec![HyprMonitor {
        id: 0,
        name: "eDP-1".into(),
        focused: true,
        active_workspace_id: 1,
    }];
    let state = workspace_state(workspaces, monitors, HyprWindow::default());
    assert_eq!(state.focused_monitor.as_deref(), Some("eDP-1"));
    assert_eq!(state.workspaces.iter().map(|ws| ws.id).collect::<Vec<_>>(), [1, 5]);
    assert!(state.workspaces[0].urgent);
    assert!(state.workspaces[1].fullscreen);
    assert!(state.active_window.is_none());
}

#[test]
fn filters_irrelevant_hyprland_events() {
    assert!(refresh_event("workspace>>2"));
    assert!(refresh_event("openwindow>>abc"));
    assert!(!refresh_event("activelayout>>keyboard,English"));
}

#[test]
fn reports_missing_instance() {
    let client = HyprlandClient { runtime_dir: "/run/user/1000".into(), signature: None };
    assert!(client.choose_instance(false, &Vec::new()).is_none());
    let dead = vec![Instance { name: "old".into(), alive: false }];
    assert!(client.choose_instance(false, &dead).is_none());
}

#[test]
fn the_session_finds_its_own_compositor() {
    let client = HyprlandClient::from_environment(None, 1000, Some("own".into()));
    assert_eq!(client.runtime_dir, "/run/user/1000");
    let instances = vec![
        Instance { name: "old".into(), alive: false },
        Instance { name: "other".into(), alive: true },
    ];
    assert_eq!(client.choose_instance(true, &instances).as_deref(), Some("own"));
    assert_eq!(client.choose_instance(false, &instances).as_deref(), Some("other"));
    let nameless = HyprlandClient::from_environment(Some("/tmp".into()), 0, Some(String::new()));
    assert_eq!(nameless.signature, None);
    assert_eq!(nameless.runtime_dir, "/tmp");
}

#[test]
fn focus_is_asked_for_and_confirmed() {
    assert_eq!(
        focus_command(3, true).as_deref(),
        Some("dispatch hl.dsp.focus({ workspace = 3, on_current_monitor = true })")
    );
    assert_eq!(
        focus_command(3, false).as_deref(),
        Some("dispatch hl.dsp.focus({ workspace = 3 })")
    );
    assert_eq!(focus_command(0, false), None);
    assert_eq!(check_focus(" ok\n"), Ok(()));
    assert_eq!(
        check_focus(" no such workspace\n"),
        Err("Hyprland rejected workspace focus: no such workspace".into())
    );
}

// Media

#[test]
fn cycles_players_and_requires_an_alternative() {
    let players = vec![
        player("browser", "paused", false, true),
        player("spotify", "paused", true, true),
    ];
    assert_eq!(next_player_id(&players, Some("browser")).as_deref(), Some("spotify"));
    assert_eq!(next_player_id(&players, Some("spotify")).as_deref(), Some("browser"));
    assert_eq!(next_player_id(&players, Some("missing")).as_deref(), Some("browser"));
    assert!(next_player_id(&players[..1].to_vec(), Some("browser")).is_none());
}

#[test]
fn manual_cycle_is_retained_by_monitor_selection() {
    let mut service = MediaService::new();
    let players = vec![
        player("browser", "paused", false, true),
        player("spotify", "paused", true, true),
    ];
    let state = service
        .cycle(MediaState {
            available: true,
            active_player: Some("spotify".into()),
            players: players.clone(),
            error: None,
        })
        .unwrap();
    assert_eq!(state.active_player.as_deref(), Some("browser"));
    assert_eq!(service.publish(players).active_player.as_deref(), Some("browser"));
    let left = vec![player("spotify", "paused", true, true)];
    assert_eq!(service.publish(left).active_player.as_deref(), Some("spotify"));
}

#[test]
fn validates_and_converts_seek_offsets() {
    assert_eq!(seek_offset_microseconds(-15).unwrap(), -15_000_000);
    assert_eq!(seek_offset_microseconds(30).unwrap(), 30_000_000);
    assert!(seek_offset_microseconds(0).is_err());
    assert!(seek_offset_microseconds(86_401).is_err());
}

#[test]
fn maps_operations_before_accessing_dbus() {
    assert_eq!(operation_method("play-pause").unwrap(), "PlayPause");
    assert_eq!(operation_method("next").unwrap(), "Next");
    assert_eq!(operation_method("previous").unwrap(), "Previous");
    assert!(operation_method("shuffle").is_err());
}

#[test]
fn selects_playing_then_spotify_then_controllable_player() {
    let players = vec![
        player("browser", "paused", false, true),
        player("spotify", "paused", true, true),
        player("playing", "playing", false, true),
    ];
    assert_eq!(select_active_player(&players).unwrap().id, "playing");
    assert_eq!(select_active_player(&players[..2].to_vec()).unwrap().id, "spotify");
    assert_eq!(select_active_player(&players[..1].to_vec()).unwrap().id, "browser");
}

#[test]
fn players_are_read_and_put_in_order() {
    let reading = || PlayerReading {
        name: "org.mpris.MediaPlayer2.spotify".into(),
        identity: None,
        desktop_entry: Some("spotify".into()),
        playback_status: Some("Playing".into()),
        metadata: vec![
            text("xesam:title", "Song"),
            Property {
                key: "xesam:artist".into(),
                value: PropertyValue::Texts(vec!["A".into(), "B".into()]),
            },
            Property { key: "mpris:length".into(), value: PropertyValue::Signed(9) },
        ],
        position_us: Some(-4),
        playback_rate: Measure { bits: 1.0f64.to_bits() },
        can_control: true,
        can_play: true,
        can_pause: true,
        can_next: false,
        can_previous: false,
    };
    let read = read_player(reading(), 77);
    assert_eq!(read.id, "org.mpris.MediaPlayer2.spotify");
    assert_eq!(read.playback_status, "playing");
    assert_eq!((read.title.as_str(), read.artist.as_str()), ("Song", "A, B"));
    assert_eq!((read.length_us, read.position_us), (9, 0));
    assert_eq!(read.position_observed_at_unix_ms, 77);
    assert_eq!(read_player_in(reading(), "paused".into(), 77).playback_status, "paused");
    let sorted = sort_players(vec![
        player("b", "paused", false, true),
        player("a", "paused", false, true),
    ]);
    assert_eq!(sorted.iter().map(|player| player.id.as_str()).collect::<Vec<_>>(), ["a", "b"]);
    assert!(is_player_name("org.mpris.MediaPlayer2.vlc"));
    assert!(!is_player_name("org.freedesktop.Notifications"));
}

#[test]
fn requests_find_their_player() {
    let names = vec!["one".to_string()];
    let players = vec![player("one", "paused", false, true)];
    assert_eq!(resolve_player(&names, Some("one"), &players).unwrap(), "one");
    assert!(resolve_player(&names, Some("two"), &players).is_err());
    assert_eq!(resolve_player(&names, None, &players).unwrap(), "one");
    assert!(resolve_player(&names, None, &Vec::new()).is_err());
}

// Power

#[test]
fn parses_profile_dictionary() {
    let values = vec![
        text("Profile", "balanced"),
        text("Driver", "amd_pstate"),
        text("PlatformDriver", "platform_profile"),
    ];
    let profile = parse_profile(&values).unwrap();
    assert_eq!(profile.name, "balanced");
    assert_eq!(profile.driver, "amd_pstate");
}

#[test]
fn parses_action_and_hold_dictionaries() {
    let action = parse_action(&vec![
        text("Action", "amdgpu_panel_power"),
        text("Description", "Panel power savings"),
        flag("Enabled", true),
    ])
    .unwrap();
    assert_eq!(action.name, "amdgpu_panel_power");
    assert!(action.enabled);

    let hold = parse_hold(&vec![
        text("ApplicationId", "org.example.Compiler"),
        text("Profile", "performance"),
        text("Reason", "Building"),
    ])
    .unwrap();
    assert_eq!(hold.profile, "performance");
    assert_eq!(hold.reason, "Building");
}

#[test]
fn low_battery_hold_requires_enabled_discharging_warning() {
    let state = BatteryState {
        available: true,
        warning: true,
        policy: BatteryPolicyState {
            auto_power_saver: true,
            ..BatteryPolicyState::default()
        },
        ..BatteryState::default()
    };
    assert!(should_hold_power_saver(&state));
    assert!(!should_hold_power_saver(&BatteryState { plugged: true, ..state.clone() }));
    assert!(!should_hold_power_saver(&BatteryState { warning: false, ..state }));
}

#[test]
fn the_low_battery_hold_comes_and_goes() {
    let low = BatteryState {
        available: true,
        warning: true,
        policy: BatteryPolicyState { auto_power_saver: true, ..BatteryPolicyState::default() },
        ..BatteryState::default()
    };
    let mut hold = LowBatteryHold::default();
    assert_eq!(hold.reconcile(&low), HoldAction::Hold);
    hold.held(7);
    assert_eq!(hold.reconcile(&low), HoldAction::Keep);
    assert_eq!(hold.profile_picked(&low), HoldAction::Release(7));
    assert_eq!(hold.reconcile(&low), HoldAction::Keep);
    assert_eq!(hold.reconcile(&BatteryState::default()), HoldAction::Keep);
    assert_eq!(hold.reconcile(&low), HoldAction::Hold);
}

#[test]
fn power_settings_that_are_not_there_are_refused() {
    let state = power::read_state(PowerReading {
        profile: "balanced".into(),
        profiles: vec![vec![text("Profile", "balanced")], Vec::new()],
        actions_info: vec![vec![text("Action", "panel"), flag("Enabled", false)]],
        actions: vec!["panel".into()],
        holds: Vec::new(),
        performance_degraded: String::new(),
        version: "0.30".into(),
        battery_aware: Some(true),
    });
    assert!(state.available);
    assert_eq!(state.profiles.len(), 1);
    assert_eq!(state.actions.len(), 1);
    assert!(check_known_profile("balanced").is_ok());
    assert!(check_known_profile("turbo").is_err());
    assert!(check_offered_profile(&state, "balanced").is_ok());
    assert!(check_offered_profile(&state, "performance").is_err());
    assert!(check_battery_aware(&state).is_ok());
    assert!(check_battery_aware(&PowerProfileState::default()).is_err());
    assert!(check_action(&state, "panel").is_ok());
    assert!(check_action(&state, "other").is_err());
    assert_eq!(PowerProfile::default().name, PowerProfileAction::default().name);
}

#[test]
fn accepts_available_and_authorizable_capabilities() {
    assert!(capability_available("yes"));
    assert!(capability_available("challenge"));
    assert!(!capability_available("no"));
    assert!(!capability_available("na"));
}

#[test]
fn the_session_is_locked_before_it_sleeps() {
    let state = sleep_state("yes".into(), "na".into(), vec![SleepInhibitor::default()], false);
    assert!(state.available);
    let steps = plan(SleepAction::Suspend, &state).unwrap();
    assert_eq!(steps, vec![SleepStep::LockSession, SleepStep::Suspend]);
    assert_eq!(plan(SleepAction::Lock, &state).unwrap(), vec![SleepStep::LockSession]);
    assert!(plan(SleepAction::Hibernate, &state).is_err());
    assert_eq!(SleepAction::from_name("suspend"), Ok(SleepAction::Suspend));
    assert!(SleepAction::from_name("reboot").is_err());
    let failed: PowerSleepState = failed_state("no bus".into(), true);
    assert!(!failed.available && failed.preparing_for_sleep);
    assert_eq!(failed.error.as_deref(), Some("no bus"));
    assert_eq!(sleep::failed_state("x".into(), false).error.as_deref(), Some("x"));
}

// Lights, time zone and updates

#[test]
fn reads_lock_backlight_and_privacy_leds() {
    let led = |name: &str, brightness: u64, maximum: u64| Led {
        name: name.into(),
        brightness: Some(brightness.to_string()),
        max_brightness: Some(maximum.to_string()),
    };
    let state = read_state(&vec![
        led("input3::capslock", 1, 1),
        led("input3::numlock", 0, 1),
        led("platform::kbd_backlight", 2, 4),
        led("platform::cameramute", 1, 1),
    ]);
    assert!(state.caps_lock);
    assert!(!state.num_lock);
    assert_eq!(state.keyboard_backlight_percent, Some(50));
    assert!(state.camera_privacy);
}

#[test]
fn lights_are_told_apart_by_name() {
    assert_eq!(led_kind("input3::capslock"), LedKind::CapsLock);
    assert_eq!(led_kind("input3::scrolllock"), LedKind::Other);
}

#[test]
fn derives_human_city_and_offset() {
    let state = state_for_timezone("Europe/Amsterdam").unwrap();
    assert_eq!(state.city, "Amsterdam");
    assert!([3600, 7200].contains(&state.utc_offset_seconds));
    assert!(!state.abbreviation.is_empty());
}

#[test]
fn a_zone_tells_its_abbreviation_and_offset_at_a_time() {
    let winter = 1_768_467_600_000;
    let summer = 1_784_106_000_000;
    let at = |zone: &str, millis: i64| {
        let state = state_at(zone, millis).unwrap();
        (state.abbreviation, state.utc_offset_seconds)
    };
    assert_eq!(at("Europe/Amsterdam", winter), ("CET".to_string(), 3_600));
    assert_eq!(at("Europe/Amsterdam", summer), ("CEST".to_string(), 7_200));
    assert_eq!(at("America/New_York", winter), ("EST".to_string(), -18_000));
    assert_eq!(at("UTC", summer), ("UTC".to_string(), 0));
    assert_eq!(state_at("Mars/Olympus", winter).unwrap_err(), "parse timezone Mars/Olympus");
    for millis in [-8_334_601_228_800_000, 8_210_266_876_799_999] {
        assert!(state_at("Asia/Tokyo", millis).is_ok());
    }
}

#[test]
fn replaces_underscores_in_city() {
    assert_eq!(state_for_timezone("America/New_York").unwrap().city, "New York");
    assert!(state_for_timezone("Mars/Olympus").is_err());
    let state = timezone_state("America/New_York", "EST".into(), -18_000);
    assert!(state.available);
    assert_eq!((state.abbreviation.as_str(), state.utc_offset_seconds), ("EST", -18_000));
}

#[test]
fn requires_complete_ready_lane() {
    let mut fast = LaneFiles { has_lock: true, ..LaneFiles::default() };
    assert!(!updates::read_state("/state", fast.clone(), LaneFiles::default()).ready);
    fast.has_revision = true;
    fast.revision = Some("abc\n".into());
    fast.has_base_hash = true;
    fast.base_hash = Some("def\n".into());
    fast.created_at = Some("123".into());
    fast.has_system_link = true;
    fast.system = Some("/nix/store/system".into());
    let state = updates::read_state("/state", fast.clone(), LaneFiles::default());
    assert!(state.ready);
    assert_eq!(state.lanes[0].revision.as_deref(), Some("abc"));
    assert_eq!(state.lanes[0].created_at, Some(123));
    assert_eq!(read_lane("fast", fast).name, "fast");
}

#[test]
fn absent_state_directory_is_not_an_error() {
    let state = updates::absent_state("/missing");
    assert!(!state.available);
    assert!(state.error.is_none());
    assert_eq!(state.state_directory, "/missing");
    let failed = updates::failed_state("/state", "denied".into());
    assert_eq!(failed.error.as_deref(), Some("denied"));
    assert_eq!(updates::state_dir(None), updates::DEFAULT_STATE_DIR);
    assert_eq!(updates::state_dir(Some("/other".into())), "/other");
}

#[test]
fn dictionaries_give_values_of_their_type() {
    let values = vec![
        text("a", "x"),
        Property { key: "n".into(), value: PropertyValue::Unsigned(5) },
        Property { key: "big".into(), value: PropertyValue::Unsigned(u64::MAX) },
        Property { key: "l".into(), value: PropertyValue::Texts(vec!["y".into()]) },
    ];
    assert_eq!(property_string(&values, "a").as_deref(), Some("x"));
    assert_eq!(property_string(&values, "n"), None);
    assert_eq!(property_i64(&values, "n"), Some(5));
    assert_eq!(property_i64(&values, "big"), None);
    assert_eq!(property_strings(&values, "l"), vec!["y"]);
}

#[test]
fn the_clock_runs_after_its_beginning() {
    let before = unix_ms_i64();
    assert!(before > 1_500_000_000_000);
    assert!(unix_ms() as i64 >= before);
    assert_eq!(unsigned_millis(-5), 0);
    assert_eq!(unsigned_millis(5), 5);
}
