use bar_daemon::api::battery::{
    begin_calibration, begin_charge_once, begin_inhibition, change_alert_policy,
    change_protection, change_thresholds, check_alert_policy, check_inhibition,
    check_policy_unlocked, check_thresholds, end_calibration, end_inhibition,
    optional_thresholds, plan_calibration, plan_charge_once, requested_battery_id,
    AlertPolicyRequest, OperationTarget, ProtectionRequest, ThresholdRequest,
};
use bar_daemon::api::operation::{
    DurableOperation, OperationEnd, OperationKind, PolicyAction, PolicyChange, StepAction,
    StepEvent,
};
use bar_daemon::battery::config::{
    BatteryConfig, BatteryConfigError, BatteryDeviceConfig, BatteryDeviceEntry,
    BatteryRuntimeState, CALIBRATION_MAX_AGE, CHARGE_ONCE_MAX_AGE,
};
use bar_daemon::battery::decorate::{
    calibration_step, decorate, load_errors, step_limits, take_step, CalibrationStep,
};
use bar_daemon::battery::helper::{
    check_behaviour, confirm_behaviour, is_battery_type, parse_choices, parse_percent,
    plan_thresholds, threshold_result, valid_thresholds, validate_battery_id, LimitAction,
    LimitChange, LimitEvent, LimitStage, PercentError,
    ThresholdAttribute, ThresholdPlan, ThresholdWrite, ThresholdWriteResult,
};
use bar_daemon::battery::history::{HistoryFile, HistoryStore};
use bar_daemon::battery::native::{
    battery_state, read_native, read_snapshot, BatteryIdentity, BatteryTelemetry, NativeBattery,
    NativeFiles, NativeProtection, NativeSnapshot, SupplyFiles,
};
use bar_daemon::battery::policy::{notification_for, AlertTracker, BatteryAlert};
use bar_daemon::battery::reconcile::{
    append_error, effective_config, plan_device, reconciliation_target, settle_device,
    update_observed_thresholds, WriteOutcome,
};
use bar_daemon::battery::sysfs::{
    estimate_seconds, health_percent, read_battery, read_cycle_count, read_u64, BatteryFiles,
};
use bar_daemon::battery::upower::{self, state_name, UpowerReading};
use bar_daemon::model::{BatteryDeviceState, BatteryProtectionState, BatteryState};

fn state(percent: u8, plugged: bool) -> BatteryState {
    BatteryState {
        available: true,
        percentage: percent,
        plugged,
        warning: !plugged && percent <= 25,
        critical: !plugged && percent <= 12,
        ..BatteryState::default()
    }
}

fn observed(percentage: u8, plugged: bool, charging: bool) -> BatteryState {
    BatteryState {
        available: true,
        percentage,
        plugged,
        charging,
        time_to_full_seconds: 3_600,
        power_uw: 12_500_000,
        ..BatteryState::default()
    }
}

fn device(id: &str, percentage: u8, start: u8, end: u8) -> BatteryDeviceState {
    BatteryDeviceState {
        id: id.into(),
        present: true,
        percentage,
        protection: BatteryProtectionState {
            supported: true,
            supports_start: true,
            supports_end: true,
            start_percent: Some(start),
            end_percent: Some(end),
            supports_charge_behaviour: true,
            charge_behaviour: Some("auto".into()),
            available_behaviours: vec![
                "auto".into(),
                "inhibit-charge".into(),
                "force-discharge".into(),
            ],
            ..BatteryProtectionState::default()
        },
        ..BatteryDeviceState::default()
    }
}

fn with_devices(devices: Vec<BatteryDeviceState>, plugged: bool) -> BatteryState {
    BatteryState { available: true, plugged, devices, ..BatteryState::default() }
}

// Alerts

#[test]
fn battery_alerts_once_per_discharge_cycle_without_startup_noise() {
    let mut tracker = AlertTracker::default();
    assert_eq!(tracker.observe(&state(50, false), true), None);
    assert_eq!(tracker.observe(&state(25, false), true), Some(BatteryAlert::Warning));
    assert_eq!(tracker.observe(&state(20, false), true), None);
    assert_eq!(tracker.observe(&state(12, false), true), Some(BatteryAlert::Critical));
    assert_eq!(tracker.observe(&state(10, false), true), None);
    assert_eq!(tracker.observe(&state(50, true), true), None);
    assert_eq!(tracker.observe(&state(25, false), true), Some(BatteryAlert::Warning));
}

#[test]
fn battery_reports_full_only_after_initial_state() {
    let mut tracker = AlertTracker::default();
    assert_eq!(tracker.observe(&state(100, true), true), None);
    assert_eq!(tracker.observe(&state(99, true), true), None);
    assert_eq!(
        tracker.observe(&state(100, true), true),
        Some(BatteryAlert::ChargeComplete(100))
    );
}

#[test]
fn policy_alerts_once_per_discharge_cycle_without_startup_noise() {
    let mut tracker = AlertTracker::default();
    assert_eq!(tracker.observe(&state(50, false), true), None);
    assert_eq!(tracker.observe(&state(25, false), true), Some(BatteryAlert::Warning));
    assert_eq!(tracker.observe(&state(20, false), true), None);
    assert_eq!(tracker.observe(&state(12, false), true), Some(BatteryAlert::Critical));
    assert_eq!(tracker.observe(&state(10, false), true), None);
    assert_eq!(tracker.observe(&state(50, true), true), None);
    assert_eq!(tracker.observe(&state(25, false), true), Some(BatteryAlert::Warning));
}

#[test]
fn policy_reports_full_only_after_initial_state() {
    let mut tracker = AlertTracker::default();
    assert_eq!(tracker.observe(&state(100, true), true), None);
    assert_eq!(tracker.observe(&state(99, true), true), None);
    assert_eq!(
        tracker.observe(&state(100, true), true),
        Some(BatteryAlert::ChargeComplete(100))
    );
}

#[test]
fn full_notification_can_be_disabled() {
    let mut tracker = AlertTracker::default();
    assert_eq!(tracker.observe(&state(99, true), false), None);
    assert_eq!(tracker.observe(&state(100, true), false), None);
}

#[test]
fn protected_limit_counts_as_charge_complete() {
    let mut tracker = AlertTracker::default();
    let mut below = state(79, true);
    below.protection.enabled = true;
    below.protection.end_percent = Some(80);
    assert_eq!(tracker.observe(&below, true), None);
    let mut complete = state(80, true);
    complete.protection.enabled = true;
    complete.protection.end_percent = Some(80);
    assert_eq!(tracker.observe(&complete, true), Some(BatteryAlert::ChargeComplete(80)));
}

#[test]
fn alerts_say_how_urgent_they_are() {
    let warning = notification_for(BatteryAlert::Warning);
    let critical = notification_for(BatteryAlert::Critical);
    assert_eq!(critical.hints.urgency, 2);
    assert_ne!(warning.summary, critical.summary);
    assert!(notification_for(BatteryAlert::ChargeComplete(80)).body.contains("80"));
}

// Readings

#[test]
fn battery_maps_upower_states() {
    assert_eq!(state_name(1), "charging");
    assert_eq!(state_name(4), "fully-charged");
    assert_eq!(state_name(99), "unknown");
}

#[test]
fn upower_maps_upower_states() {
    assert_eq!(state_name(1), "charging");
    assert_eq!(state_name(4), "fully-charged");
    assert_eq!(state_name(99), "unknown");
}

#[test]
fn estimates_remaining_seconds_from_sysfs_units() {
    assert_eq!(estimate_seconds(40_000_000, 10_000_000), 14_400);
    assert_eq!(estimate_seconds(40_000_000, 0), 0);
}

#[test]
fn reads_numbers_of_the_kernel() {
    assert_eq!(read_u64(&Some(" 42\n".into())), Some(42));
    assert_eq!(read_u64(&Some("x".into())), None);
    assert_eq!(read_u64(&None), None);
    assert_eq!(read_cycle_count(&Some("-1".into())), None);
    assert_eq!(read_cycle_count(&Some("7".into())), Some(7));
    assert_eq!(health_percent(Some(90), Some(100)), Some(90));
    assert_eq!(health_percent(Some(90), Some(0)), None);
}

#[test]
fn reads_a_battery_that_discharges() {
    let files = BatteryFiles {
        capacity: Some("20\n".into()),
        status: Some("Discharging\n".into()),
        power_now: Some("10000000".into()),
        energy_now: Some("40000000".into()),
        ..BatteryFiles::default()
    };
    let state = read_battery("BAT0", &files, &Vec::new());
    assert_eq!(state.percentage, 20);
    assert_eq!(state.state, "discharging");
    assert!(!state.plugged && !state.charging && state.warning && !state.critical);
    assert_eq!(state.time_to_empty_seconds, 14_400);
    assert_eq!(state.native_path, "BAT0");
}

#[test]
fn external_power_comes_from_other_supplies() {
    let supply = |kind: &str, online: &str| SupplyFiles {
        supply_type: Some(kind.into()),
        online: Some(online.into()),
        ..SupplyFiles::default()
    };
    let discharging = BatteryFiles {
        capacity: Some("10".into()),
        status: Some("Discharging".into()),
        ..BatteryFiles::default()
    };
    let full = BatteryFiles { status: Some("Full".into()), ..BatteryFiles::default() };
    let state = read_battery("BAT0", &discharging, &vec![supply("Mains\n", "1\n")]);
    assert!(state.plugged && !state.warning && !state.critical);
    let state = read_battery("BAT0", &full, &vec![supply("Mains", "0"), supply("Battery", "1")]);
    assert!(!state.plugged && state.warning && state.critical);
}

#[test]
fn reads_what_the_power_daemon_tells() {
    let reading = UpowerReading {
        present: true,
        device_type: upower::BATTERY_DEVICE,
        native_path: "BAT0".into(),
        percentage: 10,
        state_code: 2,
        on_battery: true,
        ..UpowerReading::default()
    };
    let state = upower::battery_state(reading);
    assert!(state.available && state.warning && state.critical && !state.plugged);
    assert_eq!(state.state, "discharging");
    assert!(upower::is_chosen(Some("upower")));
    assert!(!upower::is_chosen(Some("UPOWER")));
}

#[test]
fn reads_all_power_supplies() {
    let battery = NativeFiles {
        measures: BatteryFiles {
            capacity: Some("130".into()),
            voltage_now: Some("15000000".into()),
            current_now: Some("2000000".into()),
            cycle_count: Some("101\n".into()),
            ..BatteryFiles::default()
        },
        manufacturer: Some(" Sunwoda \n".into()),
        start_threshold: Some("75\n".into()),
        end_threshold: Some("101\n".into()),
        charge_behaviour: Some("[auto] inhibit-charge force-discharge\n".into()),
        ..NativeFiles::default()
    };
    let read = read_native("BAT0", &battery);
    assert_eq!(read.identity.vendor, "Sunwoda");
    assert!(read.telemetry.present);
    assert_eq!(read.telemetry.status, "Unknown");
    assert_eq!(read.telemetry.percentage, 100);
    assert_eq!(read.telemetry.power_uw, 30_000_000);
    assert_eq!(read.telemetry.voltage_uv, Some(15_000_000));
    assert_eq!(read.telemetry.cycles, Some(101));
    assert_eq!(read.protection.start_threshold, Some(75));
    assert_eq!(read.protection.end_threshold, None);
    assert_eq!(read.protection.charge_behaviour.as_deref(), Some("auto"));
    assert_eq!(read.protection.available_behaviours.len(), 3);
    let supply = |id: &str, kind: &str, online: &str| SupplyFiles {
        id: id.into(),
        supply_type: Some(kind.into()),
        online: Some(online.into()),
        battery: battery.clone(),
    };
    let unplugged = vec![supply("AC", "Mains\n", "0"), supply("BAT0", "Battery\n", "1")];
    let snapshot = read_snapshot(&unplugged);
    assert!(!snapshot.plugged);
    assert_eq!(snapshot.batteries, vec![read]);
    assert!(read_snapshot(&vec![supply("AC", "Mains\n", "1\n")]).plugged);
    let full = NativeFiles {
        measures: BatteryFiles { status: Some("Full\n".into()), ..BatteryFiles::default() },
        ..NativeFiles::default()
    };
    let full = read_native("BAT1", &full);
    assert!(full.fully_charged() && !full.charging() && !full.discharging());
    let gone = NativeFiles { present: Some("0\n".into()), ..NativeFiles::default() };
    assert!(!read_native("BAT1", &gone).telemetry.present);
}

#[test]
fn the_charge_of_several_batteries_goes_by_their_energy() {
    let battery = |id: &str, status: &str, now: u64, full: u64| NativeBattery {
        identity: BatteryIdentity { id: id.into(), ..BatteryIdentity::default() },
        telemetry: BatteryTelemetry {
            present: true,
            status: status.into(),
            percentage: 50,
            energy_now_uwh: Some(now),
            energy_full_uwh: Some(full),
            power_uw: 10_000_000,
            ..BatteryTelemetry::default()
        },
        protection: NativeProtection::default(),
    };
    let snapshot = NativeSnapshot {
        batteries: vec![
            battery("BAT0", "Discharging", 10_000_000, 20_000_000),
            battery("BAT1", "Discharging", 70_000_000, 80_000_000),
        ],
        plugged: false,
    };
    let state = battery_state(&snapshot).unwrap();
    assert_eq!(state.percentage, 80);
    assert_eq!(state.power_uw, 20_000_000);
    assert_eq!(state.devices.len(), 2);
    assert_eq!(state.time_to_empty_seconds, 14_400);
    assert!(battery_state(&NativeSnapshot::default()).is_none());
}

// Settings

#[test]
fn config_defaults_are_conservative() {
    let config = BatteryConfig::default();
    assert!(!config.manage_thresholds);
    assert!(!config.protection_enabled);
    assert_eq!(config.protected_start_percent, 75);
    assert_eq!(config.protected_end_percent, 80);
    assert!(config.auto_power_saver);
    config.validate().unwrap();
}

#[test]
fn validates_alert_and_protection_ranges() {
    assert!(BatteryConfig {
        warning_percent: 10,
        critical_percent: 20,
        ..BatteryConfig::default()
    }
    .validate()
    .is_err());
    assert!(BatteryConfig {
        protected_start_percent: 80,
        protected_end_percent: 80,
        ..BatteryConfig::default()
    }
    .validate()
    .is_err());
}

#[test]
fn names_each_fault_of_the_battery_settings() {
    let with = |change: fn(&mut BatteryConfig)| {
        let mut config = BatteryConfig::default();
        change(&mut config);
        config.validate()
    };
    assert_eq!(with(|c| c.critical_percent = 26), Err(BatteryConfigError::AlertRange));
    assert_eq!(
        with(|c| c.protected_end_percent = 101),
        Err(BatteryConfigError::ProtectionRange)
    );
    let entry = |id: &str, config: BatteryDeviceConfig| BatteryConfig {
        devices: vec![BatteryDeviceEntry { battery_id: id.into(), config }],
        ..BatteryConfig::default()
    };
    assert_eq!(
        entry("AC0", BatteryDeviceConfig::default()).validate(),
        Err(BatteryConfigError::BatteryIdPrefix("AC0".into()))
    );
    assert_eq!(
        entry("BATx", BatteryDeviceConfig::default()).validate(),
        Err(BatteryConfigError::BatteryIdDigits)
    );
    let accepted = BatteryDeviceConfig {
        accepted_reported_start_percent: Some(80),
        ..BatteryDeviceConfig::default()
    };
    assert_eq!(entry("BAT0", accepted).validate(), Err(BatteryConfigError::AcceptedRange));
}

#[test]
fn charge_once_has_a_bounded_lifetime() {
    let runtime = BatteryRuntimeState::start_charge_once(1_000, "BAT0".into(), 75, 80);
    let expires = 1_000 + CHARGE_ONCE_MAX_AGE;
    assert_eq!(runtime.charge_once_expires_unix_ms, expires);
    assert!(!runtime.is_expired(expires - 1));
    assert!(runtime.is_expired(expires));
    assert_eq!(runtime.restore_start_percent, Some(75));
    assert_eq!(runtime.restore_end_percent, Some(80));
    assert_eq!(runtime.charge_once_battery_id, "BAT0");
}

#[test]
fn calibration_has_a_bounded_lifetime_and_restore_range() {
    let state = BatteryRuntimeState::start_calibration(1_000, "BAT1".into(), 70, 85);
    assert_eq!(state.operation, "calibration");
    assert_eq!(state.operation_battery_id, "BAT1");
    assert_eq!(state.operation_restore_start_percent, Some(70));
    assert_eq!(state.operation_restore_end_percent, Some(85));
    assert_eq!(state.operation_expires_unix_ms, 1_000 + CALIBRATION_MAX_AGE);
}

#[test]
fn device_policy_inherits_legacy_defaults_then_diverges() {
    let mut config = BatteryConfig {
        manage_thresholds: true,
        protection_enabled: true,
        protected_start_percent: 70,
        protected_end_percent: 85,
        ..BatteryConfig::default()
    };
    assert_eq!(config.device("BAT0").protected_start_percent, 70);
    config.device_mut("BAT1").protected_end_percent = 90;
    assert_eq!(config.device("BAT1").protected_end_percent, 90);
    assert_eq!(config.device("BAT0").protected_end_percent, 85);
    config.validate().unwrap();
}

#[test]
fn operations_end_when_they_are_cleared() {
    let mut state = BatteryRuntimeState::start_inhibit(1_000, "BAT0".into());
    assert!(state.has_durable_operation());
    state.clear_operation();
    assert!(!state.has_durable_operation());
    assert!(!state.operation_expired(u64::MAX));
}

// Limits

#[test]
fn validates_targets_and_thresholds() {
    assert!(validate_battery_id("../../etc").is_err());
    assert!(validate_battery_id("BAT0").is_ok());
    assert!(plan_thresholds(75, 80, 80, 80).is_none());
    let plan = plan_thresholds(75, 80, 60, 80).unwrap();
    assert_eq!(
        plan,
        ThresholdPlan::Write {
            first: ThresholdWrite { attribute: ThresholdAttribute::Start, value: 60 },
            second: ThresholdWrite { attribute: ThresholdAttribute::End, value: 80 },
            rollback: ThresholdWrite { attribute: ThresholdAttribute::Start, value: 75 },
        }
    );
    assert_eq!(
        threshold_result(60, 80, 60, 80),
        ThresholdWriteResult {
            actual_start_percent: 60,
            actual_end_percent: 80,
            verified: true,
        }
    );
}

#[test]
fn raises_end_before_start_when_ranges_do_not_overlap() {
    assert_eq!(
        plan_thresholds(40, 60, 75, 80).unwrap(),
        ThresholdPlan::Write {
            first: ThresholdWrite { attribute: ThresholdAttribute::End, value: 80 },
            second: ThresholdWrite { attribute: ThresholdAttribute::Start, value: 75 },
            rollback: ThresholdWrite { attribute: ThresholdAttribute::End, value: 60 },
        }
    );
    assert!(threshold_result(75, 80, 75, 80).verified);
    assert!(!threshold_result(75, 79, 75, 80).verified);
    assert_eq!(plan_thresholds(75, 80, 75, 80), Some(ThresholdPlan::Unchanged));
}

#[test]
fn validates_charge_behaviour_choices() {
    let (selected, offered) = parse_choices("[auto] inhibit-charge force-discharge").unwrap();
    assert_eq!(selected, "auto");
    assert_eq!(offered, vec!["auto", "inhibit-charge", "force-discharge"]);
    assert!(check_behaviour("BAT0", "ship-mode", &offered).is_err());
    assert!(check_behaviour("BAT0", "auto", &offered).is_ok());
    assert!(confirm_behaviour("BAT0", "auto", "auto").is_ok());
    assert!(confirm_behaviour("BAT0", "auto", "inhibit-charge").is_err());
    assert!(parse_choices("auto inhibit-charge").is_none());
}

#[test]
fn percentages_of_files_are_checked() {
    assert_eq!(parse_percent("80\n"), Ok(80));
    assert_eq!(parse_percent("x"), Err(PercentError::Number));
    assert_eq!(parse_percent("101"), Err(PercentError::Range));
    assert!(is_battery_type("Battery\n"));
    assert!(!is_battery_type("Mains\n"));
    assert!(valid_thresholds(0, 100));
    assert!(!valid_thresholds(80, 80));
    assert!(!valid_thresholds(10, 101));
}

#[test]
fn unmanaged_thresholds_are_left_alone() {
    let config = BatteryConfig::default();
    assert_eq!(
        reconciliation_target(&config, &BatteryRuntimeState::default(), false),
        None
    );
}

#[test]
fn managed_policy_is_reapplied() {
    let config = BatteryConfig {
        manage_thresholds: true,
        protection_enabled: true,
        ..BatteryConfig::default()
    };
    assert_eq!(
        reconciliation_target(&config, &BatteryRuntimeState::default(), false),
        Some((75, 80))
    );
}

#[test]
fn charge_once_restores_the_preexisting_thresholds() {
    let config = BatteryConfig::default();
    let runtime = BatteryRuntimeState::start_charge_once(1_000, "BAT0".into(), 60, 85);
    assert_eq!(reconciliation_target(&config, &runtime, false), Some((0, 100)));
    assert_eq!(reconciliation_target(&config, &runtime, true), Some((60, 85)));
}

#[test]
fn the_settings_of_a_battery_take_the_place_of_the_common_ones() {
    let mut config = BatteryConfig::default();
    config.device_mut("BAT1").protected_end_percent = 90;
    assert_eq!(effective_config(&config, "BAT1").protected_end_percent, 90);
    assert_eq!(effective_config(&config, "BAT0").protected_end_percent, 80);
}

#[test]
fn limits_are_restored_to_their_own_battery_and_recorded_until_verified() {
    let config = BatteryConfig::default();
    let runtime = BatteryRuntimeState::start_charge_once(1_000, "BAT0".into(), 60, 85);
    let now = 1_000 + CHARGE_ONCE_MAX_AGE;
    let other = plan_device(&device("BAT1", 50, 0, 100), true, &config, &runtime, now);
    assert_eq!(other.target, None);
    let own = plan_device(&device("BAT0", 50, 0, 100), true, &config, &runtime, now);
    assert!(own.finish);
    assert_eq!(own.write(), Some((60, 85)));
    let before = with_devices(vec![device("BAT0", 50, 0, 100)], true);
    let refused = settle_device(
        before.clone(),
        runtime.clone(),
        None,
        "BAT0",
        plan_device(&device("BAT0", 50, 0, 100), true, &config, &runtime, now),
        WriteOutcome::Failed("denied".into()),
    );
    assert!(refused.runtime.charge_once_active);
    assert!(refused.error.is_some());
    assert!(!refused.save);
    let restored = settle_device(
        before,
        runtime.clone(),
        None,
        "BAT0",
        plan_device(&device("BAT0", 50, 0, 100), true, &config, &runtime, now),
        WriteOutcome::Written(threshold_result(60, 85, 60, 85)),
    );
    assert!(!restored.runtime.charge_once_active);
    assert!(restored.save);
    assert_eq!(restored.state.devices[0].protection.end_percent, Some(85));
}

#[test]
fn limits_that_the_firmware_is_known_to_report_are_left() {
    let mut config = BatteryConfig::default();
    let policy = config.device_mut("BAT0");
    policy.manage_thresholds = true;
    policy.protection_enabled = true;
    let idle = BatteryRuntimeState::default();
    let observed = device("BAT0", 50, 76, 81);
    assert_eq!(plan_device(&observed, true, &config, &idle, 0).write(), Some((75, 80)));
    let policy = config.device_mut("BAT0");
    policy.accepted_reported_start_percent = Some(76);
    policy.accepted_reported_end_percent = Some(81);
    assert_eq!(plan_device(&observed, true, &config, &idle, 0).write(), None);
}

#[test]
fn a_second_limit_that_fails_has_the_first_put_back() {
    let write = |attribute: ThresholdAttribute, value: u8| {
        LimitAction::Write(ThresholdWrite { attribute, value })
    };
    let (mut change, action) = LimitChange::begin(40, 60, 75, 80).unwrap();
    assert_eq!(action, write(ThresholdAttribute::End, 80));
    assert_eq!(change.advance(LimitEvent::Written), write(ThresholdAttribute::Start, 75));
    let mut stuck = change;
    assert_eq!(
        change.advance(LimitEvent::Failed("busy".into())),
        write(ThresholdAttribute::End, 60)
    );
    assert_eq!(
        change.advance(LimitEvent::Written),
        LimitAction::Fail("second threshold write failed; first write rolled back".into())
    );
    assert_eq!(change.stage, LimitStage::Ended);
    assert_eq!(change.advance(LimitEvent::Written), LimitAction::Nothing);
    stuck.advance(LimitEvent::Failed("busy".into()));
    assert_eq!(
        stuck.advance(LimitEvent::Failed("gone".into())),
        LimitAction::Fail(
            "second threshold write failed and rollback also failed: gone".into()
        )
    );
}

#[test]
fn limits_are_read_once_they_were_written() {
    let (mut change, _) = LimitChange::begin(75, 80, 60, 80).unwrap();
    let mut refused = change;
    change.advance(LimitEvent::Written);
    assert_eq!(change.advance(LimitEvent::Written), LimitAction::Read);
    assert_eq!(
        change.advance(LimitEvent::Observed { start: 60, end: 79 }),
        LimitAction::Succeed(threshold_result(60, 79, 60, 80))
    );
    assert_eq!(
        refused.advance(LimitEvent::Failed("denied".into())),
        LimitAction::Fail("denied".into())
    );
    let (_, action) = LimitChange::begin(75, 80, 75, 80).unwrap();
    assert_eq!(action, LimitAction::Succeed(threshold_result(75, 80, 75, 80)));
    assert!(LimitChange::begin(75, 80, 80, 80).is_none());
}

#[test]
fn batteries_are_listed_in_order_and_once() {
    let mut config = BatteryConfig::default();
    for id in ["BAT1", "BAT0", "BAT10", "BAT1", "BAT0"] {
        config.device_mut(id).manage_thresholds = true;
    }
    let ids: Vec<&str> = config.devices.iter().map(|entry| entry.battery_id.as_str()).collect();
    assert_eq!(ids, vec!["BAT0", "BAT1", "BAT10"]);
}

#[test]
fn errors_are_put_side_by_side() {
    assert_eq!(append_error(None, "b".into()).as_deref(), Some("b"));
    assert_eq!(append_error(Some("a".into()), "b".into()).as_deref(), Some("a; b"));
    assert_eq!(load_errors(None, None), None);
    assert!(load_errors(Some("x".into()), Some("y".into())).unwrap().contains("y"));
}

#[test]
fn observed_limits_are_shown_on_their_battery() {
    let mut state = with_devices(vec![device("BAT0", 50, 1, 2), device("BAT1", 50, 3, 4)], true);
    update_observed_thresholds(&mut state, "BAT1", 70, 85);
    assert_eq!(state.devices[0].protection.start_percent, Some(1));
    assert_eq!(state.devices[1].protection.start_percent, Some(70));
    assert_eq!(state.devices[1].protection.end_percent, Some(85));
}

#[test]
fn what_is_shown_tells_policy_and_operation() {
    let config = BatteryConfig { warning_percent: 30, ..BatteryConfig::default() };
    let runtime = BatteryRuntimeState::start_calibration(1_000, "BAT0".into(), 70, 85);
    let mut before = with_devices(vec![device("BAT0", 28, 70, 85)], false);
    before.percentage = 28;
    let state = decorate(before, &config, &runtime, Some("cannot read".into()));
    assert_eq!(state.policy.warning_percent, 30);
    assert!(state.warning && !state.critical);
    assert_eq!(state.operation.kind, "calibration");
    assert_eq!(state.operation.battery_id, "BAT0");
}

#[test]
fn calibration_discharges_then_charges_then_ends() {
    let runtime = BatteryRuntimeState::start_calibration(1_000, "BAT0".into(), 70, 85);
    let low = device("BAT0", 1, 70, 85);
    assert_eq!(
        calibration_step(&device("BAT0", 50, 70, 85), true, &runtime, 2_000),
        CalibrationStep::Wait
    );
    assert_eq!(calibration_step(&low, true, &runtime, 2_000), CalibrationStep::Charge);
    assert_eq!(
        calibration_step(&device("BAT0", 50, 70, 85), false, &runtime, 2_000),
        CalibrationStep::Finish
    );
    let charging = take_step(runtime, CalibrationStep::Charge);
    assert_ne!(charging.operation_phase, "discharging");
    let full = device("BAT0", 100, 70, 85);
    assert_eq!(calibration_step(&full, true, &charging, 3_000), CalibrationStep::Finish);
    assert_eq!(step_limits(&charging, CalibrationStep::Charge), None);
    assert_eq!(step_limits(&charging, CalibrationStep::Finish), Some((70, 85)));
    assert!(!take_step(charging, CalibrationStep::Finish).has_durable_operation());
}

// History

#[test]
fn a_history_that_is_asked_for_holds_nothing_too_old() {
    let mut history = HistoryStore::load(None, 1_000);
    assert!(history.record(&observed(80, true, true), 1_000));
    assert_eq!(history.state(true).points.len(), 1);
    let week = 7 * 86_400_000;
    assert_eq!(history.snapshot(1_000 + week).points.len(), 1);
    assert!(history.snapshot(1_001 + week).points.is_empty());
    assert!(history.state(true).points.is_empty());
}

#[test]
fn records_buckets_and_power_transitions() {
    let mut history = HistoryStore::load(None, 1_000);
    assert!(history.record(&observed(80, true, true), 1_000));
    assert!(!history.record(&observed(81, true, true), 2_000));
    assert!(history.record(&observed(81, false, false), 3_000));
    assert_eq!(history.last_charge_timestamp_ms, 3_000);
    assert_eq!(history.points.len(), 2);
    assert_eq!(history.points[0].time_to_full_seconds, Some(3_600));
    assert_eq!(history.points[0].mode, "charging");
    assert_eq!(history.points[1].time_to_full_seconds, None);
    assert_eq!(history.points[1].mode, "discharging");
    let summary = history.state(false);
    assert_eq!(summary.latest_timestamp_ms, 3_000);
    assert_eq!(summary.active_duration_ms, 2_000);
    assert!(summary.points.is_empty());
    let graph = history.state(true);
    assert_eq!(graph.points.len(), 2);
    assert_eq!(graph.points[0].active_time_ms, 0);
    assert_eq!(graph.points[1].active_time_ms, 2_000);
    assert!(!graph.points[0].continuous);
    assert!(graph.points[1].continuous);
    assert_eq!(graph.points[0].power_centiwatts, 1_250);
}

#[test]
fn removes_unobserved_time_from_the_graph_scale() {
    let mut history = HistoryStore::load(None, 0);
    history.record(&observed(80, true, true), 1_000);
    for minute in 1..=15 {
        history.record(&observed(82, true, true), 1_000 + minute * 60_000);
    }
    history.record(&observed(79, false, false), 3_601_000);
    for minute in 1..=15 {
        history.record(&observed(77, false, false), 3_601_000 + minute * 60_000);
    }

    let graph = history.state(true);
    assert_eq!(graph.active_duration_ms, 1_800_000);
    assert_eq!(graph.points.len(), 4);
    assert_eq!(graph.points[1].active_time_ms, 900_000);
    assert!(!graph.points[2].continuous);
    assert_eq!(graph.points[2].active_time_ms, 900_000);
    assert_eq!(graph.points[3].active_time_ms, 1_800_000);
    assert_eq!(graph.points[3].mode, "discharging");
}

#[test]
fn plugged_but_not_charging_is_holding() {
    let mut history = HistoryStore::load(None, 0);
    history.record(&observed(80, true, false), 1_000);
    assert_eq!(history.points[0].mode, "holding");
}

#[test]
fn keeps_seven_days_only() {
    let day = 24 * 60 * 60 * 1_000;
    let mut history = HistoryStore::load(None, 0);
    history.record(&observed(90, true, true), 1);
    history.record(&observed(80, false, false), 8 * day);
    assert_eq!(history.points.len(), 1);
}

#[test]
fn stored_history_is_loaded_again() {
    let mut history = HistoryStore::load(None, 0);
    history.record(&observed(90, true, true), 1_000);
    history.record(&observed(80, false, false), 61_000);
    let file: HistoryFile = history.file();
    assert_eq!(file.version, 2);
    let again = HistoryStore::load(Some(file), 62_000);
    assert_eq!(again.points, history.points);
    assert_eq!(again.state(true).active_duration_ms, history.state(true).active_duration_ms);
    let unknown = HistoryFile { version: 9, points: again.points, last_charge_timestamp_ms: 5 };
    assert!(HistoryStore::load(Some(unknown), 62_000).points.is_empty());
}

// Requests

#[test]
fn parses_typed_thresholds() {
    let request =
        ThresholdRequest { battery_id: "BAT0".into(), start_percent: 75, end_percent: 80 };
    assert_eq!(request.start_percent, 75);
    assert_eq!(check_thresholds(&request), None);
    let outside =
        ThresholdRequest { battery_id: "BAT0".into(), start_percent: 80, end_percent: 75 };
    assert!(check_thresholds(&outside).is_some());
}

#[test]
fn protection_accepts_an_atomic_optional_range() {
    let request = ProtectionRequest {
        battery_id: Some("BAT0".into()),
        enabled: true,
        start_percent: Some(70),
        end_percent: Some(85),
    };
    assert_eq!(
        optional_thresholds(request.start_percent, request.end_percent),
        Ok(Some((70, 85)))
    );
    assert!(optional_thresholds(Some(80), Some(80)).is_err());
    assert!(optional_thresholds(Some(70), None).is_err());
    assert_eq!(optional_thresholds(None, None), Ok(None));
}

#[test]
fn requests_find_their_battery() {
    let state = with_devices(vec![device("BAT0", 50, 70, 80)], true);
    assert_eq!(requested_battery_id(&state, &None).unwrap(), "BAT0");
    let target = plan_charge_once(&state, &None).unwrap();
    assert_eq!((target.restore_start, target.restore_end), (70, 80));
    assert!(plan_charge_once(&state, &Some("BAT7".into())).is_err());
    assert!(plan_calibration(&state, "BAT0").is_ok());
    assert!(plan_calibration(&with_devices(Vec::new(), true), "BAT0").is_err());
    assert_eq!(check_inhibition(&state, "BAT0"), None);
    assert!(check_inhibition(&state, "BAT7").is_some());
}

#[test]
fn one_operation_runs_at_a_time() {
    let target =
        OperationTarget { battery_id: "BAT0".into(), restore_start: 70, restore_end: 80 };
    let idle = BatteryRuntimeState::default();
    let charging = begin_charge_once(&target, &idle, 10).unwrap();
    assert!(begin_calibration(&target, &charging, 11).is_err());
    assert!(begin_inhibition("BAT0", &charging, 11).is_err());
    assert!(begin_charge_once(&target, &charging, 11).is_err());
    assert!(check_policy_unlocked(&charging).is_some());
    assert_eq!(check_policy_unlocked(&idle), None);
    let inhibited = begin_inhibition("BAT0", &idle, 10).unwrap();
    assert!(end_inhibition("BAT1", inhibited.clone()).is_err());
    assert!(!end_inhibition("BAT0", inhibited).unwrap().has_durable_operation());
    let calibrating = begin_calibration(&target, &idle, 10).unwrap();
    let (limits, ended) = end_calibration("BAT0", calibrating).unwrap();
    assert_eq!(limits, Some((70, 80)));
    assert!(!ended.has_durable_operation());
}

#[test]
fn requests_change_the_settings_of_one_battery() {
    let request =
        ThresholdRequest { battery_id: "BAT1".into(), start_percent: 60, end_percent: 70 };
    let (config, _) = change_thresholds(BatteryConfig::default(), &request);
    assert_eq!(config.device("BAT1").protected_end_percent, 70);
    assert_eq!(config.device("BAT0").protected_end_percent, 80);
    let (config, start, end) = change_protection(config, "BAT0", true, Some((50, 60)));
    assert!(config.device("BAT0").protection_enabled);
    assert_eq!((start, end), (50, 60));
    let (_, start, end) = change_protection(config, "BAT0", false, None);
    assert_eq!((start, end), (0, 100));
}

#[test]
fn alert_settings_are_checked_as_a_whole() {
    let request = |warning: Option<u8>, critical: Option<u8>| AlertPolicyRequest {
        warning_percent: warning,
        critical_percent: critical,
        notify_when_full: None,
        auto_power_saver: Some(false),
    };
    let config = change_alert_policy(BatteryConfig::default(), &request(Some(40), None)).unwrap();
    assert_eq!(config.warning_percent, 40);
    assert!(!config.auto_power_saver);
    assert!(config.notify_when_full);
    assert!(change_alert_policy(BatteryConfig::default(), &request(Some(5), None)).is_err());
    let empty = AlertPolicyRequest {
        warning_percent: None,
        critical_percent: None,
        notify_when_full: None,
        auto_power_saver: None,
    };
    assert!(check_alert_policy(&empty).is_some());
}

#[test]
fn an_operation_that_fails_is_undone() {
    let target =
        OperationTarget { battery_id: "BAT0".into(), restore_start: 70, restore_end: 80 };
    let idle = BatteryRuntimeState::default();
    let next = begin_charge_once(&target, &idle, 10).unwrap();
    let (mut operation, action) =
        DurableOperation::begin(OperationKind::ChargeOnce, target, idle.clone(), next.clone());
    assert_eq!(action, StepAction::SaveRecord(next));
    let mut action = operation.advance(StepEvent::Succeeded(None));
    let mut saved = None;
    let mut steps = 0;
    let mut first = true;
    while steps < 10 {
        action = match action {
            StepAction::SaveRecord(record) => {
                saved = Some(record);
                operation.advance(StepEvent::Succeeded(None))
            }
            StepAction::Fail(error) => {
                assert!(error.message.contains("denied"));
                break;
            }
            StepAction::Succeed(_) | StepAction::Nothing => panic!("the failure is lost"),
            _ if first => {
                first = false;
                operation.advance(StepEvent::Failed("denied".into()))
            }
            _ => operation.advance(StepEvent::Succeeded(Some(threshold_result(70, 80, 70, 80)))),
        };
        steps += 1;
    }
    assert_eq!(saved, Some(idle));
}

#[test]
fn a_change_of_policy_that_fails_is_undone() {
    let previous = BatteryConfig::default();
    let (next, start, end) = change_protection(previous.clone(), "BAT0", true, Some((50, 60)));
    let (mut change, action) =
        PolicyChange::begin("BAT0".into(), start, end, previous.clone(), next.clone());
    assert_eq!(action, PolicyAction::SaveConfig(next));
    let action = change.advance(StepEvent::Succeeded(None));
    assert!(!matches!(action, PolicyAction::Succeed(_)));
    let action = change.advance(StepEvent::Failed("denied".into()));
    assert_eq!(action, PolicyAction::SaveConfig(previous));
    let action = change.advance(StepEvent::Succeeded(None));
    assert!(matches!(action, PolicyAction::Fail(error) if error.message.contains("denied")));
}

#[test]
fn an_operation_is_forgotten_last() {
    let idle = BatteryRuntimeState::default();
    let (mut end, action) = OperationEnd::begin("BAT0".into(), Some((70, 80)), idle.clone());
    assert_eq!(
        action,
        StepAction::SetBehaviour { battery_id: "BAT0".into(), behaviour: "auto".into() }
    );
    assert_eq!(
        end.advance(StepEvent::Succeeded(None)),
        StepAction::SetLimits { battery_id: "BAT0".into(), start: 70, end: 80 }
    );
    assert_eq!(end.advance(StepEvent::Succeeded(None)), StepAction::SaveRecord(idle.clone()));
    assert_eq!(end.advance(StepEvent::Succeeded(None)), StepAction::Succeed(None));
    assert_eq!(end.advance(StepEvent::Succeeded(None)), StepAction::Nothing);
    let (mut end, _) = OperationEnd::begin("BAT0".into(), None, idle.clone());
    assert!(matches!(
        end.advance(StepEvent::Failed("denied".into())),
        StepAction::Fail(error) if error.code == "battery-operation-failed"
    ));
    let (mut end, _) = OperationEnd::begin("BAT0".into(), None, idle);
    end.advance(StepEvent::Succeeded(None));
    assert!(matches!(
        end.advance(StepEvent::Failed("full".into())),
        StepAction::Fail(error) if error.code == "battery-state-failed"
    ));
}
