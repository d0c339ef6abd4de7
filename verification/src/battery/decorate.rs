//! Battery state with what the policy says of it, and the course of a calibration.

use vstd::prelude::*;

use crate::battery::config::{
    device_of, BatteryConfig, BatteryConfigModel, BatteryRuntimeState, BatteryRuntimeStateModel,
};
use crate::battery::reconcile::{
    append_error, calibrates, configured_target, effective, effective_config, is_calibrating,
    is_percent, joined_error, policy_target,
};
use crate::model::{
    BatteryDeviceState, BatteryDeviceStateModel, BatteryOperationState,
    BatteryOperationStateModel, BatteryPolicyState, BatteryPolicyStateModel,
    BatteryProtectionState, BatteryProtectionStateModel, BatteryState, BatteryStateModel,
};
use crate::record::Record;
use crate::text::same_text;

verus! {

/// A protection with what the policy for its battery says of it.
pub open spec fn decorated_protection(
    protection: BatteryProtectionStateModel,
    id: Seq<char>,
    config: BatteryConfigModel,
    runtime: BatteryRuntimeStateModel,
    error: Option<Seq<char>>,
) -> BatteryProtectionStateModel {
    let device = device_of(config, id);
    BatteryProtectionStateModel {
        managed: device.manage_thresholds,
        desired_start_percent: Some(device.protected_start_percent),
        desired_end_percent: Some(device.protected_end_percent),
        desired_enabled: device.protection_enabled,
        thresholds_verified: policy_target(effective(config, id)) matches Some(target)
            && protection.start_percent == Some(target.0) && protection.end_percent == Some(
            target.1,
        ),
        charge_once_active: runtime.charge_once_active,
        error: match error {
            Some(error) => joined_error(protection.error, error),
            None => protection.error,
        },
        ..protection
    }
}

/// A battery with what the policy says of it.
pub open spec fn decorated_device(
    device: BatteryDeviceStateModel,
    config: BatteryConfigModel,
    runtime: BatteryRuntimeStateModel,
    error: Option<Seq<char>>,
) -> BatteryDeviceStateModel {
    BatteryDeviceStateModel {
        protection: decorated_protection(device.protection, device.id, config, runtime, error),
        ..device
    }
}

/// The operation under way, as it is shown.
pub open spec fn shown_operation(runtime: BatteryRuntimeStateModel) -> BatteryOperationStateModel {
    BatteryOperationStateModel {
        kind: runtime.operation,
        battery_id: runtime.operation_battery_id,
        phase: runtime.operation_phase,
        started_unix_ms: runtime.operation_started_unix_ms,
        expires_unix_ms: runtime.operation_expires_unix_ms,
    }
}

/// Battery state with what the policy says of it.
pub open spec fn decorated(
    state: BatteryStateModel,
    config: BatteryConfigModel,
    runtime: BatteryRuntimeStateModel,
    error: Option<Seq<char>>,
) -> BatteryStateModel {
    BatteryStateModel {
        warning: state.available && !state.plugged && state.percentage <= config.warning_percent,
        critical: state.available && !state.plugged && state.percentage <= config.critical_percent,
        policy: BatteryPolicyStateModel {
            warning_percent: config.warning_percent,
            critical_percent: config.critical_percent,
            notify_when_full: config.notify_when_full,
            auto_power_saver: config.auto_power_saver,
        },
        operation: shown_operation(runtime),
        protection: decorated_protection(
            state.protection,
            state.native_path,
            config,
            runtime,
            error,
        ),
        devices: state.devices.map_values(
            |device: BatteryDeviceStateModel| decorated_device(device, config, runtime, error),
        ),
        ..state
    }
}

fn decorate_protection(
    protection: BatteryProtectionState,
    battery_id: &str,
    config: &BatteryConfig,
    runtime: &BatteryRuntimeState,
    policy_error: &Option<String>,
) -> (result: BatteryProtectionState)
    ensures
        result.deep_view() == decorated_protection(
            protection.deep_view(),
            battery_id@,
            config.deep_view(),
            runtime.deep_view(),
            policy_error.deep_view(),
        ),
{
    let device = config.device(battery_id);
    let verified = match configured_target(&effective_config(config, battery_id)) {
        Some(target) => is_percent(protection.start_percent, target.0) && is_percent(
            protection.end_percent,
            target.1,
        ),
        None => false,
    };
    let error = match policy_error {
        Some(error) => append_error(protection.error.copy(), error.clone()),
        None => protection.error.copy(),
    };
    BatteryProtectionState {
        managed: device.manage_thresholds,
        desired_start_percent: Some(device.protected_start_percent),
        desired_end_percent: Some(device.protected_end_percent),
        desired_enabled: device.protection_enabled,
        thresholds_verified: verified,
        charge_once_active: runtime.charge_once_active,
        error,
        ..protection
    }
}

fn decorate_devices(
    devices: &Vec<BatteryDeviceState>,
    config: &BatteryConfig,
    runtime: &BatteryRuntimeState,
    policy_error: &Option<String>,
) -> (result: Vec<BatteryDeviceState>)
    ensures
        result.deep_view() == devices.deep_view().map_values(
            |device: BatteryDeviceStateModel|
                decorated_device(
                    device,
                    config.deep_view(),
                    runtime.deep_view(),
                    policy_error.deep_view(),
                ),
        ),
{
    let mut result: Vec<BatteryDeviceState> = Vec::new();
    let mut i: usize = 0;
    while i < devices.len()
        invariant
            i <= devices@.len(),
            result@.len() == i,
            forall|k: int|
                0 <= k < i ==> (#[trigger] result@[k]).deep_view() == decorated_device(
                    devices@[k].deep_view(),
                    config.deep_view(),
                    runtime.deep_view(),
                    policy_error.deep_view(),
                ),
        decreases devices@.len() - i,
    {
        let mut device = devices[i].copy();
        device.protection = decorate_protection(
            device.protection,
            device.id.as_str(),
            config,
            runtime,
            policy_error,
        );
        result.push(device);
        i = i + 1;
    }
    assert(result.deep_view() =~= devices.deep_view().map_values(
        |device: BatteryDeviceStateModel|
            decorated_device(
                device,
                config.deep_view(),
                runtime.deep_view(),
                policy_error.deep_view(),
            ),
    ));
    result
}

/// Adds to battery state what the policy says of it.
pub fn decorate(
    state: BatteryState,
    config: &BatteryConfig,
    runtime: &BatteryRuntimeState,
    policy_error: Option<String>,
) -> (result: BatteryState)
    ensures
        result.deep_view() == decorated(
            state.deep_view(),
            config.deep_view(),
            runtime.deep_view(),
            policy_error.deep_view(),
        ),
{
    let mut result = state;
    result.warning = result.available && !result.plugged && result.percentage
        <= config.warning_percent;
    result.critical = result.available && !result.plugged && result.percentage
        <= config.critical_percent;
    result.policy = BatteryPolicyState {
        warning_percent: config.warning_percent,
        critical_percent: config.critical_percent,
        notify_when_full: config.notify_when_full,
        auto_power_saver: config.auto_power_saver,
    };
    result.operation = BatteryOperationState {
        kind: runtime.operation.clone(),
        battery_id: runtime.operation_battery_id.clone(),
        phase: runtime.operation_phase.clone(),
        started_unix_ms: runtime.operation_started_unix_ms,
        expires_unix_ms: runtime.operation_expires_unix_ms,
    };
    result.protection = decorate_protection(
        result.protection,
        result.native_path.as_str(),
        config,
        runtime,
        &policy_error,
    );
    result.devices = decorate_devices(&result.devices, config, runtime, &policy_error);
    result
}

/// The error of loading a policy and that of loading the operation under way, together.
pub fn load_errors(config_error: Option<String>, runtime_error: Option<String>) -> (error: Option<
    String,
>)
    ensures
        error.deep_view() == match runtime_error.deep_view() {
            Some(runtime_error) => joined_error(config_error.deep_view(), runtime_error),
            None => config_error.deep_view(),
        },
{
    match runtime_error {
        Some(runtime_error) => append_error(config_error, runtime_error),
        None => config_error,
    }
}

// Calibration

/// The charge at which a calibration stops discharging, in percent.
pub const CALIBRATION_FLOOR_PERCENT: u8 = 1;

/// What a calibration does next.
#[derive(Clone, Copy, Debug, PartialEq, Eq, Structural)]
pub enum CalibrationStep {
    /// Nothing: the battery is not being calibrated, or has to go on as it does.
    Wait,
    /// Let the battery charge.
    Charge,
    /// Let the battery behave as usual and put its limits back.
    Finish,
}

/// What the calibration of a battery does next: it discharges to the floor,
/// charges to the full, and is over then, or before if external power is gone
/// or it has taken too long.
pub open spec fn step_of(
    device: BatteryDeviceStateModel,
    plugged: bool,
    runtime: BatteryRuntimeStateModel,
    now: u64,
) -> CalibrationStep {
    if !calibrates(runtime, device.id) {
        CalibrationStep::Wait
    } else if !plugged || runtime.operation_over(now) {
        CalibrationStep::Finish
    } else if runtime.operation_phase == "discharging"@ {
        if device.percentage <= CALIBRATION_FLOOR_PERCENT {
            CalibrationStep::Charge
        } else {
            CalibrationStep::Wait
        }
    } else if device.percentage >= 100 {
        CalibrationStep::Finish
    } else {
        CalibrationStep::Wait
    }
}

/// Decides what the calibration of a battery does next.
pub fn calibration_step(
    device: &BatteryDeviceState,
    plugged: bool,
    runtime: &BatteryRuntimeState,
    now: u64,
) -> (step: CalibrationStep)
    ensures
        step == step_of(device.deep_view(), plugged, runtime.deep_view(), now),
{
    if !is_calibrating(runtime, device.id.as_str()) {
        return CalibrationStep::Wait;
    }
    if !plugged || runtime.operation_expired(now) {
        return CalibrationStep::Finish;
    }
    if same_text(runtime.operation_phase.as_str(), "discharging") {
        if device.percentage <= CALIBRATION_FLOOR_PERCENT {
            CalibrationStep::Charge
        } else {
            CalibrationStep::Wait
        }
    } else if device.percentage >= 100 {
        CalibrationStep::Finish
    } else {
        CalibrationStep::Wait
    }
}

/// The operation once a step of a calibration was taken.
pub open spec fn after_step(runtime: BatteryRuntimeStateModel, step: CalibrationStep)
    -> BatteryRuntimeStateModel {
    match step {
        CalibrationStep::Wait => runtime,
        CalibrationStep::Charge => BatteryRuntimeStateModel {
            operation_phase: "charging"@,
            ..runtime
        },
        CalibrationStep::Finish => runtime.without_operation(),
    }
}

/// The operation once a step of a calibration was taken.
pub fn take_step(runtime: BatteryRuntimeState, step: CalibrationStep) -> (next: BatteryRuntimeState)
    ensures
        next.deep_view() == after_step(runtime.deep_view(), step),
{
    let mut next = runtime;
    match step {
        CalibrationStep::Wait => {},
        CalibrationStep::Charge => {
            next.operation_phase = "charging".to_string();
        },
        CalibrationStep::Finish => {
            next.clear_operation();
        },
    }
    next
}

/// The limits that a step of a calibration puts back: those that were recorded
/// when it began, at its end.
pub open spec fn limits_at(runtime: BatteryRuntimeStateModel, step: CalibrationStep) -> Option<
    (u8, u8),
> {
    match (
        step,
        runtime.operation_restore_start_percent,
        runtime.operation_restore_end_percent,
    ) {
        (CalibrationStep::Finish, Some(start), Some(end)) => Some((start, end)),
        _ => None,
    }
}

/// The limits that a step of a calibration puts back.
pub fn step_limits(runtime: &BatteryRuntimeState, step: CalibrationStep) -> (limits: Option<
    (u8, u8),
>)
    ensures
        limits == limits_at(runtime.deep_view(), step),
{
    match (
        step,
        runtime.operation_restore_start_percent,
        runtime.operation_restore_end_percent,
    ) {
        (CalibrationStep::Finish, Some(start), Some(end)) => Some((start, end)),
        _ => None,
    }
}

/// A calibration ends as soon as external power is gone or its time is up,
/// whatever it was doing.
pub proof fn calibration_ends_without_power(
    device: BatteryDeviceStateModel,
    plugged: bool,
    runtime: BatteryRuntimeStateModel,
    now: u64,
)
    requires
        calibrates(runtime, device.id),
        !plugged || runtime.operation_over(now),
    ensures
        step_of(device, plugged, runtime, now) == CalibrationStep::Finish,
        !after_step(runtime, step_of(device, plugged, runtime, now)).is_busy()
            || runtime.charge_once_active,
{
}

/// A calibration that is discharging goes on to charge, never straight to its
/// end, while there is power and time; once it charges it does not discharge again.
pub proof fn calibration_charges_before_it_ends(
    device: BatteryDeviceStateModel,
    runtime: BatteryRuntimeStateModel,
    now: u64,
)
    requires
        calibrates(runtime, device.id),
        !runtime.operation_over(now),
    ensures
        runtime.operation_phase == "discharging"@ ==> step_of(device, true, runtime, now)
            != CalibrationStep::Finish,
        runtime.operation_phase == "charging"@ ==> step_of(device, true, runtime, now)
            != CalibrationStep::Charge,
{
    reveal_strlit("charging");
    reveal_strlit("discharging");
    assert("charging"@.len() != "discharging"@.len());
}

// Laws

/// A battery is low, and critical, by the percentages that the settings name,
/// while there is one without external power. What it told stays, and each
/// battery is shown with what its own settings want of it.
pub proof fn settings_decide_on_alerts(
    state: BatteryStateModel,
    config: BatteryConfigModel,
    runtime: BatteryRuntimeStateModel,
    error: Option<Seq<char>>,
    i: int,
)
    ensures
        ({
            let after = decorated(state, config, runtime, error);
            &&& after.warning <==> state.available && !state.plugged && state.percentage
                <= config.warning_percent
            &&& after.critical <==> state.available && !state.plugged && state.percentage
                <= config.critical_percent
            &&& after.policy.warning_percent == config.warning_percent
            &&& after.policy.critical_percent == config.critical_percent
            &&& after.policy.notify_when_full == config.notify_when_full
            &&& after.policy.auto_power_saver == config.auto_power_saver
            &&& after.operation.kind == runtime.operation && after.operation.battery_id
                == runtime.operation_battery_id && after.operation.phase == runtime.operation_phase
            &&& after.operation.started_unix_ms == runtime.operation_started_unix_ms
                && after.operation.expires_unix_ms == runtime.operation_expires_unix_ms
            &&& after.available == state.available && after.percentage == state.percentage
                && after.plugged == state.plugged && after.charging == state.charging
                && after.state == state.state && after.power_uw == state.power_uw
                && after.native_path == state.native_path
            &&& after.time_to_empty_seconds == state.time_to_empty_seconds
                && after.time_to_full_seconds == state.time_to_full_seconds
            &&& after.devices.len() == state.devices.len()
            &&& 0 <= i < state.devices.len() ==> {
                let before = state.devices[i];
                let device = after.devices[i];
                let wanted = device_of(config, before.id);
                &&& device.id == before.id && device.percentage == before.percentage
                    && device.power_uw == before.power_uw && device.present == before.present
                &&& device.protection.managed == wanted.manage_thresholds
                &&& device.protection.desired_enabled == wanted.protection_enabled
                &&& device.protection.desired_start_percent == Some(wanted.protected_start_percent)
                &&& device.protection.desired_end_percent == Some(wanted.protected_end_percent)
                &&& device.protection.charge_once_active == runtime.charge_once_active
                &&& device.protection.start_percent == before.protection.start_percent
                &&& device.protection.end_percent == before.protection.end_percent
                &&& error is None ==> device.protection.error == before.protection.error
                &&& error is Some && before.protection.error is None ==> device.protection.error
                    == error
                &&& error is Some && before.protection.error is Some ==> device.protection.error
                    == Some(before.protection.error->0 + "; "@ + error->0)
                &&& device.protection.thresholds_verified <==> wanted.manage_thresholds && (
                if wanted.protection_enabled {
                    before.protection.start_percent == Some(wanted.protected_start_percent)
                        && before.protection.end_percent == Some(wanted.protected_end_percent)
                } else {
                    before.protection.start_percent == Some(0u8) && before.protection.end_percent
                        == Some(100u8)
                })
            }
        }),
{
}

/// A calibration runs the battery down to one percent, then lets it charge to the
/// full, and then ends; it ends before that once external power is gone or its
/// time is up. Its end puts the limits of before back, and nothing else does.
pub proof fn calibration_runs_its_course(
    device: BatteryDeviceStateModel,
    plugged: bool,
    runtime: BatteryRuntimeStateModel,
    now: u64,
)
    ensures
        ({
            let step = step_of(device, plugged, runtime, now);
            let after = after_step(runtime, step);
            let own = runtime.operation == "calibration"@ && runtime.operation_battery_id
                == device.id;
            let late = runtime.operation.len() > 0 && runtime.operation_expires_unix_ms != 0 && now
                >= runtime.operation_expires_unix_ms;
            &&& !own ==> step == CalibrationStep::Wait
            &&& own && (!plugged || late) ==> step == CalibrationStep::Finish
            &&& own && plugged && !late && runtime.operation_phase == "discharging"@ ==> (step
                == CalibrationStep::Charge <==> device.percentage <= 1) && (step
                == CalibrationStep::Wait <==> device.percentage > 1)
            &&& own && plugged && !late && runtime.operation_phase != "discharging"@ ==> (step
                == CalibrationStep::Finish <==> device.percentage >= 100) && (step
                == CalibrationStep::Wait <==> device.percentage < 100)
            &&& step == CalibrationStep::Wait ==> after == runtime
            &&& step == CalibrationStep::Charge ==> after.operation_phase == "charging"@
                && after.operation == runtime.operation && after.operation_battery_id
                == runtime.operation_battery_id && after.operation_expires_unix_ms
                == runtime.operation_expires_unix_ms && after.operation_restore_start_percent
                == runtime.operation_restore_start_percent && after.operation_restore_end_percent
                == runtime.operation_restore_end_percent
            &&& step == CalibrationStep::Finish ==> after.operation.len() == 0
            &&& limits_at(runtime, step) is Some <==> step == CalibrationStep::Finish
                && runtime.operation_restore_start_percent is Some
                && runtime.operation_restore_end_percent is Some
            &&& limits_at(runtime, step) matches Some(limits) ==> Some(limits.0)
                == runtime.operation_restore_start_percent && Some(limits.1)
                == runtime.operation_restore_end_percent
        }),
{
}

} // verus!
