//! Bringing batteries to what the policy and the operation under way ask for.

use vstd::prelude::*;

use crate::battery::config::{
    device_of, BatteryConfig, BatteryConfigModel, BatteryRuntimeState, BatteryRuntimeStateModel,
};
use crate::battery::helper::ThresholdWriteResult;
use crate::model::{
    BatteryDeviceState, BatteryDeviceStateModel, BatteryProtectionState,
    BatteryProtectionStateModel, BatteryState, BatteryStateModel,
};
use crate::record::Record;
use crate::text::{is_empty, joined3, same_text};

verus! {

/// The sentence that reports that limits cannot be put back.
pub const CANNOT_RESTORE: &'static str =
    "cannot restore charge thresholds: this battery does not expose ThinkPad threshold controls";

// Targets

/// The limits that a policy asks for, where it asks for any.
pub open spec fn policy_target(config: BatteryConfigModel) -> Option<(u8, u8)> {
    if !config.manage_thresholds {
        None
    } else if config.protection_enabled {
        Some((config.protected_start_percent, config.protected_end_percent))
    } else {
        Some((0, 100))
    }
}

/// The limits that were recorded before a battery was to charge past them.
pub open spec fn recorded_target(runtime: BatteryRuntimeStateModel) -> Option<(u8, u8)> {
    match (runtime.restore_start_percent, runtime.restore_end_percent) {
        (Some(start), Some(end)) => Some((start, end)),
        _ => None,
    }
}

/// The limits that a battery should have.
pub open spec fn target_of(
    config: BatteryConfigModel,
    runtime: BatteryRuntimeStateModel,
    finish: bool,
) -> Option<(u8, u8)> {
    if runtime.charge_once_active && !finish {
        Some((0, 100))
    } else if finish && recorded_target(runtime) is Some {
        recorded_target(runtime)
    } else {
        policy_target(config)
    }
}

pub(crate) fn configured_target(config: &BatteryConfig) -> (target: Option<(u8, u8)>)
    ensures
        target == policy_target(config.deep_view()),
{
    if !config.manage_thresholds {
        None
    } else if config.protection_enabled {
        Some((config.protected_start_percent, config.protected_end_percent))
    } else {
        Some((0, 100))
    }
}

/// The limits that a battery should have: none in particular where the policy
/// leaves them alone, all of the charge while it charges past its limit, and
/// then those that it had before.
pub fn reconciliation_target(
    config: &BatteryConfig,
    runtime: &BatteryRuntimeState,
    should_finish_charge_once: bool,
) -> (target: Option<(u8, u8)>)
    ensures
        target == target_of(config.deep_view(), runtime.deep_view(), should_finish_charge_once),
{
    if runtime.charge_once_active && !should_finish_charge_once {
        return Some((0, 100));
    }
    if should_finish_charge_once {
        if let (Some(start), Some(end)) = (
            runtime.restore_start_percent,
            runtime.restore_end_percent,
        ) {
            return Some((start, end));
        }
    }
    configured_target(config)
}

/// The policy with the settings for one battery in place of the shared ones.
pub open spec fn effective(config: BatteryConfigModel, id: Seq<char>) -> BatteryConfigModel {
    let device = device_of(config, id);
    BatteryConfigModel {
        manage_thresholds: device.manage_thresholds,
        protection_enabled: device.protection_enabled,
        protected_start_percent: device.protected_start_percent,
        protected_end_percent: device.protected_end_percent,
        ..config
    }
}

/// The policy with the settings for one battery in place of the shared ones.
pub fn effective_config(config: &BatteryConfig, battery_id: &str) -> (result: BatteryConfig)
    ensures
        result.deep_view() == effective(config.deep_view(), battery_id@),
{
    let device = config.device(battery_id);
    BatteryConfig {
        manage_thresholds: device.manage_thresholds,
        protection_enabled: device.protection_enabled,
        protected_start_percent: device.protected_start_percent,
        protected_end_percent: device.protected_end_percent,
        ..config.copy()
    }
}

// One battery

/// Whether charging past the limit is about a battery.
pub open spec fn charges_once(runtime: BatteryRuntimeStateModel, id: Seq<char>) -> bool {
    runtime.charge_once_active && (runtime.charge_once_battery_id.len() == 0
        || runtime.charge_once_battery_id == id)
}

/// Whether a battery is being calibrated.
pub open spec fn calibrates(runtime: BatteryRuntimeStateModel, id: Seq<char>) -> bool {
    runtime.operation == "calibration"@ && runtime.operation_battery_id == id
}

/// What is to be done with the limits of a battery.
#[derive(Clone, Copy, Debug, PartialEq, Eq)]
pub struct DevicePlan {
    /// Whether charging past the limit is over for this battery.
    pub finish: bool,
    /// The limits that the battery should have.
    pub target: Option<(u8, u8)>,
    /// Whether the battery takes limits.
    pub can_control: bool,
    /// Whether it has the limits that it should have.
    pub already_applied: bool,
}

impl DevicePlan {
    /// The limits to write, where there are any.
    pub open spec fn pending(self) -> Option<(u8, u8)> {
        if self.can_control && !self.already_applied {
            self.target
        } else {
            None
        }
    }

    /// The limits to write, where there are any.
    pub fn write(&self) -> (write: Option<(u8, u8)>)
        ensures
            write == self.pending(),
    {
        if self.can_control && !self.already_applied {
            self.target
        } else {
            None
        }
    }
}

/// Whether a battery takes limits.
pub open spec fn takes_limits(device: BatteryDeviceStateModel) -> bool {
    device.protection.supports_start && device.protection.supports_end && device.id.len() > 0
}

/// Whether charging past the limit is over: the battery is full, external
/// power is gone, or it has taken too long.
pub open spec fn charge_once_done(
    device: BatteryDeviceStateModel,
    plugged: bool,
    runtime: BatteryRuntimeStateModel,
    now: u64,
) -> bool {
    charges_once(runtime, device.id) && (!plugged || device.percentage >= 100
        || runtime.charge_once_over(now))
}

/// Whether a battery has limits: those asked for, or those that its firmware
/// reported when they were asked for.
pub open spec fn has_limits(
    device: BatteryDeviceStateModel,
    config: BatteryConfigModel,
    target: (u8, u8),
) -> bool {
    let observed = (device.protection.start_percent, device.protection.end_percent);
    let policy = device_of(config, device.id);
    ||| observed == (Some(target.0), Some(target.1))
    ||| policy_target(effective(config, device.id)) == Some(target) && observed.0 is Some
        && observed.1 is Some && observed == (
        policy.accepted_reported_start_percent,
        policy.accepted_reported_end_percent,
    )
}

/// What is to be done with the limits of a battery. One that is being
/// calibrated is left alone.
pub open spec fn plan_of(
    device: BatteryDeviceStateModel,
    plugged: bool,
    config: BatteryConfigModel,
    runtime: BatteryRuntimeStateModel,
    now: u64,
) -> DevicePlan {
    let finish = charge_once_done(device, plugged, runtime, now);
    let target = if calibrates(runtime, device.id) {
        None
    } else {
        target_of(
            effective(config, device.id),
            if charges_once(runtime, device.id) {
                runtime
            } else {
                BatteryRuntimeStateModel::initial()
            },
            finish,
        )
    };
    DevicePlan {
        finish,
        target,
        can_control: takes_limits(device),
        already_applied: target is Some && has_limits(device, config, target->0),
    }
}

fn concerns(runtime: &BatteryRuntimeState, battery_id: &str) -> (concerned: bool)
    ensures
        concerned == charges_once(runtime.deep_view(), battery_id@),
{
    runtime.charge_once_active && (is_empty(runtime.charge_once_battery_id.as_str()) || same_text(
        runtime.charge_once_battery_id.as_str(),
        battery_id,
    ))
}

pub(crate) fn is_calibrating(runtime: &BatteryRuntimeState, battery_id: &str) -> (calibrating: bool)
    ensures
        calibrating == calibrates(runtime.deep_view(), battery_id@),
{
    same_text(runtime.operation.as_str(), "calibration") && same_text(
        runtime.operation_battery_id.as_str(),
        battery_id,
    )
}

pub(crate) fn is_percent(observed: Option<u8>, value: u8) -> (same: bool)
    ensures
        same == (observed == Some(value)),
{
    match observed {
        Some(percent) => percent == value,
        None => false,
    }
}

fn is_same_percent(observed: Option<u8>, accepted: Option<u8>) -> (same: bool)
    ensures
        same == (observed is Some && observed == accepted),
{
    match (observed, accepted) {
        (Some(a), Some(b)) => a == b,
        _ => false,
    }
}

fn reports_limits(device: &BatteryDeviceState, config: &BatteryConfig, target: (u8, u8)) -> (has: bool)
    ensures
        has == has_limits(device.deep_view(), config.deep_view(), target),
{
    let protection = &device.protection;
    if is_percent(protection.start_percent, target.0) && is_percent(
        protection.end_percent,
        target.1,
    ) {
        return true;
    }
    let policy = config.device(device.id.as_str());
    match configured_target(&effective_config(config, device.id.as_str())) {
        Some(wanted) => wanted.0 == target.0 && wanted.1 == target.1 && is_same_percent(
            protection.start_percent,
            policy.accepted_reported_start_percent,
        ) && is_same_percent(protection.end_percent, policy.accepted_reported_end_percent),
        None => false,
    }
}

/// Plans what is to be done with the limits of a battery.
pub fn plan_device(
    device: &BatteryDeviceState,
    plugged: bool,
    config: &BatteryConfig,
    runtime: &BatteryRuntimeState,
    now: u64,
) -> (plan: DevicePlan)
    ensures
        plan == plan_of(
            device.deep_view(),
            plugged,
            config.deep_view(),
            runtime.deep_view(),
            now,
        ),
{
    let concerned = concerns(runtime, device.id.as_str());
    let finish = concerned && (!plugged || device.percentage >= 100 || runtime.is_expired(now));
    let target = if is_calibrating(runtime, device.id.as_str()) {
        None
    } else {
        let own = effective_config(config, device.id.as_str());
        if concerned {
            reconciliation_target(&own, runtime, finish)
        } else {
            reconciliation_target(&own, &BatteryRuntimeState::default(), finish)
        }
    };
    let already_applied = match target {
        Some(target) => reports_limits(device, config, target),
        None => false,
    };
    DevicePlan {
        finish,
        target,
        can_control: device.protection.supports_start && device.protection.supports_end
            && !is_empty(device.id.as_str()),
        already_applied,
    }
}

/// Limits recorded for one battery are never put back on another.
pub proof fn recorded_limits_stay_with_their_battery(
    device: BatteryDeviceStateModel,
    plugged: bool,
    config: BatteryConfigModel,
    runtime: BatteryRuntimeStateModel,
    now: u64,
)
    requires
        runtime.charge_once_battery_id.len() > 0,
        device.id != runtime.charge_once_battery_id,
        !calibrates(runtime, device.id),
    ensures
        !plan_of(device, plugged, config, runtime, now).finish,
        plan_of(device, plugged, config, runtime, now).target == policy_target(
            effective(config, device.id),
        ),
{
}

/// A battery that charged past its limit gets the limits back that were
/// recorded, whatever the policy says, once it is full, external power is gone,
/// or a day has passed; until then it charges to the full.
pub proof fn charge_once_puts_limits_back(
    device: BatteryDeviceStateModel,
    plugged: bool,
    config: BatteryConfigModel,
    runtime: BatteryRuntimeStateModel,
    now: u64,
)
    requires
        charges_once(runtime, device.id),
        recorded_target(runtime) is Some,
        !calibrates(runtime, device.id),
    ensures
        plan_of(device, plugged, config, runtime, now).target == if !plugged || device.percentage
            >= 100 || runtime.charge_once_over(now) {
            recorded_target(runtime)
        } else {
            Some((0u8, 100u8))
        },
{
}

/// A policy that does not manage limits never has any written, but for those
/// of a battery that charges past them.
pub proof fn unmanaged_limits_are_left_alone(
    device: BatteryDeviceStateModel,
    plugged: bool,
    config: BatteryConfigModel,
    runtime: BatteryRuntimeStateModel,
    now: u64,
)
    requires
        !device_of(config, device.id).manage_thresholds,
        !charges_once(runtime, device.id),
    ensures
        plan_of(device, plugged, config, runtime, now).pending() is None,
{
}

/// Limits that a battery reports, and that its policy knows its firmware to
/// report instead of those asked for, are not written over.
pub proof fn accepted_limits_are_not_written_again(
    device: BatteryDeviceStateModel,
    plugged: bool,
    config: BatteryConfigModel,
    runtime: BatteryRuntimeStateModel,
    now: u64,
)
    requires
        !charges_once(runtime, device.id),
        device.protection.start_percent is Some,
        device.protection.end_percent is Some,
        device_of(config, device.id).accepted_reported_start_percent
            == device.protection.start_percent,
        device_of(config, device.id).accepted_reported_end_percent
            == device.protection.end_percent,
    ensures
        plan_of(device, plugged, config, runtime, now).pending() is None,
{
}

// Results

/// An error behind another.
pub open spec fn joined_error(error: Option<Seq<char>>, addition: Seq<char>) -> Option<Seq<char>> {
    match error {
        Some(existing) => Some(existing + "; "@ + addition),
        None => Some(addition),
    }
}

/// Puts an error behind another.
pub fn append_error(error: Option<String>, addition: String) -> (result: Option<String>)
    ensures
        result.deep_view() == joined_error(error.deep_view(), addition@),
{
    match error {
        Some(existing) => Some(joined3(existing.as_str(), "; ", addition.as_str())),
        None => Some(addition),
    }
}

/// A protection with limits that were observed.
pub open spec fn with_limits(protection: BatteryProtectionStateModel, start: u8, end: u8)
    -> BatteryProtectionStateModel {
    BatteryProtectionStateModel {
        start_percent: Some(start),
        end_percent: Some(end),
        enabled: start > 0 || end < 100,
        ..protection
    }
}

/// Batteries with limits observed on the first that has an id.
pub open spec fn with_device_limits(
    devices: Seq<BatteryDeviceStateModel>,
    id: Seq<char>,
    start: u8,
    end: u8,
) -> Seq<BatteryDeviceStateModel>
    decreases devices.len(),
{
    if devices.len() == 0 {
        devices
    } else if devices[0].id == id {
        seq![
            BatteryDeviceStateModel {
                protection: with_limits(devices[0].protection, start, end),
                ..devices[0]
            },
        ] + devices.skip(1)
    } else {
        seq![devices[0]] + with_device_limits(devices.skip(1), id, start, end)
    }
}

/// The state with limits observed on a battery. The first battery's are shown for all.
pub open spec fn with_observed(state: BatteryStateModel, id: Seq<char>, start: u8, end: u8)
    -> BatteryStateModel {
    BatteryStateModel {
        protection: if state.native_path == id {
            with_limits(state.protection, start, end)
        } else {
            state.protection
        },
        devices: with_device_limits(state.devices, id, start, end),
        ..state
    }
}

fn put_limits(protection: &mut BatteryProtectionState, start: u8, end: u8)
    ensures
        final(protection).deep_view() == with_limits(old(protection).deep_view(), start, end),
{
    protection.start_percent = Some(start);
    protection.end_percent = Some(end);
    protection.enabled = start > 0 || end < 100;
}

proof fn lemma_device_limits(
    devices: Seq<BatteryDeviceStateModel>,
    id: Seq<char>,
    start: u8,
    end: u8,
    at: int,
)
    requires
        0 <= at <= devices.len(),
        forall|i: int| 0 <= i < at ==> (#[trigger] devices[i]).id != id,
        at < devices.len() ==> devices[at].id == id,
    ensures
        with_device_limits(devices, id, start, end) == if at < devices.len() {
            devices.update(
                at,
                BatteryDeviceStateModel {
                    protection: with_limits(devices[at].protection, start, end),
                    ..devices[at]
                },
            )
        } else {
            devices
        },
    decreases devices.len(),
{
    if devices.len() > 0 {
        let rest = devices.skip(1);
        if at > 0 {
            assert forall|i: int| 0 <= i < at - 1 implies (#[trigger] rest[i]).id != id by {
                assert(rest[i] == devices[i + 1]);
            }
            lemma_device_limits(rest, id, start, end, at - 1);
            assert(devices[0].id != id);
            if at < devices.len() {
                let new = BatteryDeviceStateModel {
                    protection: with_limits(devices[at].protection, start, end),
                    ..devices[at]
                };
                assert(rest[at - 1] == devices[at]);
                assert(seq![devices[0]] + rest.update(at - 1, new) =~= devices.update(at, new));
            } else {
                assert(seq![devices[0]] + rest =~= devices);
            }
        } else {
            let new = BatteryDeviceStateModel {
                protection: with_limits(devices[0].protection, start, end),
                ..devices[0]
            };
            assert(seq![new] + rest =~= devices.update(0, new));
        }
    }
}

/// Takes in limits that were observed on a battery.
pub fn update_observed_thresholds(state: &mut BatteryState, battery_id: &str, start: u8, end: u8)
    ensures
        final(state).deep_view() == with_observed(old(state).deep_view(), battery_id@, start, end),
{
    if same_text(state.native_path.as_str(), battery_id) {
        put_limits(&mut state.protection, start, end);
    }
    let ghost before = state.devices.deep_view();
    let mut i: usize = 0;
    while i < state.devices.len() && !same_text(state.devices[i].id.as_str(), battery_id)
        invariant
            i <= state.devices@.len(),
            before == state.devices.deep_view(),
            forall|k: int| 0 <= k < i ==> (#[trigger] before[k]).id != battery_id@,
        decreases state.devices@.len() - i,
    {
        assert(before[i as int] == state.devices@[i as int].deep_view());
        i = i + 1;
    }
    proof {
        if i < state.devices@.len() {
            assert(before[i as int] == state.devices@[i as int].deep_view());
        }
        lemma_device_limits(before, battery_id@, start, end, i as int);
    }
    if i < state.devices.len() {
        let mut device = state.devices[i].copy();
        put_limits(&mut device.protection, start, end);
        state.devices.set(i, device);
        assert(state.devices.deep_view() =~= before.update(i as int, device.deep_view()));
    }
}

/// What became of limits that were to be written.
#[derive(Debug, PartialEq, Eq)]
pub enum WriteOutcome {
    /// There was nothing to write.
    NotNeeded,
    /// The limits were written, and these are reported.
    Written(ThresholdWriteResult),
    /// The limits could not be written, for this reason.
    Failed(String),
}

/// What a [`WriteOutcome`] says.
pub enum WriteOutcomeModel {
    NotNeeded,
    Written(ThresholdWriteResult),
    Failed(Seq<char>),
}

impl DeepView for WriteOutcome {
    type V = WriteOutcomeModel;

    open spec fn deep_view(&self) -> WriteOutcomeModel {
        match self {
            WriteOutcome::NotNeeded => WriteOutcomeModel::NotNeeded,
            WriteOutcome::Written(result) => WriteOutcomeModel::Written(*result),
            WriteOutcome::Failed(error) => WriteOutcomeModel::Failed(error@),
        }
    }
}

/// What is known of a battery once its limits were seen to.
#[verifier::ext_equal]
pub struct SettledModel {
    pub state: BatteryStateModel,
    pub runtime: BatteryRuntimeStateModel,
    pub error: Option<Seq<char>>,
    /// Whether the operation under way has to be stored.
    pub save: bool,
}

/// What is known of a battery once its limits were seen to.
#[derive(Debug, PartialEq, Eq)]
pub struct Settled {
    pub state: BatteryState,
    pub runtime: BatteryRuntimeState,
    pub error: Option<String>,
    pub save: bool,
}

impl DeepView for Settled {
    type V = SettledModel;

    open spec fn deep_view(&self) -> SettledModel {
        SettledModel {
            state: self.state.deep_view(),
            runtime: self.runtime.deep_view(),
            error: self.error.deep_view(),
            save: self.save,
        }
    }
}

/// Whether a battery has the limits that it should have, for sure.
pub open spec fn is_restored(plan: DevicePlan, outcome: WriteOutcomeModel) -> bool {
    match outcome {
        WriteOutcomeModel::NotNeeded => plan.target is Some && plan.already_applied,
        WriteOutcomeModel::Written(result) => result.verified,
        WriteOutcomeModel::Failed(_) => false,
    }
}

/// What is known of a battery once its limits were seen to. The record of one
/// that charged past its limits goes only when it has them back for sure.
pub open spec fn settled(
    state: BatteryStateModel,
    runtime: BatteryRuntimeStateModel,
    error: Option<Seq<char>>,
    id: Seq<char>,
    plan: DevicePlan,
    outcome: WriteOutcomeModel,
) -> SettledModel {
    let observed = match outcome {
        WriteOutcomeModel::Written(result) => with_observed(
            state,
            id,
            result.actual_start_percent,
            result.actual_end_percent,
        ),
        _ => state,
    };
    let reported = match outcome {
        WriteOutcomeModel::Failed(reason) => joined_error(error, reason),
        _ => error,
    };
    if plan.finish && is_restored(plan, outcome) {
        SettledModel {
            state: observed,
            runtime: BatteryRuntimeStateModel::initial(),
            error: reported,
            save: true,
        }
    } else if plan.finish && (!plan.can_control || plan.target is None) {
        SettledModel {
            state: observed,
            runtime,
            error: joined_error(reported, CANNOT_RESTORE@),
            save: false,
        }
    } else {
        SettledModel { state: observed, runtime, error: reported, save: false }
    }
}

/// Takes in what became of the limits of a battery.
pub fn settle_device(
    state: BatteryState,
    runtime: BatteryRuntimeState,
    error: Option<String>,
    battery_id: &str,
    plan: DevicePlan,
    outcome: WriteOutcome,
) -> (result: Settled)
    ensures
        result.deep_view() == settled(
            state.deep_view(),
            runtime.deep_view(),
            error.deep_view(),
            battery_id@,
            plan,
            outcome.deep_view(),
        ),
{
    let mut state = state;
    let mut error = error;
    let restored = match outcome {
        WriteOutcome::NotNeeded => plan.target.is_some() && plan.already_applied,
        WriteOutcome::Written(result) => {
            update_observed_thresholds(
                &mut state,
                battery_id,
                result.actual_start_percent,
                result.actual_end_percent,
            );
            result.verified
        },
        WriteOutcome::Failed(reason) => {
            error = append_error(error, reason);
            false
        },
    };
    if plan.finish && restored {
        return Settled { state, runtime: BatteryRuntimeState::default(), error, save: true };
    }
    if plan.finish && (!plan.can_control || plan.target.is_none()) {
        error = append_error(error, CANNOT_RESTORE.to_string());
    }
    Settled { state, runtime, error, save: false }
}

/// The record of a battery that charged past its limits is given up only when
/// the limits are back for sure.
pub proof fn record_outlives_unverified_restore(
    state: BatteryStateModel,
    runtime: BatteryRuntimeStateModel,
    error: Option<Seq<char>>,
    id: Seq<char>,
    plan: DevicePlan,
    outcome: WriteOutcomeModel,
)
    requires
        !is_restored(plan, outcome),
    ensures
        settled(state, runtime, error, id, plan, outcome).runtime == runtime,
        !settled(state, runtime, error, id, plan, outcome).save,
{
}

// Laws

/// A battery that neither charges past its limit nor is calibrated gets what the
/// settings for it say: nothing where they do not manage limits, the whole
/// range where protection is off, and the protected range where it is on.
pub proof fn limits_follow_settings(
    device: BatteryDeviceStateModel,
    plugged: bool,
    config: BatteryConfigModel,
    runtime: BatteryRuntimeStateModel,
    now: u64,
)
    requires
        !runtime.charge_once_active || (runtime.charge_once_battery_id.len() > 0
            && runtime.charge_once_battery_id != device.id),
        runtime.operation != "calibration"@ || runtime.operation_battery_id != device.id,
    ensures
        ({
            let plan = plan_of(device, plugged, config, runtime, now);
            let settings = device_of(config, device.id);
            &&& !settings.manage_thresholds ==> plan.target is None
            &&& settings.manage_thresholds && !settings.protection_enabled ==> plan.target == Some(
                (0u8, 100u8),
            )
            &&& settings.manage_thresholds && settings.protection_enabled ==> plan.target == Some(
                (settings.protected_start_percent, settings.protected_end_percent),
            )
            &&& !plan.finish
        }),
{
}

/// A battery that charges past its limit does so up to the full while it is
/// plugged in, not full, and its time is not up; then this is over, and it gets
/// back what was recorded, or what its settings say where nothing was.
pub proof fn charging_past_the_limit_ends(
    device: BatteryDeviceStateModel,
    plugged: bool,
    config: BatteryConfigModel,
    runtime: BatteryRuntimeStateModel,
    now: u64,
)
    requires
        runtime.charge_once_active,
        runtime.charge_once_battery_id.len() == 0 || runtime.charge_once_battery_id == device.id,
        runtime.operation != "calibration"@ || runtime.operation_battery_id != device.id,
    ensures
        ({
            let plan = plan_of(device, plugged, config, runtime, now);
            let settings = device_of(config, device.id);
            let late = runtime.charge_once_expires_unix_ms != 0 && now
                >= runtime.charge_once_expires_unix_ms;
            &&& plan.finish <==> !plugged || device.percentage >= 100 || late
            &&& !plan.finish ==> plan.target == Some((0u8, 100u8))
            &&& plan.finish && runtime.restore_start_percent is Some
                && runtime.restore_end_percent is Some ==> plan.target == Some(
                (runtime.restore_start_percent->0, runtime.restore_end_percent->0),
            )
            &&& plan.finish && (runtime.restore_start_percent is None
                || runtime.restore_end_percent is None) ==> {
                &&& !settings.manage_thresholds ==> plan.target is None
                &&& settings.manage_thresholds && !settings.protection_enabled ==> plan.target
                    == Some((0u8, 100u8))
                &&& settings.manage_thresholds && settings.protection_enabled ==> plan.target
                    == Some((settings.protected_start_percent, settings.protected_end_percent))
            }
        }),
{
}

/// A battery that is calibrated is left to its calibration.
pub proof fn calibration_decides_alone(
    device: BatteryDeviceStateModel,
    plugged: bool,
    config: BatteryConfigModel,
    runtime: BatteryRuntimeStateModel,
    now: u64,
)
    requires
        runtime.operation == "calibration"@,
        runtime.operation_battery_id == device.id,
    ensures
        plan_of(device, plugged, config, runtime, now).target is None,
        plan_of(device, plugged, config, runtime, now).pending() is None,
{
}

/// Limits are written if and only if there are limits to be had, the battery has
/// a name and takes both, and it reports neither them nor those that its
/// settings accept in their place. What is written is what is to be had.
pub proof fn limits_are_written_where_they_differ(
    device: BatteryDeviceStateModel,
    plugged: bool,
    config: BatteryConfigModel,
    runtime: BatteryRuntimeStateModel,
    now: u64,
)
    ensures
        ({
            let plan = plan_of(device, plugged, config, runtime, now);
            let settings = device_of(config, device.id);
            let start = device.protection.start_percent;
            let end = device.protection.end_percent;
            &&& plan.pending() matches Some(limits) ==> plan.target == Some(limits)
                && device.protection.supports_start && device.protection.supports_end
                && device.id.len() > 0 && (start, end) != (Some(limits.0), Some(limits.1))
            &&& plan.target matches Some(limits) ==> (device.protection.supports_start
                && device.protection.supports_end && device.id.len() > 0 && (start != Some(limits.0)
                || end != Some(limits.1)) && (start != settings.accepted_reported_start_percent
                || end != settings.accepted_reported_end_percent || start is None || end is None)
                ==> plan.pending() == Some(limits))
        }),
{
}

proof fn lemma_shown_limits(
    devices: Seq<BatteryDeviceStateModel>,
    id: Seq<char>,
    start: u8,
    end: u8,
    i: int,
)
    requires
        0 <= i < devices.len(),
    ensures
        ({
            let after = with_device_limits(devices, id, start, end);
            let first = devices[i].id == id && forall|k: int|
                0 <= k < i ==> (#[trigger] devices[k]).id != id;
            &&& after.len() == devices.len()
            &&& !first ==> after[i] == devices[i]
            &&& first ==> {
                &&& after[i].protection.start_percent == Some(start)
                &&& after[i].protection.end_percent == Some(end)
                &&& after[i].protection.enabled == (start > 0 || end < 100)
                &&& after[i].protection.supports_start == devices[i].protection.supports_start
                &&& after[i].protection.supports_end == devices[i].protection.supports_end
                &&& after[i].id == id
                &&& after[i].percentage == devices[i].percentage
            }
        }),
    decreases devices.len(),
{
    if devices[0].id == id {
        if i > 0 {
            assert(devices.skip(1)[i - 1] == devices[i]);
        }
    } else {
        let rest = devices.skip(1);
        if i > 0 {
            lemma_shown_limits(rest, id, start, end, i - 1);
            assert(rest[i - 1] == devices[i]);
            if forall|k: int| 0 <= k < i ==> (#[trigger] devices[k]).id != id {
                assert forall|k: int| 0 <= k < i - 1 implies (#[trigger] rest[k]).id != id by {
                    assert(rest[k] == devices[k + 1]);
                }
            }
            if forall|k: int| 0 <= k < i - 1 ==> (#[trigger] rest[k]).id != id {
                assert forall|k: int| 0 <= k < i implies (#[trigger] devices[k]).id != id by {
                    if k > 0 {
                        assert(rest[k - 1] == devices[k]);
                    }
                }
            }
        } else {
            lemma_limits_keep_length(rest, id, start, end);
        }
    }
}

proof fn lemma_limits_keep_length(
    devices: Seq<BatteryDeviceStateModel>,
    id: Seq<char>,
    start: u8,
    end: u8,
)
    ensures
        with_device_limits(devices, id, start, end).len() == devices.len(),
    decreases devices.len(),
{
    if devices.len() > 0 && devices[0].id != id {
        lemma_limits_keep_length(devices.skip(1), id, start, end);
    }
}

/// Limits that were written show, as they were read back, on the battery that
/// they were written to: the first with its name. It is protected where they
/// leave a part of the range out. All other batteries are shown as before, and
/// so are all where nothing was written.
pub proof fn written_limits_are_shown(
    state: BatteryStateModel,
    runtime: BatteryRuntimeStateModel,
    error: Option<Seq<char>>,
    id: Seq<char>,
    plan: DevicePlan,
    outcome: WriteOutcomeModel,
    i: int,
)
    requires
        0 <= i < state.devices.len(),
    ensures
        ({
            let after = settled(state, runtime, error, id, plan, outcome).state;
            let first = state.devices[i].id == id && forall|k: int|
                0 <= k < i ==> (#[trigger] state.devices[k]).id != id;
            &&& !(outcome is Written) ==> after == state
            &&& after.devices.len() == state.devices.len()
            &&& !first ==> after.devices[i] == state.devices[i]
            &&& state.native_path != id ==> after.protection == state.protection
            &&& after.percentage == state.percentage
            &&& outcome matches WriteOutcomeModel::Written(result) ==> {
                &&& first ==> after.devices[i].protection.start_percent == Some(
                    result.actual_start_percent,
                ) && after.devices[i].protection.end_percent == Some(result.actual_end_percent)
                    && after.devices[i].protection.enabled == (result.actual_start_percent > 0
                    || result.actual_end_percent < 100)
                &&& state.native_path == id ==> after.protection.start_percent == Some(
                    result.actual_start_percent,
                ) && after.protection.end_percent == Some(result.actual_end_percent)
                    && after.protection.enabled == (result.actual_start_percent > 0
                    || result.actual_end_percent < 100)
            }
        }),
{
    match outcome {
        WriteOutcomeModel::Written(result) => {
            lemma_shown_limits(
                state.devices,
                id,
                result.actual_start_percent,
                result.actual_end_percent,
                i,
            );
        },
        _ => {},
    }
}

/// Why limits could not be written is told, behind what was told before; what
/// was told before stays told; and a battery that cannot get its limits back
/// is told of. A battery whose limits are back forgets what it was doing, and
/// this is saved.
pub proof fn outcome_of_writing_is_told(
    state: BatteryStateModel,
    runtime: BatteryRuntimeStateModel,
    error: Option<Seq<char>>,
    id: Seq<char>,
    plan: DevicePlan,
    outcome: WriteOutcomeModel,
)
    ensures
        ({
            let after = settled(state, runtime, error, id, plan, outcome);
            let restored = match outcome {
                WriteOutcomeModel::NotNeeded => plan.target is Some && plan.already_applied,
                WriteOutcomeModel::Written(result) => result.verified,
                WriteOutcomeModel::Failed(_) => false,
            };
            let stuck = plan.finish && !restored && (!plan.can_control || plan.target is None);
            &&& after.save <==> plan.finish && restored
            &&& after.save ==> after.runtime == BatteryRuntimeStateModel::initial()
            &&& !after.save ==> after.runtime == runtime
            &&& !stuck && !(outcome is Failed) ==> after.error == error
            &&& stuck && !(outcome is Failed) && error is None ==> after.error == Some(
                CANNOT_RESTORE@,
            )
            &&& outcome matches WriteOutcomeModel::Failed(reason) ==> !stuck ==> after.error == match error {
                Some(told) => Some(told + "; "@ + reason),
                None => Some(reason),
            }
        }),
{
}

} // verus!
