//! Requests about batteries.

use vstd::prelude::*;

use crate::api::error::{ApiError, ApiErrorModel};
use crate::battery::config::{
    calibration_from, charge_once_from, config_error, device_of, inhibit_from, is_range,
    other_batteries_keep_policy, with_device, BatteryConfig, BatteryConfigModel, BatteryDeviceConfigModel,
    BatteryRuntimeState, BatteryRuntimeStateModel,
};
use crate::battery::helper::valid_thresholds;
use crate::battery::reconcile::{effective, policy_target};
use crate::model::{
    BatteryDeviceState, BatteryDeviceStateModel, BatteryState, BatteryStateModel,
};
use crate::record::Record;
use crate::text::{contains_name, joined, joined3, same_text};

verus! {

/// New charge limits for a battery.
#[derive(Debug, PartialEq, Eq)]
pub struct ThresholdRequest {
    pub battery_id: String,
    pub start_percent: u8,
    pub end_percent: u8,
}

/// What a [`ThresholdRequest`] holds.
#[verifier::ext_equal]
pub struct ThresholdRequestModel {
    pub battery_id: Seq<char>,
    pub start_percent: u8,
    pub end_percent: u8,
}

impl DeepView for ThresholdRequest {
    type V = ThresholdRequestModel;

    open spec fn deep_view(&self) -> ThresholdRequestModel {
        ThresholdRequestModel {
            battery_id: self.battery_id.deep_view(),
            start_percent: self.start_percent.deep_view(),
            end_percent: self.end_percent.deep_view(),
        }
    }
}

impl Record for ThresholdRequest {
    fn same(&self, other: &Self) -> (same: bool) {
        self.battery_id.same(&other.battery_id)
            && self.start_percent.same(&other.start_percent)
            && self.end_percent.same(&other.end_percent)
    }

    fn copy(&self) -> (copy: Self) {
        ThresholdRequest {
            battery_id: self.battery_id.copy(),
            start_percent: self.start_percent.copy(),
            end_percent: self.end_percent.copy(),
        }
    }
}

impl Clone for ThresholdRequest {
    fn clone(&self) -> (copy: Self)
        ensures
            copy.deep_view() == self.deep_view(),
    {
        self.copy()
    }
}

/// Whether to protect a battery, and perhaps new charge limits for it.
#[derive(Debug, PartialEq, Eq)]
pub struct ProtectionRequest {
    pub battery_id: Option<String>,
    pub enabled: bool,
    pub start_percent: Option<u8>,
    pub end_percent: Option<u8>,
}

/// What a [`ProtectionRequest`] holds.
#[verifier::ext_equal]
pub struct ProtectionRequestModel {
    pub battery_id: Option<Seq<char>>,
    pub enabled: bool,
    pub start_percent: Option<u8>,
    pub end_percent: Option<u8>,
}

impl DeepView for ProtectionRequest {
    type V = ProtectionRequestModel;

    open spec fn deep_view(&self) -> ProtectionRequestModel {
        ProtectionRequestModel {
            battery_id: self.battery_id.deep_view(),
            enabled: self.enabled.deep_view(),
            start_percent: self.start_percent.deep_view(),
            end_percent: self.end_percent.deep_view(),
        }
    }
}

impl Record for ProtectionRequest {
    fn same(&self, other: &Self) -> (same: bool) {
        self.battery_id.same(&other.battery_id)
            && self.enabled.same(&other.enabled)
            && self.start_percent.same(&other.start_percent)
            && self.end_percent.same(&other.end_percent)
    }

    fn copy(&self) -> (copy: Self) {
        ProtectionRequest {
            battery_id: self.battery_id.copy(),
            enabled: self.enabled.copy(),
            start_percent: self.start_percent.copy(),
            end_percent: self.end_percent.copy(),
        }
    }
}

impl Clone for ProtectionRequest {
    fn clone(&self) -> (copy: Self)
        ensures
            copy.deep_view() == self.deep_view(),
    {
        self.copy()
    }
}

/// What to change of when the user is alerted.
#[derive(Debug, PartialEq, Eq)]
pub struct AlertPolicyRequest {
    pub warning_percent: Option<u8>,
    pub critical_percent: Option<u8>,
    pub notify_when_full: Option<bool>,
    pub auto_power_saver: Option<bool>,
}

/// What a [`AlertPolicyRequest`] holds.
#[verifier::ext_equal]
pub struct AlertPolicyRequestModel {
    pub warning_percent: Option<u8>,
    pub critical_percent: Option<u8>,
    pub notify_when_full: Option<bool>,
    pub auto_power_saver: Option<bool>,
}

impl DeepView for AlertPolicyRequest {
    type V = AlertPolicyRequestModel;

    open spec fn deep_view(&self) -> AlertPolicyRequestModel {
        AlertPolicyRequestModel {
            warning_percent: self.warning_percent.deep_view(),
            critical_percent: self.critical_percent.deep_view(),
            notify_when_full: self.notify_when_full.deep_view(),
            auto_power_saver: self.auto_power_saver.deep_view(),
        }
    }
}

impl Record for AlertPolicyRequest {
    fn same(&self, other: &Self) -> (same: bool) {
        self.warning_percent.same(&other.warning_percent)
            && self.critical_percent.same(&other.critical_percent)
            && self.notify_when_full.same(&other.notify_when_full)
            && self.auto_power_saver.same(&other.auto_power_saver)
    }

    fn copy(&self) -> (copy: Self) {
        AlertPolicyRequest {
            warning_percent: self.warning_percent.copy(),
            critical_percent: self.critical_percent.copy(),
            notify_when_full: self.notify_when_full.copy(),
            auto_power_saver: self.auto_power_saver.copy(),
        }
    }
}

impl Clone for AlertPolicyRequest {
    fn clone(&self) -> (copy: Self)
        ensures
            copy.deep_view() == self.deep_view(),
    {
        self.copy()
    }
}

// Which battery

/// The place of the first battery with an id, or the number of batteries.
pub open spec fn device_position(devices: Seq<BatteryDeviceStateModel>, id: Seq<char>) -> nat
    decreases devices.len(),
{
    if devices.len() == 0 || devices[0].id == id {
        0
    } else {
        1 + device_position(devices.skip(1), id)
    }
}

/// The battery with an id.
pub open spec fn device_with(devices: Seq<BatteryDeviceStateModel>, id: Seq<char>) -> Option<
    BatteryDeviceStateModel,
> {
    if device_position(devices, id) < devices.len() {
        Some(devices[device_position(devices, id) as int])
    } else {
        None
    }
}

/// The answer where a battery is not there.
pub open spec fn unavailable(id: Seq<char>) -> ApiErrorModel {
    ApiErrorModel::of("battery-unavailable"@, "battery "@ + id + " is unavailable"@)
}

/// The answer where there is no battery.
pub open spec fn no_battery() -> ApiErrorModel {
    ApiErrorModel::of(
        "battery-unavailable"@,
        "no controllable system battery is available"@,
    )
}

/// The battery that a request is about: the one that it names, else the first.
pub open spec fn requested_device(state: BatteryStateModel, requested: Option<Seq<char>>) -> Result<
    BatteryDeviceStateModel,
    ApiErrorModel,
> {
    match requested {
        Some(id) => match device_with(state.devices, id) {
            Some(device) => Ok(device),
            None => Err(unavailable(id)),
        },
        None => if state.devices.len() > 0 {
            Ok(state.devices[0])
        } else {
            Err(no_battery())
        },
    }
}

fn find_device(devices: &Vec<BatteryDeviceState>, id: &str) -> (at: usize)
    ensures
        at == device_position(devices.deep_view(), id@),
        at <= devices@.len(),
{
    let ghost all = devices.deep_view();
    let mut at: usize = 0;
    assert(all.skip(0) =~= all);
    while at < devices.len()
        invariant
            at <= devices@.len(),
            all == devices.deep_view(),
            device_position(all, id@) == at + device_position(all.skip(at as int), id@),
        decreases devices@.len() - at,
    {
        assert(all.skip(at as int)[0] == devices@[at as int].deep_view());
        if same_text(devices[at].id.as_str(), id) {
            return at;
        }
        assert(all.skip(at as int).skip(1) =~= all.skip(at + 1));
        at = at + 1;
    }
    at
}

fn unavailable_error(id: &str) -> (error: ApiError)
    ensures
        error.deep_view() == unavailable(id@),
{
    ApiError::new("battery-unavailable", joined3("battery ", id, " is unavailable").as_str())
}

fn find_requested(state: &BatteryState, requested: &Option<String>) -> (device: Result<
    usize,
    ApiError,
>)
    ensures
        match device {
            Ok(at) => at < state.devices@.len() && requested_device(
                state.deep_view(),
                requested.deep_view(),
            ) == Ok::<_, ApiErrorModel>(state.devices@[at as int].deep_view()),
            Err(error) => requested_device(state.deep_view(), requested.deep_view()) == Err::<
                BatteryDeviceStateModel,
                _,
            >(error.deep_view()),
        },
{
    assert(state.devices.deep_view().len() == state.devices@.len());
    match requested {
        Some(id) => {
            let at: usize = find_device(&state.devices, id.as_str());
            if at < state.devices.len() {
                assert(state.devices.deep_view()[at as int]
                    == state.devices@[at as int].deep_view());
                Ok(at)
            } else {
                Err(unavailable_error(id.as_str()))
            }
        },
        None => if state.devices.len() > 0 {
            assert(state.devices.deep_view()[0] == state.devices@[0].deep_view());
            Ok(0)
        } else {
            Err(
                ApiError::new(
                    "battery-unavailable",
                    "no controllable system battery is available",
                ),
            )
        },
    }
}

/// Finds the id of the battery that a request is about.
pub fn requested_battery_id(state: &BatteryState, requested: &Option<String>) -> (id: Result<
    String,
    ApiError,
>)
    ensures
        match id {
            Ok(id) => requested_device(state.deep_view(), requested.deep_view()) matches Ok(device)
                && device.id == id@,
            Err(error) => requested_device(state.deep_view(), requested.deep_view()) == Err::<
                BatteryDeviceStateModel,
                _,
            >(error.deep_view()),
        },
{
    match find_requested(state, requested) {
        Ok(at) => Ok(state.devices[at].id.clone()),
        Err(error) => Err(error),
    }
}

// Operations that outlive the daemon

/// A battery, and the limits that it gets back after an operation.
#[derive(Debug, PartialEq, Eq)]
pub struct OperationTarget {
    pub battery_id: String,
    pub restore_start: u8,
    pub restore_end: u8,
}

/// What a [`OperationTarget`] holds.
#[verifier::ext_equal]
pub struct OperationTargetModel {
    pub battery_id: Seq<char>,
    pub restore_start: u8,
    pub restore_end: u8,
}

impl DeepView for OperationTarget {
    type V = OperationTargetModel;

    open spec fn deep_view(&self) -> OperationTargetModel {
        OperationTargetModel {
            battery_id: self.battery_id.deep_view(),
            restore_start: self.restore_start.deep_view(),
            restore_end: self.restore_end.deep_view(),
        }
    }
}

impl Record for OperationTarget {
    fn same(&self, other: &Self) -> (same: bool) {
        self.battery_id.same(&other.battery_id)
            && self.restore_start.same(&other.restore_start)
            && self.restore_end.same(&other.restore_end)
    }

    fn copy(&self) -> (copy: Self) {
        OperationTarget {
            battery_id: self.battery_id.copy(),
            restore_start: self.restore_start.copy(),
            restore_end: self.restore_end.copy(),
        }
    }
}

impl Clone for OperationTarget {
    fn clone(&self) -> (copy: Self)
        ensures
            copy.deep_view() == self.deep_view(),
    {
        self.copy()
    }
}

/// The answer where another operation is under way.
pub open spec fn operation_active() -> ApiErrorModel {
    ApiErrorModel::of(
        "battery-operation-active"@,
        "another durable battery operation is already active"@,
    )
}

/// The answer where the policy cannot change during an operation.
pub open spec fn policy_locked() -> ApiErrorModel {
    ApiErrorModel::of(
        "battery-operation-active"@,
        "charge policy cannot change during a durable battery operation"@,
    )
}

/// The limits of a battery as those that it gets back, or the answer where they cannot be read.
pub open spec fn restorable(device: BatteryDeviceStateModel, message: Seq<char>) -> Result<
    OperationTargetModel,
    ApiErrorModel,
> {
    match (device.protection.start_percent, device.protection.end_percent) {
        (Some(start), Some(end)) => Ok(
            OperationTargetModel { battery_id: device.id, restore_start: start, restore_end: end },
        ),
        _ => Err(ApiErrorModel::of("battery-protection-unsupported"@, message)),
    }
}

/// The battery to charge past its limit, or why it cannot be.
pub open spec fn charge_once_target(state: BatteryStateModel, requested: Option<Seq<char>>) -> Result<
    OperationTargetModel,
    ApiErrorModel,
> {
    if !state.plugged {
        Err(
            ApiErrorModel::of(
                "battery-not-plugged"@,
                "battery.chargeOnce requires external power"@,
            ),
        )
    } else {
        match requested_device(state, requested) {
            Ok(device) => restorable(
                device,
                "battery.chargeOnce requires readable charge thresholds"@,
            ),
            Err(error) => Err(error),
        }
    }
}

/// The battery to calibrate, or why it cannot be.
pub open spec fn calibration_target(state: BatteryStateModel, id: Seq<char>) -> Result<
    OperationTargetModel,
    ApiErrorModel,
> {
    if !state.plugged {
        Err(
            ApiErrorModel::of(
                "battery-not-plugged"@,
                "battery calibration requires external power"@,
            ),
        )
    } else {
        match device_with(state.devices, id) {
            Some(device) => if !device.protection.available_behaviours.contains(
                "force-discharge"@,
            ) {
                Err(
                    ApiErrorModel::of(
                        "battery-operation-unsupported"@,
                        "battery "@ + id + " cannot force discharge"@,
                    ),
                )
            } else {
                restorable(device, "battery calibration requires readable charge thresholds"@)
            },
            None => Err(unavailable(id)),
        }
    }
}

/// Why a battery cannot be kept from charging.
pub open spec fn inhibition_refusal(state: BatteryStateModel, id: Seq<char>) -> Option<
    ApiErrorModel,
> {
    match device_with(state.devices, id) {
        Some(device) => if device.protection.available_behaviours.contains("inhibit-charge"@) {
            None
        } else {
            Some(
                ApiErrorModel::of(
                    "battery-operation-unsupported"@,
                    "battery "@ + id + " cannot inhibit charging"@,
                ),
            )
        },
        None => Some(unavailable(id)),
    }
}

fn restorable_target(device: &BatteryDeviceState, message: &str) -> (target: Result<
    OperationTarget,
    ApiError,
>)
    ensures
        match target {
            Ok(target) => restorable(device.deep_view(), message@) == Ok::<_, ApiErrorModel>(
                target.deep_view(),
            ),
            Err(error) => restorable(device.deep_view(), message@) == Err::<
                OperationTargetModel,
                _,
            >(error.deep_view()),
        },
{
    match (device.protection.start_percent, device.protection.end_percent) {
        (Some(start), Some(end)) => Ok(
            OperationTarget {
                battery_id: device.id.clone(),
                restore_start: start,
                restore_end: end,
            },
        ),
        _ => Err(ApiError::new("battery-protection-unsupported", message)),
    }
}

/// Finds the battery to charge past its limit once.
pub fn plan_charge_once(state: &BatteryState, requested: &Option<String>) -> (target: Result<
    OperationTarget,
    ApiError,
>)
    ensures
        match target {
            Ok(target) => charge_once_target(state.deep_view(), requested.deep_view()) == Ok::<
                _,
                ApiErrorModel,
            >(target.deep_view()),
            Err(error) => charge_once_target(state.deep_view(), requested.deep_view()) == Err::<
                OperationTargetModel,
                _,
            >(error.deep_view()),
        },
{
    if !state.plugged {
        return Err(
            ApiError::new("battery-not-plugged", "battery.chargeOnce requires external power"),
        );
    }
    match find_requested(state, requested) {
        Ok(at) => restorable_target(
            &state.devices[at],
            "battery.chargeOnce requires readable charge thresholds",
        ),
        Err(error) => Err(error),
    }
}

/// Finds out whether a battery can be calibrated.
pub fn plan_calibration(state: &BatteryState, battery_id: &str) -> (target: Result<
    OperationTarget,
    ApiError,
>)
    ensures
        match target {
            Ok(target) => calibration_target(state.deep_view(), battery_id@) == Ok::<
                _,
                ApiErrorModel,
            >(target.deep_view()),
            Err(error) => calibration_target(state.deep_view(), battery_id@) == Err::<
                OperationTargetModel,
                _,
            >(error.deep_view()),
        },
{
    if !state.plugged {
        return Err(
            ApiError::new("battery-not-plugged", "battery calibration requires external power"),
        );
    }
    let at: usize = find_device(&state.devices, battery_id);
    if at >= state.devices.len() {
        return Err(unavailable_error(battery_id));
    }
    assert(state.devices.deep_view()[at as int] == state.devices@[at as int].deep_view());
    let device = &state.devices[at];
    if !contains_name(&device.protection.available_behaviours, "force-discharge") {
        let message = joined3("battery ", battery_id, " cannot force discharge");
        return Err(ApiError::new("battery-operation-unsupported", message.as_str()));
    }
    restorable_target(device, "battery calibration requires readable charge thresholds")
}

/// Finds out whether a battery can be kept from charging.
pub fn check_inhibition(state: &BatteryState, battery_id: &str) -> (refusal: Option<ApiError>)
    ensures
        refusal.deep_view() == inhibition_refusal(state.deep_view(), battery_id@),
{
    let at: usize = find_device(&state.devices, battery_id);
    if at >= state.devices.len() {
        return Some(unavailable_error(battery_id));
    }
    assert(state.devices.deep_view()[at as int] == state.devices@[at as int].deep_view());
    if !contains_name(&state.devices[at].protection.available_behaviours, "inhibit-charge") {
        let message = joined3("battery ", battery_id, " cannot inhibit charging");
        return Some(ApiError::new("battery-operation-unsupported", message.as_str()));
    }
    None
}

fn active_error() -> (error: ApiError)
    ensures
        error.deep_view() == operation_active(),
{
    ApiError::new(
        "battery-operation-active",
        "another durable battery operation is already active",
    )
}

/// What to record before a battery charges past its limit. It cannot while
/// another operation is under way.
pub fn begin_charge_once(target: &OperationTarget, previous: &BatteryRuntimeState, now: u64) -> (next:
    Result<BatteryRuntimeState, ApiError>)
    ensures
        match next {
            Ok(next) => !previous.deep_view().is_busy() && next.deep_view() == charge_once_from(
                now,
                target.battery_id@,
                target.restore_start,
                target.restore_end,
            ),
            Err(error) => previous.deep_view().is_busy() && error.deep_view()
                == operation_active(),
        },
{
    if previous.has_durable_operation() {
        return Err(active_error());
    }
    Ok(
        BatteryRuntimeState::start_charge_once(
            now,
            target.battery_id.clone(),
            target.restore_start,
            target.restore_end,
        ),
    )
}

/// What to record before a battery is calibrated. It cannot be while another
/// operation is under way.
pub fn begin_calibration(target: &OperationTarget, previous: &BatteryRuntimeState, now: u64) -> (next:
    Result<BatteryRuntimeState, ApiError>)
    ensures
        match next {
            Ok(next) => !previous.deep_view().is_busy() && next.deep_view() == calibration_from(
                now,
                target.battery_id@,
                target.restore_start,
                target.restore_end,
            ),
            Err(error) => previous.deep_view().is_busy() && error.deep_view()
                == operation_active(),
        },
{
    if previous.has_durable_operation() {
        return Err(active_error());
    }
    Ok(
        BatteryRuntimeState::start_calibration(
            now,
            target.battery_id.clone(),
            target.restore_start,
            target.restore_end,
        ),
    )
}

/// What to record before a battery is kept from charging. It cannot be while
/// another operation is under way.
pub fn begin_inhibition(battery_id: &str, previous: &BatteryRuntimeState, now: u64) -> (next: Result<
    BatteryRuntimeState,
    ApiError,
>)
    ensures
        match next {
            Ok(next) => !previous.deep_view().is_busy() && next.deep_view() == inhibit_from(
                now,
                battery_id@,
            ),
            Err(error) => previous.deep_view().is_busy() && error.deep_view()
                == operation_active(),
        },
{
    if previous.has_durable_operation() {
        return Err(active_error());
    }
    Ok(BatteryRuntimeState::start_inhibit(now, battery_id.to_string()))
}

/// Whether an operation of a kind is under way on a battery.
pub open spec fn is_under_way(
    runtime: BatteryRuntimeStateModel,
    kind: Seq<char>,
    id: Seq<char>,
) -> bool {
    runtime.operation == kind && runtime.operation_battery_id == id
}

/// What to record once a battery may charge again. There is an answer where it always could.
pub fn end_inhibition(battery_id: &str, runtime: BatteryRuntimeState) -> (next: Result<
    BatteryRuntimeState,
    ApiError,
>)
    ensures
        match next {
            Ok(next) => is_under_way(runtime.deep_view(), "inhibit"@, battery_id@)
                && next.deep_view() == runtime.deep_view().without_operation(),
            Err(error) => !is_under_way(runtime.deep_view(), "inhibit"@, battery_id@)
                && error.deep_view() == ApiErrorModel::of(
                "battery-operation-inactive"@,
                "charging is not durably inhibited for "@ + battery_id@,
            ),
        },
{
    if !same_text(runtime.operation.as_str(), "inhibit") || !same_text(
        runtime.operation_battery_id.as_str(),
        battery_id,
    ) {
        let message = joined("charging is not durably inhibited for ", battery_id);
        return Err(ApiError::new("battery-operation-inactive", message.as_str()));
    }
    let mut next = runtime;
    next.clear_operation();
    Ok(next)
}

/// The limits that a calibrated battery gets back.
pub open spec fn calibration_limits(runtime: BatteryRuntimeStateModel) -> Option<(u8, u8)> {
    match (runtime.operation_restore_start_percent, runtime.operation_restore_end_percent) {
        (Some(start), Some(end)) => Some((start, end)),
        _ => None,
    }
}

/// The limits to put back, and what to record then, once a calibration is
/// cancelled. There is an answer where there is none.
pub fn end_calibration(battery_id: &str, runtime: BatteryRuntimeState) -> (next: Result<
    (Option<(u8, u8)>, BatteryRuntimeState),
    ApiError,
>)
    ensures
        match next {
            Ok((limits, next)) => is_under_way(runtime.deep_view(), "calibration"@, battery_id@)
                && limits == calibration_limits(runtime.deep_view()) && next.deep_view()
                == runtime.deep_view().without_operation(),
            Err(error) => !is_under_way(runtime.deep_view(), "calibration"@, battery_id@)
                && error.deep_view() == ApiErrorModel::of(
                "battery-operation-inactive"@,
                "battery "@ + battery_id@ + " is not being calibrated"@,
            ),
        },
{
    if !same_text(runtime.operation.as_str(), "calibration") || !same_text(
        runtime.operation_battery_id.as_str(),
        battery_id,
    ) {
        let message = joined3("battery ", battery_id, " is not being calibrated");
        return Err(ApiError::new("battery-operation-inactive", message.as_str()));
    }
    let limits = match (
        runtime.operation_restore_start_percent,
        runtime.operation_restore_end_percent,
    ) {
        (Some(start), Some(end)) => Some((start, end)),
        _ => None,
    };
    let mut next = runtime;
    next.clear_operation();
    Ok((limits, next))
}

/// An operation that has begun is under way, so that no other can begin until
/// it has been ended.
pub proof fn operations_exclude_each_other(
    now: u64,
    id: Seq<char>,
    start: u8,
    end: u8,
)
    ensures
        charge_once_from(now, id, start, end).is_busy(),
        calibration_from(now, id, start, end).is_busy(),
        inhibit_from(now, id).is_busy(),
        !calibration_from(now, id, start, end).without_operation().is_busy(),
        !inhibit_from(now, id).without_operation().is_busy(),
{
    reveal_strlit("calibration");
    reveal_strlit("inhibit");
}

// Policy

/// Limits that come both or not at all, and in order.
pub open spec fn limits_of(start: Option<u8>, end: Option<u8>) -> Result<Option<(u8, u8)>, Seq<char>> {
    match (start, end) {
        (None, None) => Ok(None),
        (Some(start), Some(end)) => if is_range(start, end) {
            Ok(Some((start, end)))
        } else {
            Err("battery start_percent must be lower than end_percent"@)
        },
        _ => Err("battery start_percent and end_percent must be supplied together"@),
    }
}

/// Reads limits that come both or not at all.
pub fn optional_thresholds(start: Option<u8>, end: Option<u8>) -> (limits: Result<
    Option<(u8, u8)>,
    &'static str,
>)
    ensures
        match limits {
            Ok(limits) => limits_of(start, end) == Ok::<_, Seq<char>>(limits),
            Err(message) => limits_of(start, end) == Err::<Option<(u8, u8)>, _>(message@),
        },
{
    match (start, end) {
        (None, None) => Ok(None),
        (Some(start), Some(end)) => if valid_thresholds(start, end) {
            Ok(Some((start, end)))
        } else {
            Err("battery start_percent must be lower than end_percent")
        },
        _ => Err("battery start_percent and end_percent must be supplied together"),
    }
}

/// Refuses limits that are out of order.
pub fn check_thresholds(request: &ThresholdRequest) -> (refusal: Option<ApiError>)
    ensures
        refusal.deep_view() == if is_range(request.start_percent, request.end_percent) {
            None
        } else {
            Some(
                ApiErrorModel::of(
                    "validation-error"@,
                    "battery start_percent must be lower than end_percent"@,
                ),
            )
        },
{
    if valid_thresholds(request.start_percent, request.end_percent) {
        None
    } else {
        Some(
            ApiError::new(
                "validation-error",
                "battery start_percent must be lower than end_percent",
            ),
        )
    }
}

/// Refuses to change the policy while an operation is under way.
pub fn check_policy_unlocked(runtime: &BatteryRuntimeState) -> (refusal: Option<ApiError>)
    ensures
        refusal.deep_view() == if runtime.deep_view().is_busy() {
            Some(policy_locked())
        } else {
            None
        },
{
    if runtime.has_durable_operation() {
        Some(
            ApiError::new(
                "battery-operation-active",
                "charge policy cannot change during a durable battery operation",
            ),
        )
    } else {
        None
    }
}

/// The policy for one battery with new limits. Where they take effect at once,
/// what the firmware reported of others no longer counts.
pub open spec fn device_with_limits(device: BatteryDeviceConfigModel, start: u8, end: u8)
    -> BatteryDeviceConfigModel {
    let active = device.manage_thresholds && device.protection_enabled;
    BatteryDeviceConfigModel {
        protected_start_percent: start,
        protected_end_percent: end,
        accepted_reported_start_percent: if active {
            None
        } else {
            device.accepted_reported_start_percent
        },
        accepted_reported_end_percent: if active {
            None
        } else {
            device.accepted_reported_end_percent
        },
        ..device
    }
}

/// The policy with new limits for a battery.
pub open spec fn config_with_limits(
    config: BatteryConfigModel,
    id: Seq<char>,
    start: u8,
    end: u8,
) -> BatteryConfigModel {
    BatteryConfigModel {
        devices: with_device(
            config.devices,
            id,
            device_with_limits(device_of(config, id), start, end),
        ),
        ..config
    }
}

/// Puts new limits for a battery into the policy. Tells whether they take effect at once.
pub fn change_thresholds(config: BatteryConfig, request: &ThresholdRequest) -> (result: (
    BatteryConfig,
    bool,
))
    ensures
        result.0.deep_view() == config_with_limits(
            config.deep_view(),
            request.battery_id@,
            request.start_percent,
            request.end_percent,
        ),
        result.1 == (device_of(config.deep_view(), request.battery_id@).manage_thresholds
            && device_of(config.deep_view(), request.battery_id@).protection_enabled),
{
    let mut next = config;
    let device = next.device_mut(request.battery_id.as_str());
    device.protected_start_percent = request.start_percent;
    device.protected_end_percent = request.end_percent;
    let active = device.manage_thresholds && device.protection_enabled;
    if active {
        device.accepted_reported_start_percent = None;
        device.accepted_reported_end_percent = None;
    }
    (next, active)
}

/// The policy for one battery once it is, or is no longer, protected.
pub open spec fn protected_device(
    device: BatteryDeviceConfigModel,
    enabled: bool,
    limits: Option<(u8, u8)>,
) -> BatteryDeviceConfigModel {
    BatteryDeviceConfigModel {
        manage_thresholds: true,
        protection_enabled: enabled,
        protected_start_percent: match limits {
            Some(limits) => limits.0,
            None => device.protected_start_percent,
        },
        protected_end_percent: match limits {
            Some(limits) => limits.1,
            None => device.protected_end_percent,
        },
        accepted_reported_start_percent: None,
        accepted_reported_end_percent: None,
    }
}

/// Puts into the policy that a battery is, or is no longer, protected. Gives
/// the limits that it then should have.
pub fn change_protection(
    config: BatteryConfig,
    battery_id: &str,
    enabled: bool,
    limits: Option<(u8, u8)>,
) -> (result: (BatteryConfig, u8, u8))
    ensures
        ({
            let device = protected_device(
                device_of(config.deep_view(), battery_id@),
                enabled,
                limits,
            );
            &&& result.0.deep_view() == (BatteryConfigModel {
                devices: with_device(config.deep_view().devices, battery_id@, device),
                ..config.deep_view()
            })
            &&& (result.1, result.2) == if enabled {
                (device.protected_start_percent, device.protected_end_percent)
            } else {
                (0u8, 100u8)
            }
            &&& policy_target(effective(result.0.deep_view(), battery_id@)) == Some(
                (result.1, result.2),
            )
        }),
{
    let mut next = config;
    let device = next.device_mut(battery_id);
    if let Some((start, end)) = limits {
        device.protected_start_percent = start;
        device.protected_end_percent = end;
    }
    let start: u8 = if enabled {
        device.protected_start_percent
    } else {
        0
    };
    let end: u8 = if enabled {
        device.protected_end_percent
    } else {
        100
    };
    device.manage_thresholds = true;
    device.protection_enabled = enabled;
    device.accepted_reported_start_percent = None;
    device.accepted_reported_end_percent = None;
    proof {
        other_batteries_keep_policy(
            config.deep_view(),
            battery_id@,
            protected_device(device_of(config.deep_view(), battery_id@), enabled, limits),
            battery_id@,
        );
    }
    (next, start, end)
}

/// A value, or the one that stands where there is none.
pub open spec fn value_or<T>(value: Option<T>, otherwise: T) -> T {
    match value {
        Some(value) => value,
        None => otherwise,
    }
}

/// Whether a request changes anything.
pub open spec fn changes_alerts(request: AlertPolicyRequestModel) -> bool {
    ||| request.warning_percent is Some
    ||| request.critical_percent is Some
    ||| request.notify_when_full is Some
    ||| request.auto_power_saver is Some
}

/// The policy with what a request changes of it.
pub open spec fn config_with_alerts(config: BatteryConfigModel, request: AlertPolicyRequestModel)
    -> BatteryConfigModel {
    BatteryConfigModel {
        warning_percent: value_or(request.warning_percent, config.warning_percent),
        critical_percent: value_or(request.critical_percent, config.critical_percent),
        notify_when_full: value_or(request.notify_when_full, config.notify_when_full),
        auto_power_saver: value_or(request.auto_power_saver, config.auto_power_saver),
        ..config
    }
}

/// Refuses a request that changes nothing.
pub fn check_alert_policy(request: &AlertPolicyRequest) -> (refusal: Option<ApiError>)
    ensures
        refusal.deep_view() == if changes_alerts(request.deep_view()) {
            None
        } else {
            Some(
                ApiErrorModel::of(
                    "validation-error"@,
                    "battery.setAlertPolicy requires at least one policy field"@,
                ),
            )
        },
{
    if request.warning_percent.is_some() || request.critical_percent.is_some()
        || request.notify_when_full.is_some() || request.auto_power_saver.is_some() {
        None
    } else {
        Some(
            ApiError::new(
                "validation-error",
                "battery.setAlertPolicy requires at least one policy field",
            ),
        )
    }
}

/// Changes when the user is alerted. A policy that would be out of order is refused.
pub fn change_alert_policy(config: BatteryConfig, request: &AlertPolicyRequest) -> (result: Result<
    BatteryConfig,
    ApiError,
>)
    ensures
        ({
            let next = config_with_alerts(config.deep_view(), request.deep_view());
            match result {
                Ok(config) => config_error(next) is None && config.deep_view() == next,
                Err(error) => config_error(next) is Some && error.deep_view() == ApiErrorModel::of(
                    "validation-error"@,
                    config_error(next)->0.message(),
                ),
            }
        }),
{
    let mut next = config;
    if let Some(value) = request.warning_percent {
        next.warning_percent = value;
    }
    if let Some(value) = request.critical_percent {
        next.critical_percent = value;
    }
    if let Some(value) = request.notify_when_full {
        next.notify_when_full = value;
    }
    if let Some(value) = request.auto_power_saver {
        next.auto_power_saver = value;
    }
    match next.validate() {
        Ok(()) => Ok(next),
        Err(error) => Err(ApiError::new("validation-error", error.message().as_str())),
    }
}

// Laws

proof fn lemma_device(devices: Seq<BatteryDeviceStateModel>, id: Seq<char>)
    ensures
        device_position(devices, id) <= devices.len(),
        device_position(devices, id) < devices.len() ==> devices[device_position(
            devices,
            id,
        ) as int].id == id,
        forall|i: int| 0 <= i < device_position(devices, id) ==> (#[trigger] devices[i]).id != id,
    decreases devices.len(),
{
    if devices.len() > 0 && devices[0].id != id {
        let rest = devices.skip(1);
        lemma_device(rest, id);
        assert forall|i: int| 0 <= i < device_position(devices, id) implies (
        #[trigger] devices[i]).id != id by {
            if i > 0 {
                assert(rest[i - 1] == devices[i]);
            }
        }
    }
}

/// A request goes to the battery that it names, or to the first where it names
/// none; it is refused where there is no such battery.
pub proof fn requests_go_to_the_named_battery(
    state: BatteryStateModel,
    requested: Option<Seq<char>>,
)
    ensures
        requested is None ==> (requested_device(state, requested) is Ok <==> state.devices.len()
            > 0),
        requested is None && state.devices.len() > 0 ==> requested_device(state, requested) == Ok::<
            BatteryDeviceStateModel,
            ApiErrorModel,
        >(state.devices[0]),
        requested matches Some(id) ==> {
            &&& requested_device(state, requested) is Ok <==> exists|i: int|
                0 <= i < state.devices.len() && (#[trigger] state.devices[i]).id == id
            &&& requested_device(state, requested) matches Ok(device) ==> device.id == id
                && state.devices.contains(device)
        },
        requested_device(state, requested) matches Err(error) ==> error.code
            == "battery-unavailable"@,
{
    if let Some(id) = requested {
        lemma_device(state.devices, id);
    }
}

/// A battery charges past its limit, or is calibrated, only with external power
/// and where it tells its limits, which are those that are put back; to be
/// calibrated it must be able to discharge by force, and to be kept from
/// charging it must be able to do that.
pub proof fn operations_need_what_they_use(state: BatteryStateModel, id: Seq<char>)
    ensures
        ({
            let device = device_with(state.devices, id);
            let readable = device is Some && device->0.protection.start_percent is Some
                && device->0.protection.end_percent is Some;
            let once = charge_once_target(state, Some(id));
            let calibration = calibration_target(state, id);
            &&& once is Ok <==> state.plugged && readable
            &&& calibration is Ok <==> state.plugged && readable
                && device->0.protection.available_behaviours.contains("force-discharge"@)
            &&& inhibition_refusal(state, id) is None <==> device is Some
                && device->0.protection.available_behaviours.contains("inhibit-charge"@)
            &&& once matches Ok(target) ==> target.battery_id == id && Some(target.restore_start)
                == device->0.protection.start_percent && Some(target.restore_end)
                == device->0.protection.end_percent
            &&& calibration matches Ok(target) ==> target.battery_id == id && Some(
                target.restore_start,
            ) == device->0.protection.start_percent && Some(target.restore_end)
                == device->0.protection.end_percent
            &&& !state.plugged ==> (once matches Err(error) && error.code
                == "battery-not-plugged"@) && (calibration matches Err(error) && error.code
                == "battery-not-plugged"@)
            &&& device matches Some(found) ==> found.id == id
        }),
{
    lemma_device(state.devices, id);
}

/// Limits are taken from a request both or not at all, the first below the
/// second and neither above a hundred.
pub proof fn limits_come_in_pairs(start: Option<u8>, end: Option<u8>)
    ensures
        limits_of(start, end) is Ok <==> (start is None && end is None) || (start is Some
            && end is Some && start->0 < end->0 && end->0 <= 100),
        limits_of(start, end) matches Ok(limits) ==> (limits is Some <==> start is Some) && (
        limits matches Some(pair) ==> Some(pair.0) == start && Some(pair.1) == end),
{
}

/// New limits of a battery are its own: the settings of others, the alerts, and
/// whether it is protected stay. What was accepted in place of old limits is
/// forgotten where the new ones take effect.
pub proof fn new_limits_are_for_one_battery(
    config: BatteryConfigModel,
    id: Seq<char>,
    start: u8,
    end: u8,
    other: Seq<char>,
)
    ensures
        ({
            let after = config_with_limits(config, id, start, end);
            let old_device = device_of(config, id);
            let device = device_of(after, id);
            &&& device.protected_start_percent == start && device.protected_end_percent == end
            &&& device.manage_thresholds == old_device.manage_thresholds
                && device.protection_enabled == old_device.protection_enabled
            &&& old_device.manage_thresholds && old_device.protection_enabled
                ==> device.accepted_reported_start_percent is None
                && device.accepted_reported_end_percent is None
            &&& !(old_device.manage_thresholds && old_device.protection_enabled)
                ==> device.accepted_reported_start_percent
                == old_device.accepted_reported_start_percent
                && device.accepted_reported_end_percent
                == old_device.accepted_reported_end_percent
            &&& other != id ==> device_of(after, other) == device_of(config, other)
            &&& after.warning_percent == config.warning_percent && after.critical_percent
                == config.critical_percent && after.notify_when_full == config.notify_when_full
                && after.auto_power_saver == config.auto_power_saver
        }),
{
    let device = device_with_limits(device_of(config, id), start, end);
    other_batteries_keep_policy(config, id, device, id);
    other_batteries_keep_policy(config, id, device, other);
}

/// A battery whose protection is turned on or off is managed from then on, with the
/// limits of the request or those it had, and nothing accepted in place of them.
pub proof fn protection_is_as_asked(
    device: BatteryDeviceConfigModel,
    enabled: bool,
    limits: Option<(u8, u8)>,
)
    ensures
        ({
            let after = protected_device(device, enabled, limits);
            &&& after.manage_thresholds
            &&& after.protection_enabled == enabled
            &&& limits matches Some(pair) ==> after.protected_start_percent == pair.0
                && after.protected_end_percent == pair.1
            &&& limits is None ==> after.protected_start_percent == device.protected_start_percent
                && after.protected_end_percent == device.protected_end_percent
            &&& after.accepted_reported_start_percent is None
                && after.accepted_reported_end_percent is None
        }),
{
}

/// A request on alerts changes what it names and leaves the rest; one that names
/// nothing is none.
pub proof fn alerts_change_as_asked(config: BatteryConfigModel, request: AlertPolicyRequestModel)
    ensures
        ({
            let after = config_with_alerts(config, request);
            &&& request.warning_percent matches Some(percent) ==> after.warning_percent == percent
            &&& request.warning_percent is None ==> after.warning_percent == config.warning_percent
            &&& request.critical_percent matches Some(percent) ==> after.critical_percent == percent
            &&& request.critical_percent is None ==> after.critical_percent
                == config.critical_percent
            &&& request.notify_when_full matches Some(notify) ==> after.notify_when_full == notify
            &&& request.notify_when_full is None ==> after.notify_when_full
                == config.notify_when_full
            &&& request.auto_power_saver matches Some(save) ==> after.auto_power_saver == save
            &&& request.auto_power_saver is None ==> after.auto_power_saver
                == config.auto_power_saver
            &&& after.devices == config.devices
            &&& after.protected_start_percent == config.protected_start_percent
                && after.protected_end_percent == config.protected_end_percent
                && after.manage_thresholds == config.manage_thresholds && after.protection_enabled
                == config.protection_enabled
            &&& !changes_alerts(request) ==> after == config
        }),
        changes_alerts(request) <==> request.warning_percent is Some || request.critical_percent
            is Some || request.notify_when_full is Some || request.auto_power_saver is Some,
{
}

/// An operation is under way on a battery if and only if it was begun on it, and
/// the limits that its calibration puts back are those it began with.
pub proof fn begun_operations_are_under_way(
    now: u64,
    id: Seq<char>,
    start: u8,
    end: u8,
    other: Seq<char>,
)
    ensures
        is_under_way(inhibit_from(now, id), "inhibit"@, other) <==> other == id,
        is_under_way(calibration_from(now, id, start, end), "calibration"@, other) <==> other == id,
        !is_under_way(inhibit_from(now, id), "calibration"@, other),
        !is_under_way(calibration_from(now, id, start, end), "inhibit"@, other),
        calibration_limits(calibration_from(now, id, start, end)) == Some((start, end)),
{
    reveal_strlit("inhibit");
    reveal_strlit("calibration");
    assert("inhibit"@.len() == 7 && "calibration"@.len() == 11);
}

/// Requests that are refused are told apart by a code, and say what is wrong.
pub proof fn battery_refusals_say_what_is_wrong(id: Seq<char>)
    ensures
        operation_active().code == "battery-operation-active"@,
        operation_active().message == "another durable battery operation is already active"@,
        policy_locked().code == "battery-operation-active"@,
        policy_locked().message
            == "charge policy cannot change during a durable battery operation"@,
        unavailable(id).code == "battery-unavailable"@,
        unavailable(id).message == "battery "@ + id + " is unavailable"@,
        no_battery().code == "battery-unavailable"@,
        no_battery().message == "no controllable system battery is available"@,
        limits_of(None, Some(0)) == Err::<Option<(u8, u8)>, Seq<char>>(
            "battery start_percent and end_percent must be supplied together"@,
        ),
{
}

/// What an operation that is refused lacks is told.
pub proof fn lacking_operations_say_what_they_lack(state: BatteryStateModel, id: Seq<char>)
    ensures
        !state.plugged ==> (charge_once_target(state, Some(id)) matches Err(error) && error.message
            == "battery.chargeOnce requires external power"@),
        !state.plugged ==> (calibration_target(state, id) matches Err(error) && error.message
            == "battery calibration requires external power"@),
        state.plugged && device_with(state.devices, id) is None ==> (charge_once_target(
            state,
            Some(id),
        ) matches Err(error) && error == unavailable(id)) && (calibration_target(
            state,
            id,
        ) matches Err(error) && error == unavailable(id)),
        device_with(state.devices, id) is None ==> inhibition_refusal(state, id) == Some(
            unavailable(id),
        ),
        device_with(state.devices, id) is Some && inhibition_refusal(state, id) is Some ==> (
        inhibition_refusal(state, id) matches Some(error) && error.code
            == "battery-operation-unsupported"@ && error.message == "battery "@ + id
            + " cannot inhibit charging"@),
{
}

} // verus!
