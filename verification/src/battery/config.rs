//! Battery policy that the user chose, and operations that outlive the daemon.

use vstd::prelude::*;

use crate::activity::notifications::model::time_sum;
use crate::record::Record;
use crate::text::{
    chars_of, has_prefix, is_digit, is_empty, joined3, same_text, starts_with, text_less, text_lt,
    text_lt_asymmetric, text_lt_total, text_lt_transitive,
};

verus! {

/// How long a battery may charge past its limit, in milliseconds: a day.
pub const CHARGE_ONCE_MAX_AGE: u64 = 86_400_000;

/// How long a calibration may take, in milliseconds: two days.
pub const CALIBRATION_MAX_AGE: u64 = 172_800_000;

/// Battery policy. Batteries that are not listed under `devices` share the
/// settings that stand here. Those that are listed stand in ascending order of
/// their ids, none of them twice (see [`BatteryConfigModel::wf`]).
#[derive(Debug, PartialEq, Eq)]
pub struct BatteryConfig {
    pub warning_percent: u8,
    pub critical_percent: u8,
    pub notify_when_full: bool,
    pub auto_power_saver: bool,
    pub manage_thresholds: bool,
    pub protection_enabled: bool,
    pub protected_start_percent: u8,
    pub protected_end_percent: u8,
    pub devices: Vec<BatteryDeviceEntry>,
}

/// What a [`BatteryConfig`] holds.
#[verifier::ext_equal]
pub struct BatteryConfigModel {
    pub warning_percent: u8,
    pub critical_percent: u8,
    pub notify_when_full: bool,
    pub auto_power_saver: bool,
    pub manage_thresholds: bool,
    pub protection_enabled: bool,
    pub protected_start_percent: u8,
    pub protected_end_percent: u8,
    pub devices: Seq<BatteryDeviceEntryModel>,
}

impl DeepView for BatteryConfig {
    type V = BatteryConfigModel;

    open spec fn deep_view(&self) -> BatteryConfigModel {
        BatteryConfigModel {
            warning_percent: self.warning_percent.deep_view(),
            critical_percent: self.critical_percent.deep_view(),
            notify_when_full: self.notify_when_full.deep_view(),
            auto_power_saver: self.auto_power_saver.deep_view(),
            manage_thresholds: self.manage_thresholds.deep_view(),
            protection_enabled: self.protection_enabled.deep_view(),
            protected_start_percent: self.protected_start_percent.deep_view(),
            protected_end_percent: self.protected_end_percent.deep_view(),
            devices: self.devices.deep_view(),
        }
    }
}

impl Record for BatteryConfig {
    fn same(&self, other: &Self) -> (same: bool) {
        self.warning_percent.same(&other.warning_percent)
            && self.critical_percent.same(&other.critical_percent)
            && self.notify_when_full.same(&other.notify_when_full)
            && self.auto_power_saver.same(&other.auto_power_saver)
            && self.manage_thresholds.same(&other.manage_thresholds)
            && self.protection_enabled.same(&other.protection_enabled)
            && self.protected_start_percent.same(&other.protected_start_percent)
            && self.protected_end_percent.same(&other.protected_end_percent)
            && self.devices.same(&other.devices)
    }

    fn copy(&self) -> (copy: Self) {
        BatteryConfig {
            warning_percent: self.warning_percent.copy(),
            critical_percent: self.critical_percent.copy(),
            notify_when_full: self.notify_when_full.copy(),
            auto_power_saver: self.auto_power_saver.copy(),
            manage_thresholds: self.manage_thresholds.copy(),
            protection_enabled: self.protection_enabled.copy(),
            protected_start_percent: self.protected_start_percent.copy(),
            protected_end_percent: self.protected_end_percent.copy(),
            devices: self.devices.copy(),
        }
    }
}

impl Clone for BatteryConfig {
    fn clone(&self) -> (copy: Self)
        ensures
            copy.deep_view() == self.deep_view(),
    {
        self.copy()
    }
}

impl BatteryConfigModel {
    /// What a default [`BatteryConfig`] holds.
    pub open spec fn initial() -> BatteryConfigModel {
        BatteryConfigModel {
            warning_percent: 25,
            critical_percent: 12,
            notify_when_full: true,
            auto_power_saver: true,
            manage_thresholds: false,
            protection_enabled: false,
            protected_start_percent: 75,
            protected_end_percent: 80,
            devices: Seq::empty(),
        }
    }
}

impl Default for BatteryConfig {
    fn default() -> (value: BatteryConfig)
        ensures
            value.deep_view() == BatteryConfigModel::initial(),
    {
        let value = BatteryConfig {
            warning_percent: 25,
            critical_percent: 12,
            notify_when_full: true,
            auto_power_saver: true,
            manage_thresholds: false,
            protection_enabled: false,
            protected_start_percent: 75,
            protected_end_percent: 80,
            devices: Vec::new(),
        };
        assert(value.deep_view() =~= BatteryConfigModel::initial());
        value
    }
}

/// The policy for one battery.
#[derive(Debug, PartialEq, Eq)]
pub struct BatteryDeviceEntry {
    pub battery_id: String,
    pub config: BatteryDeviceConfig,
}

/// What a [`BatteryDeviceEntry`] holds.
#[verifier::ext_equal]
pub struct BatteryDeviceEntryModel {
    pub battery_id: Seq<char>,
    pub config: BatteryDeviceConfigModel,
}

impl DeepView for BatteryDeviceEntry {
    type V = BatteryDeviceEntryModel;

    open spec fn deep_view(&self) -> BatteryDeviceEntryModel {
        BatteryDeviceEntryModel {
            battery_id: self.battery_id.deep_view(),
            config: self.config.deep_view(),
        }
    }
}

impl Record for BatteryDeviceEntry {
    fn same(&self, other: &Self) -> (same: bool) {
        self.battery_id.same(&other.battery_id)
            && self.config.same(&other.config)
    }

    fn copy(&self) -> (copy: Self) {
        BatteryDeviceEntry {
            battery_id: self.battery_id.copy(),
            config: self.config.copy(),
        }
    }
}

impl Clone for BatteryDeviceEntry {
    fn clone(&self) -> (copy: Self)
        ensures
            copy.deep_view() == self.deep_view(),
    {
        self.copy()
    }
}

impl BatteryDeviceEntryModel {
    /// What a default [`BatteryDeviceEntry`] holds.
    pub open spec fn initial() -> BatteryDeviceEntryModel {
        BatteryDeviceEntryModel {
            battery_id: Seq::empty(),
            config: BatteryDeviceConfigModel::initial(),
        }
    }
}

impl Default for BatteryDeviceEntry {
    fn default() -> (value: BatteryDeviceEntry)
        ensures
            value.deep_view() == BatteryDeviceEntryModel::initial(),
    {
        let value = BatteryDeviceEntry {
            battery_id: String::new(),
            config: BatteryDeviceConfig::default(),
        };
        assert(value.deep_view() =~= BatteryDeviceEntryModel::initial());
        value
    }
}

/// What is to be done with a battery.
#[derive(Debug, PartialEq, Eq)]
pub struct BatteryDeviceConfig {
    pub manage_thresholds: bool,
    pub protection_enabled: bool,
    pub protected_start_percent: u8,
    pub protected_end_percent: u8,
    pub accepted_reported_start_percent: Option<u8>,
    pub accepted_reported_end_percent: Option<u8>,
}

/// What a [`BatteryDeviceConfig`] holds.
#[verifier::ext_equal]
pub struct BatteryDeviceConfigModel {
    pub manage_thresholds: bool,
    pub protection_enabled: bool,
    pub protected_start_percent: u8,
    pub protected_end_percent: u8,
    pub accepted_reported_start_percent: Option<u8>,
    pub accepted_reported_end_percent: Option<u8>,
}

impl DeepView for BatteryDeviceConfig {
    type V = BatteryDeviceConfigModel;

    open spec fn deep_view(&self) -> BatteryDeviceConfigModel {
        BatteryDeviceConfigModel {
            manage_thresholds: self.manage_thresholds.deep_view(),
            protection_enabled: self.protection_enabled.deep_view(),
            protected_start_percent: self.protected_start_percent.deep_view(),
            protected_end_percent: self.protected_end_percent.deep_view(),
            accepted_reported_start_percent: self.accepted_reported_start_percent.deep_view(),
            accepted_reported_end_percent: self.accepted_reported_end_percent.deep_view(),
        }
    }
}

impl Record for BatteryDeviceConfig {
    fn same(&self, other: &Self) -> (same: bool) {
        self.manage_thresholds.same(&other.manage_thresholds)
            && self.protection_enabled.same(&other.protection_enabled)
            && self.protected_start_percent.same(&other.protected_start_percent)
            && self.protected_end_percent.same(&other.protected_end_percent)
            && self.accepted_reported_start_percent.same(&other.accepted_reported_start_percent)
            && self.accepted_reported_end_percent.same(&other.accepted_reported_end_percent)
    }

    fn copy(&self) -> (copy: Self) {
        BatteryDeviceConfig {
            manage_thresholds: self.manage_thresholds.copy(),
            protection_enabled: self.protection_enabled.copy(),
            protected_start_percent: self.protected_start_percent.copy(),
            protected_end_percent: self.protected_end_percent.copy(),
            accepted_reported_start_percent: self.accepted_reported_start_percent.copy(),
            accepted_reported_end_percent: self.accepted_reported_end_percent.copy(),
        }
    }
}

impl Clone for BatteryDeviceConfig {
    fn clone(&self) -> (copy: Self)
        ensures
            copy.deep_view() == self.deep_view(),
    {
        self.copy()
    }
}

impl BatteryDeviceConfigModel {
    /// What a default [`BatteryDeviceConfig`] holds.
    pub open spec fn initial() -> BatteryDeviceConfigModel {
        BatteryDeviceConfigModel {
            manage_thresholds: false,
            protection_enabled: false,
            protected_start_percent: 75,
            protected_end_percent: 80,
            accepted_reported_start_percent: None,
            accepted_reported_end_percent: None,
        }
    }
}

impl Default for BatteryDeviceConfig {
    fn default() -> (value: BatteryDeviceConfig)
        ensures
            value.deep_view() == BatteryDeviceConfigModel::initial(),
    {
        let value = BatteryDeviceConfig {
            manage_thresholds: false,
            protection_enabled: false,
            protected_start_percent: 75,
            protected_end_percent: 80,
            accepted_reported_start_percent: None,
            accepted_reported_end_percent: None,
        };
        assert(value.deep_view() =~= BatteryDeviceConfigModel::initial());
        value
    }
}

/// What is being done with a battery at the moment. An empty operation is none.
#[derive(Debug, PartialEq, Eq)]
pub struct BatteryRuntimeState {
    pub charge_once_active: bool,
    pub charge_once_battery_id: String,
    pub charge_once_started_unix_ms: u64,
    pub charge_once_expires_unix_ms: u64,
    pub restore_start_percent: Option<u8>,
    pub restore_end_percent: Option<u8>,
    pub operation: String,
    pub operation_battery_id: String,
    pub operation_phase: String,
    pub operation_started_unix_ms: u64,
    pub operation_expires_unix_ms: u64,
    pub operation_restore_start_percent: Option<u8>,
    pub operation_restore_end_percent: Option<u8>,
}

/// What a [`BatteryRuntimeState`] holds.
#[verifier::ext_equal]
pub struct BatteryRuntimeStateModel {
    pub charge_once_active: bool,
    pub charge_once_battery_id: Seq<char>,
    pub charge_once_started_unix_ms: u64,
    pub charge_once_expires_unix_ms: u64,
    pub restore_start_percent: Option<u8>,
    pub restore_end_percent: Option<u8>,
    pub operation: Seq<char>,
    pub operation_battery_id: Seq<char>,
    pub operation_phase: Seq<char>,
    pub operation_started_unix_ms: u64,
    pub operation_expires_unix_ms: u64,
    pub operation_restore_start_percent: Option<u8>,
    pub operation_restore_end_percent: Option<u8>,
}

impl DeepView for BatteryRuntimeState {
    type V = BatteryRuntimeStateModel;

    open spec fn deep_view(&self) -> BatteryRuntimeStateModel {
        BatteryRuntimeStateModel {
            charge_once_active: self.charge_once_active.deep_view(),
            charge_once_battery_id: self.charge_once_battery_id.deep_view(),
            charge_once_started_unix_ms: self.charge_once_started_unix_ms.deep_view(),
            charge_once_expires_unix_ms: self.charge_once_expires_unix_ms.deep_view(),
            restore_start_percent: self.restore_start_percent.deep_view(),
            restore_end_percent: self.restore_end_percent.deep_view(),
            operation: self.operation.deep_view(),
            operation_battery_id: self.operation_battery_id.deep_view(),
            operation_phase: self.operation_phase.deep_view(),
            operation_started_unix_ms: self.operation_started_unix_ms.deep_view(),
            operation_expires_unix_ms: self.operation_expires_unix_ms.deep_view(),
            operation_restore_start_percent: self.operation_restore_start_percent.deep_view(),
            operation_restore_end_percent: self.operation_restore_end_percent.deep_view(),
        }
    }
}

impl Record for BatteryRuntimeState {
    fn same(&self, other: &Self) -> (same: bool) {
        self.charge_once_active.same(&other.charge_once_active)
            && self.charge_once_battery_id.same(&other.charge_once_battery_id)
            && self.charge_once_started_unix_ms.same(&other.charge_once_started_unix_ms)
            && self.charge_once_expires_unix_ms.same(&other.charge_once_expires_unix_ms)
            && self.restore_start_percent.same(&other.restore_start_percent)
            && self.restore_end_percent.same(&other.restore_end_percent)
            && self.operation.same(&other.operation)
            && self.operation_battery_id.same(&other.operation_battery_id)
            && self.operation_phase.same(&other.operation_phase)
            && self.operation_started_unix_ms.same(&other.operation_started_unix_ms)
            && self.operation_expires_unix_ms.same(&other.operation_expires_unix_ms)
            && self.operation_restore_start_percent.same(&other.operation_restore_start_percent)
            && self.operation_restore_end_percent.same(&other.operation_restore_end_percent)
    }

    fn copy(&self) -> (copy: Self) {
        BatteryRuntimeState {
            charge_once_active: self.charge_once_active.copy(),
            charge_once_battery_id: self.charge_once_battery_id.copy(),
            charge_once_started_unix_ms: self.charge_once_started_unix_ms.copy(),
            charge_once_expires_unix_ms: self.charge_once_expires_unix_ms.copy(),
            restore_start_percent: self.restore_start_percent.copy(),
            restore_end_percent: self.restore_end_percent.copy(),
            operation: self.operation.copy(),
            operation_battery_id: self.operation_battery_id.copy(),
            operation_phase: self.operation_phase.copy(),
            operation_started_unix_ms: self.operation_started_unix_ms.copy(),
            operation_expires_unix_ms: self.operation_expires_unix_ms.copy(),
            operation_restore_start_percent: self.operation_restore_start_percent.copy(),
            operation_restore_end_percent: self.operation_restore_end_percent.copy(),
        }
    }
}

impl Clone for BatteryRuntimeState {
    fn clone(&self) -> (copy: Self)
        ensures
            copy.deep_view() == self.deep_view(),
    {
        self.copy()
    }
}

impl BatteryRuntimeStateModel {
    /// What a default [`BatteryRuntimeState`] holds.
    pub open spec fn initial() -> BatteryRuntimeStateModel {
        BatteryRuntimeStateModel {
            charge_once_active: false,
            charge_once_battery_id: Seq::empty(),
            charge_once_started_unix_ms: 0,
            charge_once_expires_unix_ms: 0,
            restore_start_percent: None,
            restore_end_percent: None,
            operation: Seq::empty(),
            operation_battery_id: Seq::empty(),
            operation_phase: Seq::empty(),
            operation_started_unix_ms: 0,
            operation_expires_unix_ms: 0,
            operation_restore_start_percent: None,
            operation_restore_end_percent: None,
        }
    }
}

impl Default for BatteryRuntimeState {
    fn default() -> (value: BatteryRuntimeState)
        ensures
            value.deep_view() == BatteryRuntimeStateModel::initial(),
    {
        let value = BatteryRuntimeState {
            charge_once_active: false,
            charge_once_battery_id: String::new(),
            charge_once_started_unix_ms: 0,
            charge_once_expires_unix_ms: 0,
            restore_start_percent: None,
            restore_end_percent: None,
            operation: String::new(),
            operation_battery_id: String::new(),
            operation_phase: String::new(),
            operation_started_unix_ms: 0,
            operation_expires_unix_ms: 0,
            operation_restore_start_percent: None,
            operation_restore_end_percent: None,
        };
        assert(value.deep_view() =~= BatteryRuntimeStateModel::initial());
        value
    }
}

/// Why a battery policy is refused.
#[derive(Debug, PartialEq, Eq)]
pub enum BatteryConfigError {
    /// Alert percentages are out of order.
    AlertRange,
    /// Charge limits are out of order.
    ProtectionRange,
    /// The id of a battery does not start as it should.
    BatteryIdPrefix(String),
    /// The id of a battery does not go on as it should.
    BatteryIdDigits,
    /// Only one of two accepted limits is given.
    AcceptedRange,
}

/// What a [`BatteryConfigError`] says.
pub enum BatteryConfigErrorModel {
    AlertRange,
    ProtectionRange,
    BatteryIdPrefix(Seq<char>),
    BatteryIdDigits,
    AcceptedRange,
}

impl DeepView for BatteryConfigError {
    type V = BatteryConfigErrorModel;

    open spec fn deep_view(&self) -> BatteryConfigErrorModel {
        match self {
            BatteryConfigError::AlertRange => BatteryConfigErrorModel::AlertRange,
            BatteryConfigError::ProtectionRange => BatteryConfigErrorModel::ProtectionRange,
            BatteryConfigError::BatteryIdPrefix(id) => BatteryConfigErrorModel::BatteryIdPrefix(
                id@,
            ),
            BatteryConfigError::BatteryIdDigits => BatteryConfigErrorModel::BatteryIdDigits,
            BatteryConfigError::AcceptedRange => BatteryConfigErrorModel::AcceptedRange,
        }
    }
}

impl BatteryConfigErrorModel {
    /// The sentence that reports the error.
    pub open spec fn message(self) -> Seq<char> {
        match self {
            BatteryConfigErrorModel::AlertRange =>
                "alert percentages must satisfy 0 <= critical <= warning <= 100"@,
            BatteryConfigErrorModel::ProtectionRange =>
                "protection thresholds must satisfy 0 <= start < end <= 100"@,
            BatteryConfigErrorModel::BatteryIdPrefix(id) => "battery id "@ + id
                + " must start with BAT"@,
            BatteryConfigErrorModel::BatteryIdDigits =>
                "battery id must match BAT followed by digits"@,
            BatteryConfigErrorModel::AcceptedRange =>
                "accepted reported thresholds must both be present or absent"@,
        }
    }
}

impl BatteryConfigError {
    /// The sentence that reports the error.
    pub fn message(&self) -> (message: String)
        ensures
            message@ == self.deep_view().message(),
    {
        match self {
            BatteryConfigError::AlertRange =>
                "alert percentages must satisfy 0 <= critical <= warning <= 100".to_string(),
            BatteryConfigError::ProtectionRange =>
                "protection thresholds must satisfy 0 <= start < end <= 100".to_string(),
            BatteryConfigError::BatteryIdPrefix(id) => joined3(
                "battery id ",
                id.as_str(),
                " must start with BAT",
            ),
            BatteryConfigError::BatteryIdDigits =>
                "battery id must match BAT followed by digits".to_string(),
            BatteryConfigError::AcceptedRange =>
                "accepted reported thresholds must both be present or absent".to_string(),
        }
    }
}

/// Whether charge limits are in order.
pub open spec fn is_range(start: u8, end: u8) -> bool {
    start < end <= 100
}

/// What is wrong with the id of a battery.
pub open spec fn id_error(id: Seq<char>) -> Option<BatteryConfigErrorModel> {
    if !has_prefix(id, "BAT"@) {
        Some(BatteryConfigErrorModel::BatteryIdPrefix(id))
    } else if id.len() == 3 || exists|i: int| 3 <= i < id.len() && !is_digit(#[trigger] id[i]) {
        Some(BatteryConfigErrorModel::BatteryIdDigits)
    } else {
        None
    }
}

/// What is wrong with the policy for one battery.
pub open spec fn device_error(device: BatteryDeviceConfigModel) -> Option<BatteryConfigErrorModel> {
    if !is_range(device.protected_start_percent, device.protected_end_percent) {
        Some(BatteryConfigErrorModel::ProtectionRange)
    } else if device.accepted_reported_start_percent is Some
        != device.accepted_reported_end_percent is Some {
        Some(BatteryConfigErrorModel::AcceptedRange)
    } else {
        None
    }
}

/// What is wrong with the first faulty battery at or behind an index.
pub open spec fn devices_error(devices: Seq<BatteryDeviceEntryModel>, from: int) -> Option<
    BatteryConfigErrorModel,
>
    decreases devices.len() - from,
{
    if from >= devices.len() {
        None
    } else if id_error(devices[from].battery_id) is Some {
        id_error(devices[from].battery_id)
    } else if device_error(devices[from].config) is Some {
        device_error(devices[from].config)
    } else {
        devices_error(devices, from + 1)
    }
}

/// The first thing wrong with a battery policy.
pub open spec fn config_error(config: BatteryConfigModel) -> Option<BatteryConfigErrorModel> {
    if config.critical_percent > config.warning_percent || config.warning_percent > 100 {
        Some(BatteryConfigErrorModel::AlertRange)
    } else if !is_range(config.protected_start_percent, config.protected_end_percent) {
        Some(BatteryConfigErrorModel::ProtectionRange)
    } else {
        devices_error(config.devices, 0)
    }
}

pub(crate) fn check_id(battery_id: &str) -> (error: Option<BatteryConfigError>)
    ensures
        error.deep_view() == id_error(battery_id@),
{
    proof {
        reveal_strlit("BAT");
    }
    if !starts_with(battery_id, "BAT") {
        return Some(BatteryConfigError::BatteryIdPrefix(battery_id.to_string()));
    }
    let chars = chars_of(battery_id);
    assert(chars@.len() >= 3);
    if chars.len() == 3 {
        return Some(BatteryConfigError::BatteryIdDigits);
    }
    let mut i: usize = 3;
    while i < chars.len()
        invariant
            3 <= i <= chars@.len(),
            chars@ == battery_id@,
            has_prefix(battery_id@, "BAT"@),
            forall|k: int| 3 <= k < i ==> is_digit(#[trigger] battery_id@[k]),
        decreases chars@.len() - i,
    {
        let c = chars[i];
        if !('0' <= c && c <= '9') {
            assert(!is_digit(battery_id@[i as int]));
            return Some(BatteryConfigError::BatteryIdDigits);
        }
        i = i + 1;
    }
    None
}

impl BatteryDeviceConfig {
    /// Refuses charge limits that are out of order, and one accepted limit without the other.
    pub fn validate(&self) -> (result: Result<(), BatteryConfigError>)
        ensures
            match result {
                Ok(()) => device_error(self.deep_view()) is None,
                Err(error) => device_error(self.deep_view()) == Some(error.deep_view()),
            },
    {
        if self.protected_start_percent >= self.protected_end_percent
            || self.protected_end_percent > 100 {
            return Err(BatteryConfigError::ProtectionRange);
        }
        if self.accepted_reported_start_percent.is_some()
            != self.accepted_reported_end_percent.is_some() {
            return Err(BatteryConfigError::AcceptedRange);
        }
        Ok(())
    }
}

/// The policy for a battery that is listed.
pub open spec fn listed(devices: Seq<BatteryDeviceEntryModel>, id: Seq<char>) -> Option<
    BatteryDeviceConfigModel,
>
    decreases devices.len(),
{
    if devices.len() == 0 {
        None
    } else if devices[0].battery_id == id {
        Some(devices[0].config)
    } else {
        listed(devices.skip(1), id)
    }
}

/// The settings that all batteries share which are not listed.
pub open spec fn shared_device(config: BatteryConfigModel) -> BatteryDeviceConfigModel {
    BatteryDeviceConfigModel {
        manage_thresholds: config.manage_thresholds,
        protection_enabled: config.protection_enabled,
        protected_start_percent: config.protected_start_percent,
        protected_end_percent: config.protected_end_percent,
        accepted_reported_start_percent: None,
        accepted_reported_end_percent: None,
    }
}

/// The policy for a battery.
pub open spec fn device_of(config: BatteryConfigModel, id: Seq<char>) -> BatteryDeviceConfigModel {
    match listed(config.devices, id) {
        Some(device) => device,
        None => shared_device(config),
    }
}

/// A list of batteries with a policy for one of them: in its place where it is
/// listed, else where its id comes first.
pub open spec fn with_device(
    devices: Seq<BatteryDeviceEntryModel>,
    id: Seq<char>,
    device: BatteryDeviceConfigModel,
) -> Seq<BatteryDeviceEntryModel>
    decreases devices.len(),
{
    let entry = BatteryDeviceEntryModel { battery_id: id, config: device };
    if devices.len() == 0 {
        seq![entry]
    } else if devices[0].battery_id == id {
        seq![entry] + devices.skip(1)
    } else if text_lt(id, devices[0].battery_id) && listed(devices, id) is None {
        seq![entry] + devices
    } else {
        seq![devices[0]] + with_device(devices.skip(1), id, device)
    }
}

/// Whether batteries are listed in ascending order of their ids, none of them twice.
pub open spec fn in_order(devices: Seq<BatteryDeviceEntryModel>) -> bool {
    forall|i: int, j: int|
        0 <= i < j < devices.len() ==> text_lt(
            #[trigger] devices[i].battery_id,
            #[trigger] devices[j].battery_id,
        )
}

impl BatteryConfigModel {
    /// Whether batteries are listed in ascending order of their ids, none of them twice.
    pub open spec fn wf(self) -> bool {
        in_order(self.devices)
    }
}

impl BatteryConfig {
    /// Refuses percentages that are out of order, and faulty batteries.
    pub fn validate(&self) -> (result: Result<(), BatteryConfigError>)
        ensures
            match result {
                Ok(()) => config_error(self.deep_view()) is None,
                Err(error) => config_error(self.deep_view()) == Some(error.deep_view()),
            },
    {
        if self.critical_percent > self.warning_percent || self.warning_percent > 100 {
            return Err(BatteryConfigError::AlertRange);
        }
        if self.protected_start_percent >= self.protected_end_percent
            || self.protected_end_percent > 100 {
            return Err(BatteryConfigError::ProtectionRange);
        }
        let ghost devices = self.devices.deep_view();
        let mut i: usize = 0;
        while i < self.devices.len()
            invariant
                i <= self.devices@.len(),
                devices == self.devices.deep_view(),
                config_error(self.deep_view()) == devices_error(devices, i as int),
            decreases self.devices@.len() - i,
        {
            assert(devices[i as int] == self.devices@[i as int].deep_view());
            if let Some(error) = check_id(self.devices[i].battery_id.as_str()) {
                return Err(error);
            }
            if let Err(error) = self.devices[i].config.validate() {
                return Err(error);
            }
            i = i + 1;
        }
        Ok(())
    }

    fn find_device(&self, battery_id: &str) -> (at: usize)
        ensures
            at <= self.devices@.len(),
            forall|i: int|
                0 <= i < at ==> (#[trigger] self.devices@[i]).battery_id@ != battery_id@,
            at < self.devices@.len() ==> self.devices@[at as int].battery_id@ == battery_id@,
    {
        let mut at: usize = 0;
        while at < self.devices.len()
            invariant
                at <= self.devices@.len(),
                forall|i: int|
                    0 <= i < at ==> (#[trigger] self.devices@[i]).battery_id@ != battery_id@,
            decreases self.devices@.len() - at,
        {
            if same_text(self.devices[at].battery_id.as_str(), battery_id) {
                return at;
            }
            at = at + 1;
        }
        at
    }

    /// The policy for a battery: its own where it is listed, else the shared one.
    pub fn device(&self, battery_id: &str) -> (device: BatteryDeviceConfig)
        ensures
            device.deep_view() == device_of(self.deep_view(), battery_id@),
    {
        let at: usize = self.find_device(battery_id);
        proof {
            let devices = self.devices.deep_view();
            assert forall|i: int| 0 <= i < at implies (#[trigger] devices[i]).battery_id
                != battery_id@ by {
                assert(devices[i] == self.devices@[i].deep_view());
            }
            if at < self.devices@.len() {
                assert(devices[at as int] == self.devices@[at as int].deep_view());
            }
            lemma_listed(devices, battery_id@, at as int);
        }
        if at < self.devices.len() {
            self.devices[at].config.copy()
        } else {
            BatteryDeviceConfig {
                manage_thresholds: self.manage_thresholds,
                protection_enabled: self.protection_enabled,
                protected_start_percent: self.protected_start_percent,
                protected_end_percent: self.protected_end_percent,
                accepted_reported_start_percent: None,
                accepted_reported_end_percent: None,
            }
        }
    }
}

proof fn lemma_listed(devices: Seq<BatteryDeviceEntryModel>, id: Seq<char>, at: int)
    requires
        0 <= at <= devices.len(),
        forall|i: int| 0 <= i < at ==> (#[trigger] devices[i]).battery_id != id,
        at < devices.len() ==> devices[at].battery_id == id,
    ensures
        listed(devices, id) == if at < devices.len() {
            Some(devices[at].config)
        } else {
            None
        },
    decreases devices.len(),
{
    if devices.len() > 0 && at > 0 {
        let rest = devices.skip(1);
        assert forall|i: int| 0 <= i < at - 1 implies (#[trigger] rest[i]).battery_id != id by {
            assert(rest[i] == devices[i + 1]);
        }
        lemma_listed(rest, id, at - 1);
    }
}

/// Where an id that is not listed belongs: in front of the first id behind it.
pub open spec fn device_place(devices: Seq<BatteryDeviceEntryModel>, id: Seq<char>) -> int
    decreases devices.len(),
{
    if devices.len() == 0 || text_lt(id, devices[0].battery_id) {
        0
    } else {
        1 + device_place(devices.skip(1), id)
    }
}

proof fn lemma_with_listed(
    devices: Seq<BatteryDeviceEntryModel>,
    id: Seq<char>,
    device: BatteryDeviceConfigModel,
    at: int,
)
    requires
        0 <= at < devices.len(),
        forall|i: int| 0 <= i < at ==> (#[trigger] devices[i]).battery_id != id,
        devices[at].battery_id == id,
    ensures
        with_device(devices, id, device) == devices.update(
            at,
            BatteryDeviceEntryModel { battery_id: id, config: device },
        ),
    decreases devices.len(),
{
    let entry = BatteryDeviceEntryModel { battery_id: id, config: device };
    lemma_listed(devices, id, at);
    if at > 0 {
        let rest = devices.skip(1);
        assert forall|i: int| 0 <= i < at - 1 implies (#[trigger] rest[i]).battery_id != id by {
            assert(rest[i] == devices[i + 1]);
        }
        lemma_with_listed(rest, id, device, at - 1);
        assert(devices[0].battery_id != id);
        assert(seq![devices[0]] + rest.update(at - 1, entry) =~= devices.update(at, entry));
    } else {
        assert(seq![entry] + devices.skip(1) =~= devices.update(0, entry));
    }
}

proof fn lemma_with_unlisted(
    devices: Seq<BatteryDeviceEntryModel>,
    id: Seq<char>,
    device: BatteryDeviceConfigModel,
)
    requires
        listed(devices, id) is None,
    ensures
        0 <= device_place(devices, id) <= devices.len(),
        with_device(devices, id, device) == devices.insert(
            device_place(devices, id),
            BatteryDeviceEntryModel { battery_id: id, config: device },
        ),
    decreases devices.len(),
{
    let entry = BatteryDeviceEntryModel { battery_id: id, config: device };
    if devices.len() == 0 {
        assert(seq![entry] =~= devices.insert(0, entry));
    } else if text_lt(id, devices[0].battery_id) {
        assert(seq![entry] + devices =~= devices.insert(0, entry));
    } else {
        let rest = devices.skip(1);
        lemma_with_unlisted(rest, id, device);
        let at = device_place(devices, id);
        assert(seq![devices[0]] + rest.insert(at - 1, entry) =~= devices.insert(at, entry));
    }
}

/// Setting the policy for one battery leaves that of all others, whether they
/// have their own or share one.
pub proof fn other_batteries_keep_policy(
    config: BatteryConfigModel,
    id: Seq<char>,
    device: BatteryDeviceConfigModel,
    other: Seq<char>,
)
    ensures
        device_of(
            BatteryConfigModel { devices: with_device(config.devices, id, device), ..config },
            other,
        ) == if other == id {
            device
        } else {
            device_of(config, other)
        },
{
    lemma_other_listed(config.devices, id, device, other);
}

proof fn lemma_other_listed(
    devices: Seq<BatteryDeviceEntryModel>,
    id: Seq<char>,
    device: BatteryDeviceConfigModel,
    other: Seq<char>,
)
    ensures
        listed(with_device(devices, id, device), other) == if other == id {
            Some(device)
        } else {
            listed(devices, other)
        },
    decreases devices.len(),
{
    let entry = BatteryDeviceEntryModel { battery_id: id, config: device };
    let result = with_device(devices, id, device);
    if devices.len() == 0 {
        assert(result.skip(1).len() == 0);
        assert(listed(result.skip(1), other) is None);
    } else if devices[0].battery_id == id {
        assert(result.skip(1) =~= devices.skip(1));
    } else if text_lt(id, devices[0].battery_id) && listed(devices, id) is None {
        assert(result.skip(1) =~= devices);
    } else {
        lemma_other_listed(devices.skip(1), id, device, other);
        assert(result.skip(1) =~= with_device(devices.skip(1), id, device));
    }
}

proof fn lemma_listed_later(devices: Seq<BatteryDeviceEntryModel>, id: Seq<char>)
    requires
        listed(devices, id) is Some,
    ensures
        exists|k: int| 0 <= k < devices.len() && (#[trigger] devices[k]).battery_id == id,
    decreases devices.len(),
{
    if devices[0].battery_id != id {
        let rest = devices.skip(1);
        lemma_listed_later(rest, id);
        let k = choose|k: int| 0 <= k < rest.len() && (#[trigger] rest[k]).battery_id == id;
        assert(devices[k + 1].battery_id == id);
    }
}

proof fn lemma_in_order(
    devices: Seq<BatteryDeviceEntryModel>,
    id: Seq<char>,
    device: BatteryDeviceConfigModel,
)
    requires
        in_order(devices),
    ensures
        in_order(with_device(devices, id, device)),
        forall|k: int|
            0 <= k < with_device(devices, id, device).len() ==> (#[trigger] with_device(
                devices,
                id,
                device,
            )[k]).battery_id == id || exists|m: int|
                0 <= m < devices.len() && (#[trigger] devices[m]).battery_id == with_device(
                    devices,
                    id,
                    device,
                )[k].battery_id,
    decreases devices.len(),
{
    let result = with_device(devices, id, device);
    if devices.len() > 0 {
        let first = devices[0].battery_id;
        let rest = devices.skip(1);
        assert forall|i: int, j: int| 0 <= i < j < rest.len() implies text_lt(
            #[trigger] rest[i].battery_id,
            #[trigger] rest[j].battery_id,
        ) by {
            assert(text_lt(devices[i + 1].battery_id, devices[j + 1].battery_id));
        }
        if first == id {
            assert forall|i: int, j: int| 0 <= i < j < result.len() implies text_lt(
                #[trigger] result[i].battery_id,
                #[trigger] result[j].battery_id,
            ) by {
                assert(text_lt(devices[i].battery_id, devices[j].battery_id));
            }
            assert forall|k: int| 0 <= k < result.len() implies #[trigger] result[k].battery_id
                == devices[k].battery_id by {}
        } else if text_lt(id, first) && listed(devices, id) is None {
            assert forall|i: int, j: int| 0 <= i < j < result.len() implies text_lt(
                #[trigger] result[i].battery_id,
                #[trigger] result[j].battery_id,
            ) by {
                assert(result[j] == devices[j - 1]);
                if i > 0 {
                    assert(result[i] == devices[i - 1]);
                } else if j > 1 {
                    text_lt_transitive(id, first, devices[j - 1].battery_id);
                }
            }
            assert forall|k: int| 0 < k < result.len() implies #[trigger] result[k].battery_id
                == devices[k - 1].battery_id by {}
        } else {
            let behind = with_device(rest, id, device);
            lemma_in_order(rest, id, device);
            text_lt_total(first, id);
            if text_lt(id, first) {
                lemma_listed_later(devices, id);
                let k = choose|k: int|
                    0 <= k < devices.len() && (#[trigger] devices[k]).battery_id == id;
                assert(text_lt(devices[0].battery_id, devices[k].battery_id));
                text_lt_asymmetric(id, first);
            }
            assert forall|k: int| 0 <= k < behind.len() implies text_lt(
                first,
                #[trigger] behind[k].battery_id,
            ) && (behind[k].battery_id == id || exists|m: int|
                0 <= m < devices.len() && (#[trigger] devices[m]).battery_id
                    == behind[k].battery_id) by {
                if behind[k].battery_id != id {
                    let m = choose|m: int|
                        0 <= m < rest.len() && (#[trigger] rest[m]).battery_id
                            == behind[k].battery_id;
                    assert(devices[m + 1] == rest[m]);
                    assert(text_lt(devices[0].battery_id, devices[m + 1].battery_id));
                }
            }
            assert forall|i: int, j: int| 0 <= i < j < result.len() implies text_lt(
                #[trigger] result[i].battery_id,
                #[trigger] result[j].battery_id,
            ) by {
                assert(result[j] == behind[j - 1]);
                if i > 0 {
                    assert(result[i] == behind[i - 1]);
                }
            }
            assert forall|k: int| 0 <= k < result.len() implies (#[trigger] result[k]).battery_id
                == id || exists|m: int|
                0 <= m < devices.len() && (#[trigger] devices[m]).battery_id
                    == result[k].battery_id by {
                if k > 0 {
                    assert(result[k] == behind[k - 1]);
                } else {
                    assert(devices[0].battery_id == result[0].battery_id);
                }
            }
        }
    }
}

/// Batteries stay listed in order, none of them twice: none is at the start, and
/// a policy for one of them finds its place among the others.
pub proof fn listed_batteries_stay_in_order(
    config: BatteryConfigModel,
    id: Seq<char>,
    device: BatteryDeviceConfigModel,
)
    requires
        config.wf(),
    ensures
        BatteryConfigModel::initial().wf(),
        (BatteryConfigModel { devices: with_device(config.devices, id, device), ..config }).wf(),
{
    lemma_in_order(config.devices, id, device);
}

fn config_at(devices: &mut Vec<BatteryDeviceEntry>, at: usize) -> (config: &mut BatteryDeviceConfig)
    requires
        at < old(devices)@.len(),
    ensures
        *config == old(devices)@[at as int].config,
        final(devices)@ == old(devices)@.update(
            at as int,
            BatteryDeviceEntry {
                battery_id: old(devices)@[at as int].battery_id,
                config: *final(config),
            },
        ),
{
    &mut devices[at].config
}

impl BatteryConfig {
    fn place(&self, battery_id: &str) -> (at: usize)
        ensures
            at == device_place(self.devices.deep_view(), battery_id@),
            at <= self.devices@.len(),
    {
        let ghost all = self.devices.deep_view();
        let mut at: usize = 0;
        assert(all.skip(0) =~= all);
        while at < self.devices.len()
            invariant
                at <= self.devices@.len(),
                all == self.devices.deep_view(),
                device_place(all, battery_id@) == at + device_place(
                    all.skip(at as int),
                    battery_id@,
                ),
            decreases self.devices@.len() - at,
        {
            assert(all.skip(at as int)[0] == self.devices@[at as int].deep_view());
            if text_less(battery_id, self.devices[at].battery_id.as_str()) {
                return at;
            }
            assert(all.skip(at as int).skip(1) =~= all.skip(at + 1));
            at = at + 1;
        }
        at
    }

    /// The policy for a battery, to be changed. A battery that is not listed is
    /// from then on, with the settings that it shared.
    pub fn device_mut(&mut self, battery_id: &str) -> (device: &mut BatteryDeviceConfig)
        ensures
            device.deep_view() == device_of(old(self).deep_view(), battery_id@),
            final(self).deep_view() == (BatteryConfigModel {
                devices: with_device(
                    old(self).deep_view().devices,
                    battery_id@,
                    final(device).deep_view(),
                ),
                ..old(self).deep_view()
            }),
            old(self).deep_view().wf() ==> final(self).deep_view().wf(),
    {
        proof {
            let listed_before = self.deep_view().devices;
            assert forall|model: BatteryDeviceConfigModel| in_order(listed_before) implies in_order(
                #[trigger] with_device(listed_before, battery_id@, model),
            ) by {
                lemma_in_order(listed_before, battery_id@, model);
            }
        }
        let inherited = self.device(battery_id);
        let mut at: usize = self.find_device(battery_id);
        let ghost before = self.devices.deep_view();
        proof {
            assert forall|i: int| 0 <= i < at implies (#[trigger] before[i]).battery_id
                != battery_id@ by {
                assert(before[i] == self.devices@[i].deep_view());
            }
            if at < self.devices@.len() {
                assert(before[at as int] == self.devices@[at as int].deep_view());
            }
            lemma_listed(before, battery_id@, at as int);
        }
        let found = at < self.devices.len();
        if !found {
            at = self.place(battery_id);
            self.devices.insert(
                at,
                BatteryDeviceEntry { battery_id: battery_id.to_string(), config: inherited },
            );
        }
        proof {
            assert forall|model: BatteryDeviceConfigModel| #[trigger]
                with_device(before, battery_id@, model) == if found {
                before.update(
                    at as int,
                    BatteryDeviceEntryModel { battery_id: battery_id@, config: model },
                )
            } else {
                before.insert(
                    at as int,
                    BatteryDeviceEntryModel { battery_id: battery_id@, config: model },
                )
            } by {
                if found {
                    lemma_with_listed(before, battery_id@, model, at as int);
                } else {
                    lemma_with_unlisted(before, battery_id@, model);
                }
            }
        }
        config_at(&mut self.devices, at)
    }
}

// Operations

/// A battery that charges past its limit once, from a time on.
pub open spec fn charge_once_from(now: u64, id: Seq<char>, start: u8, end: u8)
    -> BatteryRuntimeStateModel {
    BatteryRuntimeStateModel {
        charge_once_active: true,
        charge_once_battery_id: id,
        charge_once_started_unix_ms: now,
        charge_once_expires_unix_ms: time_sum(now, CHARGE_ONCE_MAX_AGE),
        restore_start_percent: Some(start),
        restore_end_percent: Some(end),
        ..BatteryRuntimeStateModel::initial()
    }
}

/// A battery that does not charge, from a time on.
pub open spec fn inhibit_from(now: u64, id: Seq<char>) -> BatteryRuntimeStateModel {
    BatteryRuntimeStateModel {
        operation: "inhibit"@,
        operation_battery_id: id,
        operation_phase: "paused"@,
        operation_started_unix_ms: now,
        ..BatteryRuntimeStateModel::initial()
    }
}

/// A battery that is calibrated, from a time on.
pub open spec fn calibration_from(now: u64, id: Seq<char>, start: u8, end: u8)
    -> BatteryRuntimeStateModel {
    BatteryRuntimeStateModel {
        operation: "calibration"@,
        operation_battery_id: id,
        operation_phase: "discharging"@,
        operation_started_unix_ms: now,
        operation_expires_unix_ms: time_sum(now, CALIBRATION_MAX_AGE),
        operation_restore_start_percent: Some(start),
        operation_restore_end_percent: Some(end),
        ..BatteryRuntimeStateModel::initial()
    }
}

impl BatteryRuntimeStateModel {
    /// Whether charging past the limit has taken too long.
    pub open spec fn charge_once_over(self, now: u64) -> bool {
        self.charge_once_active && self.charge_once_expires_unix_ms != 0 && now
            >= self.charge_once_expires_unix_ms
    }

    /// Whether the operation has taken too long.
    pub open spec fn operation_over(self, now: u64) -> bool {
        self.operation.len() > 0 && self.operation_expires_unix_ms != 0 && now
            >= self.operation_expires_unix_ms
    }

    /// The state without an operation.
    pub open spec fn without_operation(self) -> BatteryRuntimeStateModel {
        BatteryRuntimeStateModel {
            operation: Seq::empty(),
            operation_battery_id: Seq::empty(),
            operation_phase: Seq::empty(),
            operation_started_unix_ms: 0,
            operation_expires_unix_ms: 0,
            operation_restore_start_percent: None,
            operation_restore_end_percent: None,
            ..self
        }
    }

    /// Whether a battery charges past its limit or an operation is under way.
    pub open spec fn is_busy(self) -> bool {
        self.charge_once_active || self.operation.len() > 0
    }
}

impl BatteryRuntimeState {
    /// Lets a battery charge past its limit once. The limits are put back later.
    pub fn start_charge_once(
        now_unix_ms: u64,
        battery_id: String,
        restore_start_percent: u8,
        restore_end_percent: u8,
    ) -> (state: Self)
        ensures
            state.deep_view() == charge_once_from(
                now_unix_ms,
                battery_id@,
                restore_start_percent,
                restore_end_percent,
            ),
    {
        BatteryRuntimeState {
            charge_once_active: true,
            charge_once_battery_id: battery_id,
            charge_once_started_unix_ms: now_unix_ms,
            charge_once_expires_unix_ms: now_unix_ms.saturating_add(CHARGE_ONCE_MAX_AGE),
            restore_start_percent: Some(restore_start_percent),
            restore_end_percent: Some(restore_end_percent),
            ..BatteryRuntimeState::default()
        }
    }

    /// Whether charging past the limit has taken too long.
    pub fn is_expired(&self, now_unix_ms: u64) -> (expired: bool)
        ensures
            expired == self.deep_view().charge_once_over(now_unix_ms),
    {
        self.charge_once_active && self.charge_once_expires_unix_ms != 0 && now_unix_ms
            >= self.charge_once_expires_unix_ms
    }

    /// Keeps a battery from charging.
    pub fn start_inhibit(now_unix_ms: u64, battery_id: String) -> (state: Self)
        ensures
            state.deep_view() == inhibit_from(now_unix_ms, battery_id@),
    {
        BatteryRuntimeState {
            operation: "inhibit".to_string(),
            operation_battery_id: battery_id,
            operation_phase: "paused".to_string(),
            operation_started_unix_ms: now_unix_ms,
            ..BatteryRuntimeState::default()
        }
    }

    /// Calibrates a battery. The limits are put back later.
    pub fn start_calibration(
        now_unix_ms: u64,
        battery_id: String,
        restore_start_percent: u8,
        restore_end_percent: u8,
    ) -> (state: Self)
        ensures
            state.deep_view() == calibration_from(
                now_unix_ms,
                battery_id@,
                restore_start_percent,
                restore_end_percent,
            ),
    {
        BatteryRuntimeState {
            operation: "calibration".to_string(),
            operation_battery_id: battery_id,
            operation_phase: "discharging".to_string(),
            operation_started_unix_ms: now_unix_ms,
            operation_expires_unix_ms: now_unix_ms.saturating_add(CALIBRATION_MAX_AGE),
            operation_restore_start_percent: Some(restore_start_percent),
            operation_restore_end_percent: Some(restore_end_percent),
            ..BatteryRuntimeState::default()
        }
    }

    /// Whether the operation has taken too long.
    pub fn operation_expired(&self, now_unix_ms: u64) -> (expired: bool)
        ensures
            expired == self.deep_view().operation_over(now_unix_ms),
    {
        !is_empty(self.operation.as_str()) && self.operation_expires_unix_ms != 0 && now_unix_ms
            >= self.operation_expires_unix_ms
    }

    /// Forgets the operation.
    pub fn clear_operation(&mut self)
        ensures
            final(self).deep_view() == old(self).deep_view().without_operation(),
    {
        self.operation = String::new();
        self.operation_battery_id = String::new();
        self.operation_phase = String::new();
        self.operation_started_unix_ms = 0;
        self.operation_expires_unix_ms = 0;
        self.operation_restore_start_percent = None;
        self.operation_restore_end_percent = None;
        assert(self.deep_view() =~= old(self).deep_view().without_operation());
    }

    /// Whether a battery charges past its limit or an operation is under way.
    pub fn has_durable_operation(&self) -> (busy: bool)
        ensures
            busy == self.deep_view().is_busy(),
    {
        self.charge_once_active || !is_empty(self.operation.as_str())
    }
}

/// Charging past the limit lasts until a day has passed, and no longer.
pub proof fn charge_once_lasts_a_day(started: u64, id: Seq<char>, start: u8, end: u8, now: u64)
    requires
        started <= u64::MAX - CHARGE_ONCE_MAX_AGE,
    ensures
        charge_once_from(started, id, start, end).charge_once_over(now) <==> now >= started
            + CHARGE_ONCE_MAX_AGE,
{
}

/// A calibration lasts until two days have passed, and no longer.
pub proof fn calibration_lasts_two_days(started: u64, id: Seq<char>, start: u8, end: u8, now: u64)
    requires
        started <= u64::MAX - CALIBRATION_MAX_AGE,
    ensures
        calibration_from(started, id, start, end).operation_over(now) <==> now >= started
            + CALIBRATION_MAX_AGE,
{
    reveal_strlit("calibration");
}

// Laws

/// Settings are accepted if and only if the percentages of the alerts are in order
/// and within 100, the protected ranges are ranges within 100, every battery
/// has an id of `BAT` and digits, and accepted limits come in pairs.
pub proof fn sound_settings_are_accepted(config: BatteryConfigModel)
    ensures
        config_error(config) is None <==> {
            &&& config.critical_percent <= config.warning_percent <= 100
            &&& config.protected_start_percent < config.protected_end_percent <= 100
            &&& forall|i: int|
                0 <= i < config.devices.len() ==> {
                    let entry = #[trigger] config.devices[i];
                    &&& is_battery_id(entry.battery_id)
                    &&& entry.config.protected_start_percent < entry.config.protected_end_percent
                        <= 100
                    &&& entry.config.accepted_reported_start_percent is Some
                        == entry.config.accepted_reported_end_percent is Some
                }
        },
        config.critical_percent > config.warning_percent ==> config_error(config) == Some(
            BatteryConfigErrorModel::AlertRange,
        ),
{
    lemma_devices_sound(config.devices, 0);
}

/// Whether a text is `BAT` and digits, one at least.
pub open spec fn is_battery_id(id: Seq<char>) -> bool {
    &&& id.len() > 3
    &&& id[0] == 'B' && id[1] == 'A' && id[2] == 'T'
    &&& forall|i: int| 3 <= i < id.len() ==> '0' <= (#[trigger] id[i]) && id[i] <= '9'
}

/// An id of a battery is accepted if and only if it is `BAT` and digits, one at
/// least.
pub proof fn battery_ids_are_numbered(id: Seq<char>)
    ensures
        id_error(id) is None <==> is_battery_id(id),
{
    reveal_strlit("BAT");
    let prefix = "BAT"@;
    assert(prefix.len() == 3 && prefix[0] == 'B' && prefix[1] == 'A' && prefix[2] == 'T');
    if has_prefix(id, prefix) {
        assert(id.take(3)[0] == prefix[0] && id.take(3)[1] == prefix[1] && id.take(3)[2]
            == prefix[2]);
    }
    if is_battery_id(id) {
        assert(id.take(3) =~= prefix);
        assert forall|i: int| 3 <= i < id.len() implies is_digit(#[trigger] id[i]) by {}
    }
    if id_error(id) is None {
        assert forall|i: int| 3 <= i < id.len() implies '0' <= (#[trigger] id[i]) && id[i]
            <= '9' by {
            assert(is_digit(id[i]));
        }
    }
}

proof fn lemma_devices_sound(devices: Seq<BatteryDeviceEntryModel>, from: int)
    requires
        0 <= from,
    ensures
        devices_error(devices, from) is None <==> forall|i: int|
            from <= i < devices.len() ==> {
                let entry = #[trigger] devices[i];
                &&& is_battery_id(entry.battery_id)
                &&& entry.config.protected_start_percent < entry.config.protected_end_percent
                    <= 100
                &&& entry.config.accepted_reported_start_percent is Some
                    == entry.config.accepted_reported_end_percent is Some
            },
    decreases devices.len() - from,
{
    if from < devices.len() {
        battery_ids_are_numbered(devices[from].battery_id);
        lemma_devices_sound(devices, from + 1);
    }
}

/// The settings for a battery are those of the first entry with its id; where
/// there is none, those shared by all.
pub proof fn settings_are_those_of_the_battery(config: BatteryConfigModel, id: Seq<char>, at: int)
    requires
        0 <= at <= config.devices.len(),
        forall|i: int| 0 <= i < at ==> (#[trigger] config.devices[i]).battery_id != id,
        at < config.devices.len() ==> config.devices[at].battery_id == id,
    ensures
        at < config.devices.len() ==> device_of(config, id) == config.devices[at].config,
        at == config.devices.len() ==> {
            let device = device_of(config, id);
            &&& device.manage_thresholds == config.manage_thresholds
            &&& device.protection_enabled == config.protection_enabled
            &&& device.protected_start_percent == config.protected_start_percent
            &&& device.protected_end_percent == config.protected_end_percent
            &&& device.accepted_reported_start_percent is None
            &&& device.accepted_reported_end_percent is None
        },
{
    lemma_listed_first(config.devices, id, at);
}

proof fn lemma_listed_first(devices: Seq<BatteryDeviceEntryModel>, id: Seq<char>, at: int)
    requires
        0 <= at <= devices.len(),
        forall|i: int| 0 <= i < at ==> (#[trigger] devices[i]).battery_id != id,
        at < devices.len() ==> devices[at].battery_id == id,
    ensures
        at < devices.len() ==> listed(devices, id) == Some(devices[at].config),
        at == devices.len() ==> listed(devices, id) is None,
    decreases devices.len(),
{
    if at > 0 {
        assert(devices[0].battery_id != id);
        let rest = devices.skip(1);
        assert forall|i: int| 0 <= i < at - 1 implies (#[trigger] rest[i]).battery_id != id by {
            assert(rest[i] == devices[i + 1]);
        }
        if at < devices.len() {
            assert(rest[at - 1] == devices[at]);
        }
        lemma_listed_first(rest, id, at - 1);
    }
}

/// What an operation records when it begins: the battery it is on, since when, the
/// limits to put back, and nothing of any other operation.
pub proof fn operations_record_what_they_need(now: u64, id: Seq<char>, start: u8, end: u8)
    requires
        now <= u64::MAX - 172_800_000,
    ensures
        ({
            let once = charge_once_from(now, id, start, end);
            let inhibit = inhibit_from(now, id);
            let calibration = calibration_from(now, id, start, end);
            &&& once.charge_once_active && once.charge_once_battery_id == id
                && once.charge_once_started_unix_ms == now && once.charge_once_expires_unix_ms
                == now + 24 * 60 * 60 * 1000
            &&& once.restore_start_percent == Some(start) && once.restore_end_percent == Some(end)
            &&& once.operation.len() == 0
            &&& inhibit.operation == "inhibit"@ && inhibit.operation_battery_id == id
                && inhibit.operation_phase == "paused"@ && inhibit.operation_started_unix_ms == now
            &&& inhibit.operation_expires_unix_ms == 0 && !inhibit.charge_once_active
            &&& calibration.operation == "calibration"@ && calibration.operation_battery_id == id
                && calibration.operation_phase == "discharging"@
                && calibration.operation_started_unix_ms == now
                && calibration.operation_expires_unix_ms == now + 48 * 60 * 60 * 1000
            &&& calibration.operation_restore_start_percent == Some(start)
                && calibration.operation_restore_end_percent == Some(end)
                && !calibration.charge_once_active
            &&& once.is_busy() && inhibit.is_busy() && calibration.is_busy()
        }),
{
    reveal_strlit("inhibit");
    reveal_strlit("calibration");
}

/// An operation is over once its end has come, where it has one; without it the
/// rest of what is recorded stays, and nothing is under way but a charge past
/// the limit.
pub proof fn operations_end_when_due(runtime: BatteryRuntimeStateModel, now: u64)
    ensures
        runtime.operation_over(now) <==> runtime.operation.len() > 0
            && runtime.operation_expires_unix_ms != 0 && runtime.operation_expires_unix_ms <= now,
        runtime.charge_once_over(now) <==> runtime.charge_once_active
            && runtime.charge_once_expires_unix_ms != 0 && runtime.charge_once_expires_unix_ms
            <= now,
        ({
            let after = runtime.without_operation();
            &&& after.operation.len() == 0 && after.operation_battery_id.len() == 0
                && after.operation_phase.len() == 0
            &&& after.operation_started_unix_ms == 0 && after.operation_expires_unix_ms == 0
            &&& after.operation_restore_start_percent is None
                && after.operation_restore_end_percent is None
            &&& after.charge_once_active == runtime.charge_once_active
                && after.charge_once_battery_id == runtime.charge_once_battery_id
                && after.charge_once_expires_unix_ms == runtime.charge_once_expires_unix_ms
            &&& after.restore_start_percent == runtime.restore_start_percent
                && after.restore_end_percent == runtime.restore_end_percent
            &&& after.is_busy() <==> runtime.charge_once_active
            &&& !after.operation_over(now)
        }),
{
}

/// What is wrong with settings is told.
pub proof fn battery_errors_say_what_is_wrong(id: Seq<char>)
    ensures
        BatteryConfigErrorModel::AlertRange.message()
            == "alert percentages must satisfy 0 <= critical <= warning <= 100"@,
        BatteryConfigErrorModel::ProtectionRange.message()
            == "protection thresholds must satisfy 0 <= start < end <= 100"@,
        BatteryConfigErrorModel::BatteryIdPrefix(id).message() == "battery id "@ + id
            + " must start with BAT"@,
        BatteryConfigErrorModel::BatteryIdDigits.message()
            == "battery id must match BAT followed by digits"@,
        BatteryConfigErrorModel::AcceptedRange.message()
            == "accepted reported thresholds must both be present or absent"@,
{
}

} // verus!
