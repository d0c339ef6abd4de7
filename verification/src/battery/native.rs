//! All batteries of the machine, and what they add up to.

use vstd::prelude::*;

use crate::battery::helper::{
    choices_of, is_battery_type, parse_choices, parse_percent, percent_in,
};
use crate::battery::sysfs::{
    capacity_of, estimate_seconds, health_of, health_percent, lemma_nearest, number_in, power_of, raw_status,
    read_capacity, read_cycle_count, read_power, read_status, read_u64, seconds_for, BatteryFiles,
    BatteryFilesModel, CRITICAL_PERCENT, WARNING_PERCENT,
};
use crate::model::{
    BatteryDeviceState, BatteryDeviceStateModel, BatteryProtectionState,
    BatteryProtectionStateModel, BatteryState, BatteryStateModel,
};
use crate::record::Record;
use crate::text::{
    chars_of, equals_ignoring_case, lowercase, replace_chars, replaced, same_ignoring_case,
    text_of, to_lowercase, trim, trimmed,
};

verus! {

/// One battery as the kernel shows it.
#[derive(Debug, PartialEq, Eq)]
pub struct NativeBattery {
    pub identity: BatteryIdentity,
    pub telemetry: BatteryTelemetry,
    pub protection: NativeProtection,
}

/// What a [`NativeBattery`] holds.
#[verifier::ext_equal]
pub struct NativeBatteryModel {
    pub identity: BatteryIdentityModel,
    pub telemetry: BatteryTelemetryModel,
    pub protection: NativeProtectionModel,
}

impl DeepView for NativeBattery {
    type V = NativeBatteryModel;

    open spec fn deep_view(&self) -> NativeBatteryModel {
        NativeBatteryModel {
            identity: self.identity.deep_view(),
            telemetry: self.telemetry.deep_view(),
            protection: self.protection.deep_view(),
        }
    }
}

impl Record for NativeBattery {
    fn same(&self, other: &Self) -> (same: bool) {
        self.identity.same(&other.identity)
            && self.telemetry.same(&other.telemetry)
            && self.protection.same(&other.protection)
    }

    fn copy(&self) -> (copy: Self) {
        NativeBattery {
            identity: self.identity.copy(),
            telemetry: self.telemetry.copy(),
            protection: self.protection.copy(),
        }
    }
}

impl Clone for NativeBattery {
    fn clone(&self) -> (copy: Self)
        ensures
            copy.deep_view() == self.deep_view(),
    {
        self.copy()
    }
}

impl NativeBatteryModel {
    /// What a default [`NativeBattery`] holds.
    pub open spec fn initial() -> NativeBatteryModel {
        NativeBatteryModel {
            identity: BatteryIdentityModel::initial(),
            telemetry: BatteryTelemetryModel::initial(),
            protection: NativeProtectionModel::initial(),
        }
    }
}

impl Default for NativeBattery {
    fn default() -> (value: NativeBattery)
        ensures
            value.deep_view() == NativeBatteryModel::initial(),
    {
        let value = NativeBattery {
            identity: BatteryIdentity::default(),
            telemetry: BatteryTelemetry::default(),
            protection: NativeProtection::default(),
        };
        assert(value.deep_view() =~= NativeBatteryModel::initial());
        value
    }
}

/// Which battery it is.
#[derive(Debug, PartialEq, Eq)]
pub struct BatteryIdentity {
    pub id: String,
    pub vendor: String,
    pub model: String,
    pub serial: String,
}

/// What a [`BatteryIdentity`] holds.
#[verifier::ext_equal]
pub struct BatteryIdentityModel {
    pub id: Seq<char>,
    pub vendor: Seq<char>,
    pub model: Seq<char>,
    pub serial: Seq<char>,
}

impl DeepView for BatteryIdentity {
    type V = BatteryIdentityModel;

    open spec fn deep_view(&self) -> BatteryIdentityModel {
        BatteryIdentityModel {
            id: self.id.deep_view(),
            vendor: self.vendor.deep_view(),
            model: self.model.deep_view(),
            serial: self.serial.deep_view(),
        }
    }
}

impl Record for BatteryIdentity {
    fn same(&self, other: &Self) -> (same: bool) {
        self.id.same(&other.id)
            && self.vendor.same(&other.vendor)
            && self.model.same(&other.model)
            && self.serial.same(&other.serial)
    }

    fn copy(&self) -> (copy: Self) {
        BatteryIdentity {
            id: self.id.copy(),
            vendor: self.vendor.copy(),
            model: self.model.copy(),
            serial: self.serial.copy(),
        }
    }
}

impl Clone for BatteryIdentity {
    fn clone(&self) -> (copy: Self)
        ensures
            copy.deep_view() == self.deep_view(),
    {
        self.copy()
    }
}

impl BatteryIdentityModel {
    /// What a default [`BatteryIdentity`] holds.
    pub open spec fn initial() -> BatteryIdentityModel {
        BatteryIdentityModel {
            id: Seq::empty(),
            vendor: Seq::empty(),
            model: Seq::empty(),
            serial: Seq::empty(),
        }
    }
}

impl Default for BatteryIdentity {
    fn default() -> (value: BatteryIdentity)
        ensures
            value.deep_view() == BatteryIdentityModel::initial(),
    {
        let value = BatteryIdentity {
            id: String::new(),
            vendor: String::new(),
            model: String::new(),
            serial: String::new(),
        };
        assert(value.deep_view() =~= BatteryIdentityModel::initial());
        value
    }
}

/// What the battery measures.
#[derive(Debug, PartialEq, Eq)]
pub struct BatteryTelemetry {
    pub present: bool,
    pub status: String,
    pub percentage: u8,
    pub energy_now_uwh: Option<u64>,
    pub energy_full_uwh: Option<u64>,
    pub energy_full_design_uwh: Option<u64>,
    pub power_uw: u64,
    pub voltage_uv: Option<u64>,
    pub cycles: Option<u32>,
}

/// What a [`BatteryTelemetry`] holds.
#[verifier::ext_equal]
pub struct BatteryTelemetryModel {
    pub present: bool,
    pub status: Seq<char>,
    pub percentage: u8,
    pub energy_now_uwh: Option<u64>,
    pub energy_full_uwh: Option<u64>,
    pub energy_full_design_uwh: Option<u64>,
    pub power_uw: u64,
    pub voltage_uv: Option<u64>,
    pub cycles: Option<u32>,
}

impl DeepView for BatteryTelemetry {
    type V = BatteryTelemetryModel;

    open spec fn deep_view(&self) -> BatteryTelemetryModel {
        BatteryTelemetryModel {
            present: self.present.deep_view(),
            status: self.status.deep_view(),
            percentage: self.percentage.deep_view(),
            energy_now_uwh: self.energy_now_uwh.deep_view(),
            energy_full_uwh: self.energy_full_uwh.deep_view(),
            energy_full_design_uwh: self.energy_full_design_uwh.deep_view(),
            power_uw: self.power_uw.deep_view(),
            voltage_uv: self.voltage_uv.deep_view(),
            cycles: self.cycles.deep_view(),
        }
    }
}

impl Record for BatteryTelemetry {
    fn same(&self, other: &Self) -> (same: bool) {
        self.present.same(&other.present)
            && self.status.same(&other.status)
            && self.percentage.same(&other.percentage)
            && self.energy_now_uwh.same(&other.energy_now_uwh)
            && self.energy_full_uwh.same(&other.energy_full_uwh)
            && self.energy_full_design_uwh.same(&other.energy_full_design_uwh)
            && self.power_uw.same(&other.power_uw)
            && self.voltage_uv.same(&other.voltage_uv)
            && self.cycles.same(&other.cycles)
    }

    fn copy(&self) -> (copy: Self) {
        BatteryTelemetry {
            present: self.present.copy(),
            status: self.status.copy(),
            percentage: self.percentage.copy(),
            energy_now_uwh: self.energy_now_uwh.copy(),
            energy_full_uwh: self.energy_full_uwh.copy(),
            energy_full_design_uwh: self.energy_full_design_uwh.copy(),
            power_uw: self.power_uw.copy(),
            voltage_uv: self.voltage_uv.copy(),
            cycles: self.cycles.copy(),
        }
    }
}

impl Clone for BatteryTelemetry {
    fn clone(&self) -> (copy: Self)
        ensures
            copy.deep_view() == self.deep_view(),
    {
        self.copy()
    }
}

impl BatteryTelemetryModel {
    /// What a default [`BatteryTelemetry`] holds.
    pub open spec fn initial() -> BatteryTelemetryModel {
        BatteryTelemetryModel {
            present: false,
            status: Seq::empty(),
            percentage: 0,
            energy_now_uwh: None,
            energy_full_uwh: None,
            energy_full_design_uwh: None,
            power_uw: 0,
            voltage_uv: None,
            cycles: None,
        }
    }
}

impl Default for BatteryTelemetry {
    fn default() -> (value: BatteryTelemetry)
        ensures
            value.deep_view() == BatteryTelemetryModel::initial(),
    {
        let value = BatteryTelemetry {
            present: false,
            status: String::new(),
            percentage: 0,
            energy_now_uwh: None,
            energy_full_uwh: None,
            energy_full_design_uwh: None,
            power_uw: 0,
            voltage_uv: None,
            cycles: None,
        };
        assert(value.deep_view() =~= BatteryTelemetryModel::initial());
        value
    }
}

/// The limits and behaviours that the battery offers.
#[derive(Debug, PartialEq, Eq)]
pub struct NativeProtection {
    pub start_threshold: Option<u8>,
    pub end_threshold: Option<u8>,
    pub charge_behaviour: Option<String>,
    pub available_behaviours: Vec<String>,
}

/// What a [`NativeProtection`] holds.
#[verifier::ext_equal]
pub struct NativeProtectionModel {
    pub start_threshold: Option<u8>,
    pub end_threshold: Option<u8>,
    pub charge_behaviour: Option<Seq<char>>,
    pub available_behaviours: Seq<Seq<char>>,
}

impl DeepView for NativeProtection {
    type V = NativeProtectionModel;

    open spec fn deep_view(&self) -> NativeProtectionModel {
        NativeProtectionModel {
            start_threshold: self.start_threshold.deep_view(),
            end_threshold: self.end_threshold.deep_view(),
            charge_behaviour: self.charge_behaviour.deep_view(),
            available_behaviours: self.available_behaviours.deep_view(),
        }
    }
}

impl Record for NativeProtection {
    fn same(&self, other: &Self) -> (same: bool) {
        self.start_threshold.same(&other.start_threshold)
            && self.end_threshold.same(&other.end_threshold)
            && self.charge_behaviour.same(&other.charge_behaviour)
            && self.available_behaviours.same(&other.available_behaviours)
    }

    fn copy(&self) -> (copy: Self) {
        NativeProtection {
            start_threshold: self.start_threshold.copy(),
            end_threshold: self.end_threshold.copy(),
            charge_behaviour: self.charge_behaviour.copy(),
            available_behaviours: self.available_behaviours.copy(),
        }
    }
}

impl Clone for NativeProtection {
    fn clone(&self) -> (copy: Self)
        ensures
            copy.deep_view() == self.deep_view(),
    {
        self.copy()
    }
}

impl NativeProtectionModel {
    /// What a default [`NativeProtection`] holds.
    pub open spec fn initial() -> NativeProtectionModel {
        NativeProtectionModel {
            start_threshold: None,
            end_threshold: None,
            charge_behaviour: None,
            available_behaviours: Seq::empty(),
        }
    }
}

impl Default for NativeProtection {
    fn default() -> (value: NativeProtection)
        ensures
            value.deep_view() == NativeProtectionModel::initial(),
    {
        let value = NativeProtection {
            start_threshold: None,
            end_threshold: None,
            charge_behaviour: None,
            available_behaviours: Vec::new(),
        };
        assert(value.deep_view() =~= NativeProtectionModel::initial());
        value
    }
}

/// All batteries, and whether there is external power.
#[derive(Debug, PartialEq, Eq)]
pub struct NativeSnapshot {
    pub batteries: Vec<NativeBattery>,
    pub plugged: bool,
}

/// What a [`NativeSnapshot`] holds.
#[verifier::ext_equal]
pub struct NativeSnapshotModel {
    pub batteries: Seq<NativeBatteryModel>,
    pub plugged: bool,
}

impl DeepView for NativeSnapshot {
    type V = NativeSnapshotModel;

    open spec fn deep_view(&self) -> NativeSnapshotModel {
        NativeSnapshotModel {
            batteries: self.batteries.deep_view(),
            plugged: self.plugged.deep_view(),
        }
    }
}

impl Record for NativeSnapshot {
    fn same(&self, other: &Self) -> (same: bool) {
        self.batteries.same(&other.batteries)
            && self.plugged.same(&other.plugged)
    }

    fn copy(&self) -> (copy: Self) {
        NativeSnapshot {
            batteries: self.batteries.copy(),
            plugged: self.plugged.copy(),
        }
    }
}

impl Clone for NativeSnapshot {
    fn clone(&self) -> (copy: Self)
        ensures
            copy.deep_view() == self.deep_view(),
    {
        self.copy()
    }
}

impl NativeSnapshotModel {
    /// What a default [`NativeSnapshot`] holds.
    pub open spec fn initial() -> NativeSnapshotModel {
        NativeSnapshotModel {
            batteries: Seq::empty(),
            plugged: false,
        }
    }
}

impl Default for NativeSnapshot {
    fn default() -> (value: NativeSnapshot)
        ensures
            value.deep_view() == NativeSnapshotModel::initial(),
    {
        let value = NativeSnapshot {
            batteries: Vec::new(),
            plugged: false,
        };
        assert(value.deep_view() =~= NativeSnapshotModel::initial());
        value
    }
}

impl NativeBattery {
    /// Whether the battery charges.
    pub fn charging(&self) -> (charging: bool)
        ensures
            charging == self.deep_view().is_charging(),
    {
        equals_ignoring_case(self.telemetry.status.as_str(), "charging")
    }

    /// Whether the battery discharges.
    pub fn discharging(&self) -> (discharging: bool)
        ensures
            discharging == self.deep_view().is_discharging(),
    {
        equals_ignoring_case(self.telemetry.status.as_str(), "discharging")
    }

    /// Whether the battery is full.
    pub fn fully_charged(&self) -> (full: bool)
        ensures
            full == same_ignoring_case(self.telemetry.status@, "full"@),
    {
        equals_ignoring_case(self.telemetry.status.as_str(), "full")
    }
}

impl NativeBatteryModel {
    /// Whether the battery charges.
    pub open spec fn is_charging(self) -> bool {
        same_ignoring_case(self.telemetry.status, "charging"@)
    }

    /// Whether the battery discharges.
    pub open spec fn is_discharging(self) -> bool {
        same_ignoring_case(self.telemetry.status, "discharging"@)
    }

    /// Whether the battery tells both how much energy it holds and how much it can.
    pub open spec fn tells_energy(self) -> bool {
        self.telemetry.energy_now_uwh is Some && self.telemetry.energy_full_uwh is Some
    }
}

/// Batteries that are there.
pub open spec fn present(batteries: Seq<NativeBatteryModel>) -> Seq<NativeBatteryModel> {
    batteries.filter(|battery: NativeBatteryModel| battery.telemetry.present)
}

/// Sums over batteries. Energies are those of batteries that tell both.
pub struct Totals {
    pub energy_now: nat,
    pub energy_full: nat,
    pub percentages: nat,
    pub power: nat,
    pub charging: bool,
    pub discharging: bool,
}

/// What batteries add up to.
pub open spec fn totals(batteries: Seq<NativeBatteryModel>) -> Totals
    decreases batteries.len(),
{
    if batteries.len() == 0 {
        Totals {
            energy_now: 0,
            energy_full: 0,
            percentages: 0,
            power: 0,
            charging: false,
            discharging: false,
        }
    } else {
        let rest = totals(batteries.drop_last());
        let battery = batteries.last();
        Totals {
            energy_now: if battery.tells_energy() {
                rest.energy_now + battery.telemetry.energy_now_uwh->0 as nat
            } else {
                rest.energy_now
            },
            energy_full: if battery.tells_energy() {
                rest.energy_full + battery.telemetry.energy_full_uwh->0 as nat
            } else {
                rest.energy_full
            },
            percentages: rest.percentages + battery.telemetry.percentage as nat,
            power: rest.power + battery.telemetry.power_uw as nat,
            charging: rest.charging || battery.is_charging(),
            discharging: rest.discharging || battery.is_discharging(),
        }
    }
}

/// A share of a whole in percent, rounded, and at most all of it.
pub open spec fn share(part: nat, whole: nat) -> u8 {
    let percent = (part * 100 + whole / 2) / whole;
    if percent > 100 {
        100
    } else {
        percent as u8
    }
}

/// The charge of batteries together: that of their energy, or the mean of their
/// charges where none of them tells its energy.
pub open spec fn charge_of(sums: Totals, count: nat) -> u8 {
    if sums.energy_full > 0 {
        share(sums.energy_now, sums.energy_full)
    } else if count > 0 {
        share(sums.percentages, count * 100)
    } else {
        0
    }
}

/// The greatest number of 64 bits where a number is greater.
pub open spec fn bounded(number: nat) -> u64 {
    if number > u64::MAX {
        u64::MAX
    } else {
        number as u64
    }
}

fn bound(number: u128) -> (result: u64)
    ensures
        result == bounded(number as nat),
{
    if number > u64::MAX as u128 {
        u64::MAX
    } else {
        number as u64
    }
}

fn percent_of(part: u128, whole: u128) -> (percent: u8)
    requires
        whole > 0,
        part <= 0xffff_ffff_ffff_ffff_ffff_ffff,
        whole <= 0xffff_ffff_ffff_ffff_ffff_ffff,
    ensures
        percent == share(part as nat, whole as nat),
{
    let percent: u128 = (part * 100 + whole / 2) / whole;
    if percent > 100 {
        100
    } else {
        percent as u8
    }
}

/// The limits and behaviours of a battery, as they are shown.
pub open spec fn shown_protection(protection: NativeProtectionModel) -> BatteryProtectionStateModel {
    let supports_start = protection.start_threshold is Some;
    let supports_end = protection.end_threshold is Some;
    let supported = supports_start && supports_end;
    BatteryProtectionStateModel {
        supported,
        backend: if supported {
            "thinkpad-sysfs"@
        } else {
            Seq::empty()
        },
        enabled: (protection.start_threshold matches Some(start) && start > 0) || (
        protection.end_threshold matches Some(end) && end < 100),
        start_percent: protection.start_threshold,
        end_percent: protection.end_threshold,
        supports_start,
        supports_end,
        supports_charge_behaviour: protection.available_behaviours.len() > 0,
        charge_behaviour: protection.charge_behaviour,
        available_behaviours: protection.available_behaviours,
        ..BatteryProtectionStateModel::initial()
    }
}

fn protection_to_show(protection: &NativeProtection) -> (state: BatteryProtectionState)
    ensures
        state.deep_view() == shown_protection(protection.deep_view()),
{
    let supports_start = protection.start_threshold.is_some();
    let supports_end = protection.end_threshold.is_some();
    let supported = supports_start && supports_end;
    let above = match protection.start_threshold {
        Some(start) => start > 0,
        None => false,
    };
    let below = match protection.end_threshold {
        Some(end) => end < 100,
        None => false,
    };
    assert(protection.available_behaviours.deep_view().len()
        == protection.available_behaviours@.len());
    let state = BatteryProtectionState {
        supported,
        backend: if supported {
            "thinkpad-sysfs".to_string()
        } else {
            String::new()
        },
        enabled: above || below,
        start_percent: protection.start_threshold,
        end_percent: protection.end_threshold,
        supports_start,
        supports_end,
        supports_charge_behaviour: protection.available_behaviours.len() > 0,
        charge_behaviour: protection.charge_behaviour.copy(),
        available_behaviours: protection.available_behaviours.copy(),
        ..BatteryProtectionState::default()
    };
    assert(state.deep_view() =~= shown_protection(protection.deep_view()));
    state
}

/// A number of 64 bits as a number without bounds.
pub open spec fn plain(number: Option<u64>) -> Option<nat> {
    match number {
        Some(number) => Some(number as nat),
        None => None,
    }
}

/// A battery as it is shown.
pub open spec fn shown_device(battery: NativeBatteryModel) -> BatteryDeviceStateModel {
    BatteryDeviceStateModel {
        id: battery.identity.id,
        vendor: battery.identity.vendor,
        model: battery.identity.model,
        serial: battery.identity.serial,
        present: battery.telemetry.present,
        percentage: battery.telemetry.percentage,
        state: replaced(lowercase(battery.telemetry.status), ' ', '-'),
        power_uw: battery.telemetry.power_uw,
        energy_now_uwh: battery.telemetry.energy_now_uwh,
        energy_full_uwh: battery.telemetry.energy_full_uwh,
        energy_full_design_uwh: battery.telemetry.energy_full_design_uwh,
        voltage_uv: battery.telemetry.voltage_uv,
        health_percent: health_of(
            plain(battery.telemetry.energy_full_uwh),
            plain(battery.telemetry.energy_full_design_uwh),
        ),
        cycles: battery.telemetry.cycles,
        protection: shown_protection(battery.protection),
    }
}

fn device_to_show(battery: &NativeBattery) -> (device: BatteryDeviceState)
    ensures
        device.deep_view() == shown_device(battery.deep_view()),
{
    let telemetry = &battery.telemetry;
    let lower = to_lowercase(telemetry.status.as_str());
    let device = BatteryDeviceState {
        id: battery.identity.id.clone(),
        vendor: battery.identity.vendor.clone(),
        model: battery.identity.model.clone(),
        serial: battery.identity.serial.clone(),
        present: telemetry.present,
        percentage: telemetry.percentage,
        state: text_of(&replace_chars(&chars_of(lower.as_str()), ' ', '-')),
        power_uw: telemetry.power_uw,
        energy_now_uwh: telemetry.energy_now_uwh,
        energy_full_uwh: telemetry.energy_full_uwh,
        energy_full_design_uwh: telemetry.energy_full_design_uwh,
        voltage_uv: telemetry.voltage_uv,
        health_percent: health_percent(
            telemetry.energy_full_uwh,
            telemetry.energy_full_design_uwh,
        ),
        cycles: telemetry.cycles,
        protection: protection_to_show(&battery.protection),
    };
    assert(device.deep_view() =~= shown_device(battery.deep_view()));
    device
}

/// The batteries that are there as they are shown.
pub open spec fn shown_devices(batteries: Seq<NativeBatteryModel>) -> Seq<
    BatteryDeviceStateModel,
> {
    present(batteries).map_values(|battery: NativeBatteryModel| shown_device(battery))
}

/// The state of all batteries together. There is none without a battery. What
/// only one battery can tell is told of the first.
pub open spec fn state_of(snapshot: NativeSnapshotModel) -> Option<BatteryStateModel> {
    let batteries = present(snapshot.batteries);
    if batteries.len() == 0 {
        None
    } else {
        let sums = totals(batteries);
        let first = shown_device(batteries[0]);
        let charge = charge_of(sums, batteries.len());
        let missing = if sums.energy_full > sums.energy_now {
            (sums.energy_full - sums.energy_now) as nat
        } else {
            0
        };
        Some(
            BatteryStateModel {
                available: true,
                native_path: first.id,
                percentage: charge,
                state: if sums.charging {
                    "charging"@
                } else if sums.discharging {
                    "discharging"@
                } else {
                    first.state
                },
                charging: sums.charging,
                plugged: snapshot.plugged,
                power_uw: bounded(sums.power),
                time_to_empty_seconds: if sums.discharging && !sums.charging {
                    seconds_for(
                        bounded(sums.energy_now) as nat,
                        bounded(sums.power) as nat,
                    ) as u64
                } else {
                    0
                },
                time_to_full_seconds: if sums.charging {
                    seconds_for(bounded(missing) as nat, bounded(sums.power) as nat) as u64
                } else {
                    0
                },
                health_percent: first.health_percent,
                cycles: first.cycles,
                warning: !snapshot.plugged && charge <= WARNING_PERCENT,
                critical: !snapshot.plugged && charge <= CRITICAL_PERCENT,
                protection: first.protection,
                devices: shown_devices(snapshot.batteries),
                ..BatteryStateModel::initial()
            },
        )
    }
}

proof fn lemma_totals_bound(batteries: Seq<NativeBatteryModel>)
    ensures
        totals(batteries).energy_now <= batteries.len() * u64::MAX,
        totals(batteries).energy_full <= batteries.len() * u64::MAX,
        totals(batteries).power <= batteries.len() * u64::MAX,
        totals(batteries).percentages <= batteries.len() * u8::MAX,
    decreases batteries.len(),
{
    if batteries.len() > 0 {
        lemma_totals_bound(batteries.drop_last());
    }
}

/// Sums over batteries.
struct Sums {
    energy_now: u128,
    energy_full: u128,
    percentages: u128,
    power: u128,
    charging: bool,
    discharging: bool,
}

spec fn sums_of(sums: Sums) -> Totals {
    Totals {
        energy_now: sums.energy_now as nat,
        energy_full: sums.energy_full as nat,
        percentages: sums.percentages as nat,
        power: sums.power as nat,
        charging: sums.charging,
        discharging: sums.discharging,
    }
}

fn add_up(batteries: &Vec<NativeBattery>) -> (sums: Sums)
    requires
        batteries@.len() <= u32::MAX,
    ensures
        sums_of(sums) == totals(batteries.deep_view()),
{
    let ghost all = batteries.deep_view();
    let mut sums = Sums {
        energy_now: 0,
        energy_full: 0,
        percentages: 0,
        power: 0,
        charging: false,
        discharging: false,
    };
    let mut i: usize = 0;
    assert(all.take(0) =~= Seq::<NativeBatteryModel>::empty());
    while i < batteries.len()
        invariant
            i <= batteries@.len() <= u32::MAX,
            all == batteries.deep_view(),
            sums_of(sums) == totals(all.take(i as int)),
        decreases batteries@.len() - i,
    {
        proof {
            assert(all.take(i + 1).drop_last() =~= all.take(i as int));
            assert(all.take(i + 1).last() == batteries@[i as int].deep_view());
            lemma_totals_bound(all.take(i as int));
        }
        let telemetry = &batteries[i].telemetry;
        if let (Some(now), Some(full)) = (telemetry.energy_now_uwh, telemetry.energy_full_uwh) {
            sums.energy_now = sums.energy_now + now as u128;
            sums.energy_full = sums.energy_full + full as u128;
        }
        sums.percentages = sums.percentages + telemetry.percentage as u128;
        sums.power = sums.power + telemetry.power_uw as u128;
        sums.charging = sums.charging || batteries[i].charging();
        sums.discharging = sums.discharging || batteries[i].discharging();
        i = i + 1;
    }
    assert(all.take(i as int) =~= all);
    sums
}

fn present_batteries(batteries: &Vec<NativeBattery>) -> (result: Vec<NativeBattery>)
    ensures
        result.deep_view() == present(batteries.deep_view()),
        result@.len() <= batteries@.len(),
{
    let ghost all = batteries.deep_view();
    let ghost wanted = |battery: NativeBatteryModel| battery.telemetry.present;
    let mut result: Vec<NativeBattery> = Vec::new();
    let mut i: usize = 0;
    proof {
        reveal(Seq::filter);
        assert(result.deep_view() =~= all.take(0).filter(wanted));
    }
    while i < batteries.len()
        invariant
            i <= batteries@.len(),
            result@.len() <= i,
            all == batteries.deep_view(),
            wanted == (|battery: NativeBatteryModel| battery.telemetry.present),
            result.deep_view() == all.take(i as int).filter(wanted),
        decreases batteries@.len() - i,
    {
        reveal(Seq::filter);
        assert(all.take(i + 1).drop_last() =~= all.take(i as int));
        assert(all.take(i + 1).last() == batteries@[i as int].deep_view());
        let ghost before = result.deep_view();
        if batteries[i].telemetry.present {
            result.push(batteries[i].copy());
            assert(result.deep_view() =~= before.push(all[i as int]));
        }
        i = i + 1;
    }
    assert(all.take(i as int) =~= all);
    result
}

fn devices_to_show(batteries: &Vec<NativeBattery>) -> (devices: Vec<BatteryDeviceState>)
    ensures
        devices.deep_view() == batteries.deep_view().map_values(
            |battery: NativeBatteryModel| shown_device(battery),
        ),
{
    let mut devices: Vec<BatteryDeviceState> = Vec::new();
    let mut i: usize = 0;
    while i < batteries.len()
        invariant
            i <= batteries@.len(),
            devices@.len() == i,
            forall|k: int|
                0 <= k < i ==> (#[trigger] devices@[k]).deep_view() == shown_device(
                    batteries@[k].deep_view(),
                ),
        decreases batteries@.len() - i,
    {
        devices.push(device_to_show(&batteries[i]));
        i = i + 1;
    }
    assert(devices.deep_view() =~= batteries.deep_view().map_values(
        |battery: NativeBatteryModel| shown_device(battery),
    ));
    devices
}

fn combined_charge(sums: &Sums, count: usize) -> (percent: u8)
    requires
        0 < count <= u32::MAX,
        sums.energy_now <= u32::MAX * u64::MAX,
        sums.energy_full <= u32::MAX * u64::MAX,
        sums.percentages <= u32::MAX * u64::MAX,
    ensures
        percent == charge_of(sums_of(*sums), count as nat),
{
    if sums.energy_full > 0 {
        percent_of(sums.energy_now, sums.energy_full)
    } else {
        percent_of(sums.percentages, count as u128 * 100)
    }
}

/// The state of all batteries together. There is none without a battery.
pub fn battery_state(snapshot: &NativeSnapshot) -> (state: Option<BatteryState>)
    requires
        snapshot.batteries@.len() <= u32::MAX,
    ensures
        state.deep_view() == state_of(snapshot.deep_view()),
{
    let batteries = present_batteries(&snapshot.batteries);
    assert(batteries.deep_view().len() == batteries@.len());
    if batteries.len() == 0 {
        return None;
    }
    let sums = add_up(&batteries);
    proof {
        lemma_totals_bound(batteries.deep_view());
        assert(batteries@.len() * u64::MAX <= u32::MAX * u64::MAX) by (nonlinear_arith)
            requires
                batteries@.len() <= u32::MAX,
        ;
        assert(batteries@.len() * u8::MAX <= u32::MAX * u64::MAX) by (nonlinear_arith)
            requires
                batteries@.len() <= u32::MAX,
        ;
        assert(batteries.deep_view()[0] == batteries@[0].deep_view());
    }
    let charge: u8 = combined_charge(&sums, batteries.len());
    let power: u64 = bound(sums.power);
    let missing: u128 = if sums.energy_full > sums.energy_now {
        sums.energy_full - sums.energy_now
    } else {
        0
    };
    let time_to_empty_seconds: u64 = if sums.discharging && !sums.charging {
        estimate_seconds(bound(sums.energy_now), power)
    } else {
        0
    };
    let time_to_full_seconds: u64 = if sums.charging {
        estimate_seconds(bound(missing), power)
    } else {
        0
    };
    let first = device_to_show(&batteries[0]);
    let state = BatteryState {
        available: true,
        native_path: first.id,
        percentage: charge,
        state: if sums.charging {
            "charging".to_string()
        } else if sums.discharging {
            "discharging".to_string()
        } else {
            first.state
        },
        charging: sums.charging,
        plugged: snapshot.plugged,
        power_uw: power,
        time_to_empty_seconds,
        time_to_full_seconds,
        health_percent: first.health_percent,
        cycles: first.cycles,
        warning: !snapshot.plugged && charge <= WARNING_PERCENT,
        critical: !snapshot.plugged && charge <= CRITICAL_PERCENT,
        protection: first.protection,
        devices: devices_to_show(&batteries),
        ..BatteryState::default()
    };
    assert(Some(state.deep_view()) =~= state_of(snapshot.deep_view()));
    Some(state)
}

/// While one battery tells its energy, batteries that do not have no say in the
/// charge of all together.
pub proof fn charge_goes_by_energy(
    batteries: Seq<NativeBatteryModel>,
    other: NativeBatteryModel,
)
    requires
        totals(batteries).energy_full > 0,
        !other.tells_energy(),
    ensures
        charge_of(totals(batteries.push(other)), batteries.len() + 1) == charge_of(
            totals(batteries),
            batteries.len(),
        ),
{
    assert(batteries.push(other).drop_last() =~= batteries);
}

// Reading

/// The contents of all attributes of a battery, where they can be read.
#[derive(Debug, PartialEq, Eq)]
pub struct NativeFiles {
    pub measures: BatteryFiles,
    pub present: Option<String>,
    pub manufacturer: Option<String>,
    pub model_name: Option<String>,
    pub serial_number: Option<String>,
    pub start_threshold: Option<String>,
    pub end_threshold: Option<String>,
    pub charge_behaviour: Option<String>,
}

/// What a [`NativeFiles`] holds.
#[verifier::ext_equal]
pub struct NativeFilesModel {
    pub measures: BatteryFilesModel,
    pub present: Option<Seq<char>>,
    pub manufacturer: Option<Seq<char>>,
    pub model_name: Option<Seq<char>>,
    pub serial_number: Option<Seq<char>>,
    pub start_threshold: Option<Seq<char>>,
    pub end_threshold: Option<Seq<char>>,
    pub charge_behaviour: Option<Seq<char>>,
}

impl DeepView for NativeFiles {
    type V = NativeFilesModel;

    open spec fn deep_view(&self) -> NativeFilesModel {
        NativeFilesModel {
            measures: self.measures.deep_view(),
            present: self.present.deep_view(),
            manufacturer: self.manufacturer.deep_view(),
            model_name: self.model_name.deep_view(),
            serial_number: self.serial_number.deep_view(),
            start_threshold: self.start_threshold.deep_view(),
            end_threshold: self.end_threshold.deep_view(),
            charge_behaviour: self.charge_behaviour.deep_view(),
        }
    }
}

impl Record for NativeFiles {
    fn same(&self, other: &Self) -> (same: bool) {
        self.measures.same(&other.measures)
            && self.present.same(&other.present)
            && self.manufacturer.same(&other.manufacturer)
            && self.model_name.same(&other.model_name)
            && self.serial_number.same(&other.serial_number)
            && self.start_threshold.same(&other.start_threshold)
            && self.end_threshold.same(&other.end_threshold)
            && self.charge_behaviour.same(&other.charge_behaviour)
    }

    fn copy(&self) -> (copy: Self) {
        NativeFiles {
            measures: self.measures.copy(),
            present: self.present.copy(),
            manufacturer: self.manufacturer.copy(),
            model_name: self.model_name.copy(),
            serial_number: self.serial_number.copy(),
            start_threshold: self.start_threshold.copy(),
            end_threshold: self.end_threshold.copy(),
            charge_behaviour: self.charge_behaviour.copy(),
        }
    }
}

impl Clone for NativeFiles {
    fn clone(&self) -> (copy: Self)
        ensures
            copy.deep_view() == self.deep_view(),
    {
        self.copy()
    }
}

impl NativeFilesModel {
    /// What a default [`NativeFiles`] holds.
    pub open spec fn initial() -> NativeFilesModel {
        NativeFilesModel {
            measures: BatteryFilesModel::initial(),
            present: None,
            manufacturer: None,
            model_name: None,
            serial_number: None,
            start_threshold: None,
            end_threshold: None,
            charge_behaviour: None,
        }
    }
}

impl Default for NativeFiles {
    fn default() -> (value: NativeFiles)
        ensures
            value.deep_view() == NativeFilesModel::initial(),
    {
        let value = NativeFiles {
            measures: BatteryFiles::default(),
            present: None,
            manufacturer: None,
            model_name: None,
            serial_number: None,
            start_threshold: None,
            end_threshold: None,
            charge_behaviour: None,
        };
        assert(value.deep_view() =~= NativeFilesModel::initial());
        value
    }
}

/// The contents of the attributes of a power supply, where they can be read.
#[derive(Debug, PartialEq, Eq)]
pub struct SupplyFiles {
    pub id: String,
    pub supply_type: Option<String>,
    pub online: Option<String>,
    pub battery: NativeFiles,
}

/// What a [`SupplyFiles`] holds.
#[verifier::ext_equal]
pub struct SupplyFilesModel {
    pub id: Seq<char>,
    pub supply_type: Option<Seq<char>>,
    pub online: Option<Seq<char>>,
    pub battery: NativeFilesModel,
}

impl DeepView for SupplyFiles {
    type V = SupplyFilesModel;

    open spec fn deep_view(&self) -> SupplyFilesModel {
        SupplyFilesModel {
            id: self.id.deep_view(),
            supply_type: self.supply_type.deep_view(),
            online: self.online.deep_view(),
            battery: self.battery.deep_view(),
        }
    }
}

impl Record for SupplyFiles {
    fn same(&self, other: &Self) -> (same: bool) {
        self.id.same(&other.id)
            && self.supply_type.same(&other.supply_type)
            && self.online.same(&other.online)
            && self.battery.same(&other.battery)
    }

    fn copy(&self) -> (copy: Self) {
        SupplyFiles {
            id: self.id.copy(),
            supply_type: self.supply_type.copy(),
            online: self.online.copy(),
            battery: self.battery.copy(),
        }
    }
}

impl Clone for SupplyFiles {
    fn clone(&self) -> (copy: Self)
        ensures
            copy.deep_view() == self.deep_view(),
    {
        self.copy()
    }
}

impl SupplyFilesModel {
    /// What a default [`SupplyFiles`] holds.
    pub open spec fn initial() -> SupplyFilesModel {
        SupplyFilesModel {
            id: Seq::empty(),
            supply_type: None,
            online: None,
            battery: NativeFilesModel::initial(),
        }
    }
}

impl Default for SupplyFiles {
    fn default() -> (value: SupplyFiles)
        ensures
            value.deep_view() == SupplyFilesModel::initial(),
    {
        let value = SupplyFiles {
            id: String::new(),
            supply_type: None,
            online: None,
            battery: NativeFiles::default(),
        };
        assert(value.deep_view() =~= SupplyFilesModel::initial());
        value
    }
}

/// The text that an attribute holds, where there is any.
pub open spec fn text_in(contents: Option<Seq<char>>) -> Seq<char> {
    match contents {
        Some(contents) => trimmed(contents),
        None => Seq::empty(),
    }
}

/// The number of 64 bits that an attribute holds.
pub open spec fn u64_in(contents: Option<Seq<char>>) -> Option<u64> {
    match number_in(contents, u64::MAX as nat) {
        Some(number) => Some(number as u64),
        None => None,
    }
}

/// The number of 32 bits that an attribute holds.
pub open spec fn u32_in(contents: Option<Seq<char>>) -> Option<u32> {
    match number_in(contents, u32::MAX as nat) {
        Some(number) => Some(number as u32),
        None => None,
    }
}

/// The percentage that an attribute holds, where it holds one.
pub open spec fn limit_in(contents: Option<Seq<char>>) -> Option<u8> {
    match contents {
        Some(contents) => match percent_in(contents) {
            Ok(percent) => Some(percent),
            Err(_) => None,
        },
        None => None,
    }
}

/// The selected charge behaviour and all that a battery offers.
pub open spec fn behaviours_in(contents: Option<Seq<char>>) -> (Option<Seq<char>>, Seq<Seq<char>>) {
    match contents {
        Some(contents) => match choices_of(contents) {
            Some((selected, offered)) => (Some(selected), offered),
            None => (None, Seq::empty()),
        },
        None => (None, Seq::empty()),
    }
}

/// The battery that its attributes show. It is there unless they say that it is not.
pub open spec fn battery_in(id: Seq<char>, files: NativeFilesModel) -> NativeBatteryModel {
    NativeBatteryModel {
        identity: BatteryIdentityModel {
            id,
            vendor: text_in(files.manufacturer),
            model: text_in(files.model_name),
            serial: text_in(files.serial_number),
        },
        telemetry: BatteryTelemetryModel {
            present: u64_in(files.present) != Some(0u64),
            status: raw_status(files.measures),
            percentage: capacity_of(files.measures),
            energy_now_uwh: u64_in(files.measures.energy_now),
            energy_full_uwh: u64_in(files.measures.energy_full),
            energy_full_design_uwh: u64_in(files.measures.energy_full_design),
            power_uw: power_of(files.measures) as u64,
            voltage_uv: u64_in(files.measures.voltage_now),
            cycles: u32_in(files.measures.cycle_count),
        },
        protection: NativeProtectionModel {
            start_threshold: limit_in(files.start_threshold),
            end_threshold: limit_in(files.end_threshold),
            charge_behaviour: behaviours_in(files.charge_behaviour).0,
            available_behaviours: behaviours_in(files.charge_behaviour).1,
        },
    }
}

fn read_words(contents: &Option<String>) -> (text: String)
    ensures
        text@ == text_in(contents.deep_view()),
{
    match contents {
        Some(contents) => trim(contents.as_str()),
        None => String::new(),
    }
}

fn read_limit(contents: &Option<String>) -> (limit: Option<u8>)
    ensures
        limit == limit_in(contents.deep_view()),
{
    match contents {
        Some(contents) => match parse_percent(contents.as_str()) {
            Ok(percent) => Some(percent),
            Err(_) => None,
        },
        None => None,
    }
}

fn read_behaviours(contents: &Option<String>) -> (behaviours: (Option<String>, Vec<String>))
    ensures
        (behaviours.0.deep_view(), behaviours.1.deep_view()) == behaviours_in(
            contents.deep_view(),
        ),
{
    let none: Vec<String> = Vec::new();
    assert(none.deep_view() =~= Seq::empty());
    match contents {
        Some(contents) => match parse_choices(contents.as_str()) {
            Some((selected, offered)) => (Some(selected), offered),
            None => (None, none),
        },
        None => (None, none),
    }
}

/// The battery that its attributes show.
pub fn read_native(id: &str, files: &NativeFiles) -> (battery: NativeBattery)
    ensures
        battery.deep_view() == battery_in(id@, files.deep_view()),
{
    let measures = &files.measures;
    let present = match read_u64(&files.present) {
        Some(number) => number != 0,
        None => true,
    };
    let (charge_behaviour, available_behaviours) = read_behaviours(&files.charge_behaviour);
    NativeBattery {
        identity: BatteryIdentity {
            id: id.to_string(),
            vendor: read_words(&files.manufacturer),
            model: read_words(&files.model_name),
            serial: read_words(&files.serial_number),
        },
        telemetry: BatteryTelemetry {
            present,
            status: read_status(measures),
            percentage: read_capacity(measures),
            energy_now_uwh: read_u64(&measures.energy_now),
            energy_full_uwh: read_u64(&measures.energy_full),
            energy_full_design_uwh: read_u64(&measures.energy_full_design),
            power_uw: read_power(measures),
            voltage_uv: read_u64(&measures.voltage_now),
            cycles: read_cycle_count(&measures.cycle_count),
        },
        protection: NativeProtection {
            start_threshold: read_limit(&files.start_threshold),
            end_threshold: read_limit(&files.end_threshold),
            charge_behaviour,
            available_behaviours,
        },
    }
}

/// Whether a power supply says that it is a battery.
pub open spec fn is_battery(supply: SupplyFilesModel) -> bool {
    supply.supply_type matches Some(kind) && trimmed(kind) == "Battery"@
}

/// Whether a power supply says that it is something else, and gives power.
pub open spec fn gives_power(supply: SupplyFilesModel) -> bool {
    supply.supply_type is Some && !is_battery(supply) && u64_in(supply.online) == Some(1u64)
}

/// Whether there is external power: a power supply that is no battery is online.
pub open spec fn external_power(supplies: Seq<SupplyFilesModel>) -> bool {
    exists|i: int| 0 <= i < supplies.len() && gives_power(#[trigger] supplies[i])
}

/// Whether there is external power.
pub fn has_external_power(supplies: &Vec<SupplyFiles>) -> (plugged: bool)
    ensures
        plugged == external_power(supplies.deep_view()),
{
    let ghost all = supplies.deep_view();
    let mut i: usize = 0;
    while i < supplies.len()
        invariant
            i <= supplies@.len(),
            all == supplies.deep_view(),
            forall|k: int| 0 <= k < i ==> !gives_power(#[trigger] all[k]),
        decreases supplies@.len() - i,
    {
        let supply = &supplies[i];
        assert(all[i as int] == supply.deep_view());
        if let Some(kind) = &supply.supply_type {
            if !is_battery_type(kind.as_str()) {
                if let Some(online) = read_u64(&supply.online) {
                    if online == 1 {
                        assert(gives_power(all[i as int]));
                        return true;
                    }
                }
            }
        }
        i = i + 1;
    }
    false
}

/// The batteries among power supplies, in the order of these.
pub open spec fn batteries_in(supplies: Seq<SupplyFilesModel>) -> Seq<NativeBatteryModel>
    decreases supplies.len(),
{
    if supplies.len() == 0 {
        Seq::empty()
    } else {
        let before = batteries_in(supplies.drop_last());
        if is_battery(supplies.last()) {
            before.push(battery_in(supplies.last().id, supplies.last().battery))
        } else {
            before
        }
    }
}

/// What the power supplies of the machine show.
pub open spec fn snapshot_in(supplies: Seq<SupplyFilesModel>) -> NativeSnapshotModel {
    NativeSnapshotModel {
        batteries: batteries_in(supplies),
        plugged: external_power(supplies),
    }
}

/// What the power supplies of the machine show.
pub fn read_snapshot(supplies: &Vec<SupplyFiles>) -> (snapshot: NativeSnapshot)
    ensures
        snapshot.deep_view() == snapshot_in(supplies.deep_view()),
{
    let ghost all = supplies.deep_view();
    let mut batteries: Vec<NativeBattery> = Vec::new();
    let mut i: usize = 0;
    assert(batteries.deep_view() =~= batteries_in(all.take(0)));
    while i < supplies.len()
        invariant
            i <= supplies@.len(),
            all == supplies.deep_view(),
            batteries.deep_view() == batteries_in(all.take(i as int)),
        decreases supplies@.len() - i,
    {
        let supply = &supplies[i];
        let ghost before = batteries.deep_view();
        proof {
            assert(all.take(i + 1).drop_last() =~= all.take(i as int));
            assert(all[i as int] == supply.deep_view());
        }
        if let Some(kind) = &supply.supply_type {
            if is_battery_type(kind.as_str()) {
                batteries.push(read_native(supply.id.as_str(), &supply.battery));
                assert(batteries.deep_view() =~= before.push(
                    battery_in(all[i as int].id, all[i as int].battery),
                ));
            }
        }
        i = i + 1;
    }
    assert(all.take(i as int) =~= all);
    NativeSnapshot { batteries, plugged: has_external_power(supplies) }
}

// Laws

/// A battery more adds its power and its percentage to the sums, and its energy
/// where it tells both what it holds and what it can hold; it charges the whole
/// where it charges, and discharges it where it discharges.
pub proof fn sums_count_each_battery(
    batteries: Seq<NativeBatteryModel>,
    battery: NativeBatteryModel,
)
    ensures
        ({
            let before = totals(batteries);
            let after = totals(batteries.push(battery));
            let told = battery.telemetry;
            let both = told.energy_now_uwh is Some && told.energy_full_uwh is Some;
            &&& totals(Seq::empty()).power == 0 && totals(Seq::empty()).energy_full == 0
            &&& after.power == before.power + told.power_uw
            &&& after.percentages == before.percentages + told.percentage
            &&& both ==> after.energy_now == before.energy_now + told.energy_now_uwh->0
            &&& both ==> after.energy_full == before.energy_full + told.energy_full_uwh->0
            &&& !both ==> after.energy_now == before.energy_now && after.energy_full
                == before.energy_full
            &&& after.charging <==> before.charging || same_ignoring_case(
                told.status,
                "charging"@,
            )
            &&& after.discharging <==> before.discharging || same_ignoring_case(
                told.status,
                "discharging"@,
            )
        }),
{
    assert(batteries.push(battery).drop_last() =~= batteries);
}

/// The charge of all batteries is the nearest whole percentage of the energy that
/// they can hold; where no energy is told, of what they all could show.
pub proof fn charge_is_nearest_percentage(sums: Totals, count: nat)
    requires
        sums.energy_now <= sums.energy_full,
        sums.percentages <= count * 100,
    ensures
        charge_of(sums, count) <= 100,
        sums.energy_full > 0 ==> {
            let charge = charge_of(sums, count) as nat;
            &&& 2 * (charge * sums.energy_full) <= 2 * (sums.energy_now * 100) + sums.energy_full
            &&& 2 * (sums.energy_now * 100) <= 2 * (charge * sums.energy_full) + sums.energy_full
        },
        sums.energy_full == 0 && count > 0 ==> {
            let charge = charge_of(sums, count) as nat;
            &&& 2 * (charge * (count * 100)) <= 2 * (sums.percentages * 100) + count * 100
            &&& 2 * (sums.percentages * 100) <= 2 * (charge * (count * 100)) + count * 100
        },
        sums.energy_full == 0 && count == 0 ==> charge_of(sums, count) == 0,
{
    if sums.energy_full > 0 {
        lemma_nearest(sums.energy_now, sums.energy_full);
    } else if count > 0 {
        lemma_nearest(sums.percentages, count * 100);
    }
}

/// What is shown of all batteries: it is that of those present, there being none
/// where none is. They charge where one charges; how long they last is told while
/// one discharges and none charges, how long they take while one charges; and
/// they are low at 25 percent and critical at 12, without external power.
pub proof fn batteries_show_as_one(snapshot: NativeSnapshotModel)
    ensures
        ({
            let there = present(snapshot.batteries);
            let sums = totals(there);
            &&& state_of(snapshot) is None <==> there.len() == 0
            &&& state_of(snapshot) matches Some(state) ==> {
                &&& state.available
                &&& state.plugged == snapshot.plugged
                &&& state.native_path == there[0].identity.id
                &&& state.percentage == charge_of(sums, there.len())
                &&& state.charging == sums.charging
                &&& sums.charging ==> state.state == "charging"@
                &&& !sums.charging && sums.discharging ==> state.state == "discharging"@
                &&& sums.power <= u64::MAX ==> state.power_uw == sums.power
                &&& sums.charging || !sums.discharging ==> state.time_to_empty_seconds == 0
                &&& !sums.charging ==> state.time_to_full_seconds == 0
                &&& !sums.charging && sums.discharging && sums.power <= u64::MAX && sums.energy_now
                    <= u64::MAX ==> state.time_to_empty_seconds == seconds_for(
                    sums.energy_now,
                    sums.power,
                ) as u64
                &&& sums.charging && sums.power <= u64::MAX && sums.energy_now <= sums.energy_full
                    <= u64::MAX ==> state.time_to_full_seconds == seconds_for(
                    (sums.energy_full - sums.energy_now) as nat,
                    sums.power,
                ) as u64
                &&& state.warning <==> !snapshot.plugged && state.percentage <= 25
                &&& state.critical <==> !snapshot.plugged && state.percentage <= 12
                &&& state.devices.len() == there.len()
                &&& state.protection == state.devices[0].protection
                &&& state.health_percent == state.devices[0].health_percent
                &&& state.cycles == there[0].telemetry.cycles
            }
        }),
{
}

/// Each battery that is present is shown with what it told of itself.
pub proof fn each_battery_is_shown(snapshot: NativeSnapshotModel, i: int)
    requires
        0 <= i < present(snapshot.batteries).len(),
    ensures
        ({
            let battery = present(snapshot.batteries)[i];
            let told = battery.telemetry;
            let limits = battery.protection;
            let device = shown_devices(snapshot.batteries)[i];
            &&& told.present && snapshot.batteries.contains(battery)
            &&& device.id == battery.identity.id && device.vendor == battery.identity.vendor
                && device.model == battery.identity.model && device.serial
                == battery.identity.serial
            &&& device.present && device.percentage == told.percentage && device.power_uw
                == told.power_uw
            &&& device.energy_now_uwh == told.energy_now_uwh && device.energy_full_uwh
                == told.energy_full_uwh && device.energy_full_design_uwh
                == told.energy_full_design_uwh
            &&& device.voltage_uv == told.voltage_uv && device.cycles == told.cycles
            &&& device.state == replaced(lowercase(told.status), ' ', '-')
            &&& told.energy_full_uwh is Some && told.energy_full_design_uwh is Some
                ==> device.health_percent == health_of(
                Some(told.energy_full_uwh->0 as nat),
                Some(told.energy_full_design_uwh->0 as nat),
            )
            &&& device.protection.start_percent == limits.start_threshold
            &&& device.protection.end_percent == limits.end_threshold
            &&& device.protection.supports_start <==> limits.start_threshold is Some
            &&& device.protection.supports_end <==> limits.end_threshold is Some
            &&& device.protection.supported <==> limits.start_threshold is Some
                && limits.end_threshold is Some
            &&& device.protection.enabled <==> (limits.start_threshold is Some
                && limits.start_threshold->0 > 0) || (limits.end_threshold is Some
                && limits.end_threshold->0 < 100)
            &&& device.protection.charge_behaviour == limits.charge_behaviour
            &&& device.protection.available_behaviours == limits.available_behaviours
            &&& device.protection.supports_charge_behaviour <==> limits.available_behaviours.len()
                > 0
        }),
{
    let wanted = |battery: NativeBatteryModel| battery.telemetry.present;
    snapshot.batteries.lemma_filter_pred(wanted, i);
    snapshot.batteries.lemma_filter_contains_rev(wanted, present(snapshot.batteries)[i]);
}

/// A battery is read from its own files, each for what it is.
pub proof fn batteries_are_read_from_their_files(id: Seq<char>, files: NativeFilesModel)
    ensures
        ({
            let battery = battery_in(id, files);
            let told = battery.telemetry;
            let max = u64::MAX as nat;
            &&& battery.identity.id == id
            &&& files.manufacturer matches Some(text) ==> battery.identity.vendor == trimmed(text)
            &&& files.model_name matches Some(text) ==> battery.identity.model == trimmed(text)
            &&& files.serial_number matches Some(text) ==> battery.identity.serial == trimmed(text)
            &&& !told.present <==> number_in(files.present, max) == Some(0nat)
            &&& told.status == raw_status(files.measures)
            &&& told.percentage == capacity_of(files.measures)
            &&& number_in(files.measures.energy_now, max) matches Some(n) ==> told.energy_now_uwh
                == Some(n as u64)
            &&& number_in(files.measures.energy_full, max) matches Some(n) ==> told.energy_full_uwh
                == Some(n as u64)
            &&& number_in(files.measures.energy_full_design, max) matches Some(n)
                ==> told.energy_full_design_uwh == Some(n as u64)
            &&& number_in(files.measures.energy_now, max) is None ==> told.energy_now_uwh is None
            &&& number_in(files.measures.energy_full, max) is None ==> told.energy_full_uwh is None
            &&& told.power_uw == power_of(files.measures) as u64
            &&& number_in(files.measures.voltage_now, max) matches Some(n) ==> told.voltage_uv
                == Some(n as u64)
            &&& number_in(files.measures.cycle_count, u32::MAX as nat) matches Some(n)
                ==> told.cycles == Some(n as u32)
            &&& files.start_threshold is Some ==> (percent_in(files.start_threshold->0) matches Ok(
                n,
            ) ==> battery.protection.start_threshold == Some(n))
            &&& files.end_threshold is Some ==> (percent_in(files.end_threshold->0) matches Ok(n)
                ==> battery.protection.end_threshold == Some(n))
            &&& files.start_threshold is None ==> battery.protection.start_threshold is None
            &&& files.end_threshold is None ==> battery.protection.end_threshold is None
            &&& files.charge_behaviour matches Some(text) ==> (choices_of(text) matches Some(
                (made, offered),
            ) ==> battery.protection.charge_behaviour == Some(made)
                && battery.protection.available_behaviours == offered)
        }),
{
    lemma_number_bound(files.present);
}

proof fn lemma_number_bound(contents: Option<Seq<char>>)
    ensures
        number_in(contents, u64::MAX as nat) matches Some(n) ==> n <= u64::MAX,
{
}

/// There is external power where a supply that is no battery is online. The
/// batteries are the supplies that are batteries, in order.
pub proof fn supplies_are_told_apart(supplies: Seq<SupplyFilesModel>, supply: SupplyFilesModel)
    ensures
        ({
            let before = snapshot_in(supplies);
            let after = snapshot_in(supplies.push(supply));
            let battery = supply.supply_type is Some && trimmed(supply.supply_type->0)
                == "Battery"@;
            &&& battery ==> after.batteries == before.batteries.push(
                battery_in(supply.id, supply.battery),
            )
            &&& !battery ==> after.batteries == before.batteries
            &&& after.plugged <==> before.plugged || (supply.supply_type is Some && !battery
                && number_in(supply.online, u64::MAX as nat) == Some(1nat))
            &&& !snapshot_in(Seq::empty()).plugged
            &&& snapshot_in(Seq::empty()).batteries.len() == 0
        }),
{
    let more = supplies.push(supply);
    lemma_number_bound(supply.online);
    assert(more.drop_last() =~= supplies);
    if external_power(supplies) {
        let k = choose|i: int| 0 <= i < supplies.len() && gives_power(#[trigger] supplies[i]);
        assert(more[k] == supplies[k]);
    }
    assert(more[supplies.len() as int] == supply);
    if external_power(more) {
        let k = choose|i: int| 0 <= i < more.len() && gives_power(#[trigger] more[i]);
        if k < supplies.len() {
            assert(supplies[k] == more[k]);
        }
    }
}

} // verus!
