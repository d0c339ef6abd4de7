//! Battery state out of what the power daemon tells.

use vstd::prelude::*;

use crate::battery::sysfs::{CRITICAL_PERCENT, WARNING_PERCENT};
use crate::model::{BatteryState, BatteryStateModel};
use crate::record::Record;
use crate::text::same_text;

verus! {

/// The kind of device that is a battery.
pub const BATTERY_DEVICE: u32 = 2;

/// What the power daemon tells of the battery. Percentages are rounded.
#[derive(Debug, PartialEq, Eq)]
pub struct UpowerReading {
    pub present: bool,
    pub device_type: u32,
    pub native_path: String,
    pub percentage: u8,
    pub state_code: u32,
    pub on_battery: bool,
    pub health_percent: Option<u8>,
    pub power_uw: u64,
    pub time_to_empty_seconds: u64,
    pub time_to_full_seconds: u64,
    pub cycles: Option<u32>,
}

/// What a [`UpowerReading`] holds.
#[verifier::ext_equal]
pub struct UpowerReadingModel {
    pub present: bool,
    pub device_type: u32,
    pub native_path: Seq<char>,
    pub percentage: u8,
    pub state_code: u32,
    pub on_battery: bool,
    pub health_percent: Option<u8>,
    pub power_uw: u64,
    pub time_to_empty_seconds: u64,
    pub time_to_full_seconds: u64,
    pub cycles: Option<u32>,
}

impl DeepView for UpowerReading {
    type V = UpowerReadingModel;

    open spec fn deep_view(&self) -> UpowerReadingModel {
        UpowerReadingModel {
            present: self.present.deep_view(),
            device_type: self.device_type.deep_view(),
            native_path: self.native_path.deep_view(),
            percentage: self.percentage.deep_view(),
            state_code: self.state_code.deep_view(),
            on_battery: self.on_battery.deep_view(),
            health_percent: self.health_percent.deep_view(),
            power_uw: self.power_uw.deep_view(),
            time_to_empty_seconds: self.time_to_empty_seconds.deep_view(),
            time_to_full_seconds: self.time_to_full_seconds.deep_view(),
            cycles: self.cycles.deep_view(),
        }
    }
}

impl Record for UpowerReading {
    fn same(&self, other: &Self) -> (same: bool) {
        self.present.same(&other.present)
            && self.device_type.same(&other.device_type)
            && self.native_path.same(&other.native_path)
            && self.percentage.same(&other.percentage)
            && self.state_code.same(&other.state_code)
            && self.on_battery.same(&other.on_battery)
            && self.health_percent.same(&other.health_percent)
            && self.power_uw.same(&other.power_uw)
            && self.time_to_empty_seconds.same(&other.time_to_empty_seconds)
            && self.time_to_full_seconds.same(&other.time_to_full_seconds)
            && self.cycles.same(&other.cycles)
    }

    fn copy(&self) -> (copy: Self) {
        UpowerReading {
            present: self.present.copy(),
            device_type: self.device_type.copy(),
            native_path: self.native_path.copy(),
            percentage: self.percentage.copy(),
            state_code: self.state_code.copy(),
            on_battery: self.on_battery.copy(),
            health_percent: self.health_percent.copy(),
            power_uw: self.power_uw.copy(),
            time_to_empty_seconds: self.time_to_empty_seconds.copy(),
            time_to_full_seconds: self.time_to_full_seconds.copy(),
            cycles: self.cycles.copy(),
        }
    }
}

impl Clone for UpowerReading {
    fn clone(&self) -> (copy: Self)
        ensures
            copy.deep_view() == self.deep_view(),
    {
        self.copy()
    }
}

impl UpowerReadingModel {
    /// What a default [`UpowerReading`] holds.
    pub open spec fn initial() -> UpowerReadingModel {
        UpowerReadingModel {
            present: false,
            device_type: 0,
            native_path: Seq::empty(),
            percentage: 0,
            state_code: 0,
            on_battery: false,
            health_percent: None,
            power_uw: 0,
            time_to_empty_seconds: 0,
            time_to_full_seconds: 0,
            cycles: None,
        }
    }
}

impl Default for UpowerReading {
    fn default() -> (value: UpowerReading)
        ensures
            value.deep_view() == UpowerReadingModel::initial(),
    {
        let value = UpowerReading {
            present: false,
            device_type: 0,
            native_path: String::new(),
            percentage: 0,
            state_code: 0,
            on_battery: false,
            health_percent: None,
            power_uw: 0,
            time_to_empty_seconds: 0,
            time_to_full_seconds: 0,
            cycles: None,
        };
        assert(value.deep_view() =~= UpowerReadingModel::initial());
        value
    }
}

/// The words for a state of the battery.
pub open spec fn state_text(state: u32) -> Seq<char> {
    if state == 1 {
        "charging"@
    } else if state == 2 {
        "discharging"@
    } else if state == 3 {
        "empty"@
    } else if state == 4 {
        "fully-charged"@
    } else if state == 5 {
        "pending-charge"@
    } else if state == 6 {
        "pending-discharge"@
    } else {
        "unknown"@
    }
}

/// The words for a state of the battery.
pub fn state_name(state: u32) -> (text: &'static str)
    ensures
        text@ == state_text(state),
{
    match state {
        1 => "charging",
        2 => "discharging",
        3 => "empty",
        4 => "fully-charged",
        5 => "pending-charge",
        6 => "pending-discharge",
        _ => "unknown",
    }
}

/// The state of the battery.
pub open spec fn state_of(reading: UpowerReadingModel) -> BatteryStateModel {
    BatteryStateModel {
        available: reading.present && reading.device_type == BATTERY_DEVICE,
        native_path: reading.native_path,
        percentage: reading.percentage,
        state: state_text(reading.state_code),
        charging: reading.state_code == 1 || reading.state_code == 5,
        plugged: !reading.on_battery,
        power_uw: reading.power_uw,
        time_to_empty_seconds: reading.time_to_empty_seconds,
        time_to_full_seconds: reading.time_to_full_seconds,
        health_percent: reading.health_percent,
        cycles: reading.cycles,
        warning: reading.on_battery && reading.percentage <= WARNING_PERCENT,
        critical: reading.on_battery && reading.percentage <= CRITICAL_PERCENT,
        ..BatteryStateModel::initial()
    }
}

/// The state of the battery.
pub fn battery_state(reading: UpowerReading) -> (state: BatteryState)
    ensures
        state.deep_view() == state_of(reading.deep_view()),
{
    let state = BatteryState {
        available: reading.present && reading.device_type == BATTERY_DEVICE,
        native_path: reading.native_path,
        percentage: reading.percentage,
        state: state_name(reading.state_code).to_string(),
        charging: reading.state_code == 1 || reading.state_code == 5,
        plugged: !reading.on_battery,
        power_uw: reading.power_uw,
        time_to_empty_seconds: reading.time_to_empty_seconds,
        time_to_full_seconds: reading.time_to_full_seconds,
        health_percent: reading.health_percent,
        cycles: reading.cycles,
        warning: reading.on_battery && reading.percentage <= WARNING_PERCENT,
        critical: reading.on_battery && reading.percentage <= CRITICAL_PERCENT,
        ..BatteryState::default()
    };
    assert(state.deep_view() =~= state_of(reading.deep_view()));
    state
}

/// Whether a setting chooses this service over the kernel's own files.
pub fn is_chosen(setting: Option<&str>) -> (chosen: bool)
    ensures
        chosen == (setting matches Some(text) && text@ == "upower"@),
{
    match setting {
        Some(text) => same_text(text, "upower"),
        None => false,
    }
}

// Laws

/// What is shown of a battery is what the power daemon tells; there is one where
/// it is present and is a battery; it has external power where it does not run
/// on its own; and it is low at 25 percent and critical at 12 without it.
pub proof fn battery_shows_what_daemon_tells(reading: UpowerReadingModel)
    ensures
        ({
            let state = state_of(reading);
            &&& state.available <==> reading.present && reading.device_type == 2
            &&& state.native_path == reading.native_path
            &&& state.percentage == reading.percentage
            &&& state.plugged <==> !reading.on_battery
            &&& state.charging <==> reading.state_code == 1 || reading.state_code == 5
            &&& state.power_uw == reading.power_uw
            &&& state.time_to_empty_seconds == reading.time_to_empty_seconds
            &&& state.time_to_full_seconds == reading.time_to_full_seconds
            &&& state.health_percent == reading.health_percent
            &&& state.cycles == reading.cycles
            &&& state.warning <==> reading.on_battery && reading.percentage <= 25
            &&& state.critical <==> reading.on_battery && reading.percentage <= 12
            &&& reading.state_code == 1 ==> state.state == "charging"@
            &&& reading.state_code == 2 ==> state.state == "discharging"@
            &&& reading.state_code == 3 ==> state.state == "empty"@
            &&& reading.state_code == 4 ==> state.state == "fully-charged"@
            &&& reading.state_code == 5 ==> state.state == "pending-charge"@
            &&& reading.state_code == 6 ==> state.state == "pending-discharge"@
            &&& reading.state_code == 0 || reading.state_code > 6 ==> state.state == "unknown"@
        }),
{
}

} // verus!
