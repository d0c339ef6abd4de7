//! Battery state out of the attributes that the kernel gives.

use vstd::prelude::*;

use crate::battery::native::{external_power, has_external_power, SupplyFiles};
use crate::model::{BatteryState, BatteryStateModel};
use crate::record::Record;
use crate::text::{
    chars_of, decimal_text, decimal_text_round_trip, equals_ignoring_case, is_digit, is_empty,
    lowercase, parse_unsigned, replace_chars, replaced, same_ignoring_case,
    text_between_white_space_stays, text_of, to_lowercase, trim, trim_chars, trimmed,
    unsigned_value, written_numbers_are_read,
};

verus! {

/// The charge at or below which the user is warned, unless told otherwise.
pub const WARNING_PERCENT: u8 = 25;

/// The charge at or below which the battery is critical, unless told otherwise.
pub const CRITICAL_PERCENT: u8 = 12;

/// The contents of the attributes of a battery, where they can be read.
#[derive(Debug, PartialEq, Eq)]
pub struct BatteryFiles {
    pub capacity: Option<String>,
    pub status: Option<String>,
    pub power_now: Option<String>,
    pub voltage_now: Option<String>,
    pub current_now: Option<String>,
    pub energy_now: Option<String>,
    pub energy_full: Option<String>,
    pub energy_full_design: Option<String>,
    pub cycle_count: Option<String>,
}

/// What a [`BatteryFiles`] holds.
#[verifier::ext_equal]
pub struct BatteryFilesModel {
    pub capacity: Option<Seq<char>>,
    pub status: Option<Seq<char>>,
    pub power_now: Option<Seq<char>>,
    pub voltage_now: Option<Seq<char>>,
    pub current_now: Option<Seq<char>>,
    pub energy_now: Option<Seq<char>>,
    pub energy_full: Option<Seq<char>>,
    pub energy_full_design: Option<Seq<char>>,
    pub cycle_count: Option<Seq<char>>,
}

impl DeepView for BatteryFiles {
    type V = BatteryFilesModel;

    open spec fn deep_view(&self) -> BatteryFilesModel {
        BatteryFilesModel {
            capacity: self.capacity.deep_view(),
            status: self.status.deep_view(),
            power_now: self.power_now.deep_view(),
            voltage_now: self.voltage_now.deep_view(),
            current_now: self.current_now.deep_view(),
            energy_now: self.energy_now.deep_view(),
            energy_full: self.energy_full.deep_view(),
            energy_full_design: self.energy_full_design.deep_view(),
            cycle_count: self.cycle_count.deep_view(),
        }
    }
}

impl Record for BatteryFiles {
    fn same(&self, other: &Self) -> (same: bool) {
        self.capacity.same(&other.capacity)
            && self.status.same(&other.status)
            && self.power_now.same(&other.power_now)
            && self.voltage_now.same(&other.voltage_now)
            && self.current_now.same(&other.current_now)
            && self.energy_now.same(&other.energy_now)
            && self.energy_full.same(&other.energy_full)
            && self.energy_full_design.same(&other.energy_full_design)
            && self.cycle_count.same(&other.cycle_count)
    }

    fn copy(&self) -> (copy: Self) {
        BatteryFiles {
            capacity: self.capacity.copy(),
            status: self.status.copy(),
            power_now: self.power_now.copy(),
            voltage_now: self.voltage_now.copy(),
            current_now: self.current_now.copy(),
            energy_now: self.energy_now.copy(),
            energy_full: self.energy_full.copy(),
            energy_full_design: self.energy_full_design.copy(),
            cycle_count: self.cycle_count.copy(),
        }
    }
}

impl Clone for BatteryFiles {
    fn clone(&self) -> (copy: Self)
        ensures
            copy.deep_view() == self.deep_view(),
    {
        self.copy()
    }
}

impl BatteryFilesModel {
    /// What a default [`BatteryFiles`] holds.
    pub open spec fn initial() -> BatteryFilesModel {
        BatteryFilesModel {
            capacity: None,
            status: None,
            power_now: None,
            voltage_now: None,
            current_now: None,
            energy_now: None,
            energy_full: None,
            energy_full_design: None,
            cycle_count: None,
        }
    }
}

impl Default for BatteryFiles {
    fn default() -> (value: BatteryFiles)
        ensures
            value.deep_view() == BatteryFilesModel::initial(),
    {
        let value = BatteryFiles {
            capacity: None,
            status: None,
            power_now: None,
            voltage_now: None,
            current_now: None,
            energy_now: None,
            energy_full: None,
            energy_full_design: None,
            cycle_count: None,
        };
        assert(value.deep_view() =~= BatteryFilesModel::initial());
        value
    }
}

/// The number that an attribute holds, where it holds one that fits.
pub open spec fn number_in(contents: Option<Seq<char>>, max: nat) -> Option<nat> {
    match contents {
        Some(contents) => unsigned_value(trimmed(contents), max),
        None => None,
    }
}

/// Reads the number that an attribute holds.
pub fn parse_number(contents: &Option<String>, max: u64) -> (number: Option<u64>)
    ensures
        match number {
            Some(number) => number_in(contents.deep_view(), max as nat) == Some(number as nat),
            None => number_in(contents.deep_view(), max as nat) is None,
        },
{
    match contents {
        Some(contents) => parse_unsigned(&trim_chars(&chars_of(contents.as_str())), max),
        None => None,
    }
}

/// Reads an unsigned number of 64 bits.
pub fn read_u64(contents: &Option<String>) -> (number: Option<u64>)
    ensures
        match number {
            Some(number) => number_in(contents.deep_view(), u64::MAX as nat) == Some(
                number as nat,
            ),
            None => number_in(contents.deep_view(), u64::MAX as nat) is None,
        },
{
    parse_number(contents, u64::MAX)
}

/// How often a battery was charged, where the kernel tells.
pub fn read_cycle_count(contents: &Option<String>) -> (cycles: Option<u32>)
    ensures
        match cycles {
            Some(cycles) => number_in(contents.deep_view(), u32::MAX as nat) == Some(
                cycles as nat,
            ),
            None => number_in(contents.deep_view(), u32::MAX as nat) is None,
        },
{
    match parse_number(contents, u32::MAX as u64) {
        Some(cycles) => Some(cycles as u32),
        None => None,
    }
}

/// How long energy lasts at a power, in seconds: zero where there is no power.
pub open spec fn seconds_for(energy_uwh: nat, power_uw: nat) -> nat {
    if power_uw == 0 {
        0
    } else if energy_uwh * 3600 / power_uw > u64::MAX {
        u64::MAX as nat
    } else {
        energy_uwh * 3600 / power_uw
    }
}

/// How long energy lasts at a power, in seconds.
pub fn estimate_seconds(energy_microwatt_hours: u64, power_microwatts: u64) -> (seconds: u64)
    ensures
        seconds == seconds_for(energy_microwatt_hours as nat, power_microwatts as nat),
{
    if power_microwatts == 0 {
        return 0;
    }
    let seconds: u128 = energy_microwatt_hours as u128 * 3600 / power_microwatts as u128;
    if seconds > u64::MAX as u128 {
        u64::MAX
    } else {
        seconds as u64
    }
}

/// What is left of the energy that a battery was made for, in percent.
pub open spec fn health_of(full: Option<nat>, design: Option<nat>) -> Option<u8> {
    match (full, design) {
        (Some(full), Some(design)) => if design == 0 {
            None
        } else if (full * 100 + design / 2) / design > 100 {
            Some(100)
        } else {
            Some(((full * 100 + design / 2) / design) as u8)
        },
        _ => None,
    }
}

/// What is left of the energy that a battery was made for, in percent.
pub fn health_percent(full: Option<u64>, design: Option<u64>) -> (health: Option<u8>)
    ensures
        health == health_of(
            match full {
                Some(full) => Some(full as nat),
                None => None,
            },
            match design {
                Some(design) => Some(design as nat),
                None => None,
            },
        ),
{
    match (full, design) {
        (Some(full), Some(design)) => {
            if design == 0 {
                return None;
            }
            let percent: u128 = (full as u128 * 100 + design as u128 / 2) / design as u128;
            if percent > 100 {
                Some(100)
            } else {
                Some(percent as u8)
            }
        },
        _ => None,
    }
}

/// The power that a battery gives or takes, in microwatts: as the kernel tells
/// it, else as voltage and current give it, else zero.
pub open spec fn power_of(files: BatteryFilesModel) -> nat {
    match number_in(files.power_now, u64::MAX as nat) {
        Some(power) => power,
        None => match (
            number_in(files.voltage_now, u64::MAX as nat),
            number_in(files.current_now, u64::MAX as nat),
        ) {
            (Some(voltage), Some(current)) => (voltage * current / 1_000_000)
                % 0x1_0000_0000_0000_0000,
            _ => 0,
        },
    }
}

pub(crate) fn read_power(files: &BatteryFiles) -> (power: u64)
    ensures
        power == power_of(files.deep_view()),
{
    if let Some(power) = read_u64(&files.power_now) {
        return power;
    }
    match (read_u64(&files.voltage_now), read_u64(&files.current_now)) {
        (Some(voltage), Some(current)) => {
            assert(voltage as u128 * current as u128 <= u128::MAX) by (nonlinear_arith)
                requires
                    voltage <= u64::MAX,
                    current <= u64::MAX,
            ;
            let product: u128 = voltage as u128 * current as u128;
            (product / 1_000_000 % 0x1_0000_0000_0000_0000) as u64
        },
        _ => 0,
    }
}

/// A number, or zero where there is none.
pub open spec fn or_none(number: Option<nat>) -> nat {
    match number {
        Some(number) => number,
        None => 0,
    }
}

/// The status of a battery as the kernel writes it.
pub open spec fn raw_status(files: BatteryFilesModel) -> Seq<char> {
    match files.status {
        Some(status) => trimmed(status),
        None => "Unknown"@,
    }
}

/// The charge of a battery, in percent.
pub open spec fn capacity_of(files: BatteryFilesModel) -> u8 {
    let capacity = or_none(number_in(files.capacity, u64::MAX as nat));
    if capacity > 100 {
        100
    } else {
        capacity as u8
    }
}

/// The state of one battery, given whether there is external power, and its
/// status in lower case. What the battery does says nothing about external power.
pub open spec fn state_of(
    id: Seq<char>,
    files: BatteryFilesModel,
    plugged: bool,
    lower: Seq<char>,
) -> BatteryStateModel {
    let status = raw_status(files);
    let charging = same_ignoring_case(status, "charging"@);
    let discharging = same_ignoring_case(status, "discharging"@);
    let now = number_in(files.energy_now, u64::MAX as nat);
    let full = number_in(files.energy_full, u64::MAX as nat);
    let power = power_of(files);
    let missing = if or_none(full) > or_none(now) {
        (or_none(full) - or_none(now)) as nat
    } else {
        0
    };
    BatteryStateModel {
        available: true,
        native_path: id,
        percentage: capacity_of(files),
        state: replaced(lower, ' ', '-'),
        charging,
        plugged,
        power_uw: power as u64,
        time_to_empty_seconds: if discharging {
            seconds_for(or_none(now), power) as u64
        } else {
            0
        },
        time_to_full_seconds: if charging {
            seconds_for(missing, power) as u64
        } else {
            0
        },
        health_percent: health_of(full, number_in(files.energy_full_design, u64::MAX as nat)),
        cycles: if id.len() == 0 {
            None
        } else {
            match number_in(files.cycle_count, u32::MAX as nat) {
                Some(cycles) => Some(cycles as u32),
                None => None,
            }
        },
        warning: !plugged && capacity_of(files) <= WARNING_PERCENT,
        critical: !plugged && capacity_of(files) <= CRITICAL_PERCENT,
        ..BatteryStateModel::initial()
    }
}

pub(crate) fn read_status(files: &BatteryFiles) -> (status: String)
    ensures
        status@ == raw_status(files.deep_view()),
{
    match &files.status {
        Some(status) => trim(status.as_str()),
        None => "Unknown".to_string(),
    }
}

pub(crate) fn read_capacity(files: &BatteryFiles) -> (percentage: u8)
    ensures
        percentage == capacity_of(files.deep_view()),
{
    match read_u64(&files.capacity) {
        Some(capacity) => if capacity > 100 {
            100
        } else {
            capacity as u8
        },
        None => 0,
    }
}

fn number_or_zero(number: Option<u64>) -> (result: u64)
    ensures
        result == match number {
            Some(number) => number,
            None => 0,
        },
{
    match number {
        Some(number) => number,
        None => 0,
    }
}

/// The state of one battery, given whether there is external power, and its
/// status in lower case.
pub fn read_battery_in(id: &str, files: &BatteryFiles, plugged: bool, lower: &str) -> (state:
    BatteryState)
    ensures
        state.deep_view() == state_of(id@, files.deep_view(), plugged, lower@),
{
    let status = read_status(files);
    let charging = equals_ignoring_case(status.as_str(), "charging");
    let discharging = equals_ignoring_case(status.as_str(), "discharging");
    let percentage: u8 = read_capacity(files);
    let power_uw: u64 = read_power(files);
    let energy_now = read_u64(&files.energy_now);
    let energy_full = read_u64(&files.energy_full);
    let time_to_empty_seconds: u64 = if discharging {
        estimate_seconds(number_or_zero(energy_now), power_uw)
    } else {
        0
    };
    let time_to_full_seconds: u64 = if charging {
        estimate_seconds(
            number_or_zero(energy_full).saturating_sub(number_or_zero(energy_now)),
            power_uw,
        )
    } else {
        0
    };
    let cycles = if is_empty(id) {
        None
    } else {
        read_cycle_count(&files.cycle_count)
    };
    let health = health_percent(energy_full, read_u64(&files.energy_full_design));
    let state = BatteryState {
        available: true,
        native_path: id.to_string(),
        percentage,
        state: text_of(&replace_chars(&chars_of(lower), ' ', '-')),
        charging,
        plugged,
        power_uw,
        time_to_empty_seconds,
        time_to_full_seconds,
        health_percent: health,
        cycles,
        warning: !plugged && percentage <= WARNING_PERCENT,
        critical: !plugged && percentage <= CRITICAL_PERCENT,
        ..BatteryState::default()
    };
    assert(state.deep_view() =~= state_of(id@, files.deep_view(), plugged, lower@));
    state
}

/// The state of one battery among the power supplies of the machine. There is
/// external power where one of these that is no battery says that it is online.
pub fn read_battery(id: &str, files: &BatteryFiles, supplies: &Vec<SupplyFiles>) -> (state:
    BatteryState)
    ensures
        state.deep_view() == state_of(
            id@,
            files.deep_view(),
            external_power(supplies.deep_view()),
            lowercase(raw_status(files.deep_view())),
        ),
{
    let lower = to_lowercase(read_status(files).as_str());
    read_battery_in(id, files, has_external_power(supplies), lower.as_str())
}

// Laws

/// A number is read from a file that holds it and the end of a line, if and only
/// if it is not too large; there is none where there is no file.
pub proof fn numbers_are_read_from_files(n: nat, max: nat)
    ensures
        n <= max ==> number_in(Some(decimal_text(n).push('\n')), max) == Some(n),
        n > max ==> number_in(Some(decimal_text(n).push('\n')), max) is None,
        number_in(None, max) is None,
{
    let digits = decimal_text(n);
    written_numbers_are_read(n, max, digits);
    decimal_text_round_trip(n);
    assert(is_digit(digits[0]) && is_digit(digits[digits.len() - 1]));
    text_between_white_space_stays(Seq::empty(), digits, seq!['\n']);
    assert(Seq::<char>::empty() + digits + seq!['\n'] =~= digits.push('\n'));
}

/// The nearest whole percentage of a part: off by half of one at most.
pub(crate) proof fn lemma_nearest(part: nat, whole: nat)
    requires
        whole > 0,
    ensures
        ({
            let nearest = (part * 100 + whole / 2) / whole;
            &&& 2 * (nearest * whole) <= 2 * (part * 100) + whole
            &&& 2 * (part * 100) <= 2 * (nearest * whole) + whole
            &&& part <= whole ==> nearest <= 100
            &&& part >= whole ==> nearest >= 100
        }),
{
    let sum = part * 100 + whole / 2;
    let nearest = sum / whole;
    assert(sum == nearest * whole + sum % whole && 0 <= sum % whole < whole) by (nonlinear_arith)
        requires
            whole > 0,
            nearest == sum / whole,
    ;
    if part <= whole {
        assert(nearest <= 100) by (nonlinear_arith)
            requires
                whole > 0,
                nearest * whole <= part * 100 + whole / 2,
                part <= whole,
        ;
    }
    if part >= whole {
        assert(nearest >= 100) by (nonlinear_arith)
            requires
                whole > 0,
                nearest * whole + whole > part * 100,
                part >= whole,
        ;
    }
}

/// The health of a battery is the nearest whole percentage of what it was designed
/// for, a hundred at most; there is none where either is not told.
pub proof fn health_is_nearest_percentage(full: nat, design: nat)
    ensures
        health_of(None, Some(design)) is None,
        health_of(Some(full), None) is None,
        design == 0 ==> health_of(Some(full), Some(design)) is None,
        design > 0 ==> health_of(Some(full), Some(design)) is Some,
        design > 0 && full >= design ==> health_of(Some(full), Some(design)) == Some(100u8),
        design > 0 && full <= design ==> {
            let health = health_of(Some(full), Some(design))->0;
            &&& health <= 100
            &&& 2 * (health as nat * design) <= 2 * (full * 100) + design
            &&& 2 * (full * 100) <= 2 * (health as nat * design) + design
        },
{
    if design > 0 {
        lemma_nearest(full, design);
    }
}

/// The time that energy lasts at some power: as many whole seconds as it takes,
/// and none where no power is drawn.
pub proof fn time_is_energy_over_power(energy_uwh: nat, power_uw: nat)
    ensures
        seconds_for(energy_uwh, 0) == 0,
        power_uw > 0 && energy_uwh * 3600 / power_uw <= u64::MAX ==> {
            &&& seconds_for(energy_uwh, power_uw) * power_uw <= energy_uwh * 3600
            &&& energy_uwh * 3600 < (seconds_for(energy_uwh, power_uw) + 1) * power_uw
        },
{
    if power_uw > 0 {
        let seconds = energy_uwh * 3600 / power_uw;
        let energy = energy_uwh * 3600;
        assert(seconds * power_uw <= energy < (seconds + 1) * power_uw) by (nonlinear_arith)
            requires
                power_uw > 0,
                seconds == energy / power_uw,
        ;
    }
}

/// The power of a battery is what it tells, or else the product of its voltage and
/// its current.
pub proof fn power_is_told_or_computed(files: BatteryFilesModel)
    ensures
        number_in(files.power_now, u64::MAX as nat) matches Some(power) ==> power_of(files)
            == power,
        number_in(files.power_now, u64::MAX as nat) is None && number_in(
            files.voltage_now,
            u64::MAX as nat,
        ) is Some && number_in(files.current_now, u64::MAX as nat) is Some ==> {
            let voltage = number_in(files.voltage_now, u64::MAX as nat)->0;
            let current = number_in(files.current_now, u64::MAX as nat)->0;
            voltage * current / 1_000_000 <= u64::MAX ==> power_of(files) == voltage * current
                / 1_000_000
        },
        number_in(files.power_now, u64::MAX as nat) is None && (number_in(
            files.voltage_now,
            u64::MAX as nat,
        ) is None || number_in(files.current_now, u64::MAX as nat) is None) ==> power_of(files)
            == 0,
{
}

/// What is shown of a battery is what its files tell: its charge, a hundred at most;
/// that it charges where its status says so in any case; how long it lasts while it
/// discharges, and how long it takes to fill while it charges; and that it is low
/// at 25 percent and critical at 12, without external power.
pub proof fn battery_shows_what_files_tell(
    id: Seq<char>,
    files: BatteryFilesModel,
    plugged: bool,
    lower: Seq<char>,
)
    ensures
        ({
            let state = state_of(id, files, plugged, lower);
            let max = u64::MAX as nat;
            let status = match files.status {
                Some(status) => trimmed(status),
                None => "Unknown"@,
            };
            let now = number_in(files.energy_now, max);
            let full = number_in(files.energy_full, max);
            let power = power_of(files);
            &&& state.available && state.native_path == id && state.plugged == plugged
            &&& state.state == replaced(lower, ' ', '-')
            &&& raw_status(files) == status
            &&& state.charging <==> same_ignoring_case(status, "charging"@)
            &&& number_in(files.capacity, max) is None ==> state.percentage == 0
            &&& number_in(files.capacity, max) matches Some(told) ==> if told > 100 {
                state.percentage == 100
            } else {
                state.percentage == told
            }
            &&& state.power_uw == power as u64
            &&& same_ignoring_case(status, "discharging"@) && now is Some
                ==> state.time_to_empty_seconds == seconds_for(now->0, power) as u64
            &&& !same_ignoring_case(status, "discharging"@) ==> state.time_to_empty_seconds == 0
            &&& state.charging && now is Some && full is Some && full->0 >= now->0
                ==> state.time_to_full_seconds == seconds_for((full->0 - now->0) as nat, power)
                as u64
            &&& !state.charging ==> state.time_to_full_seconds == 0
            &&& state.health_percent == health_of(full, number_in(files.energy_full_design, max))
            &&& id.len() > 0 ==> (number_in(files.cycle_count, u32::MAX as nat) matches Some(told)
                ==> state.cycles == Some(told as u32))
            &&& id.len() > 0 && number_in(files.cycle_count, u32::MAX as nat) is None
                ==> state.cycles is None
            &&& state.warning <==> !plugged && state.percentage <= 25
            &&& state.critical <==> !plugged && state.percentage <= 12
        }),
{
}

} // verus!
