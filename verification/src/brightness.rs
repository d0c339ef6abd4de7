//! The backlight of the display.

use vstd::prelude::*;

use crate::battery::sysfs::{lemma_nearest, number_in, read_u64};
use crate::model::{BrightnessState, BrightnessStateModel};
use crate::record::Record;

verus! {

/// A backlight.
#[derive(Debug, PartialEq, Eq)]
pub struct BacklightDevice {
    pub name: String,
    pub path: String,
    pub brightness: u64,
    pub max_brightness: u64,
}

/// What a [`BacklightDevice`] holds.
#[verifier::ext_equal]
pub struct BacklightDeviceModel {
    pub name: Seq<char>,
    pub path: Seq<char>,
    pub brightness: u64,
    pub max_brightness: u64,
}

impl DeepView for BacklightDevice {
    type V = BacklightDeviceModel;

    open spec fn deep_view(&self) -> BacklightDeviceModel {
        BacklightDeviceModel {
            name: self.name.deep_view(),
            path: self.path.deep_view(),
            brightness: self.brightness.deep_view(),
            max_brightness: self.max_brightness.deep_view(),
        }
    }
}

impl Record for BacklightDevice {
    fn same(&self, other: &Self) -> (same: bool) {
        self.name.same(&other.name)
            && self.path.same(&other.path)
            && self.brightness.same(&other.brightness)
            && self.max_brightness.same(&other.max_brightness)
    }

    fn copy(&self) -> (copy: Self) {
        BacklightDevice {
            name: self.name.copy(),
            path: self.path.copy(),
            brightness: self.brightness.copy(),
            max_brightness: self.max_brightness.copy(),
        }
    }
}

impl Clone for BacklightDevice {
    fn clone(&self) -> (copy: Self)
        ensures
            copy.deep_view() == self.deep_view(),
    {
        self.copy()
    }
}

/// The contents of the attributes of a backlight, where they can be read.
#[derive(Debug, PartialEq, Eq)]
pub struct BacklightFiles {
    pub name: String,
    pub path: String,
    pub max_brightness: Option<String>,
    pub brightness: Option<String>,
    pub actual_brightness: Option<String>,
}

/// What a [`BacklightFiles`] holds.
#[verifier::ext_equal]
pub struct BacklightFilesModel {
    pub name: Seq<char>,
    pub path: Seq<char>,
    pub max_brightness: Option<Seq<char>>,
    pub brightness: Option<Seq<char>>,
    pub actual_brightness: Option<Seq<char>>,
}

impl DeepView for BacklightFiles {
    type V = BacklightFilesModel;

    open spec fn deep_view(&self) -> BacklightFilesModel {
        BacklightFilesModel {
            name: self.name.deep_view(),
            path: self.path.deep_view(),
            max_brightness: self.max_brightness.deep_view(),
            brightness: self.brightness.deep_view(),
            actual_brightness: self.actual_brightness.deep_view(),
        }
    }
}

impl Record for BacklightFiles {
    fn same(&self, other: &Self) -> (same: bool) {
        self.name.same(&other.name)
            && self.path.same(&other.path)
            && self.max_brightness.same(&other.max_brightness)
            && self.brightness.same(&other.brightness)
            && self.actual_brightness.same(&other.actual_brightness)
    }

    fn copy(&self) -> (copy: Self) {
        BacklightFiles {
            name: self.name.copy(),
            path: self.path.copy(),
            max_brightness: self.max_brightness.copy(),
            brightness: self.brightness.copy(),
            actual_brightness: self.actual_brightness.copy(),
        }
    }
}

impl Clone for BacklightFiles {
    fn clone(&self) -> (copy: Self)
        ensures
            copy.deep_view() == self.deep_view(),
    {
        self.copy()
    }
}

/// A brightness in percent, rounded: zero where there is no greatest brightness.
pub open spec fn percent_of(brightness: nat, maximum: nat) -> nat {
    if maximum == 0 {
        0
    } else if (brightness * 100 + maximum / 2) / maximum > 100 {
        100
    } else {
        (brightness * 100 + maximum / 2) / maximum
    }
}

/// A brightness in percent.
pub fn percent(brightness: u64, maximum: u64) -> (percent: u8)
    ensures
        percent == percent_of(brightness as nat, maximum as nat),
        percent <= 100,
{
    if maximum == 0 {
        return 0;
    }
    let rounded: u128 = (brightness as u128 * 100 + maximum as u128 / 2) / maximum as u128;
    if rounded > 100 {
        100
    } else {
        rounded as u8
    }
}

/// A percentage as a brightness, rounded, but never dark and never too bright.
pub open spec fn raw_of(maximum: nat, percent: nat) -> nat {
    let rounded = ((maximum * percent + 50) / 100) % 0x1_0000_0000_0000_0000;
    if maximum == 0 {
        0
    } else if rounded < 1 {
        1
    } else if rounded > maximum {
        maximum
    } else {
        rounded
    }
}

/// A percentage as a brightness.
pub fn raw_brightness(maximum: u64, requested_percent: u8) -> (raw: u64)
    ensures
        raw == raw_of(maximum as nat, requested_percent as nat),
{
    if maximum == 0 {
        return 0;
    }
    assert(maximum as int * requested_percent as int <= u64::MAX * u8::MAX) by (nonlinear_arith)
        requires
            maximum <= u64::MAX,
            requested_percent <= u8::MAX,
    ;
    let rounded: u128 = (maximum as u128 * requested_percent as u128 + 50) / 100;
    let rounded: u64 = (rounded % 0x1_0000_0000_0000_0000) as u64;
    if rounded < 1 {
        1
    } else if rounded > maximum {
        maximum
    } else {
        rounded
    }
}

/// No percentage turns a backlight off or asks for more than it can.
pub proof fn brightness_stays_within_device(maximum: u64, percent: nat)
    requires
        maximum > 0,
    ensures
        1 <= raw_of(maximum as nat, percent) <= maximum,
{
}

/// On a backlight with a hundred levels or more, a percentage that is set is
/// the percentage that is read.
pub proof fn set_percentage_is_read_back(maximum: u64, percent: nat)
    requires
        maximum >= 100,
        1 <= percent <= 100,
    ensures
        percent_of(raw_of(maximum as nat, percent), maximum as nat) == percent,
{
    let product = maximum * percent;
    assert(product <= maximum * 100) by (nonlinear_arith)
        requires
            product == maximum * percent,
            percent <= 100,
    ;
    assert(product >= maximum) by (nonlinear_arith)
        requires
            product == maximum * percent,
            percent >= 1,
    ;
    let raw = (product + 50) / 100;
    assert(raw_of(maximum as nat, percent) == raw);
    // The rounding error is at most half a level, which is at most half a percent.
    let scaled = raw * 100 + maximum / 2;
    assert(scaled >= product + maximum / 2 - 49);
    assert(scaled <= product + maximum / 2 + 50);
    assert(scaled / maximum as int == percent) by (nonlinear_arith)
        requires
            product == maximum * percent,
            maximum >= 100,
            scaled >= product + maximum / 2 - 49,
            scaled <= product + maximum / 2 + 50,
            scaled < product + maximum,
    ;
}

/// The percentage that a step leads to.
pub open spec fn stepped(current: int, delta: int) -> int {
    if current + delta < 1 {
        1
    } else if current + delta > 100 {
        100
    } else {
        current + delta
    }
}

/// The percentage that a step from the brightness of a backlight leads to.
pub fn adjusted_percent(device: &BacklightDevice, delta_percent: i16) -> (target: u8)
    ensures
        target == stepped(
            percent_of(device.brightness as nat, device.max_brightness as nat) as int,
            delta_percent as int,
        ),
        1 <= target <= 100,
{
    let sum: i32 = percent(device.brightness, device.max_brightness) as i32 + delta_percent as i32;
    if sum < 1 {
        1
    } else if sum > 100 {
        100
    } else {
        sum as u8
    }
}

/// The sentence that refuses a percentage.
pub const INVALID_PERCENT: &'static str = "brightness percent must be between 1 and 100";

/// Whether a percentage can be asked for.
pub fn is_valid_percent(percent: u8) -> (valid: bool)
    ensures
        valid == (1 <= percent <= 100),
{
    1 <= percent && percent <= 100
}

impl BacklightDevice {
    /// The state to show of a backlight.
    pub fn state(&self) -> (state: BrightnessState)
        ensures
            state.deep_view() == (BrightnessStateModel {
                available: true,
                device: self.name@,
                brightness: self.brightness,
                max_brightness: self.max_brightness,
                percent: percent_of(self.brightness as nat, self.max_brightness as nat) as u8,
                error: None,
            }),
    {
        BrightnessState {
            available: true,
            device: self.name.clone(),
            brightness: self.brightness,
            max_brightness: self.max_brightness,
            percent: percent(self.brightness, self.max_brightness),
            error: None,
        }
    }

    /// The brightness to write for a percentage.
    pub fn target(&self, requested_percent: u8) -> (raw: u64)
        ensures
            raw == raw_of(self.max_brightness as nat, requested_percent as nat),
    {
        raw_brightness(self.max_brightness, requested_percent)
    }
}

/// Why a backlight cannot be used.
#[derive(Clone, Copy, Debug, PartialEq, Eq, Structural)]
pub enum BacklightError {
    /// Its greatest brightness cannot be read.
    Maximum,
    /// Its brightness cannot be read.
    Brightness,
}

impl DeepView for BacklightError {
    type V = BacklightError;

    open spec fn deep_view(&self) -> BacklightError {
        *self
    }
}

impl Record for BacklightError {
    fn same(&self, other: &Self) -> (same: bool) {
        *self == *other
    }

    fn copy(&self) -> (copy: Self) {
        *self
    }
}

/// The brightness of a backlight: the one that was asked for, else the one that
/// the hardware reports, which may lag behind.
pub open spec fn brightness_in(files: BacklightFilesModel) -> Option<nat> {
    match number_in(files.brightness, u64::MAX as nat) {
        Some(brightness) => Some(brightness),
        None => number_in(files.actual_brightness, u64::MAX as nat),
    }
}

/// A backlight out of its attributes. One without levels is none.
pub open spec fn device_in(files: BacklightFilesModel) -> Result<
    Option<BacklightDeviceModel>,
    BacklightError,
> {
    match (number_in(files.max_brightness, u64::MAX as nat), brightness_in(files)) {
        (None, _) => Err(BacklightError::Maximum),
        (Some(_), None) => Err(BacklightError::Brightness),
        (Some(maximum), Some(brightness)) => Ok(
            if maximum > 0 {
                Some(
                    BacklightDeviceModel {
                        name: files.name,
                        path: files.path,
                        brightness: brightness as u64,
                        max_brightness: maximum as u64,
                    },
                )
            } else {
                None
            },
        ),
    }
}

/// Reads a backlight.
pub fn read_device(files: BacklightFiles) -> (device: Result<Option<BacklightDevice>, BacklightError>)
    ensures
        match device {
            Ok(device) => device_in(files.deep_view()) == Ok::<_, BacklightError>(
                device.deep_view(),
            ),
            Err(error) => device_in(files.deep_view()) == Err::<Option<BacklightDeviceModel>, _>(
                error,
            ),
        },
{
    let maximum = match read_u64(&files.max_brightness) {
        Some(maximum) => maximum,
        None => return Err(BacklightError::Maximum),
    };
    let requested = read_u64(&files.brightness);
    let found = if requested.is_some() {
        requested
    } else {
        read_u64(&files.actual_brightness)
    };
    let brightness = match found {
        Some(brightness) => brightness,
        None => return Err(BacklightError::Brightness),
    };
    if maximum > 0 {
        Ok(
            Some(
                BacklightDevice {
                    name: files.name,
                    path: files.path,
                    brightness,
                    max_brightness: maximum,
                },
            ),
        )
    } else {
        Ok(None)
    }
}

/// The backlight with the most levels; of those, the last.
pub open spec fn finest(devices: Seq<BacklightDeviceModel>) -> Option<BacklightDeviceModel>
    decreases devices.len(),
{
    if devices.len() == 0 {
        None
    } else {
        match finest(devices.drop_last()) {
            Some(best) => if devices.last().max_brightness >= best.max_brightness {
                Some(devices.last())
            } else {
                Some(best)
            },
            None => Some(devices.last()),
        }
    }
}

/// Picks the backlight with the most levels.
pub fn choose_device(devices: &Vec<BacklightDevice>) -> (device: Option<BacklightDevice>)
    ensures
        device.deep_view() == finest(devices.deep_view()),
{
    if devices.len() == 0 {
        return None;
    }
    let ghost all = devices.deep_view();
    let mut best: usize = 0;
    let mut i: usize = 1;
    proof {
        assert(all.take(1).drop_last() =~= Seq::<BacklightDeviceModel>::empty());
        assert(all.take(1).last() == devices@[0].deep_view());
        assert(finest(all.take(1).drop_last()) is None);
    }
    while i < devices.len()
        invariant
            1 <= i <= devices@.len(),
            best < i,
            all == devices.deep_view(),
            finest(all.take(i as int)) == Some(devices@[best as int].deep_view()),
        decreases devices@.len() - i,
    {
        assert(all.take(i + 1).drop_last() =~= all.take(i as int));
        assert(all.take(i + 1).last() == devices@[i as int].deep_view());
        if devices[i].max_brightness >= devices[best].max_brightness {
            best = i;
        }
        i = i + 1;
    }
    assert(all.take(i as int) =~= all);
    Some(devices[best].copy())
}

/// No backlight has more levels than the one that is picked.
pub proof fn picked_backlight_is_finest(devices: Seq<BacklightDeviceModel>)
    ensures
        devices.len() > 0 ==> finest(devices) is Some,
        forall|i: int|
            0 <= i < devices.len() ==> (#[trigger] devices[i]).max_brightness <= finest(
                devices,
            )->0.max_brightness,
    decreases devices.len(),
{
    if devices.len() > 0 {
        let shorter = devices.drop_last();
        picked_backlight_is_finest(shorter);
        assert forall|i: int| 0 <= i < devices.len() implies (#[trigger] devices[i]).max_brightness
            <= finest(devices)->0.max_brightness by {
            if i < shorter.len() {
                assert(shorter[i] == devices[i]);
            }
        }
    }
}

// Laws

/// The percentage of a brightness is the nearest whole one: it is off by half of
/// one at most, a light that is off is at 0 and one at its greatest at 100.
pub proof fn percentage_is_nearest(brightness: nat, maximum: nat)
    ensures
        percent_of(brightness, maximum) <= 100,
        maximum == 0 ==> percent_of(brightness, maximum) == 0,
        maximum > 0 && brightness >= maximum ==> percent_of(brightness, maximum) == 100,
        maximum > 0 && brightness <= maximum ==> {
            &&& 2 * (percent_of(brightness, maximum) * maximum) <= 2 * (brightness * 100) + maximum
            &&& 2 * (brightness * 100) <= 2 * (percent_of(brightness, maximum) * maximum) + maximum
        },
{
    if maximum > 0 {
        lemma_nearest(brightness, maximum);
    }
}

/// A step adds to the percentage, and stops at 1 and at 100.
pub proof fn steps_stop_at_the_ends(current: int, delta: int)
    ensures
        1 <= stepped(current, delta) <= 100,
        1 <= current + delta <= 100 ==> stepped(current, delta) == current + delta,
        current + delta < 1 ==> stepped(current, delta) == 1,
        current + delta > 100 ==> stepped(current, delta) == 100,
{
}

/// A light is read from its files: its greatest brightness from the one, its
/// brightness from the other, or from the actual brightness where that one
/// cannot be read; one that cannot be lit is left out.
pub proof fn backlight_is_read_from_its_files(files: BacklightFilesModel)
    ensures
        ({
            let maximum = number_in(files.max_brightness, u64::MAX as nat);
            let wanted = number_in(files.brightness, u64::MAX as nat);
            let actual = number_in(files.actual_brightness, u64::MAX as nat);
            &&& device_in(files) is Ok <==> maximum is Some && (wanted is Some || actual is Some)
            &&& maximum is None ==> device_in(files) == Err::<
                Option<BacklightDeviceModel>,
                BacklightError,
            >(BacklightError::Maximum)
            &&& device_in(files) matches Ok(found) ==> {
                &&& found is Some <==> maximum->0 > 0
                &&& found matches Some(device) ==> {
                    &&& device.name == files.name
                    &&& device.path == files.path
                    &&& device.max_brightness == maximum->0 as u64
                    &&& wanted is Some ==> device.brightness == wanted->0 as u64
                    &&& wanted is None ==> device.brightness == actual->0 as u64
                }
            }
        }),
{
}

/// What is written for a percentage is the nearest step of the device to it, and
/// at least one.
pub proof fn written_step_is_nearest(maximum: nat, percent: nat)
    requires
        0 < maximum <= u64::MAX,
        percent <= 100,
        raw_of(maximum, percent) > 1,
    ensures
        raw_of(maximum, percent) * 100 <= maximum * percent + 50,
        maximum * percent <= raw_of(maximum, percent) * 100 + 50,
{
    let product = maximum * percent;
    assert(product <= maximum * 100) by (nonlinear_arith)
        requires
            product == maximum * percent,
            percent <= 100,
    ;
    let rounded = (product + 50) / 100;
    assert(rounded <= maximum);
    assert(rounded % 0x1_0000_0000_0000_0000 == rounded);
}

} // verus!
