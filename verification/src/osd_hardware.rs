//! Keyboard lights and privacy switches.

use vstd::prelude::*;

use crate::battery::sysfs::{number_in, read_u64};
use crate::model::{OsdHardwareState, OsdHardwareStateModel};
use crate::record::Record;
use crate::text::{contains_text, lowercase, text_contains, to_lowercase};

verus! {

/// A light: its name, and the contents of its attributes where they can be read.
#[derive(Debug, PartialEq, Eq)]
pub struct Led {
    pub name: String,
    pub brightness: Option<String>,
    pub max_brightness: Option<String>,
}

/// What a [`Led`] holds.
#[verifier::ext_equal]
pub struct LedModel {
    pub name: Seq<char>,
    pub brightness: Option<Seq<char>>,
    pub max_brightness: Option<Seq<char>>,
}

impl DeepView for Led {
    type V = LedModel;

    open spec fn deep_view(&self) -> LedModel {
        LedModel {
            name: self.name.deep_view(),
            brightness: self.brightness.deep_view(),
            max_brightness: self.max_brightness.deep_view(),
        }
    }
}

impl Record for Led {
    fn same(&self, other: &Self) -> (same: bool) {
        self.name.same(&other.name)
            && self.brightness.same(&other.brightness)
            && self.max_brightness.same(&other.max_brightness)
    }

    fn copy(&self) -> (copy: Self) {
        Led {
            name: self.name.copy(),
            brightness: self.brightness.copy(),
            max_brightness: self.max_brightness.copy(),
        }
    }
}

impl Clone for Led {
    fn clone(&self) -> (copy: Self)
        ensures
            copy.deep_view() == self.deep_view(),
    {
        self.copy()
    }
}

/// What a light stands for.
#[derive(Clone, Copy, Debug, PartialEq, Eq, Structural)]
pub enum LedKind {
    CapsLock,
    NumLock,
    KeyboardBacklight,
    Microphone,
    Camera,
    Other,
}

impl DeepView for LedKind {
    type V = LedKind;

    open spec fn deep_view(&self) -> LedKind {
        *self
    }
}

impl Record for LedKind {
    fn same(&self, other: &Self) -> (same: bool) {
        *self == *other
    }

    fn copy(&self) -> (copy: Self) {
        *self
    }
}

/// What a light with a name stands for.
pub open spec fn kind_of(name: Seq<char>) -> LedKind {
    if text_contains(name, "capslock"@) {
        LedKind::CapsLock
    } else if text_contains(name, "numlock"@) {
        LedKind::NumLock
    } else if text_contains(name, "kbd_backlight"@) || text_contains(name, "keyboard-backlight"@) {
        LedKind::KeyboardBacklight
    } else if text_contains(name, "micmute"@) || text_contains(name, "microphone-mute"@) {
        LedKind::Microphone
    } else if text_contains(name, "cameramute"@) || text_contains(name, "camera-mute"@) {
        LedKind::Camera
    } else {
        LedKind::Other
    }
}

/// What a light with a name in lower case stands for.
pub fn led_kind(name: &str) -> (kind: LedKind)
    ensures
        kind == kind_of(name@),
{
    if contains_text(name, "capslock") {
        LedKind::CapsLock
    } else if contains_text(name, "numlock") {
        LedKind::NumLock
    } else if contains_text(name, "kbd_backlight") || contains_text(name, "keyboard-backlight") {
        LedKind::KeyboardBacklight
    } else if contains_text(name, "micmute") || contains_text(name, "microphone-mute") {
        LedKind::Microphone
    } else if contains_text(name, "cameramute") || contains_text(name, "camera-mute") {
        LedKind::Camera
    } else {
        LedKind::Other
    }
}

/// How bright a light is: dark where it cannot be told.
pub open spec fn brightness_of(led: LedModel) -> u64 {
    match number_in(led.brightness, u64::MAX as nat) {
        Some(brightness) => brightness as u64,
        None => 0,
    }
}

/// How bright a light can be: at least one level.
pub open spec fn maximum_of(led: LedModel) -> u64 {
    match number_in(led.max_brightness, u64::MAX as nat) {
        Some(maximum) => if maximum < 1 {
            1
        } else {
            maximum as u64
        },
        None => 1,
    }
}

/// The brightness of a light in percent, rounded down.
pub open spec fn led_percent(brightness: u64, maximum: u64) -> u8 {
    let scaled = if brightness * 100 > u64::MAX {
        u64::MAX as int
    } else {
        brightness * 100
    };
    if scaled / maximum as int > 100 {
        100
    } else {
        (scaled / maximum as int) as u8
    }
}

/// The state with one more light, which stands for something.
pub open spec fn with_led(
    state: OsdHardwareStateModel,
    kind: LedKind,
    brightness: u64,
    maximum: u64,
) -> OsdHardwareStateModel {
    let lit = brightness > 0;
    match kind {
        LedKind::CapsLock => OsdHardwareStateModel { caps_lock: state.caps_lock || lit, ..state },
        LedKind::NumLock => OsdHardwareStateModel { num_lock: state.num_lock || lit, ..state },
        LedKind::KeyboardBacklight => {
            let percent = led_percent(brightness, maximum);
            OsdHardwareStateModel {
                keyboard_backlight_percent: match state.keyboard_backlight_percent {
                    Some(current) => if current > percent {
                        Some(current)
                    } else {
                        Some(percent)
                    },
                    None => Some(percent),
                },
                ..state
            }
        },
        LedKind::Microphone => OsdHardwareStateModel {
            microphone_privacy: state.microphone_privacy || lit,
            ..state
        },
        LedKind::Camera => OsdHardwareStateModel {
            camera_privacy: state.camera_privacy || lit,
            ..state
        },
        LedKind::Other => state,
    }
}

/// The state that lights show.
pub open spec fn state_of(leds: Seq<LedModel>) -> OsdHardwareStateModel
    decreases leds.len(),
{
    if leds.len() == 0 {
        OsdHardwareStateModel { available: true, ..OsdHardwareStateModel::initial() }
    } else {
        let led = leds.last();
        with_led(
            state_of(leds.drop_last()),
            kind_of(lowercase(led.name)),
            brightness_of(led),
            maximum_of(led),
        )
    }
}

fn percent_of_led(brightness: u64, maximum: u64) -> (percent: u8)
    requires
        maximum > 0,
    ensures
        percent == led_percent(brightness, maximum),
{
    let scaled: u64 = if brightness > u64::MAX / 100 {
        u64::MAX
    } else {
        brightness * 100
    };
    let share: u64 = scaled / maximum;
    if share > 100 {
        100
    } else {
        share as u8
    }
}

/// Takes in one more light.
pub fn add_led(state: &mut OsdHardwareState, kind: LedKind, brightness: u64, maximum: u64)
    requires
        maximum > 0,
    ensures
        final(state).deep_view() == with_led(old(state).deep_view(), kind, brightness, maximum),
{
    let lit = brightness > 0;
    match kind {
        LedKind::CapsLock => {
            state.caps_lock = state.caps_lock || lit;
        },
        LedKind::NumLock => {
            state.num_lock = state.num_lock || lit;
        },
        LedKind::KeyboardBacklight => {
            let percent: u8 = percent_of_led(brightness, maximum);
            state.keyboard_backlight_percent = match state.keyboard_backlight_percent {
                Some(current) => if current > percent {
                    Some(current)
                } else {
                    Some(percent)
                },
                None => Some(percent),
            };
        },
        LedKind::Microphone => {
            state.microphone_privacy = state.microphone_privacy || lit;
        },
        LedKind::Camera => {
            state.camera_privacy = state.camera_privacy || lit;
        },
        LedKind::Other => {},
    }
}

/// The state that lights show.
pub fn read_state(leds: &Vec<Led>) -> (state: OsdHardwareState)
    ensures
        state.deep_view() == state_of(leds.deep_view()),
{
    let ghost all = leds.deep_view();
    let mut state = OsdHardwareState { available: true, ..OsdHardwareState::default() };
    let mut i: usize = 0;
    assert(all.take(0) =~= Seq::<LedModel>::empty());
    while i < leds.len()
        invariant
            i <= leds@.len(),
            all == leds.deep_view(),
            state.deep_view() == state_of(all.take(i as int)),
        decreases leds@.len() - i,
    {
        assert(all.take(i + 1).drop_last() =~= all.take(i as int));
        assert(all.take(i + 1).last() == leds@[i as int].deep_view());
        let led = &leds[i];
        let brightness: u64 = match read_u64(&led.brightness) {
            Some(brightness) => brightness,
            None => 0,
        };
        let maximum: u64 = match read_u64(&led.max_brightness) {
            Some(maximum) => if maximum < 1 {
                1
            } else {
                maximum
            },
            None => 1,
        };
        let kind = led_kind(to_lowercase(led.name.as_str()).as_str());
        add_led(&mut state, kind, brightness, maximum);
        i = i + 1;
    }
    assert(all.take(i as int) =~= all);
    state
}

// Laws

/// Whether some lamp whose name, whatever its case, holds a word is lit.
pub open spec fn some_lit(leds: Seq<LedModel>, kind: LedKind) -> bool {
    exists|i: int|
        0 <= i < leds.len() && kind_of(lowercase((#[trigger] leds[i]).name)) == kind
            && brightness_of(leds[i]) > 0
}

proof fn lemma_some_lit(leds: Seq<LedModel>, kind: LedKind)
    requires
        leds.len() > 0,
    ensures
        some_lit(leds, kind) <==> some_lit(leds.drop_last(), kind) || (kind_of(
            lowercase(leds.last().name),
        ) == kind && brightness_of(leds.last()) > 0),
{
    let shorter = leds.drop_last();
    if some_lit(shorter, kind) {
        let k = choose|i: int|
            0 <= i < shorter.len() && kind_of(lowercase((#[trigger] shorter[i]).name)) == kind
                && brightness_of(shorter[i]) > 0;
        assert(leds[k] == shorter[k]);
    }
    if some_lit(leds, kind) {
        let k = choose|i: int|
            0 <= i < leds.len() && kind_of(lowercase((#[trigger] leds[i]).name)) == kind
                && brightness_of(leds[i]) > 0;
        if k < leds.len() - 1 {
            assert(leds[k] == shorter[k]);
        }
    }
    assert(leds[leds.len() - 1] == leds.last());
}

/// A lock is on, and a microphone or a camera off, if and only if some lamp for it
/// is lit.
pub proof fn lit_lamps_are_shown(leds: Seq<LedModel>)
    ensures
        state_of(leds).available,
        state_of(leds).caps_lock <==> some_lit(leds, LedKind::CapsLock),
        state_of(leds).num_lock <==> some_lit(leds, LedKind::NumLock),
        state_of(leds).microphone_privacy <==> some_lit(leds, LedKind::Microphone),
        state_of(leds).camera_privacy <==> some_lit(leds, LedKind::Camera),
    decreases leds.len(),
{
    if leds.len() > 0 {
        lit_lamps_are_shown(leds.drop_last());
        lemma_some_lit(leds, LedKind::CapsLock);
        lemma_some_lit(leds, LedKind::NumLock);
        lemma_some_lit(leds, LedKind::Microphone);
        lemma_some_lit(leds, LedKind::Camera);
    }
}

/// The light of the keyboard is shown if and only if there is one, as the
/// brightest of them.
pub proof fn brightest_keyboard_light_is_shown(leds: Seq<LedModel>)
    ensures
        state_of(leds).keyboard_backlight_percent is Some <==> exists|i: int|
            0 <= i < leds.len() && kind_of(lowercase((#[trigger] leds[i]).name))
                == LedKind::KeyboardBacklight,
        state_of(leds).keyboard_backlight_percent matches Some(percent) ==> {
            &&& percent <= 100
            &&& forall|i: int|
                0 <= i < leds.len() && kind_of(lowercase((#[trigger] leds[i]).name))
                    == LedKind::KeyboardBacklight ==> led_percent(
                    brightness_of(leds[i]),
                    maximum_of(leds[i]),
                ) <= percent
            &&& exists|i: int|
                0 <= i < leds.len() && kind_of(lowercase((#[trigger] leds[i]).name))
                    == LedKind::KeyboardBacklight && led_percent(
                    brightness_of(leds[i]),
                    maximum_of(leds[i]),
                ) == percent
        },
    decreases leds.len(),
{
    if leds.len() > 0 {
        let shorter = leds.drop_last();
        brightest_keyboard_light_is_shown(shorter);
        let led = leds.last();
        let last = leds.len() - 1;
        assert(leds[last] == led);
        led_percent_is_a_part_of_the_whole(brightness_of(led), maximum_of(led));
        assert forall|i: int| 0 <= i < shorter.len() implies #[trigger] leds[i] == shorter[i] by {}
        if state_of(shorter).keyboard_backlight_percent is Some {
            let percent = state_of(shorter).keyboard_backlight_percent->0;
            let k = choose|i: int|
                0 <= i < shorter.len() && kind_of(lowercase((#[trigger] shorter[i]).name))
                    == LedKind::KeyboardBacklight && led_percent(
                    brightness_of(shorter[i]),
                    maximum_of(shorter[i]),
                ) == percent;
            assert(leds[k] == shorter[k]);
        } else {
            assert forall|i: int| 0 <= i < shorter.len() implies kind_of(
                lowercase((#[trigger] leds[i]).name),
            ) != LedKind::KeyboardBacklight by {
                assert(kind_of(lowercase(shorter[i].name)) != LedKind::KeyboardBacklight);
            }
        }
    }
}

/// A lamp at its greatest brightness is at 100 percent, one that is off at 0, and
/// any other at the part of the whole, rounded down.
pub proof fn led_percent_is_a_part_of_the_whole(brightness: u64, maximum: u64)
    requires
        maximum > 0,
    ensures
        led_percent(brightness, maximum) <= 100,
        brightness == 0 ==> led_percent(brightness, maximum) == 0,
        brightness <= maximum && maximum <= u64::MAX / 100 ==> {
            &&& led_percent(brightness, maximum) * maximum <= brightness * 100
            &&& brightness * 100 < (led_percent(brightness, maximum) + 1) * maximum
        },
{
    let scaled = brightness * 100;
    let part = scaled / maximum as int;
    assert(part * maximum <= scaled < (part + 1) * maximum) by (nonlinear_arith)
        requires
            maximum > 0,
            part == scaled / maximum as int,
    ;
    if brightness <= maximum && maximum <= u64::MAX / 100 {
        assert(part <= 100) by (nonlinear_arith)
            requires
                part * maximum <= scaled,
                scaled <= maximum * 100,
                maximum > 0,
        ;
        assert(part >= 0) by (nonlinear_arith)
            requires
                scaled < (part + 1) * maximum,
                scaled >= 0,
                maximum > 0,
        ;
        assert(led_percent(brightness, maximum) == part);
    }
    if brightness == 0 {
        assert(0int / maximum as int == 0) by (nonlinear_arith)
            requires
                maximum > 0,
        ;
    }
    assert(u64::MAX as int / maximum as int >= 0) by (nonlinear_arith)
        requires
            maximum > 0,
    ;
    assert(part >= 0) by (nonlinear_arith)
        requires
            part == scaled / maximum as int,
            scaled >= 0,
            maximum > 0,
    ;
}

/// A lamp is told by what its name holds: the lock of capitals before that of
/// digits, the light of the keyboard, the microphone and the camera.
pub proof fn lamps_are_told_by_name(name: Seq<char>)
    ensures
        kind_of(name) == LedKind::CapsLock <==> text_contains(name, "capslock"@),
        kind_of(name) == LedKind::NumLock <==> text_contains(name, "numlock"@) && !text_contains(
            name,
            "capslock"@,
        ),
        kind_of(name) == LedKind::KeyboardBacklight ==> text_contains(name, "kbd_backlight"@)
            || text_contains(name, "keyboard-backlight"@),
        kind_of(name) == LedKind::Microphone ==> text_contains(name, "micmute"@) || text_contains(
            name,
            "microphone-mute"@,
        ),
        kind_of(name) == LedKind::Camera ==> text_contains(name, "cameramute"@) || text_contains(
            name,
            "camera-mute"@,
        ),
        kind_of(name) == LedKind::Other ==> !text_contains(name, "kbd_backlight"@)
            && !text_contains(name, "keyboard-backlight"@) && !text_contains(name, "micmute"@)
            && !text_contains(name, "microphone-mute"@) && !text_contains(name, "cameramute"@)
            && !text_contains(name, "camera-mute"@),
{
}

/// A lamp is as bright as its file says, and off where that says nothing; its
/// greatest brightness is what its file says, and at least one.
pub proof fn lamps_are_as_bright_as_told(led: LedModel)
    ensures
        number_in(led.brightness, u64::MAX as nat) matches Some(told) ==> brightness_of(led) as nat
            == told,
        number_in(led.brightness, u64::MAX as nat) is None ==> brightness_of(led) == 0,
        number_in(led.max_brightness, u64::MAX as nat) matches Some(told) ==> told > 0
            ==> maximum_of(led) as nat == told,
        maximum_of(led) >= 1,
{
}

} // verus!
