//! Power profiles.

use vstd::prelude::*;

use crate::model::{
    BatteryState, BatteryStateModel, PowerProfile, PowerProfileAction, PowerProfileActionModel,
    PowerProfileHold, PowerProfileHoldModel, PowerProfileModel, PowerProfileState,
    PowerProfileStateModel,
};
use crate::properties::{
    flag_under, property_bool, property_string, property_string_or_empty, text_or_empty,
    text_under, Property, PropertyModel,
};
use crate::text::{joined, same_text};

verus! {

/// Who holds a profile on behalf of the daemon.
pub const HOLD_APPLICATION_ID: &'static str = "org.laufan.BarDaemon";

/// Why the daemon holds a profile.
pub const HOLD_REASON: &'static str = "Battery level is low";

/// The profile that the daemon holds.
pub const HOLD_PROFILE: &'static str = "power-saver";

// Reading

/// What the power daemon tells of itself.
#[derive(Debug, PartialEq, Eq)]
pub struct PowerReading {
    pub profile: String,
    pub profiles: Vec<Vec<Property>>,
    pub actions_info: Vec<Vec<Property>>,
    pub actions: Vec<String>,
    pub holds: Vec<Vec<Property>>,
    pub performance_degraded: String,
    pub version: String,
    pub battery_aware: Option<bool>,
}

/// A profile out of its dictionary. Without a name it is none.
pub open spec fn profile_in(values: Seq<PropertyModel>) -> Option<PowerProfileModel> {
    match text_under(values, "Profile"@) {
        Some(name) => Some(
            PowerProfileModel {
                name,
                driver: match text_under(values, "Driver"@) {
                    Some(driver) => driver,
                    None => text_or_empty(values, "CpuDriver"@),
                },
                platform_driver: text_or_empty(values, "PlatformDriver"@),
            },
        ),
        None => None,
    }
}

/// An action out of its dictionary. Without a name it is none.
pub open spec fn action_in(values: Seq<PropertyModel>) -> Option<PowerProfileActionModel> {
    match text_under(values, "Action"@) {
        Some(name) => Some(
            PowerProfileActionModel {
                name,
                description: text_or_empty(values, "Description"@),
                enabled: flag_under(values, "Enabled"@) != Some(false),
            },
        ),
        None => None,
    }
}

/// A hold out of its dictionary. Without a program and a profile it is none.
pub open spec fn hold_in(values: Seq<PropertyModel>) -> Option<PowerProfileHoldModel> {
    match (text_under(values, "ApplicationId"@), text_under(values, "Profile"@)) {
        (Some(application_id), Some(profile)) => Some(
            PowerProfileHoldModel {
                application_id,
                profile,
                reason: text_or_empty(values, "Reason"@),
            },
        ),
        _ => None,
    }
}

/// Reads a profile.
pub fn parse_profile(values: &Vec<Property>) -> (profile: Option<PowerProfile>)
    ensures
        profile.deep_view() == profile_in(values.deep_view()),
{
    match property_string(values, "Profile") {
        Some(name) => {
            let driver = match property_string(values, "Driver") {
                Some(driver) => driver,
                None => property_string_or_empty(values, "CpuDriver"),
            };
            Some(
                PowerProfile {
                    name,
                    driver,
                    platform_driver: property_string_or_empty(values, "PlatformDriver"),
                },
            )
        },
        None => None,
    }
}

/// Reads an action.
pub fn parse_action(values: &Vec<Property>) -> (action: Option<PowerProfileAction>)
    ensures
        action.deep_view() == action_in(values.deep_view()),
{
    match property_string(values, "Action") {
        Some(name) => Some(
            PowerProfileAction {
                name,
                description: property_string_or_empty(values, "Description"),
                enabled: match property_bool(values, "Enabled") {
                    Some(enabled) => enabled,
                    None => true,
                },
            },
        ),
        None => None,
    }
}

/// Reads a hold.
pub fn parse_hold(values: &Vec<Property>) -> (hold: Option<PowerProfileHold>)
    ensures
        hold.deep_view() == hold_in(values.deep_view()),
{
    match (property_string(values, "ApplicationId"), property_string(values, "Profile")) {
        (Some(application_id), Some(profile)) => Some(
            PowerProfileHold {
                application_id,
                profile,
                reason: property_string_or_empty(values, "Reason"),
            },
        ),
        _ => None,
    }
}

/// The profiles among dictionaries.
pub open spec fn profiles_in(values: Seq<Seq<PropertyModel>>) -> Seq<PowerProfileModel>
    decreases values.len(),
{
    if values.len() == 0 {
        Seq::empty()
    } else {
        match profile_in(values.last()) {
            Some(profile) => profiles_in(values.drop_last()).push(profile),
            None => profiles_in(values.drop_last()),
        }
    }
}

/// The actions among dictionaries.
pub open spec fn actions_in(values: Seq<Seq<PropertyModel>>) -> Seq<PowerProfileActionModel>
    decreases values.len(),
{
    if values.len() == 0 {
        Seq::empty()
    } else {
        match action_in(values.last()) {
            Some(action) => actions_in(values.drop_last()).push(action),
            None => actions_in(values.drop_last()),
        }
    }
}

/// The holds among dictionaries.
pub open spec fn holds_in(values: Seq<Seq<PropertyModel>>) -> Seq<PowerProfileHoldModel>
    decreases values.len(),
{
    if values.len() == 0 {
        Seq::empty()
    } else {
        match hold_in(values.last()) {
            Some(hold) => holds_in(values.drop_last()).push(hold),
            None => holds_in(values.drop_last()),
        }
    }
}

/// An action of which only the name is known.
pub open spec fn named_action(name: Seq<char>) -> PowerProfileActionModel {
    PowerProfileActionModel { name, description: Seq::empty(), enabled: true }
}

/// The driver of the first profile with a name.
pub open spec fn driver_of(profiles: Seq<PowerProfileModel>, name: Seq<char>) -> Seq<char>
    decreases profiles.len(),
{
    if profiles.len() == 0 {
        Seq::empty()
    } else if profiles[0].name == name {
        profiles[0].driver
    } else {
        driver_of(profiles.skip(1), name)
    }
}

/// The state to show of power profiles. An old daemon tells only the names of actions.
pub open spec fn state_of(reading: PowerReading) -> PowerProfileStateModel {
    let profiles = profiles_in(reading.profiles.deep_view());
    let actions = actions_in(reading.actions_info.deep_view());
    PowerProfileStateModel {
        available: true,
        profile: reading.profile@,
        driver: driver_of(profiles, reading.profile@),
        profiles,
        performance_degraded: reading.performance_degraded@,
        version: reading.version@,
        battery_aware: reading.battery_aware,
        actions: if actions.len() == 0 {
            reading.actions.deep_view().map_values(|name: Seq<char>| named_action(name))
        } else {
            actions
        },
        active_holds: holds_in(reading.holds.deep_view()),
        error: None,
    }
}

fn read_profiles(values: &Vec<Vec<Property>>) -> (profiles: Vec<PowerProfile>)
    ensures
        profiles.deep_view() == profiles_in(values.deep_view()),
{
    let ghost all = values.deep_view();
    let mut profiles: Vec<PowerProfile> = Vec::new();
    let mut i: usize = 0;
    assert(all.take(0) =~= Seq::<Seq<PropertyModel>>::empty());
    assert(profiles.deep_view() =~= Seq::<PowerProfileModel>::empty());
    while i < values.len()
        invariant
            i <= values@.len(),
            all == values.deep_view(),
            profiles.deep_view() == profiles_in(all.take(i as int)),
        decreases values@.len() - i,
    {
        assert(all.take(i + 1).drop_last() =~= all.take(i as int));
        assert(all.take(i + 1).last() == values@[i as int].deep_view());
        let ghost before = profiles.deep_view();
        if let Some(profile) = parse_profile(&values[i]) {
            profiles.push(profile);
            assert(profiles.deep_view() =~= before.push(profile.deep_view()));
        }
        i = i + 1;
    }
    assert(all.take(i as int) =~= all);
    profiles
}

fn read_actions(values: &Vec<Vec<Property>>) -> (actions: Vec<PowerProfileAction>)
    ensures
        actions.deep_view() == actions_in(values.deep_view()),
{
    let ghost all = values.deep_view();
    let mut actions: Vec<PowerProfileAction> = Vec::new();
    let mut i: usize = 0;
    assert(all.take(0) =~= Seq::<Seq<PropertyModel>>::empty());
    assert(actions.deep_view() =~= Seq::<PowerProfileActionModel>::empty());
    while i < values.len()
        invariant
            i <= values@.len(),
            all == values.deep_view(),
            actions.deep_view() == actions_in(all.take(i as int)),
        decreases values@.len() - i,
    {
        assert(all.take(i + 1).drop_last() =~= all.take(i as int));
        assert(all.take(i + 1).last() == values@[i as int].deep_view());
        let ghost before = actions.deep_view();
        if let Some(action) = parse_action(&values[i]) {
            actions.push(action);
            assert(actions.deep_view() =~= before.push(action.deep_view()));
        }
        i = i + 1;
    }
    assert(all.take(i as int) =~= all);
    actions
}

fn read_holds(values: &Vec<Vec<Property>>) -> (holds: Vec<PowerProfileHold>)
    ensures
        holds.deep_view() == holds_in(values.deep_view()),
{
    let ghost all = values.deep_view();
    let mut holds: Vec<PowerProfileHold> = Vec::new();
    let mut i: usize = 0;
    assert(all.take(0) =~= Seq::<Seq<PropertyModel>>::empty());
    assert(holds.deep_view() =~= Seq::<PowerProfileHoldModel>::empty());
    while i < values.len()
        invariant
            i <= values@.len(),
            all == values.deep_view(),
            holds.deep_view() == holds_in(all.take(i as int)),
        decreases values@.len() - i,
    {
        assert(all.take(i + 1).drop_last() =~= all.take(i as int));
        assert(all.take(i + 1).last() == values@[i as int].deep_view());
        let ghost before = holds.deep_view();
        if let Some(hold) = parse_hold(&values[i]) {
            holds.push(hold);
            assert(holds.deep_view() =~= before.push(hold.deep_view()));
        }
        i = i + 1;
    }
    assert(all.take(i as int) =~= all);
    holds
}

fn name_actions(names: &Vec<String>) -> (actions: Vec<PowerProfileAction>)
    ensures
        actions.deep_view() == names.deep_view().map_values(|name: Seq<char>| named_action(name)),
{
    let mut actions: Vec<PowerProfileAction> = Vec::new();
    let mut i: usize = 0;
    while i < names.len()
        invariant
            i <= names@.len(),
            actions@.len() == i,
            forall|k: int|
                0 <= k < i ==> (#[trigger] actions@[k]).deep_view() == named_action(names@[k]@),
        decreases names@.len() - i,
    {
        actions.push(
            PowerProfileAction {
                name: names[i].clone(),
                description: String::new(),
                enabled: true,
            },
        );
        i = i + 1;
    }
    assert(actions.deep_view() =~= names.deep_view().map_values(
        |name: Seq<char>| named_action(name),
    ));
    actions
}

fn find_driver(profiles: &Vec<PowerProfile>, name: &str) -> (driver: String)
    ensures
        driver@ == driver_of(profiles.deep_view(), name@),
{
    let ghost all = profiles.deep_view();
    let mut i: usize = 0;
    assert(all.skip(0) =~= all);
    while i < profiles.len()
        invariant
            i <= profiles@.len(),
            all == profiles.deep_view(),
            driver_of(all, name@) == driver_of(all.skip(i as int), name@),
        decreases profiles@.len() - i,
    {
        assert(all.skip(i as int)[0] == profiles@[i as int].deep_view());
        if same_text(profiles[i].name.as_str(), name) {
            return profiles[i].driver.clone();
        }
        assert(all.skip(i as int).skip(1) =~= all.skip(i + 1));
        i = i + 1;
    }
    String::new()
}

/// The state to show of power profiles.
pub fn read_state(reading: PowerReading) -> (state: PowerProfileState)
    ensures
        state.deep_view() == state_of(reading),
{
    let profiles = read_profiles(&reading.profiles);
    let described = read_actions(&reading.actions_info);
    assert(described.deep_view().len() == described@.len());
    let actions = if described.len() == 0 {
        name_actions(&reading.actions)
    } else {
        described
    };
    let active_holds = read_holds(&reading.holds);
    PowerProfileState {
        available: true,
        driver: find_driver(&profiles, reading.profile.as_str()),
        profile: reading.profile,
        profiles,
        performance_degraded: reading.performance_degraded,
        version: reading.version,
        battery_aware: reading.battery_aware,
        actions,
        active_holds,
        error: None,
    }
}

// Changing

/// Whether a profile is one that may be asked for.
pub open spec fn is_known_profile(profile: Seq<char>) -> bool {
    profile == "power-saver"@ || profile == "balanced"@ || profile == "performance"@
}

/// Whether the power daemon offers a profile.
pub open spec fn offers_profile(state: PowerProfileStateModel, profile: Seq<char>) -> bool {
    exists|i: int|
        0 <= i < state.profiles.len() && (#[trigger] state.profiles[i]).name == profile
}

/// Whether the power daemon offers an action.
pub open spec fn offers_action(state: PowerProfileStateModel, action: Seq<char>) -> bool {
    exists|i: int| 0 <= i < state.actions.len() && (#[trigger] state.actions[i]).name == action
}

/// Refuses a profile that nobody may ask for.
pub fn check_known_profile(profile: &str) -> (result: Result<(), String>)
    ensures
        match result {
            Ok(()) => is_known_profile(profile@),
            Err(message) => !is_known_profile(profile@) && message@ == "unsupported power profile: "@
                + profile@,
        },
{
    if same_text(profile, "power-saver") || same_text(profile, "balanced") || same_text(
        profile,
        "performance",
    ) {
        Ok(())
    } else {
        Err(joined("unsupported power profile: ", profile))
    }
}

/// Refuses a profile that the power daemon does not offer.
pub fn check_offered_profile(state: &PowerProfileState, profile: &str) -> (result: Result<(), String>)
    ensures
        match result {
            Ok(()) => offers_profile(state.deep_view(), profile@),
            Err(message) => !offers_profile(state.deep_view(), profile@) && message@
                == "power profile is unavailable: "@ + profile@,
        },
{
    let mut i: usize = 0;
    while i < state.profiles.len()
        invariant
            i <= state.profiles@.len(),
            forall|k: int|
                0 <= k < i ==> (#[trigger] state.deep_view().profiles[k]).name != profile@,
        decreases state.profiles@.len() - i,
    {
        assert(state.deep_view().profiles[i as int] == state.profiles@[i as int].deep_view());
        if same_text(state.profiles[i].name.as_str(), profile) {
            return Ok(());
        }
        i = i + 1;
    }
    Err(joined("power profile is unavailable: ", profile))
}

/// Refuses to say whether the power daemon heeds the battery where it never says so itself.
pub fn check_battery_aware(state: &PowerProfileState) -> (result: Result<(), &'static str>)
    ensures
        match result {
            Ok(()) => state.battery_aware is Some,
            Err(message) => state.battery_aware is None && message@
                == "Power Profiles service does not expose battery-aware control"@,
        },
{
    if state.battery_aware.is_none() {
        Err("Power Profiles service does not expose battery-aware control")
    } else {
        Ok(())
    }
}

/// Refuses an action that the power daemon does not offer.
pub fn check_action(state: &PowerProfileState, action: &str) -> (result: Result<(), String>)
    ensures
        match result {
            Ok(()) => offers_action(state.deep_view(), action@),
            Err(message) => !offers_action(state.deep_view(), action@) && message@
                == "power profile action is unavailable: "@ + action@,
        },
{
    let mut i: usize = 0;
    while i < state.actions.len()
        invariant
            i <= state.actions@.len(),
            forall|k: int|
                0 <= k < i ==> (#[trigger] state.deep_view().actions[k]).name != action@,
        decreases state.actions@.len() - i,
    {
        assert(state.deep_view().actions[i as int] == state.actions@[i as int].deep_view());
        if same_text(state.actions[i].name.as_str(), action) {
            return Ok(());
        }
        i = i + 1;
    }
    Err(joined("power profile action is unavailable: ", action))
}

// Low battery

/// Whether the battery is so low that power should be saved.
pub open spec fn is_low(battery: BatteryStateModel) -> bool {
    battery.available && battery.policy.auto_power_saver && battery.warning && !battery.plugged
}

/// Whether the battery is so low that power should be saved.
pub fn should_hold_power_saver(battery: &BatteryState) -> (hold: bool)
    ensures
        hold == is_low(battery.deep_view()),
{
    battery.available && battery.policy.auto_power_saver && battery.warning && !battery.plugged
}

/// The hold on a profile while the battery is low. Once the user has picked a
/// profile, none is taken until the battery is no longer low.
#[derive(Clone, Copy, Debug, PartialEq, Eq, Structural)]
pub struct LowBatteryHold {
    pub cookie: Option<u32>,
    pub overridden: bool,
}

/// What to do about the hold.
#[derive(Clone, Copy, Debug, PartialEq, Eq, Structural)]
pub enum HoldAction {
    /// Nothing.
    Keep,
    /// Take a hold.
    Hold,
    /// Give a hold up.
    Release(u32),
}

impl Default for LowBatteryHold {
    fn default() -> (hold: LowBatteryHold)
        ensures
            hold == (LowBatteryHold { cookie: None, overridden: false }),
    {
        LowBatteryHold { cookie: None, overridden: false }
    }
}

impl LowBatteryHold {
    /// What to do to give up the hold, where there is one.
    pub open spec fn release_action(self) -> HoldAction {
        match self.cookie {
            Some(cookie) => HoldAction::Release(cookie),
            None => HoldAction::Keep,
        }
    }

    /// The hold, and what to do about it, once the battery was looked at.
    pub open spec fn reconciled(self, battery: BatteryStateModel) -> (LowBatteryHold, HoldAction) {
        if !is_low(battery) {
            (LowBatteryHold { cookie: None, overridden: false }, self.release_action())
        } else if self.cookie is Some || self.overridden {
            (self, HoldAction::Keep)
        } else {
            (self, HoldAction::Hold)
        }
    }

    /// The hold, and what to do about it, once the user picked a profile.
    pub open spec fn picked(self, battery: BatteryStateModel) -> (LowBatteryHold, HoldAction) {
        (LowBatteryHold { cookie: None, overridden: is_low(battery) }, self.release_action())
    }

    /// Looks at the battery. Gives what to do about the hold.
    pub fn reconcile(&mut self, battery: &BatteryState) -> (action: HoldAction)
        ensures
            (*final(self), action) == old(self).reconciled(battery.deep_view()),
    {
        if !should_hold_power_saver(battery) {
            let action = match self.cookie {
                Some(cookie) => HoldAction::Release(cookie),
                None => HoldAction::Keep,
            };
            self.cookie = None;
            self.overridden = false;
            return action;
        }
        if self.cookie.is_some() || self.overridden {
            HoldAction::Keep
        } else {
            HoldAction::Hold
        }
    }

    /// Takes in that a hold was taken.
    pub fn held(&mut self, cookie: u32)
        ensures
            *final(self) == (LowBatteryHold { cookie: Some(cookie), ..*old(self) }),
    {
        self.cookie = Some(cookie);
    }

    /// Takes in that the user picked a profile. Gives what to do about the hold.
    pub fn profile_picked(&mut self, battery: &BatteryState) -> (action: HoldAction)
        ensures
            (*final(self), action) == old(self).picked(battery.deep_view()),
    {
        let action = match self.cookie {
            Some(cookie) => HoldAction::Release(cookie),
            None => HoldAction::Keep,
        };
        self.cookie = None;
        self.overridden = should_hold_power_saver(battery);
        action
    }
}

/// The hold once the battery was looked at again and again.
pub open spec fn after_looks(hold: LowBatteryHold, looks: Seq<BatteryStateModel>) -> LowBatteryHold
    decreases looks.len(),
{
    if looks.len() == 0 {
        hold
    } else {
        after_looks(hold, looks.drop_last()).reconciled(looks.last()).0
    }
}

/// The profile that the user picks while the battery is low is respected until
/// it is no longer low: the hold is given up, and none is taken however often
/// the battery is looked at. The next time that the battery is low, one is.
pub proof fn picked_profile_is_respected(
    hold: LowBatteryHold,
    battery: BatteryStateModel,
    looks: Seq<BatteryStateModel>,
    recovered: BatteryStateModel,
)
    requires
        is_low(battery),
        forall|i: int| 0 <= i < looks.len() ==> is_low(#[trigger] looks[i]),
        !is_low(recovered),
    ensures
        hold.picked(battery).1 == hold.release_action(),
        after_looks(hold.picked(battery).0, looks) == hold.picked(battery).0,
        after_looks(hold.picked(battery).0, looks).reconciled(battery).1 == HoldAction::Keep,
        after_looks(hold.picked(battery).0, looks).reconciled(recovered).0.reconciled(battery).1
            == HoldAction::Hold,
    decreases looks.len(),
{
    if looks.len() > 0 {
        assert forall|i: int| 0 <= i < looks.drop_last().len() implies is_low(
            #[trigger] looks.drop_last()[i],
        ) by {
            assert(looks.drop_last()[i] == looks[i]);
        }
        picked_profile_is_respected(hold, battery, looks.drop_last(), recovered);
        assert(looks.last() == looks[looks.len() - 1]);
    }
}

/// A hold is given up as soon as the battery is no longer low, and no second
/// one is taken while there is one.
pub proof fn hold_lasts_while_battery_is_low(
    hold: LowBatteryHold,
    cookie: u32,
    battery: BatteryStateModel,
)
    requires
        hold.cookie == Some(cookie),
    ensures
        hold.reconciled(battery).1 == if is_low(battery) {
            HoldAction::Keep
        } else {
            HoldAction::Release(cookie)
        },
        hold.reconciled(battery).0.cookie is Some == is_low(battery),
{
}

// Laws

/// The entries that name a profile are the profiles, in order, each with its
/// drivers; the others are left out.
pub proof fn profiles_are_those_named(values: Seq<Seq<PropertyModel>>, entry: Seq<PropertyModel>)
    ensures
        profiles_in(Seq::empty()).len() == 0,
        text_under(entry, "Profile"@) is None ==> profiles_in(values.push(entry)) == profiles_in(
            values,
        ),
        text_under(entry, "Profile"@) matches Some(name) ==> {
            let after = profiles_in(values.push(entry));
            &&& after.len() == profiles_in(values).len() + 1
            &&& after.drop_last() == profiles_in(values)
            &&& after.last().name == name
            &&& text_under(entry, "Driver"@) matches Some(driver) ==> after.last().driver == driver
            &&& text_under(entry, "Driver"@) is None ==> after.last().driver == text_or_empty(
                entry,
                "CpuDriver"@,
            )
            &&& after.last().platform_driver == text_or_empty(entry, "PlatformDriver"@)
        },
{
    assert(values.push(entry).drop_last() =~= values);
    if let Some(profile) = profile_in(entry) {
        assert(profiles_in(values).push(profile).drop_last() =~= profiles_in(values));
    }
}

/// The entries that name an action are the actions, in order, turned on unless
/// they say otherwise.
pub proof fn actions_are_those_named(values: Seq<Seq<PropertyModel>>, entry: Seq<PropertyModel>)
    ensures
        actions_in(Seq::empty()).len() == 0,
        text_under(entry, "Action"@) is None ==> actions_in(values.push(entry)) == actions_in(
            values,
        ),
        text_under(entry, "Action"@) matches Some(name) ==> {
            let after = actions_in(values.push(entry));
            &&& after.len() == actions_in(values).len() + 1
            &&& after.drop_last() == actions_in(values)
            &&& after.last().name == name
            &&& after.last().description == text_or_empty(entry, "Description"@)
            &&& !after.last().enabled <==> flag_under(entry, "Enabled"@) == Some(false)
        },
{
    assert(values.push(entry).drop_last() =~= values);
    if let Some(action) = action_in(entry) {
        assert(actions_in(values).push(action).drop_last() =~= actions_in(values));
    }
}

/// The entries that name a program and a profile are the holds, in order.
pub proof fn holds_are_those_named(values: Seq<Seq<PropertyModel>>, entry: Seq<PropertyModel>)
    ensures
        ({
            let program = text_under(entry, "ApplicationId"@);
            let profile = text_under(entry, "Profile"@);
            let after = holds_in(values.push(entry));
            &&& holds_in(Seq::empty()).len() == 0
            &&& program is None || profile is None ==> after == holds_in(values)
            &&& program is Some && profile is Some ==> {
                &&& after.len() == holds_in(values).len() + 1
                &&& after.drop_last() == holds_in(values)
                &&& after.last().application_id == program->0
                &&& after.last().profile == profile->0
                &&& after.last().reason == text_or_empty(entry, "Reason"@)
            }
        }),
{
    assert(values.push(entry).drop_last() =~= values);
    if let Some(hold) = hold_in(entry) {
        assert(holds_in(values).push(hold).drop_last() =~= holds_in(values));
    }
}

/// What is shown of the profiles is what was told, each under its name; the driver
/// is that of the first profile with the name of the one in use.
pub proof fn power_shows_what_was_told(reading: PowerReading, at: int)
    ensures
        ({
            let state = state_of(reading);
            &&& state.available && state.error is None
            &&& state.profile == reading.profile@
            &&& state.performance_degraded == reading.performance_degraded@
            &&& state.version == reading.version@
            &&& state.battery_aware == reading.battery_aware
            &&& state.profiles == profiles_in(reading.profiles.deep_view())
            &&& state.active_holds == holds_in(reading.holds.deep_view())
            &&& actions_in(reading.actions_info.deep_view()).len() > 0 ==> state.actions
                == actions_in(reading.actions_info.deep_view())
            &&& actions_in(reading.actions_info.deep_view()).len() == 0 ==> state.actions.len()
                == reading.actions.deep_view().len() && (0 <= at < state.actions.len()
                ==> state.actions[at].name == reading.actions.deep_view()[at]
                && state.actions[at].enabled)
            &&& 0 <= at < state.profiles.len() && state.profiles[at].name == reading.profile@ && (
            forall|i: int|
                0 <= i < at ==> (#[trigger] state.profiles[i]).name != reading.profile@)
                ==> state.driver == state.profiles[at].driver
        }),
{
    let profiles = profiles_in(reading.profiles.deep_view());
    let name = reading.profile@;
    if 0 <= at < profiles.len() && profiles[at].name == name && (forall|i: int|
        0 <= i < at ==> (#[trigger] profiles[i]).name != name) {
        lemma_driver(profiles, name, at);
    }
}

proof fn lemma_driver(profiles: Seq<PowerProfileModel>, name: Seq<char>, at: int)
    requires
        0 <= at < profiles.len(),
        profiles[at].name == name,
        forall|i: int| 0 <= i < at ==> (#[trigger] profiles[i]).name != name,
    ensures
        driver_of(profiles, name) == profiles[at].driver,
    decreases profiles.len(),
{
    if at > 0 {
        assert(profiles[0].name != name);
        let rest = profiles.skip(1);
        assert forall|i: int| 0 <= i < at - 1 implies (#[trigger] rest[i]).name != name by {
            assert(rest[i] == profiles[i + 1]);
        }
        lemma_driver(rest, name, at - 1);
    }
}

/// A hold is taken when the battery runs low without external power and settings
/// ask for it, unless there is one or the user picked a profile since; it is
/// given up when that is over.
pub proof fn hold_is_taken_for_low_battery(hold: LowBatteryHold, battery: BatteryStateModel)
    ensures
        ({
            let low = battery.available && battery.policy.auto_power_saver && battery.warning
                && !battery.plugged;
            let (after, action) = hold.reconciled(battery);
            let (picked, release) = hold.picked(battery);
            &&& action == HoldAction::Hold <==> low && hold.cookie is None && !hold.overridden
            &&& action is Release <==> !low && hold.cookie is Some
            &&& action matches HoldAction::Release(cookie) ==> hold.cookie == Some(cookie)
            &&& low ==> after == hold
            &&& !low ==> after.cookie is None && !after.overridden
            &&& picked.cookie is None
            &&& picked.overridden <==> low
            &&& release == match hold.cookie {
                Some(cookie) => HoldAction::Release(cookie),
                None => HoldAction::Keep,
            }
        }),
{
}

/// These profiles are known, and no others.
pub proof fn three_profiles_are_known(profile: Seq<char>)
    ensures
        is_known_profile(profile) <==> profile == "power-saver"@ || profile == "balanced"@
            || profile == "performance"@,
{
}

/// A profile is offered, and an action, if and only if one of that name is shown.
pub proof fn shown_names_are_offered(state: PowerProfileStateModel, i: int, name: Seq<char>)
    ensures
        0 <= i < state.profiles.len() ==> offers_profile(state, state.profiles[i].name),
        0 <= i < state.actions.len() ==> offers_action(state, state.actions[i].name),
        (forall|k: int| 0 <= k < state.profiles.len() ==> (#[trigger] state.profiles[k]).name
            != name) ==> !offers_profile(state, name),
        (forall|k: int| 0 <= k < state.actions.len() ==> (#[trigger] state.actions[k]).name != name)
            ==> !offers_action(state, name),
{
}

} // verus!
