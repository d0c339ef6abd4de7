//! Locking the session and putting the machine to sleep.

use vstd::prelude::*;

use crate::model::{
    PowerSleepState, PowerSleepStateModel, SleepInhibitor, SleepInhibitorModel,
};
use crate::record::Record;
use crate::text::{joined, same_text};

verus! {

/// What a user can ask for.
#[derive(Clone, Copy, Debug, PartialEq, Eq, Structural)]
pub enum SleepAction {
    Lock,
    Suspend,
    Hibernate,
}

impl DeepView for SleepAction {
    type V = SleepAction;

    open spec fn deep_view(&self) -> SleepAction {
        *self
    }
}

impl Record for SleepAction {
    fn same(&self, other: &Self) -> (same: bool) {
        *self == *other
    }

    fn copy(&self) -> (copy: Self) {
        *self
    }
}

/// A request to the session manager.
#[derive(Clone, Copy, Debug, PartialEq, Eq, Structural)]
pub enum SleepStep {
    LockSession,
    Suspend,
    Hibernate,
}

impl DeepView for SleepStep {
    type V = SleepStep;

    open spec fn deep_view(&self) -> SleepStep {
        *self
    }
}

impl Record for SleepStep {
    fn same(&self, other: &Self) -> (same: bool) {
        *self == *other
    }

    fn copy(&self) -> (copy: Self) {
        *self
    }
}

/// What a user asks for by a name.
pub open spec fn action_named(name: Seq<char>) -> Option<SleepAction> {
    if name == "lock"@ {
        Some(SleepAction::Lock)
    } else if name == "suspend"@ {
        Some(SleepAction::Suspend)
    } else if name == "hibernate"@ {
        Some(SleepAction::Hibernate)
    } else {
        None
    }
}

impl SleepAction {
    /// Finds what a user asks for by a name.
    pub fn from_name(name: &str) -> (action: Result<SleepAction, String>)
        ensures
            match action {
                Ok(action) => action_named(name@) == Some(action),
                Err(message) => action_named(name@) is None && message@
                    == "unsupported power and sleep action: "@ + name@,
            },
    {
        if same_text(name, "lock") {
            Ok(SleepAction::Lock)
        } else if same_text(name, "suspend") {
            Ok(SleepAction::Suspend)
        } else if same_text(name, "hibernate") {
            Ok(SleepAction::Hibernate)
        } else {
            Err(joined("unsupported power and sleep action: ", name))
        }
    }
}

/// Whether the session manager can do something, perhaps after it has asked the user who they are.
pub open spec fn is_available(capability: Seq<char>) -> bool {
    capability == "yes"@ || capability == "challenge"@
}

/// Whether the session manager can do something.
pub fn capability_available(value: &str) -> (available: bool)
    ensures
        available == is_available(value@),
{
    same_text(value, "yes") || same_text(value, "challenge")
}

/// Why something that a user asks for cannot be done.
pub open spec fn refusal(action: SleepAction, state: PowerSleepStateModel) -> Option<Seq<char>> {
    match action {
        SleepAction::Lock => None,
        SleepAction::Suspend => if is_available(state.can_suspend) {
            None
        } else {
            Some("suspend is unavailable: "@ + state.can_suspend)
        },
        SleepAction::Hibernate => if is_available(state.can_hibernate) {
            None
        } else {
            Some("hibernate is unavailable: "@ + state.can_hibernate)
        },
    }
}

/// The requests that do what a user asks for, in order.
pub open spec fn steps_of(action: SleepAction) -> Seq<SleepStep> {
    match action {
        SleepAction::Lock => seq![SleepStep::LockSession],
        SleepAction::Suspend => seq![SleepStep::LockSession, SleepStep::Suspend],
        SleepAction::Hibernate => seq![SleepStep::LockSession, SleepStep::Hibernate],
    }
}

/// Plans the requests that do what a user asks for, unless it cannot be done.
pub fn plan(action: SleepAction, state: &PowerSleepState) -> (steps: Result<Vec<SleepStep>, String>)
    ensures
        match steps {
            Ok(steps) => refusal(action, state.deep_view()) is None && steps@ == steps_of(action),
            Err(message) => refusal(action, state.deep_view()) == Some(message@),
        },
{
    let mut steps: Vec<SleepStep> = Vec::new();
    steps.push(SleepStep::LockSession);
    match action {
        SleepAction::Lock => {},
        SleepAction::Suspend => {
            if !capability_available(state.can_suspend.as_str()) {
                return Err(joined("suspend is unavailable: ", state.can_suspend.as_str()));
            }
            steps.push(SleepStep::Suspend);
        },
        SleepAction::Hibernate => {
            if !capability_available(state.can_hibernate.as_str()) {
                return Err(joined("hibernate is unavailable: ", state.can_hibernate.as_str()));
            }
            steps.push(SleepStep::Hibernate);
        },
    }
    assert(steps@ =~= steps_of(action));
    Ok(steps)
}

/// The session is locked before the machine goes to sleep, always.
pub proof fn session_is_locked_before_sleep(action: SleepAction)
    ensures
        steps_of(action).len() > 0,
        steps_of(action)[0] == SleepStep::LockSession,
        forall|i: int|
            0 < i < steps_of(action).len() ==> #[trigger] steps_of(action)[i]
                != SleepStep::LockSession,
{
}

/// The state to show, given what the session manager tells.
pub open spec fn state_of(
    can_suspend: Seq<char>,
    can_hibernate: Seq<char>,
    inhibitors: Seq<SleepInhibitorModel>,
    preparing: bool,
) -> PowerSleepStateModel {
    PowerSleepStateModel {
        available: true,
        can_suspend,
        can_hibernate,
        preparing_for_sleep: preparing,
        lock_before_sleep: true,
        inhibitors,
        error: None,
    }
}

/// The state to show, given what the session manager tells.
pub fn sleep_state(
    can_suspend: String,
    can_hibernate: String,
    inhibitors: Vec<SleepInhibitor>,
    preparing_for_sleep: bool,
) -> (state: PowerSleepState)
    ensures
        state.deep_view() == state_of(
            can_suspend@,
            can_hibernate@,
            inhibitors.deep_view(),
            preparing_for_sleep,
        ),
{
    PowerSleepState {
        available: true,
        can_suspend,
        can_hibernate,
        preparing_for_sleep,
        lock_before_sleep: true,
        inhibitors,
        error: None,
    }
}

/// The state to show where the session manager does not answer.
pub fn failed_state(error: String, preparing_for_sleep: bool) -> (state: PowerSleepState)
    ensures
        state.deep_view() == (PowerSleepStateModel {
            error: Some(error@),
            preparing_for_sleep,
            lock_before_sleep: true,
            ..PowerSleepStateModel::initial()
        }),
{
    PowerSleepState {
        error: Some(error),
        preparing_for_sleep,
        lock_before_sleep: true,
        ..PowerSleepState::default()
    }
}

// Laws

/// An action is what its name says: a session that is only locked does nothing
/// else, and the machine suspends or hibernates if and only if that was asked
/// for.
pub proof fn asked_for_sleep_is_carried_out(name: Seq<char>)
    ensures
        action_named(name) is Some <==> name == "lock"@ || name == "suspend"@ || name
            == "hibernate"@,
        action_named(name) matches Some(action) ==> {
            &&& steps_of(action).contains(SleepStep::Suspend) <==> name == "suspend"@
            &&& steps_of(action).contains(SleepStep::Hibernate) <==> name == "hibernate"@
            &&& name == "lock"@ ==> steps_of(action).len() == 1
            &&& steps_of(action)[0] == SleepStep::LockSession
            &&& steps_of(action).len() <= 2
        },
{
    reveal_strlit("lock");
    reveal_strlit("suspend");
    reveal_strlit("hibernate");
    assert("lock"@.len() == 4 && "suspend"@.len() == 7 && "hibernate"@.len() == 9);
    if let Some(action) = action_named(name) {
        let steps = steps_of(action);
        if name == "suspend"@ {
            assert(steps[1] == SleepStep::Suspend);
        }
        if name == "hibernate"@ {
            assert(steps[1] == SleepStep::Hibernate);
        }
    }
}

/// Locking is never refused. Suspending is refused by what is told of suspending
/// alone, and hibernating by what is told of hibernating alone: unless it is
/// `yes` or `challenge`.
pub proof fn sleep_is_refused_where_it_cannot_be(state: PowerSleepStateModel)
    ensures
        refusal(SleepAction::Lock, state) is None,
        refusal(SleepAction::Suspend, state) is None <==> state.can_suspend == "yes"@
            || state.can_suspend == "challenge"@,
        refusal(SleepAction::Hibernate, state) is None <==> state.can_hibernate == "yes"@
            || state.can_hibernate == "challenge"@,
        refusal(SleepAction::Suspend, state) matches Some(message) ==> message
            == "suspend is unavailable: "@ + state.can_suspend,
        refusal(SleepAction::Hibernate, state) matches Some(message) ==> message
            == "hibernate is unavailable: "@ + state.can_hibernate,
{
}

/// What is shown of sleep is what the session manager told, each under its name.
pub proof fn sleep_shows_what_was_told(
    can_suspend: Seq<char>,
    can_hibernate: Seq<char>,
    inhibitors: Seq<SleepInhibitorModel>,
    preparing: bool,
)
    ensures
        ({
            let state = state_of(can_suspend, can_hibernate, inhibitors, preparing);
            &&& state.available
            &&& state.can_suspend == can_suspend
            &&& state.can_hibernate == can_hibernate
            &&& state.preparing_for_sleep == preparing
            &&& state.lock_before_sleep
            &&& state.inhibitors == inhibitors
            &&& state.error is None
        }),
{
}

} // verus!
