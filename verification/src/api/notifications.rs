//! Requests about notifications.

use vstd::prelude::*;

use crate::activity::notifications::close_reason::DISMISSED;
use crate::activity::notifications::engine::{
    acted, can_act, closed, snoozed, EffectsModel, EngineEffects, EngineModel, NotificationEngine,
};
use crate::activity::notifications::model::NotificationSignalModel;
use crate::activity::notifications::table::has_id;
use crate::api::error::{ApiError, ApiErrorModel};
use crate::text::{decimal, decimal_text, joined3};

verus! {

/// How many notifications of the past a client gets that does not say.
pub const DEFAULT_HISTORY_LIMIT: usize = 50;

/// How many notifications of the past a client gets at most.
pub const MAX_HISTORY_LIMIT: usize = 200;

/// Reports that another program shows the notifications.
pub fn native_required() -> (error: ApiError)
    ensures
        error.deep_view() == ApiErrorModel::of(
            "native-notifications-required"@,
            "native notifications are disabled"@,
        ),
{
    ApiError::new("native-notifications-required", "native notifications are disabled")
}

/// Checks a request for notifications of the past. Gives how many of them are sent.
pub fn plan_history(before_history_id: Option<i64>, limit: usize) -> (result: Result<
    usize,
    ApiError,
>)
    ensures
        match result {
            Ok(count) => (before_history_id matches Some(id) ==> id > 0) && count == if limit
                < MAX_HISTORY_LIMIT {
                limit
            } else {
                MAX_HISTORY_LIMIT
            },
            Err(error) => (before_history_id matches Some(id) && id <= 0) && error.deep_view()
                == ApiErrorModel::of(
                "validation-error"@,
                "before_history_id must be positive or null"@,
            ),
        },
{
    if let Some(id) = before_history_id {
        if id <= 0 {
            return Err(
                ApiError::new("validation-error", "before_history_id must be positive or null"),
            );
        }
    }
    if limit < MAX_HISTORY_LIMIT {
        Ok(limit)
    } else {
        Ok(MAX_HISTORY_LIMIT)
    }
}

/// How an id is refused that no notification has.
pub open spec fn id_error() -> ApiErrorModel {
    ApiErrorModel::of("validation-error"@, "notification id must be positive"@)
}

/// How an id is refused of which no notification is shown.
pub open spec fn absent_error(id: u32) -> ApiErrorModel {
    ApiErrorModel::of(
        "notification-not-found"@,
        "notification "@ + decimal_text(id as nat) + " is not active"@,
    )
}

/// How a choice is refused that is not there.
pub open spec fn action_error() -> ApiErrorModel {
    ApiErrorModel::of(
        "notification-action-not-found"@,
        "notification or action is unavailable"@,
    )
}

/// Checks the id of a notification.
pub fn check_id(id: u32) -> (result: Result<(), ApiError>)
    ensures
        match result {
            Ok(()) => id > 0,
            Err(error) => id == 0 && error.deep_view() == id_error(),
        },
{
    if id > 0 {
        Ok(())
    } else {
        Err(ApiError::new("validation-error", "notification id must be positive"))
    }
}

fn not_active(id: u32) -> (error: ApiError)
    ensures
        error.deep_view() == absent_error(id),
{
    let message = joined3("notification ", decimal(id as u64).as_str(), " is not active");
    ApiError::new("notification-not-found", message.as_str())
}

/// Takes a notification away that the user has seen.
pub fn dismiss(engine: &mut NotificationEngine, id: u32, now: u64) -> (result: Result<
    EngineEffects,
    ApiError,
>)
    requires
        old(engine).wf(),
    ensures
        final(engine).wf(),
        final(engine).limits() == old(engine).limits(),
        match result {
            Ok(effects) => id > 0 && has_id(old(engine)@.active, id) && (
            final(engine)@,
            effects.deep_view(),
            ) == closed(old(engine)@, id, DISMISSED, now),
            Err(error) => final(engine)@ == old(engine)@ && if id == 0 {
                error.deep_view() == id_error()
            } else {
                !has_id(old(engine)@.active, id) && error.deep_view() == absent_error(id)
            },
        },
{
    check_id(id)?;
    let (found, effects) = engine.dismiss(id, now);
    if found {
        Ok(effects)
    } else {
        Err(not_active(id))
    }
}

/// Lets the user choose an action of a notification.
pub fn invoke_action(
    engine: &mut NotificationEngine,
    id: u32,
    action_key: &str,
    activation_token: Option<String>,
    now: u64,
) -> (result: Result<EngineEffects, ApiError>)
    requires
        old(engine).wf(),
    ensures
        final(engine).wf(),
        final(engine).limits() == old(engine).limits(),
        match result {
            Ok(effects) => id > 0 && can_act(old(engine)@, id, action_key@) && (
            final(engine)@,
            effects.deep_view(),
            ) == acted(old(engine)@, id, action_key@, activation_token.deep_view(), now),
            Err(error) => final(engine)@ == old(engine)@ && if id == 0 {
                error.deep_view() == id_error()
            } else {
                !can_act(old(engine)@, id, action_key@) && error.deep_view() == action_error()
            },
        },
{
    check_id(id)?;
    let (found, effects) = engine.invoke_action(id, action_key, activation_token, now);
    if found {
        Ok(effects)
    } else {
        Err(
            ApiError::new(
                "notification-action-not-found",
                "notification or action is unavailable",
            ),
        )
    }
}

/// Sends an answer that the user wrote to a notification.
pub fn reply(engine: &NotificationEngine, id: u32, text: &str) -> (result: Result<
    EngineEffects,
    ApiError,
>)
    requires
        engine.wf(),
    ensures
        match result {
            Ok(effects) => id > 0 && text@.len() > 0 && has_id(engine@.active, id)
                && effects.deep_view() == (EffectsModel {
                commands: Seq::empty(),
                signals: seq![NotificationSignalModel::Replied { id, text: text@ }],
                changed: false,
            }),
            Err(error) => if id == 0 {
                error.deep_view() == id_error()
            } else {
                !(text@.len() > 0 && has_id(engine@.active, id)) && error.deep_view()
                    == absent_error(id)
            },
        },
{
    check_id(id)?;
    let (found, effects) = engine.reply(id, text);
    if found {
        Ok(effects)
    } else {
        Err(not_active(id))
    }
}

/// Puts a notification off until a time that is still to come.
pub fn snooze(engine: &mut NotificationEngine, id: u32, until_unix_ms: u64, now: u64) -> (result:
    Result<EngineEffects, ApiError>)
    requires
        old(engine).wf(),
    ensures
        final(engine).wf(),
        final(engine).limits() == old(engine).limits(),
        match result {
            Ok(effects) => id > 0 && until_unix_ms > now && has_id(old(engine)@.active, id) && (
            final(engine)@,
            effects.deep_view(),
            ) == snoozed(old(engine)@, id, until_unix_ms, now),
            Err(error) => final(engine)@ == old(engine)@ && if id == 0 {
                error.deep_view() == id_error()
            } else {
                !(until_unix_ms > now && has_id(old(engine)@.active, id)) && error.deep_view()
                    == absent_error(id)
            },
        },
{
    check_id(id)?;
    let (found, effects) = engine.snooze(id, until_unix_ms, now);
    if found {
        Ok(effects)
    } else {
        Err(not_active(id))
    }
}

/// A request about a notification or an action that is not there leaves the
/// notifications as they were.
pub proof fn refused_requests_change_nothing(
    engine: EngineModel,
    id: u32,
    key: Seq<char>,
    token: Option<Seq<char>>,
    until: u64,
    now: u64,
)
    ensures
        !has_id(engine.active, id) ==> closed(engine, id, DISMISSED, now).0 == engine,
        !can_act(engine, id, key) ==> acted(engine, id, key, token, now).0 == engine,
        !(until > now && has_id(engine.active, id)) ==> snoozed(engine, id, until, now).0 == engine,
{
}

// Laws

/// Requests on notifications that are refused are told apart by a code, and say what
/// is wrong.
pub proof fn notification_refusals_say_what_is_wrong(id: u32)
    ensures
        id_error().code == "validation-error"@,
        id_error().message == "notification id must be positive"@,
        absent_error(id).code == "notification-not-found"@,
        absent_error(id).message == "notification "@ + decimal_text(id as nat) + " is not active"@,
        action_error().code == "notification-action-not-found"@,
        action_error().message == "notification or action is unavailable"@,
        DEFAULT_HISTORY_LIMIT == 50,
        MAX_HISTORY_LIMIT == 200,
{
}

} // verus!
