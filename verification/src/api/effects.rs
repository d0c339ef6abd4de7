//! Operations on the desktop that clients ask for.

use vstd::prelude::*;

use crate::api::error::{ApiError, ApiErrorModel};
use crate::hyprland::{focus_command, focus_text};
use crate::media::{
    method_of, operation_method, operations_call_what_they_name, seek_offset_microseconds,
    INVALID_SEEK, MAX_SEEK_SECONDS,
};
use crate::record::Record;
use crate::text::{same_ignoring_case, same_text};

verus! {

/// An operation that can fail.
#[derive(Debug, Clone, Copy, PartialEq, Eq, Structural)]
pub enum Effect {
    ActivityQuery,
    TodoCreate,
    TodoComplete,
    TodoDelete,
    WorkspaceFocus,
    Media,
    Audio,
    Brightness,
    PowerProfile,
    PowerSleep,
    Updates,
    Notification,
    NotificationHistory,
}

impl Effect {
    /// The code that reports a failure of the operation.
    pub open spec fn code(self) -> Seq<char> {
        match self {
            Effect::ActivityQuery => "activity-query-failed"@,
            Effect::TodoCreate => "todo-create-failed"@,
            Effect::TodoComplete => "todo-complete-failed"@,
            Effect::TodoDelete => "todo-delete-failed"@,
            Effect::WorkspaceFocus => "workspace-focus-failed"@,
            Effect::Media => "media-operation-failed"@,
            Effect::Audio => "audio-operation-failed"@,
            Effect::Brightness => "brightness-operation-failed"@,
            Effect::PowerProfile => "power-profile-operation-failed"@,
            Effect::PowerSleep => "power-sleep-operation-failed"@,
            Effect::Updates => "update-refresh-failed"@,
            Effect::Notification => "notification-operation-failed"@,
            Effect::NotificationHistory => "notification-history-failed"@,
        }
    }
}

/// Reports that an operation failed.
pub fn failed(effect: Effect, message: &str) -> (error: ApiError)
    ensures
        error.deep_view() == ApiErrorModel::of(effect.code(), message@),
{
    let code = match effect {
        Effect::ActivityQuery => "activity-query-failed",
        Effect::TodoCreate => "todo-create-failed",
        Effect::TodoComplete => "todo-complete-failed",
        Effect::TodoDelete => "todo-delete-failed",
        Effect::WorkspaceFocus => "workspace-focus-failed",
        Effect::Media => "media-operation-failed",
        Effect::Audio => "audio-operation-failed",
        Effect::Brightness => "brightness-operation-failed",
        Effect::PowerProfile => "power-profile-operation-failed",
        Effect::PowerSleep => "power-sleep-operation-failed",
        Effect::Updates => "update-refresh-failed",
        Effect::Notification => "notification-operation-failed",
        Effect::NotificationHistory => "notification-history-failed",
    };
    ApiError::new(code, message)
}

/// The sentence that refuses the id of a workspace.
pub const INVALID_WORKSPACE: &'static str = "workspace_id must be a positive integer";

/// The command that a request to focus a workspace sends.
pub fn plan_focus(workspace_id: i64, on_current_monitor: bool) -> (command: Result<
    String,
    ApiError,
>)
    ensures
        match command {
            Ok(command) => workspace_id > 0 && command@ == focus_text(
                workspace_id,
                on_current_monitor,
            ),
            Err(error) => workspace_id <= 0 && error.deep_view() == ApiErrorModel::of(
                Effect::WorkspaceFocus.code(),
                INVALID_WORKSPACE@,
            ),
        },
{
    match focus_command(workspace_id, on_current_monitor) {
        Some(command) => Ok(command),
        None => Err(failed(Effect::WorkspaceFocus, INVALID_WORKSPACE)),
    }
}

/// What a request about media asks of players. Where it names no player, the
/// one that is shown is meant.
#[derive(Debug, PartialEq, Eq)]
pub enum MediaPlan {
    /// The next player is shown.
    Cycle,
    /// A player moves by some microseconds.
    Seek { player_id: Option<String>, offset_seconds: i64, offset_us: i64 },
    /// A method of a player is called.
    Call { player_id: Option<String>, method: String },
}

/// What a [`MediaPlan`] holds.
#[verifier::ext_equal]
pub enum MediaPlanModel {
    Cycle,
    Seek { player_id: Option<Seq<char>>, offset_seconds: i64, offset_us: i64 },
    Call { player_id: Option<Seq<char>>, method: Seq<char> },
}

impl DeepView for MediaPlan {
    type V = MediaPlanModel;

    open spec fn deep_view(&self) -> MediaPlanModel {
        match self {
            MediaPlan::Cycle => MediaPlanModel::Cycle,
            MediaPlan::Seek { player_id, offset_seconds, offset_us } => MediaPlanModel::Seek {
                player_id: player_id.deep_view(),
                offset_seconds: *offset_seconds,
                offset_us: *offset_us,
            },
            MediaPlan::Call { player_id, method } => MediaPlanModel::Call {
                player_id: player_id.deep_view(),
                method: method.deep_view(),
            },
        }
    }
}

/// What a request about media asks of players, or how it is refused.
pub open spec fn media_plan(
    operation: Seq<char>,
    player_id: Option<Seq<char>>,
    offset_seconds: Option<i64>,
) -> Result<MediaPlanModel, ApiErrorModel> {
    if operation == "cycle"@ {
        Ok(MediaPlanModel::Cycle)
    } else if operation == "seek"@ {
        match offset_seconds {
            None => Err(
                ApiErrorModel::of("validation-error"@, "media.seek requires offset_seconds"@),
            ),
            Some(offset) => if offset != 0 && -MAX_SEEK_SECONDS <= offset <= MAX_SEEK_SECONDS {
                Ok(
                    MediaPlanModel::Seek {
                        player_id,
                        offset_seconds: offset,
                        offset_us: (offset * 1_000_000) as i64,
                    },
                )
            } else {
                Err(ApiErrorModel::of(Effect::Media.code(), INVALID_SEEK@))
            },
        }
    } else {
        match method_of(operation) {
            Some(method) => Ok(MediaPlanModel::Call { player_id, method }),
            None => Err(
                ApiErrorModel::of(
                    Effect::Media.code(),
                    "unsupported media operation: "@ + operation,
                ),
            ),
        }
    }
}

/// Works out what a request about media asks of players.
pub fn plan_media(
    operation: &str,
    player_id: Option<String>,
    offset_seconds: Option<i64>,
    active_player: &Option<String>,
) -> (plan: Result<MediaPlan, ApiError>)
    ensures
        media_plan(
            operation@,
            if player_id is Some {
                player_id.deep_view()
            } else {
                active_player.deep_view()
            },
            offset_seconds,
        ) == match plan {
            Ok(plan) => Ok::<MediaPlanModel, ApiErrorModel>(plan.deep_view()),
            Err(error) => Err::<MediaPlanModel, ApiErrorModel>(error.deep_view()),
        },
{
    if same_text(operation, "cycle") {
        return Ok(MediaPlan::Cycle);
    }
    let player_id = match player_id {
        Some(id) => Some(id),
        None => active_player.copy(),
    };
    if same_text(operation, "seek") {
        return match offset_seconds {
            None => Err(ApiError::new("validation-error", "media.seek requires offset_seconds")),
            Some(offset_seconds) => match seek_offset_microseconds(offset_seconds) {
                Ok(offset_us) => Ok(MediaPlan::Seek { player_id, offset_seconds, offset_us }),
                Err(message) => Err(failed(Effect::Media, message)),
            },
        };
    }
    match operation_method(operation) {
        Ok(method) => Ok(MediaPlan::Call { player_id, method: method.to_string() }),
        Err(message) => Err(failed(Effect::Media, message.as_str())),
    }
}

// Laws

/// What is asked of a player is done by it: a jump by the seconds asked for, which
/// are some and at most a day either way; and any other operation by the method
/// of its name. The next player is shown on `cycle` alone.
pub proof fn media_requests_are_carried_out(
    operation: Seq<char>,
    player_id: Option<Seq<char>>,
    offset: Option<i64>,
)
    ensures
        ({
            let plan = media_plan(operation, player_id, offset);
            let near = offset is Some && offset->0 != 0 && -86_400 <= offset->0 <= 86_400;
            &&& operation == "cycle"@ <==> plan == Ok::<MediaPlanModel, ApiErrorModel>(
                MediaPlanModel::Cycle,
            )
            &&& operation == "seek"@ ==> (plan is Ok <==> near)
            &&& operation == "seek"@ && near ==> (plan matches Ok(
                MediaPlanModel::Seek { player_id: player, offset_seconds, offset_us },
            ) && player == player_id && offset_seconds == offset->0 && offset_us == offset->0
                * 1_000_000)
            &&& plan matches Ok(MediaPlanModel::Seek { .. }) ==> operation == "seek"@
            &&& plan matches Ok(MediaPlanModel::Call { player_id: player, method }) ==> player
                == player_id && same_ignoring_case(method, operation.filter(|c: char| c != '-'))
            &&& operation == "play"@ || operation == "pause"@ || operation == "stop"@ || operation
                == "next"@ || operation == "previous"@ || operation == "play-pause"@ ==> plan
                matches Ok(MediaPlanModel::Call { .. })
        }),
{
    operations_call_what_they_name(operation);
    reveal_strlit("cycle");
    reveal_strlit("seek");
    reveal_strlit("play-pause");
    reveal_strlit("play");
    reveal_strlit("pause");
    reveal_strlit("stop");
    reveal_strlit("next");
    reveal_strlit("previous");
    assert("cycle"@.len() == 5 && "pause"@.len() == 5 && "seek"@.len() == 4);
    assert("play-pause"@.len() == 10 && "previous"@.len() == 8);
    assert("play"@.len() == 4 && "stop"@.len() == 4 && "next"@.len() == 4);
    assert("cycle"@[0] == 'c' && "pause"@[0] == 'p' && "seek"@[1] == 'e');
    assert("play"@[0] == 'p' && "stop"@[1] == 't' && "next"@[0] == 'n' && "seek"@[0] == 's');
}

/// Failures of different effects are told apart by their codes.
pub proof fn failures_are_told_apart(a: Effect, b: Effect)
    requires
        a.code() == b.code(),
    ensures
        a == b,
{
    reveal_strlit("activity-query-failed");
    reveal_strlit("todo-create-failed");
    reveal_strlit("todo-complete-failed");
    reveal_strlit("todo-delete-failed");
    reveal_strlit("workspace-focus-failed");
    reveal_strlit("media-operation-failed");
    reveal_strlit("audio-operation-failed");
    reveal_strlit("brightness-operation-failed");
    reveal_strlit("power-profile-operation-failed");
    reveal_strlit("power-sleep-operation-failed");
    reveal_strlit("update-refresh-failed");
    reveal_strlit("notification-operation-failed");
    reveal_strlit("notification-history-failed");
    assert("activity-query-failed"@.len() == 21 && "activity-query-failed"@[0] == 'a');
    assert("todo-create-failed"@.len() == 18 && "todo-create-failed"@[5] == 'c');
    assert("todo-complete-failed"@.len() == 20);
    assert("todo-delete-failed"@.len() == 18 && "todo-delete-failed"@[5] == 'd');
    assert("workspace-focus-failed"@.len() == 22 && "workspace-focus-failed"@[0] == 'w');
    assert("media-operation-failed"@.len() == 22 && "media-operation-failed"@[0] == 'm');
    assert("audio-operation-failed"@.len() == 22 && "audio-operation-failed"@[0] == 'a');
    assert("brightness-operation-failed"@.len() == 27 && "brightness-operation-failed"@[0] == 'b');
    assert("power-profile-operation-failed"@.len() == 30);
    assert("power-sleep-operation-failed"@.len() == 28);
    assert("update-refresh-failed"@.len() == 21 && "update-refresh-failed"@[0] == 'u');
    assert("notification-operation-failed"@.len() == 29);
    assert("notification-history-failed"@.len() == 27 && "notification-history-failed"@[0] == 'n');
}

} // verus!
