//! The course of changes to batteries that take several steps.
//!
//! The steps are taken elsewhere; what comes next is decided here.

use vstd::prelude::*;

use crate::api::battery::{OperationTarget, OperationTargetModel};
use crate::api::error::{ApiError, ApiErrorModel};
use crate::battery::config::{
    device_of, other_batteries_keep_policy, with_device, BatteryConfig, BatteryConfigModel, BatteryDeviceConfigModel,
    BatteryRuntimeState, BatteryRuntimeStateModel,
};
use crate::battery::helper::ThresholdWriteResult;
use crate::record::Record;
use crate::text::{decimal, decimal_text, joined, joined3};

verus! {

/// An operation on a battery that outlives the daemon.
#[derive(Clone, Copy, Debug, PartialEq, Eq, Structural)]
pub enum OperationKind {
    /// The battery charges past its limit once.
    ChargeOnce,
    /// The battery is discharged and charged again.
    Calibration,
    /// The battery is kept from charging.
    Inhibition,
}

impl DeepView for OperationKind {
    type V = OperationKind;

    open spec fn deep_view(&self) -> OperationKind {
        *self
    }
}

impl Record for OperationKind {
    fn same(&self, other: &Self) -> (same: bool) {
        *self == *other
    }

    fn copy(&self) -> (copy: Self) {
        *self
    }
}

/// How far an operation has come.
#[derive(Clone, Copy, Debug, PartialEq, Eq, Structural)]
pub enum OperationStage {
    /// The operation is being recorded.
    Recording,
    /// The limits of the battery are being lifted.
    Limiting,
    /// The battery is being told how to behave.
    Behaving,
    /// The limits of the battery are being put back.
    RestoringLimits,
    /// The record of before is being put back.
    RestoringRecord,
    /// The operation has begun, or has failed.
    Ended,
}

impl DeepView for OperationStage {
    type V = OperationStage;

    open spec fn deep_view(&self) -> OperationStage {
        *self
    }
}

impl Record for OperationStage {
    fn same(&self, other: &Self) -> (same: bool) {
        *self == *other
    }

    fn copy(&self) -> (copy: Self) {
        *self
    }
}

/// What became of a step.
#[derive(Debug, PartialEq, Eq)]
pub enum StepEvent {
    /// It was taken. Limits that were written come with what is reported of them.
    Succeeded(Option<ThresholdWriteResult>),
    /// It could not be taken, for this reason.
    Failed(String),
}

/// What a [`StepEvent`] says.
pub enum StepEventModel {
    Succeeded(Option<ThresholdWriteResult>),
    Failed(Seq<char>),
}

impl DeepView for StepEvent {
    type V = StepEventModel;

    open spec fn deep_view(&self) -> StepEventModel {
        match self {
            StepEvent::Succeeded(result) => StepEventModel::Succeeded(*result),
            StepEvent::Failed(error) => StepEventModel::Failed(error@),
        }
    }
}

/// A step to be taken.
#[derive(Debug, PartialEq, Eq)]
pub enum StepAction {
    SaveRecord(BatteryRuntimeState),
    SetLimits { battery_id: String, start: u8, end: u8 },
    SetBehaviour { battery_id: String, behaviour: String },
    /// All is done. Limits that were written come with what is reported of them.
    Succeed(Option<ThresholdWriteResult>),
    /// It did not work.
    Fail(ApiError),
    /// There is nothing left to do.
    Nothing,
}

/// What a [`StepAction`] says.
pub enum StepActionModel {
    SaveRecord(BatteryRuntimeStateModel),
    SetLimits { battery_id: Seq<char>, start: u8, end: u8 },
    SetBehaviour { battery_id: Seq<char>, behaviour: Seq<char> },
    Succeed(Option<ThresholdWriteResult>),
    Fail(ApiErrorModel),
    Nothing,
}

impl DeepView for StepAction {
    type V = StepActionModel;

    open spec fn deep_view(&self) -> StepActionModel {
        match self {
            StepAction::SaveRecord(record) => StepActionModel::SaveRecord(record.deep_view()),
            StepAction::SetLimits { battery_id, start, end } => StepActionModel::SetLimits {
                battery_id: battery_id@,
                start: *start,
                end: *end,
            },
            StepAction::SetBehaviour { battery_id, behaviour } => StepActionModel::SetBehaviour {
                battery_id: battery_id@,
                behaviour: behaviour@,
            },
            StepAction::Succeed(result) => StepActionModel::Succeed(*result),
            StepAction::Fail(error) => StepActionModel::Fail(error.deep_view()),
            StepAction::Nothing => StepActionModel::Nothing,
        }
    }
}

/// An operation that is to begin: the record of before, the record of it, how
/// far it has come, and what went wrong.
#[derive(Debug, PartialEq, Eq)]
pub struct DurableOperation {
    pub kind: OperationKind,
    pub target: OperationTarget,
    pub previous: BatteryRuntimeState,
    pub next: BatteryRuntimeState,
    pub stage: OperationStage,
    pub message: String,
}

/// What a [`DurableOperation`] holds.
#[verifier::ext_equal]
pub struct DurableOperationModel {
    pub kind: OperationKind,
    pub target: OperationTargetModel,
    pub previous: BatteryRuntimeStateModel,
    pub next: BatteryRuntimeStateModel,
    pub stage: OperationStage,
    pub message: Seq<char>,
}

impl DeepView for DurableOperation {
    type V = DurableOperationModel;

    open spec fn deep_view(&self) -> DurableOperationModel {
        DurableOperationModel {
            kind: self.kind.deep_view(),
            target: self.target.deep_view(),
            previous: self.previous.deep_view(),
            next: self.next.deep_view(),
            stage: self.stage.deep_view(),
            message: self.message.deep_view(),
        }
    }
}

impl Record for DurableOperation {
    fn same(&self, other: &Self) -> (same: bool) {
        self.kind.same(&other.kind)
            && self.target.same(&other.target)
            && self.previous.same(&other.previous)
            && self.next.same(&other.next)
            && self.stage.same(&other.stage)
            && self.message.same(&other.message)
    }

    fn copy(&self) -> (copy: Self) {
        DurableOperation {
            kind: self.kind.copy(),
            target: self.target.copy(),
            previous: self.previous.copy(),
            next: self.next.copy(),
            stage: self.stage.copy(),
            message: self.message.copy(),
        }
    }
}

impl Clone for DurableOperation {
    fn clone(&self) -> (copy: Self)
        ensures
            copy.deep_view() == self.deep_view(),
    {
        self.copy()
    }
}

/// Why what an operation records could not be put back.
pub open spec fn record_rollback(kind: OperationKind) -> Seq<char> {
    match kind {
        OperationKind::ChargeOnce => "; charge-once state rollback also failed: "@,
        OperationKind::Calibration => "; calibration state rollback also failed: "@,
        OperationKind::Inhibition => "; inhibition state rollback also failed: "@,
    }
}

/// How a battery should behave during an operation.
pub open spec fn behaviour_for(kind: OperationKind) -> Seq<char> {
    match kind {
        OperationKind::Inhibition => "inhibit-charge"@,
        _ => "force-discharge"@,
    }
}

/// A range of percentages in words.
pub open spec fn range_text(start: u8, end: u8) -> Seq<char> {
    decimal_text(start as nat) + "–"@ + decimal_text(end as nat)
}

/// What to add to a message about limits that were put back.
pub open spec fn limits_rollback(target: OperationTargetModel, event: StepEventModel) -> Seq<char> {
    match event {
        StepEventModel::Succeeded(Some(result)) => if result.verified {
            Seq::empty()
        } else {
            "; threshold rollback reported "@ + range_text(
                result.actual_start_percent,
                result.actual_end_percent,
            ) + (" instead of "@ + range_text(target.restore_start, target.restore_end))
        },
        StepEventModel::Succeeded(None) => Seq::empty(),
        StepEventModel::Failed(error) => "; threshold rollback also failed: "@ + error,
    }
}

/// The answer where an operation did not work.
pub open spec fn operation_failed(message: Seq<char>) -> ApiErrorModel {
    ApiErrorModel::of("battery-operation-failed"@, message)
}

/// The answer where an operation cannot be recorded.
pub open spec fn state_failed(message: Seq<char>) -> ApiErrorModel {
    ApiErrorModel::of("battery-state-failed"@, message)
}

/// The answer where a policy cannot be stored.
pub open spec fn config_failed(message: Seq<char>) -> ApiErrorModel {
    ApiErrorModel::of("battery-config-failed"@, message)
}

impl DurableOperationModel {
    /// The operation at a stage.
    pub open spec fn at(self, stage: OperationStage) -> DurableOperationModel {
        DurableOperationModel { stage, ..self }
    }

    /// The operation at a stage, with something gone wrong.
    pub open spec fn wrong(self, stage: OperationStage, message: Seq<char>) -> DurableOperationModel {
        DurableOperationModel { stage, message, ..self }
    }

    /// The step that lifts the limits.
    pub open spec fn lift(self) -> StepActionModel {
        StepActionModel::SetLimits { battery_id: self.target.battery_id, start: 0, end: 100 }
    }

    /// The step that puts the limits back.
    pub open spec fn put_back(self) -> StepActionModel {
        StepActionModel::SetLimits {
            battery_id: self.target.battery_id,
            start: self.target.restore_start,
            end: self.target.restore_end,
        }
    }

    /// The step that tells the battery how to behave.
    pub open spec fn behave(self) -> StepActionModel {
        StepActionModel::SetBehaviour {
            battery_id: self.target.battery_id,
            behaviour: behaviour_for(self.kind),
        }
    }
}

/// The operation, and the next step, after what became of a step.
pub open spec fn advanced(op: DurableOperationModel, event: StepEventModel) -> (
    DurableOperationModel,
    StepActionModel,
) {
    match op.stage {
        OperationStage::Recording => match event {
            StepEventModel::Failed(error) => (
                op.at(OperationStage::Ended),
                StepActionModel::Fail(state_failed(error)),
            ),
            StepEventModel::Succeeded(_) => if op.kind == OperationKind::Inhibition {
                (op.at(OperationStage::Behaving), op.behave())
            } else {
                (op.at(OperationStage::Limiting), op.lift())
            },
        },
        OperationStage::Limiting => match event {
            StepEventModel::Failed(error) => (
                op.wrong(OperationStage::RestoringRecord, error),
                StepActionModel::SaveRecord(op.previous),
            ),
            StepEventModel::Succeeded(result) => if op.kind == OperationKind::Calibration {
                (op.at(OperationStage::Behaving), op.behave())
            } else {
                (op.at(OperationStage::Ended), StepActionModel::Succeed(result))
            },
        },
        OperationStage::Behaving => match event {
            StepEventModel::Failed(error) => if op.kind == OperationKind::Calibration {
                (op.wrong(OperationStage::RestoringLimits, error), op.put_back())
            } else {
                (
                    op.wrong(OperationStage::RestoringRecord, error),
                    StepActionModel::SaveRecord(op.previous),
                )
            },
            StepEventModel::Succeeded(_) => (
                op.at(OperationStage::Ended),
                StepActionModel::Succeed(None),
            ),
        },
        OperationStage::RestoringLimits => (
            op.wrong(
                OperationStage::RestoringRecord,
                op.message + limits_rollback(op.target, event),
            ),
            StepActionModel::SaveRecord(op.previous),
        ),
        OperationStage::RestoringRecord => match event {
            StepEventModel::Failed(error) => (
                op.at(OperationStage::Ended),
                StepActionModel::Fail(
                    operation_failed(op.message + record_rollback(op.kind) + error),
                ),
            ),
            StepEventModel::Succeeded(_) => (
                op.at(OperationStage::Ended),
                StepActionModel::Fail(operation_failed(op.message)),
            ),
        },
        OperationStage::Ended => (op, StepActionModel::Nothing),
    }
}

fn range_words(start: u8, end: u8) -> (text: String)
    ensures
        text@ == range_text(start, end),
{
    joined3(decimal(start as u64).as_str(), "–", decimal(end as u64).as_str())
}

fn limits_rollback_text(target: &OperationTarget, event: &StepEvent) -> (text: String)
    ensures
        text@ == limits_rollback(target.deep_view(), event.deep_view()),
{
    match event {
        StepEvent::Succeeded(Some(result)) => if result.verified {
            String::new()
        } else {
            let wanted = joined(
                " instead of ",
                range_words(target.restore_start, target.restore_end).as_str(),
            );
            joined3(
                "; threshold rollback reported ",
                range_words(result.actual_start_percent, result.actual_end_percent).as_str(),
                wanted.as_str(),
            )
        },
        StepEvent::Succeeded(None) => String::new(),
        StepEvent::Failed(error) => joined("; threshold rollback also failed: ", error.as_str()),
    }
}

fn record_rollback_text(kind: OperationKind) -> (text: &'static str)
    ensures
        text@ == record_rollback(kind),
{
    match kind {
        OperationKind::ChargeOnce => "; charge-once state rollback also failed: ",
        OperationKind::Calibration => "; calibration state rollback also failed: ",
        OperationKind::Inhibition => "; inhibition state rollback also failed: ",
    }
}

impl DurableOperation {
    /// Begins an operation: the record of it comes first.
    pub fn begin(
        kind: OperationKind,
        target: OperationTarget,
        previous: BatteryRuntimeState,
        next: BatteryRuntimeState,
    ) -> (result: (DurableOperation, StepAction))
        ensures
            result.0.deep_view() == (DurableOperationModel {
                kind,
                target: target.deep_view(),
                previous: previous.deep_view(),
                next: next.deep_view(),
                stage: OperationStage::Recording,
                message: Seq::empty(),
            }),
            result.1.deep_view() == StepActionModel::SaveRecord(next.deep_view()),
    {
        let record = next.copy();
        (
            DurableOperation {
                kind,
                target,
                previous,
                next,
                stage: OperationStage::Recording,
                message: String::new(),
            },
            StepAction::SaveRecord(record),
        )
    }

    fn behave(&self) -> (action: StepAction)
        ensures
            action.deep_view() == self.deep_view().behave(),
    {
        let behaviour = match self.kind {
            OperationKind::Inhibition => "inhibit-charge",
            _ => "force-discharge",
        };
        StepAction::SetBehaviour {
            battery_id: self.target.battery_id.clone(),
            behaviour: behaviour.to_string(),
        }
    }

    /// Takes in what became of a step and gives the next.
    pub fn advance(&mut self, event: StepEvent) -> (action: StepAction)
        ensures
            (final(self).deep_view(), action.deep_view()) == advanced(
                old(self).deep_view(),
                event.deep_view(),
            ),
    {
        match self.stage {
            OperationStage::Recording => match event {
                StepEvent::Failed(error) => {
                    self.stage = OperationStage::Ended;
                    StepAction::Fail(ApiError::new("battery-state-failed", error.as_str()))
                },
                StepEvent::Succeeded(_) => if self.kind == OperationKind::Inhibition {
                    self.stage = OperationStage::Behaving;
                    self.behave()
                } else {
                    self.stage = OperationStage::Limiting;
                    StepAction::SetLimits {
                        battery_id: self.target.battery_id.clone(),
                        start: 0,
                        end: 100,
                    }
                },
            },
            OperationStage::Limiting => match event {
                StepEvent::Failed(error) => {
                    self.stage = OperationStage::RestoringRecord;
                    self.message = error;
                    StepAction::SaveRecord(self.previous.copy())
                },
                StepEvent::Succeeded(result) => if self.kind == OperationKind::Calibration {
                    self.stage = OperationStage::Behaving;
                    self.behave()
                } else {
                    self.stage = OperationStage::Ended;
                    StepAction::Succeed(result)
                },
            },
            OperationStage::Behaving => match event {
                StepEvent::Failed(error) => {
                    self.message = error;
                    if self.kind == OperationKind::Calibration {
                        self.stage = OperationStage::RestoringLimits;
                        StepAction::SetLimits {
                            battery_id: self.target.battery_id.clone(),
                            start: self.target.restore_start,
                            end: self.target.restore_end,
                        }
                    } else {
                        self.stage = OperationStage::RestoringRecord;
                        StepAction::SaveRecord(self.previous.copy())
                    }
                },
                StepEvent::Succeeded(_) => {
                    self.stage = OperationStage::Ended;
                    StepAction::Succeed(None)
                },
            },
            OperationStage::RestoringLimits => {
                let more = limits_rollback_text(&self.target, &event);
                self.stage = OperationStage::RestoringRecord;
                self.message = joined(self.message.as_str(), more.as_str());
                StepAction::SaveRecord(self.previous.copy())
            },
            OperationStage::RestoringRecord => {
                self.stage = OperationStage::Ended;
                match event {
                    StepEvent::Failed(error) => {
                        let message = joined3(
                            self.message.as_str(),
                            record_rollback_text(self.kind),
                            error.as_str(),
                        );
                        StepAction::Fail(
                            ApiError::new("battery-operation-failed", message.as_str()),
                        )
                    },
                    StepEvent::Succeeded(_) => StepAction::Fail(
                        ApiError::new("battery-operation-failed", self.message.as_str()),
                    ),
                }
            },
            OperationStage::Ended => StepAction::Nothing,
        }
    }
}

/// Whatever goes wrong once the battery was touched, the record of before is
/// put back before the request is answered; and where a calibration had lifted
/// the limits, they are put back before that.
pub proof fn failed_operations_are_undone(op: DurableOperationModel, event: StepEventModel)
    ensures
        ({
            let (after, action) = advanced(op, event);
            &&& after.previous == op.previous && after.next == op.next && after.target == op.target
            &&& op.stage == OperationStage::Limiting && event is Failed ==> action
                == StepActionModel::SaveRecord(op.previous)
            &&& op.stage == OperationStage::Behaving && event is Failed ==> action == (if op.kind
                == OperationKind::Calibration {
                op.put_back()
            } else {
                StepActionModel::SaveRecord(op.previous)
            })
            &&& op.stage == OperationStage::RestoringLimits ==> action
                == StepActionModel::SaveRecord(op.previous)
            &&& action is Fail ==> op.stage == OperationStage::Recording || op.stage
                == OperationStage::RestoringRecord
            &&& action is Succeed ==> op.stage == OperationStage::Limiting || op.stage
                == OperationStage::Behaving
        }),
{
}

/// How many steps an operation can still take.
pub open spec fn steps_left(stage: OperationStage) -> nat {
    match stage {
        OperationStage::Recording => 5,
        OperationStage::Limiting => 4,
        OperationStage::Behaving => 3,
        OperationStage::RestoringLimits => 2,
        OperationStage::RestoringRecord => 1,
        OperationStage::Ended => 0,
    }
}

/// Every step brings an operation nearer to its end.
pub proof fn operations_come_to_an_end(op: DurableOperationModel, event: StepEventModel)
    requires
        op.stage != OperationStage::Ended,
    ensures
        steps_left(advanced(op, event).0.stage) < steps_left(op.stage),
        advanced(op, event).0.stage == OperationStage::Ended <==> (advanced(op, event).1 is Succeed
            || advanced(op, event).1 is Fail),
{
}

// Ending

/// How far the end of an operation has come.
#[derive(Clone, Copy, Debug, PartialEq, Eq, Structural)]
pub enum EndingStage {
    /// The battery is being told to behave as usual.
    Behaving,
    /// The limits of the battery are being put back.
    Limiting,
    /// It is being recorded that there is no operation.
    Recording,
    /// The operation has ended, or could not be ended.
    Ended,
}

impl DeepView for EndingStage {
    type V = EndingStage;

    open spec fn deep_view(&self) -> EndingStage {
        *self
    }
}

impl Record for EndingStage {
    fn same(&self, other: &Self) -> (same: bool) {
        *self == *other
    }

    fn copy(&self) -> (copy: Self) {
        *self
    }
}

/// An operation that is to end: the limits of before, where they are known,
/// and the record without the operation.
#[derive(Debug, PartialEq, Eq)]
pub struct OperationEnd {
    pub battery_id: String,
    pub limits: Option<(u8, u8)>,
    pub next: BatteryRuntimeState,
    pub stage: EndingStage,
}

/// What an [`OperationEnd`] holds.
#[verifier::ext_equal]
pub struct OperationEndModel {
    pub battery_id: Seq<char>,
    pub limits: Option<(u8, u8)>,
    pub next: BatteryRuntimeStateModel,
    pub stage: EndingStage,
}

impl DeepView for OperationEnd {
    type V = OperationEndModel;

    open spec fn deep_view(&self) -> OperationEndModel {
        OperationEndModel {
            battery_id: self.battery_id@,
            limits: self.limits,
            next: self.next.deep_view(),
            stage: self.stage,
        }
    }
}

/// The end of an operation, and the next step, after what became of a step.
pub open spec fn ending(end: OperationEndModel, event: StepEventModel) -> (
    OperationEndModel,
    StepActionModel,
) {
    let stopped = OperationEndModel { stage: EndingStage::Ended, ..end };
    let recording = OperationEndModel { stage: EndingStage::Recording, ..end };
    match (end.stage, event) {
        (EndingStage::Behaving, StepEventModel::Succeeded(_)) => match end.limits {
            Some(limits) => (
                OperationEndModel { stage: EndingStage::Limiting, ..end },
                StepActionModel::SetLimits {
                    battery_id: end.battery_id,
                    start: limits.0,
                    end: limits.1,
                },
            ),
            None => (recording, StepActionModel::SaveRecord(end.next)),
        },
        (EndingStage::Limiting, StepEventModel::Succeeded(_)) => (
            recording,
            StepActionModel::SaveRecord(end.next),
        ),
        (EndingStage::Recording, StepEventModel::Succeeded(_)) => (
            stopped,
            StepActionModel::Succeed(None),
        ),
        (EndingStage::Recording, StepEventModel::Failed(error)) => (
            stopped,
            StepActionModel::Fail(state_failed(error)),
        ),
        (EndingStage::Ended, _) => (end, StepActionModel::Nothing),
        (_, StepEventModel::Failed(error)) => (
            stopped,
            StepActionModel::Fail(operation_failed(error)),
        ),
    }
}

impl OperationEnd {
    /// Begins to end an operation: the battery behaves as usual first.
    pub fn begin(battery_id: String, limits: Option<(u8, u8)>, next: BatteryRuntimeState) -> (result:
        (OperationEnd, StepAction))
        ensures
            result.0.deep_view() == (OperationEndModel {
                battery_id: battery_id@,
                limits,
                next: next.deep_view(),
                stage: EndingStage::Behaving,
            }),
            result.1.deep_view() == (StepActionModel::SetBehaviour {
                battery_id: battery_id@,
                behaviour: "auto"@,
            }),
    {
        let action = StepAction::SetBehaviour {
            battery_id: battery_id.clone(),
            behaviour: "auto".to_string(),
        };
        (OperationEnd { battery_id, limits, next, stage: EndingStage::Behaving }, action)
    }

    /// Takes in what became of a step and gives the next.
    pub fn advance(&mut self, event: StepEvent) -> (action: StepAction)
        ensures
            (final(self).deep_view(), action.deep_view()) == ending(
                old(self).deep_view(),
                event.deep_view(),
            ),
    {
        match self.stage {
            EndingStage::Behaving => match event {
                StepEvent::Succeeded(_) => match self.limits {
                    Some(limits) => {
                        self.stage = EndingStage::Limiting;
                        StepAction::SetLimits {
                            battery_id: self.battery_id.clone(),
                            start: limits.0,
                            end: limits.1,
                        }
                    },
                    None => {
                        self.stage = EndingStage::Recording;
                        StepAction::SaveRecord(self.next.copy())
                    },
                },
                StepEvent::Failed(error) => {
                    self.stage = EndingStage::Ended;
                    StepAction::Fail(ApiError::new("battery-operation-failed", error.as_str()))
                },
            },
            EndingStage::Limiting => match event {
                StepEvent::Succeeded(_) => {
                    self.stage = EndingStage::Recording;
                    StepAction::SaveRecord(self.next.copy())
                },
                StepEvent::Failed(error) => {
                    self.stage = EndingStage::Ended;
                    StepAction::Fail(ApiError::new("battery-operation-failed", error.as_str()))
                },
            },
            EndingStage::Recording => {
                self.stage = EndingStage::Ended;
                match event {
                    StepEvent::Succeeded(_) => StepAction::Succeed(None),
                    StepEvent::Failed(error) => StepAction::Fail(
                        ApiError::new("battery-state-failed", error.as_str()),
                    ),
                }
            },
            EndingStage::Ended => StepAction::Nothing,
        }
    }
}

/// An operation is forgotten only once the battery behaves as usual and has
/// its limits back; and it is reported as ended only once it is forgotten.
pub proof fn operations_are_forgotten_last(end: OperationEndModel, event: StepEventModel)
    ensures
        ({
            let (after, action) = ending(end, event);
            &&& after.next == end.next && after.limits == end.limits && after.battery_id
                == end.battery_id
            &&& action is SaveRecord ==> event is Succeeded && (end.stage == EndingStage::Limiting
                || end.stage == EndingStage::Behaving && end.limits is None)
            &&& action is Succeed ==> event is Succeeded && end.stage == EndingStage::Recording
            &&& end.stage == EndingStage::Behaving && event is Succeeded ==> (
            end.limits matches Some(limits) ==> action == (StepActionModel::SetLimits {
                battery_id: end.battery_id,
                start: limits.0,
                end: limits.1,
            }))
        }),
{
}

// Policy

/// How far a change of policy has come.
#[derive(Clone, Copy, Debug, PartialEq, Eq, Structural)]
pub enum PolicyStage {
    /// The new policy is being stored.
    Storing,
    /// The limits of the battery are being written.
    Writing,
    /// What the firmware reports is being stored.
    Accepting,
    /// The policy of before is being put back.
    Restoring,
    /// The change is made, or has failed.
    Ended,
}

impl DeepView for PolicyStage {
    type V = PolicyStage;

    open spec fn deep_view(&self) -> PolicyStage {
        *self
    }
}

impl Record for PolicyStage {
    fn same(&self, other: &Self) -> (same: bool) {
        *self == *other
    }

    fn copy(&self) -> (copy: Self) {
        *self
    }
}

/// A step to be taken to change a policy.
#[derive(Debug, PartialEq, Eq)]
pub enum PolicyAction {
    SaveConfig(BatteryConfig),
    SetLimits { battery_id: String, start: u8, end: u8 },
    /// All is done, and this is reported of the limits.
    Succeed(Option<ThresholdWriteResult>),
    /// It did not work.
    Fail(ApiError),
    /// There is nothing left to do.
    Nothing,
}

/// What a [`PolicyAction`] says.
pub enum PolicyActionModel {
    SaveConfig(BatteryConfigModel),
    SetLimits { battery_id: Seq<char>, start: u8, end: u8 },
    Succeed(Option<ThresholdWriteResult>),
    Fail(ApiErrorModel),
    Nothing,
}

impl DeepView for PolicyAction {
    type V = PolicyActionModel;

    open spec fn deep_view(&self) -> PolicyActionModel {
        match self {
            PolicyAction::SaveConfig(config) => PolicyActionModel::SaveConfig(config.deep_view()),
            PolicyAction::SetLimits { battery_id, start, end } => PolicyActionModel::SetLimits {
                battery_id: battery_id@,
                start: *start,
                end: *end,
            },
            PolicyAction::Succeed(result) => PolicyActionModel::Succeed(*result),
            PolicyAction::Fail(error) => PolicyActionModel::Fail(error.deep_view()),
            PolicyAction::Nothing => PolicyActionModel::Nothing,
        }
    }
}

/// A change of the policy for a battery that is to be made, with the limits
/// that it asks for.
#[derive(Debug, PartialEq, Eq)]
pub struct PolicyChange {
    pub battery_id: String,
    pub start: u8,
    pub end: u8,
    pub previous: BatteryConfig,
    pub next: BatteryConfig,
    pub stage: PolicyStage,
    pub message: String,
    pub result: Option<ThresholdWriteResult>,
}

/// What a [`PolicyChange`] holds.
#[verifier::ext_equal]
pub struct PolicyChangeModel {
    pub battery_id: Seq<char>,
    pub start: u8,
    pub end: u8,
    pub previous: BatteryConfigModel,
    pub next: BatteryConfigModel,
    pub stage: PolicyStage,
    pub message: Seq<char>,
    pub result: Option<ThresholdWriteResult>,
}

impl DeepView for PolicyChange {
    type V = PolicyChangeModel;

    open spec fn deep_view(&self) -> PolicyChangeModel {
        PolicyChangeModel {
            battery_id: self.battery_id@,
            start: self.start,
            end: self.end,
            previous: self.previous.deep_view(),
            next: self.next.deep_view(),
            stage: self.stage,
            message: self.message@,
            result: self.result,
        }
    }
}

/// A policy that knows what the firmware of a battery reports.
pub open spec fn accepting(
    config: BatteryConfigModel,
    id: Seq<char>,
    result: ThresholdWriteResult,
) -> BatteryConfigModel {
    BatteryConfigModel {
        devices: with_device(
            config.devices,
            id,
            BatteryDeviceConfigModel {
                accepted_reported_start_percent: Some(result.actual_start_percent),
                accepted_reported_end_percent: Some(result.actual_end_percent),
                ..device_of(config, id)
            },
        ),
        ..config
    }
}

/// The change, and the next step, after what became of a step.
pub open spec fn policy_advanced(change: PolicyChangeModel, event: StepEventModel) -> (
    PolicyChangeModel,
    PolicyActionModel,
) {
    match change.stage {
        PolicyStage::Storing => match event {
            StepEventModel::Failed(error) => (
                PolicyChangeModel { stage: PolicyStage::Ended, ..change },
                PolicyActionModel::Fail(config_failed(error)),
            ),
            StepEventModel::Succeeded(_) => (
                PolicyChangeModel { stage: PolicyStage::Writing, ..change },
                PolicyActionModel::SetLimits {
                    battery_id: change.battery_id,
                    start: change.start,
                    end: change.end,
                },
            ),
        },
        PolicyStage::Writing => match event {
            StepEventModel::Failed(error) => (
                PolicyChangeModel { stage: PolicyStage::Restoring, message: error, ..change },
                PolicyActionModel::SaveConfig(change.previous),
            ),
            StepEventModel::Succeeded(Some(result)) => (
                PolicyChangeModel {
                    stage: PolicyStage::Accepting,
                    next: accepting(change.next, change.battery_id, result),
                    result: Some(result),
                    ..change
                },
                PolicyActionModel::SaveConfig(
                    accepting(change.next, change.battery_id, result),
                ),
            ),
            StepEventModel::Succeeded(None) => (
                PolicyChangeModel { stage: PolicyStage::Ended, ..change },
                PolicyActionModel::Succeed(None),
            ),
        },
        PolicyStage::Accepting => match event {
            StepEventModel::Failed(error) => (
                PolicyChangeModel { stage: PolicyStage::Ended, ..change },
                PolicyActionModel::Fail(config_failed(error)),
            ),
            StepEventModel::Succeeded(_) => (
                PolicyChangeModel { stage: PolicyStage::Ended, ..change },
                PolicyActionModel::Succeed(change.result),
            ),
        },
        PolicyStage::Restoring => match event {
            StepEventModel::Failed(error) => (
                PolicyChangeModel { stage: PolicyStage::Ended, ..change },
                PolicyActionModel::Fail(
                    operation_failed(
                        change.message + "; battery configuration rollback also failed: "@ + error,
                    ),
                ),
            ),
            StepEventModel::Succeeded(_) => (
                PolicyChangeModel { stage: PolicyStage::Ended, ..change },
                PolicyActionModel::Fail(operation_failed(change.message)),
            ),
        },
        PolicyStage::Ended => (change, PolicyActionModel::Nothing),
    }
}

impl PolicyChange {
    /// Begins a change: the new policy is stored first.
    pub fn begin(
        battery_id: String,
        start: u8,
        end: u8,
        previous: BatteryConfig,
        next: BatteryConfig,
    ) -> (result: (PolicyChange, PolicyAction))
        ensures
            result.0.deep_view() == (PolicyChangeModel {
                battery_id: battery_id@,
                start,
                end,
                previous: previous.deep_view(),
                next: next.deep_view(),
                stage: PolicyStage::Storing,
                message: Seq::empty(),
                result: None,
            }),
            result.1.deep_view() == PolicyActionModel::SaveConfig(next.deep_view()),
    {
        let config = next.copy();
        (
            PolicyChange {
                battery_id,
                start,
                end,
                previous,
                next,
                stage: PolicyStage::Storing,
                message: String::new(),
                result: None,
            },
            PolicyAction::SaveConfig(config),
        )
    }

    fn accept(&mut self, result: ThresholdWriteResult)
        ensures
            final(self).deep_view() == (PolicyChangeModel {
                next: accepting(old(self).deep_view().next, old(self).battery_id@, result),
                ..old(self).deep_view()
            }),
    {
        let device = self.next.device_mut(self.battery_id.as_str());
        device.accepted_reported_start_percent = Some(result.actual_start_percent);
        device.accepted_reported_end_percent = Some(result.actual_end_percent);
    }

    /// Takes in what became of a step and gives the next.
    pub fn advance(&mut self, event: StepEvent) -> (action: PolicyAction)
        ensures
            (final(self).deep_view(), action.deep_view()) == policy_advanced(
                old(self).deep_view(),
                event.deep_view(),
            ),
    {
        match self.stage {
            PolicyStage::Storing => match event {
                StepEvent::Failed(error) => {
                    self.stage = PolicyStage::Ended;
                    PolicyAction::Fail(ApiError::new("battery-config-failed", error.as_str()))
                },
                StepEvent::Succeeded(_) => {
                    self.stage = PolicyStage::Writing;
                    PolicyAction::SetLimits {
                        battery_id: self.battery_id.clone(),
                        start: self.start,
                        end: self.end,
                    }
                },
            },
            PolicyStage::Writing => match event {
                StepEvent::Failed(error) => {
                    self.stage = PolicyStage::Restoring;
                    self.message = error;
                    PolicyAction::SaveConfig(self.previous.copy())
                },
                StepEvent::Succeeded(Some(result)) => {
                    self.accept(result);
                    self.stage = PolicyStage::Accepting;
                    self.result = Some(result);
                    PolicyAction::SaveConfig(self.next.copy())
                },
                StepEvent::Succeeded(None) => {
                    self.stage = PolicyStage::Ended;
                    PolicyAction::Succeed(None)
                },
            },
            PolicyStage::Accepting => {
                self.stage = PolicyStage::Ended;
                match event {
                    StepEvent::Failed(error) => PolicyAction::Fail(
                        ApiError::new("battery-config-failed", error.as_str()),
                    ),
                    StepEvent::Succeeded(_) => PolicyAction::Succeed(self.result),
                }
            },
            PolicyStage::Restoring => {
                self.stage = PolicyStage::Ended;
                match event {
                    StepEvent::Failed(error) => {
                        let message = joined3(
                            self.message.as_str(),
                            "; battery configuration rollback also failed: ",
                            error.as_str(),
                        );
                        PolicyAction::Fail(
                            ApiError::new("battery-operation-failed", message.as_str()),
                        )
                    },
                    StepEvent::Succeeded(_) => PolicyAction::Fail(
                        ApiError::new("battery-operation-failed", self.message.as_str()),
                    ),
                }
            },
            PolicyStage::Ended => PolicyAction::Nothing,
        }
    }
}

/// A change whose limits could not be written is undone: the policy of before
/// is stored again before the request is answered.
pub proof fn failed_policy_change_is_undone(change: PolicyChangeModel, error: Seq<char>)
    requires
        change.stage == PolicyStage::Writing,
    ensures
        ({
            let (after, action) = policy_advanced(change, StepEventModel::Failed(error));
            &&& action == PolicyActionModel::SaveConfig(change.previous)
            &&& after.stage == PolicyStage::Restoring
            &&& forall|event: StepEventModel| (#[trigger] policy_advanced(after, event)).1 is Fail
        }),
{
}

// Laws

/// How an operation begins, once it is recorded: a battery that is to charge past
/// its limit, or to be calibrated, has its limits lifted to the whole range; one
/// that is to be kept from charging is told so. A calibrated one is then told to
/// discharge. All of it is done to the battery that was asked for.
pub proof fn operations_begin_in_turn(op: DurableOperationModel, done: Option<ThresholdWriteResult>)
    ensures
        ({
            let (after, action) = advanced(op, StepEventModel::Succeeded(done));
            let id = op.target.battery_id;
            &&& after.kind == op.kind
            &&& op.stage == OperationStage::Recording && op.kind != OperationKind::Inhibition
                ==> after.stage == OperationStage::Limiting && action == (
            StepActionModel::SetLimits { battery_id: id, start: 0, end: 100 })
            &&& op.stage == OperationStage::Recording && op.kind == OperationKind::Inhibition
                ==> after.stage == OperationStage::Behaving && action == (
            StepActionModel::SetBehaviour { battery_id: id, behaviour: "inhibit-charge"@ })
            &&& op.stage == OperationStage::Limiting && op.kind == OperationKind::Calibration
                ==> after.stage == OperationStage::Behaving && action == (
            StepActionModel::SetBehaviour { battery_id: id, behaviour: "force-discharge"@ })
            &&& op.stage == OperationStage::Limiting && op.kind == OperationKind::ChargeOnce
                ==> after.stage == OperationStage::Ended && action == StepActionModel::Succeed(done)
            &&& op.stage == OperationStage::Behaving ==> after.stage == OperationStage::Ended
                && action == StepActionModel::Succeed(None)
            &&& op.stage == OperationStage::Ended ==> after == op && action is Nothing
        }),
{
}

/// How an operation fails: what went wrong is told, with what went wrong while it
/// was undone; the limits of before, and then the record of before, are put
/// back first.
pub proof fn operations_fail_with_reason(op: DurableOperationModel, error: Seq<char>)
    ensures
        ({
            let (after, action) = advanced(op, StepEventModel::Failed(error));
            let back = StepActionModel::SetLimits {
                battery_id: op.target.battery_id,
                start: op.target.restore_start,
                end: op.target.restore_end,
            };
            &&& op.stage == OperationStage::Recording ==> after.stage == OperationStage::Ended && (
            action matches StepActionModel::Fail(told) && told.message == error && told.code
                == "battery-state-failed"@)
            &&& op.stage == OperationStage::Limiting ==> after.stage
                == OperationStage::RestoringRecord && after.message == error && action
                == StepActionModel::SaveRecord(op.previous)
            &&& op.stage == OperationStage::Behaving && op.kind == OperationKind::Calibration
                ==> after.stage == OperationStage::RestoringLimits && after.message == error
                && action == back
            &&& op.stage == OperationStage::Behaving && op.kind != OperationKind::Calibration
                ==> after.stage == OperationStage::RestoringRecord && after.message == error
                && action == StepActionModel::SaveRecord(op.previous)
            &&& op.stage == OperationStage::RestoringLimits ==> after.message == op.message
                + "; threshold rollback also failed: "@ + error
            &&& op.stage == OperationStage::RestoringRecord ==> after.stage
                == OperationStage::Ended && (action matches StepActionModel::Fail(told) && told.code
                == "battery-operation-failed"@)
        }),
        op.stage == OperationStage::RestoringRecord ==> (advanced(
            op,
            StepEventModel::Succeeded(None),
        ).1 matches StepActionModel::Fail(told) && told.message == op.message),
{
    assert(op.message + ("; threshold rollback also failed: "@ + error) =~= op.message
        + "; threshold rollback also failed: "@ + error);
}

/// An operation ends by the battery behaving as usual, then getting its limits back
/// where there are any, then being recorded as doing nothing; whatever fails is
/// told and ends it there.
pub proof fn operations_end_in_turn(end: OperationEndModel, event: StepEventModel)
    ensures
        ({
            let (after, action) = ending(end, event);
            &&& end.stage == EndingStage::Ended ==> after == end && action is Nothing
            &&& event is Succeeded && end.stage == EndingStage::Behaving && end.limits is None
                ==> after.stage == EndingStage::Recording && action == StepActionModel::SaveRecord(
                end.next,
            )
            &&& event is Succeeded && end.stage == EndingStage::Behaving && end.limits is Some
                ==> after.stage == EndingStage::Limiting && (action
                matches StepActionModel::SetLimits { battery_id, start, end: last } && battery_id
                == end.battery_id && end.limits == Some((start, last)))
            &&& event is Succeeded && end.stage == EndingStage::Limiting ==> after.stage
                == EndingStage::Recording && action == StepActionModel::SaveRecord(end.next)
            &&& event is Succeeded && end.stage == EndingStage::Recording ==> after.stage
                == EndingStage::Ended && action == StepActionModel::Succeed(None)
            &&& end.stage != EndingStage::Ended ==> (event matches StepEventModel::Failed(error)
                ==> after.stage == EndingStage::Ended && (action matches StepActionModel::Fail(told)
                && told.message == error))
        }),
{
}

/// A new policy is stored, then written to the battery; what the battery reports
/// is then stored as accepted for it, and told. Whatever fails is told.
pub proof fn policies_change_in_turn(change: PolicyChangeModel, event: StepEventModel)
    ensures
        ({
            let (after, action) = policy_advanced(change, event);
            &&& after.battery_id == change.battery_id && after.previous == change.previous
                && after.start == change.start && after.end == change.end
            &&& change.stage == PolicyStage::Storing && event is Succeeded ==> after.stage
                == PolicyStage::Writing && action == (PolicyActionModel::SetLimits {
                battery_id: change.battery_id,
                start: change.start,
                end: change.end,
            })
            &&& change.stage == PolicyStage::Writing ==> (event matches StepEventModel::Succeeded(
                Some(result),
            ) ==> {
                &&& after.stage == PolicyStage::Accepting
                &&& after.result == Some(result)
                &&& action == PolicyActionModel::SaveConfig(after.next)
                &&& device_of(
                    after.next,
                    change.battery_id,
                ).accepted_reported_start_percent == Some(result.actual_start_percent)
                &&& device_of(after.next, change.battery_id).accepted_reported_end_percent == Some(
                    result.actual_end_percent,
                )
                &&& device_of(after.next, change.battery_id).protected_start_percent == device_of(
                    change.next,
                    change.battery_id,
                ).protected_start_percent
                &&& device_of(after.next, change.battery_id).protected_end_percent == device_of(
                    change.next,
                    change.battery_id,
                ).protected_end_percent
                &&& device_of(after.next, change.battery_id).protection_enabled == device_of(
                    change.next,
                    change.battery_id,
                ).protection_enabled
                &&& device_of(after.next, change.battery_id).manage_thresholds == device_of(
                    change.next,
                    change.battery_id,
                ).manage_thresholds
                &&& after.next.warning_percent == change.next.warning_percent
            })
            &&& change.stage == PolicyStage::Accepting && event is Succeeded ==> action
                == PolicyActionModel::Succeed(change.result) && after.stage == PolicyStage::Ended
            &&& (change.stage == PolicyStage::Storing || change.stage == PolicyStage::Accepting)
                ==> (event matches StepEventModel::Failed(error) ==> (action
                matches PolicyActionModel::Fail(told) && told.message == error))
            &&& change.stage == PolicyStage::Restoring && event is Succeeded ==> (action
                matches PolicyActionModel::Fail(told) && told.message == change.message)
            &&& change.stage == PolicyStage::Ended ==> after == change && action is Nothing
        }),
{
    if change.stage == PolicyStage::Writing {
        match event {
            StepEventModel::Succeeded(Some(result)) => {
                let device = BatteryDeviceConfigModel {
                    accepted_reported_start_percent: Some(result.actual_start_percent),
                    accepted_reported_end_percent: Some(result.actual_end_percent),
                    ..device_of(change.next, change.battery_id)
                };
                other_batteries_keep_policy(
                    change.next,
                    change.battery_id,
                    device,
                    change.battery_id,
                );
            },
            _ => {},
        }
    }
}

/// Limits that were put back as they were add nothing to what is told; limits that
/// came out otherwise are told, with those that were asked for. So is a record that
/// could not be put back.
pub proof fn failed_undoing_is_told(
    op: DurableOperationModel,
    result: ThresholdWriteResult,
    error: Seq<char>,
)
    ensures
        op.stage == OperationStage::RestoringLimits ==> {
            let after = advanced(op, StepEventModel::Succeeded(Some(result))).0;
            &&& after.stage == OperationStage::RestoringRecord
            &&& result.verified ==> after.message == op.message
            &&& !result.verified ==> after.message == op.message + (
            "; threshold rollback reported "@ + range_text(
                result.actual_start_percent,
                result.actual_end_percent,
            ) + (" instead of "@ + range_text(op.target.restore_start, op.target.restore_end)))
        },
        range_text(result.actual_start_percent, result.actual_end_percent) == decimal_text(
            result.actual_start_percent as nat,
        ) + "–"@ + decimal_text(result.actual_end_percent as nat),
        op.stage == OperationStage::RestoringRecord ==> (advanced(
            op,
            StepEventModel::Failed(error),
        ).1 matches StepActionModel::Fail(told) && told.message == op.message + (match op.kind {
            OperationKind::ChargeOnce => "; charge-once state rollback also failed: "@,
            OperationKind::Calibration => "; calibration state rollback also failed: "@,
            OperationKind::Inhibition => "; inhibition state rollback also failed: "@,
        }) + error),
{
    assert(op.message + Seq::<char>::empty() =~= op.message);
}

/// A policy of before that could not be put back is told.
pub proof fn failed_policy_undoing_is_told(change: PolicyChangeModel, error: Seq<char>)
    requires
        change.stage == PolicyStage::Restoring,
    ensures
        policy_advanced(change, StepEventModel::Failed(error)).1 matches PolicyActionModel::Fail(
            told,
        ) && told.code == "battery-operation-failed"@ && told.message == change.message
            + "; battery configuration rollback also failed: "@ + error,
{
}

} // verus!
