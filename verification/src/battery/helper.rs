//! Charge limits and charge behaviours as the kernel takes them.

use vstd::prelude::*;

use crate::battery::config::{
    battery_ids_are_numbered, check_id, id_error, is_battery_id, is_range, BatteryConfigErrorModel,
};
use crate::battery::sysfs::numbers_are_read_from_files;
use crate::record::Record;
use crate::text::{
    char_views, chars_of, contains_name, decimal_text, joined, joined3, parse_unsigned, same_text, slice_chars,
    split_words, text_of, trim_chars, trimmed, unsigned_value, words_of,
};

verus! {

/// Name of the helper service.
pub const BUS_NAME: &'static str = "org.laufan.BarBatteryHelper";

/// Path of its object.
pub const OBJECT_PATH: &'static str = "/org/laufan/BarBatteryHelper";

/// Its interface.
pub const INTERFACE: &'static str = "org.laufan.BarBatteryHelper1";

/// The attribute that holds the limit below which charging starts.
pub const START_ATTRIBUTE: &'static str = "charge_control_start_threshold";

/// The attribute that holds the limit at which charging ends.
pub const END_ATTRIBUTE: &'static str = "charge_control_end_threshold";

/// Why the contents of an attribute are no percentage.
#[derive(Clone, Copy, Debug, PartialEq, Eq, Structural)]
pub enum PercentError {
    /// They are no number that fits.
    Number,
    /// The number is above one hundred.
    Range,
}

impl DeepView for PercentError {
    type V = PercentError;

    open spec fn deep_view(&self) -> PercentError {
        *self
    }
}

impl Record for PercentError {
    fn same(&self, other: &Self) -> (same: bool) {
        *self == *other
    }

    fn copy(&self) -> (copy: Self) {
        *self
    }
}

/// The percentage that an attribute holds.
pub open spec fn percent_in(contents: Seq<char>) -> Result<u8, PercentError> {
    match unsigned_value(trimmed(contents), u8::MAX as nat) {
        Some(value) => if value > 100 {
            Err(PercentError::Range)
        } else {
            Ok(value as u8)
        },
        None => Err(PercentError::Number),
    }
}

/// Reads the percentage that an attribute holds.
pub fn parse_percent(contents: &str) -> (percent: Result<u8, PercentError>)
    ensures
        percent == percent_in(contents@),
{
    match parse_unsigned(&trim_chars(&chars_of(contents)), u8::MAX as u64) {
        Some(value) => if value > 100 {
            Err(PercentError::Range)
        } else {
            Ok(value as u8)
        },
        None => Err(PercentError::Number),
    }
}

/// Whether the contents of the type attribute of a power supply say that it is a battery.
pub fn is_battery_type(contents: &str) -> (is_battery: bool)
    ensures
        is_battery == (trimmed(contents@) == "Battery"@),
{
    same_text(text_of(&trim_chars(&chars_of(contents))).as_str(), "Battery")
}

/// What is wrong with the id of a battery, in words.
pub open spec fn id_refusal(id: Seq<char>) -> Option<Seq<char>> {
    match id_error(id) {
        Some(BatteryConfigErrorModel::BatteryIdPrefix(_)) => Some(
            "battery id must start with BAT"@,
        ),
        Some(_) => Some("battery id must match BAT followed by digits"@),
        None => None,
    }
}

/// Refuses an id that is not that of a battery.
pub fn validate_battery_id(battery: &str) -> (result: Result<(), &'static str>)
    ensures
        match result {
            Ok(()) => id_refusal(battery@) is None,
            Err(message) => id_refusal(battery@) == Some(message@),
        },
{
    match check_id(battery) {
        Some(crate::battery::config::BatteryConfigError::BatteryIdPrefix(_)) => Err(
            "battery id must start with BAT",
        ),
        Some(_) => Err("battery id must match BAT followed by digits"),
        None => Ok(()),
    }
}

// Limits

/// One of the two charge limits.
#[derive(Clone, Copy, Debug, PartialEq, Eq, Structural)]
pub enum ThresholdAttribute {
    /// The limit below which charging starts.
    Start,
    /// The limit at which charging ends.
    End,
}

impl DeepView for ThresholdAttribute {
    type V = ThresholdAttribute;

    open spec fn deep_view(&self) -> ThresholdAttribute {
        *self
    }
}

impl Record for ThresholdAttribute {
    fn same(&self, other: &Self) -> (same: bool) {
        *self == *other
    }

    fn copy(&self) -> (copy: Self) {
        *self
    }
}

/// One limit to be written.
#[derive(Clone, Copy, Debug, PartialEq, Eq, Structural)]
pub struct ThresholdWrite {
    pub attribute: ThresholdAttribute,
    pub value: u8,
}

/// How to get from one pair of limits to another.
#[derive(Clone, Copy, Debug, PartialEq, Eq, Structural)]
pub enum ThresholdPlan {
    /// The limits are what they should be.
    Unchanged,
    /// Write one limit, then the other. If the other cannot be written, undo the one.
    Write { first: ThresholdWrite, second: ThresholdWrite, rollback: ThresholdWrite },
}

/// What became of limits that were written.
#[derive(Clone, Copy, Debug, PartialEq, Eq, Structural)]
pub struct ThresholdWriteResult {
    pub actual_start_percent: u8,
    pub actual_end_percent: u8,
    pub verified: bool,
}

/// How to get from one pair of limits to another: the limit first that keeps
/// them in order meanwhile.
pub open spec fn write_plan(current: (u8, u8), start: u8, end: u8) -> ThresholdPlan {
    if current == (start, end) {
        ThresholdPlan::Unchanged
    } else if start >= current.1 {
        ThresholdPlan::Write {
            first: ThresholdWrite { attribute: ThresholdAttribute::End, value: end },
            second: ThresholdWrite { attribute: ThresholdAttribute::Start, value: start },
            rollback: ThresholdWrite { attribute: ThresholdAttribute::End, value: current.1 },
        }
    } else {
        ThresholdPlan::Write {
            first: ThresholdWrite { attribute: ThresholdAttribute::Start, value: start },
            second: ThresholdWrite { attribute: ThresholdAttribute::End, value: end },
            rollback: ThresholdWrite { attribute: ThresholdAttribute::Start, value: current.0 },
        }
    }
}

/// The sentence that refuses limits that are out of order.
pub const INVALID_THRESHOLDS: &'static str = "thresholds must satisfy 0 <= start < end <= 100";

/// Tests whether limits are in order.
pub fn valid_thresholds(start: u8, end: u8) -> (valid: bool)
    ensures
        valid == is_range(start, end),
{
    start < end && end <= 100
}

/// Plans how to get from one pair of limits to another. There is no way to
/// limits that are out of order.
pub fn plan_thresholds(current_start: u8, current_end: u8, start: u8, end: u8) -> (plan: Option<
    ThresholdPlan,
>)
    ensures
        plan == if is_range(start, end) {
            Some(write_plan((current_start, current_end), start, end))
        } else {
            None
        },
{
    if !valid_thresholds(start, end) {
        return None;
    }
    if current_start == start && current_end == end {
        return Some(ThresholdPlan::Unchanged);
    }
    if start >= current_end {
        Some(
            ThresholdPlan::Write {
                first: ThresholdWrite { attribute: ThresholdAttribute::End, value: end },
                second: ThresholdWrite { attribute: ThresholdAttribute::Start, value: start },
                rollback: ThresholdWrite { attribute: ThresholdAttribute::End, value: current_end },
            },
        )
    } else {
        Some(
            ThresholdPlan::Write {
                first: ThresholdWrite { attribute: ThresholdAttribute::Start, value: start },
                second: ThresholdWrite { attribute: ThresholdAttribute::End, value: end },
                rollback: ThresholdWrite {
                    attribute: ThresholdAttribute::Start,
                    value: current_start,
                },
            },
        )
    }
}

/// What became of limits, given what the firmware reports.
pub fn threshold_result(actual_start: u8, actual_end: u8, start: u8, end: u8) -> (result:
    ThresholdWriteResult)
    ensures
        result == (ThresholdWriteResult {
            actual_start_percent: actual_start,
            actual_end_percent: actual_end,
            verified: (actual_start, actual_end) == (start, end),
        }),
{
    ThresholdWriteResult {
        actual_start_percent: actual_start,
        actual_end_percent: actual_end,
        verified: actual_start == start && actual_end == end,
    }
}

/// Limits with one of them written.
pub open spec fn written(limits: (u8, u8), write: ThresholdWrite) -> (u8, u8) {
    match write.attribute {
        ThresholdAttribute::Start => (write.value, limits.1),
        ThresholdAttribute::End => (limits.0, write.value),
    }
}

/// From limits that are in order to others, limits are in order at every step.
/// The steps lead there, and undoing the first leads back.
pub proof fn writes_keep_limits_in_order(current: (u8, u8), start: u8, end: u8)
    requires
        is_range(current.0, current.1),
        is_range(start, end),
    ensures
        match write_plan(current, start, end) {
            ThresholdPlan::Unchanged => current == (start, end),
            ThresholdPlan::Write { first, second, rollback } => {
                let between = written(current, first);
                &&& is_range(between.0, between.1)
                &&& written(between, second) == (start, end)
                &&& written(between, rollback) == current
            },
        },
{
}

// Changing limits

/// How far a change of limits has come.
#[derive(Clone, Copy, Debug, PartialEq, Eq, Structural)]
pub enum LimitStage {
    /// The first limit is being written.
    First,
    /// The second limit is being written.
    Second,
    /// The first limit is being put back.
    Back,
    /// The limits are being read.
    Reading,
    /// All is done.
    Ended,
}

/// A change of limits.
#[derive(Clone, Copy, Debug, PartialEq, Eq, Structural)]
pub struct LimitChange {
    pub start: u8,
    pub end: u8,
    pub second: ThresholdWrite,
    pub rollback: ThresholdWrite,
    pub stage: LimitStage,
}

/// What a change of limits asks for next.
#[derive(Debug, PartialEq, Eq)]
pub enum LimitAction {
    /// Write a limit.
    Write(ThresholdWrite),
    /// Read both limits.
    Read,
    /// Report what became of the limits.
    Succeed(ThresholdWriteResult),
    /// Report an error.
    Fail(String),
    /// There is nothing left to do.
    Nothing,
}

/// What a [`LimitAction`] says.
pub enum LimitActionModel {
    Write(ThresholdWrite),
    Read,
    Succeed(ThresholdWriteResult),
    Fail(Seq<char>),
    Nothing,
}

impl DeepView for LimitAction {
    type V = LimitActionModel;

    open spec fn deep_view(&self) -> LimitActionModel {
        match self {
            LimitAction::Write(write) => LimitActionModel::Write(*write),
            LimitAction::Read => LimitActionModel::Read,
            LimitAction::Succeed(result) => LimitActionModel::Succeed(*result),
            LimitAction::Fail(error) => LimitActionModel::Fail(error@),
            LimitAction::Nothing => LimitActionModel::Nothing,
        }
    }
}

/// What became of what a change of limits asked for.
#[derive(Debug, PartialEq, Eq)]
pub enum LimitEvent {
    /// The limit was written.
    Written,
    /// The limits were read.
    Observed { start: u8, end: u8 },
    /// It did not work.
    Failed(String),
}

/// What a [`LimitEvent`] says.
pub enum LimitEventModel {
    Written,
    Observed { start: u8, end: u8 },
    Failed(Seq<char>),
}

impl DeepView for LimitEvent {
    type V = LimitEventModel;

    open spec fn deep_view(&self) -> LimitEventModel {
        match self {
            LimitEvent::Written => LimitEventModel::Written,
            LimitEvent::Observed { start, end } => LimitEventModel::Observed {
                start: *start,
                end: *end,
            },
            LimitEvent::Failed(error) => LimitEventModel::Failed(error@),
        }
    }
}

/// The sentence that reports that a limit was put back.
pub const ROLLED_BACK: &'static str = "second threshold write failed; first write rolled back";

/// The words in front of the reason for which a limit could not be put back.
pub const NOT_ROLLED_BACK: &'static str =
    "second threshold write failed and rollback also failed: ";

/// What became of limits that were asked for, as they are read.
pub open spec fn result_of(actual: (u8, u8), start: u8, end: u8) -> ThresholdWriteResult {
    ThresholdWriteResult {
        actual_start_percent: actual.0,
        actual_end_percent: actual.1,
        verified: actual == (start, end),
    }
}

/// A change of limits as it begins, and what it asks for first.
pub open spec fn change_begun(current: (u8, u8), start: u8, end: u8) -> (
    LimitChange,
    LimitActionModel,
) {
    match write_plan(current, start, end) {
        ThresholdPlan::Unchanged => {
            let none = ThresholdWrite { attribute: ThresholdAttribute::Start, value: start };
            (
                LimitChange {
                    start,
                    end,
                    second: none,
                    rollback: none,
                    stage: LimitStage::Ended,
                },
                LimitActionModel::Succeed(result_of(current, start, end)),
            )
        },
        ThresholdPlan::Write { first, second, rollback } => (
            LimitChange { start, end, second, rollback, stage: LimitStage::First },
            LimitActionModel::Write(first),
        ),
    }
}

/// A change of limits, and what it asks for next, after what became of a step.
pub open spec fn changed(change: LimitChange, event: LimitEventModel) -> (
    LimitChange,
    LimitActionModel,
) {
    let ended = LimitChange { stage: LimitStage::Ended, ..change };
    match (change.stage, event) {
        (LimitStage::Ended, _) => (change, LimitActionModel::Nothing),
        (LimitStage::First, LimitEventModel::Failed(error)) => (
            ended,
            LimitActionModel::Fail(error),
        ),
        (LimitStage::First, _) => (
            LimitChange { stage: LimitStage::Second, ..change },
            LimitActionModel::Write(change.second),
        ),
        (LimitStage::Second, LimitEventModel::Failed(_)) => (
            LimitChange { stage: LimitStage::Back, ..change },
            LimitActionModel::Write(change.rollback),
        ),
        (LimitStage::Second, _) => (
            LimitChange { stage: LimitStage::Reading, ..change },
            LimitActionModel::Read,
        ),
        (LimitStage::Back, LimitEventModel::Failed(error)) => (
            ended,
            LimitActionModel::Fail(NOT_ROLLED_BACK@ + error),
        ),
        (LimitStage::Back, _) => (ended, LimitActionModel::Fail(ROLLED_BACK@)),
        (LimitStage::Reading, LimitEventModel::Failed(error)) => (
            ended,
            LimitActionModel::Fail(error),
        ),
        (LimitStage::Reading, LimitEventModel::Observed { start, end }) => (
            ended,
            LimitActionModel::Succeed(result_of((start, end), change.start, change.end)),
        ),
        (LimitStage::Reading, LimitEventModel::Written) => (change, LimitActionModel::Read),
    }
}

impl LimitChange {
    /// Begins a change from the limits that a battery has. There is none to
    /// limits that are out of order.
    pub fn begin(current_start: u8, current_end: u8, start: u8, end: u8) -> (result: Option<
        (LimitChange, LimitAction),
    >)
        ensures
            match result {
                Some((change, action)) => is_range(start, end) && (change, action.deep_view())
                    == change_begun((current_start, current_end), start, end),
                None => !is_range(start, end),
            },
    {
        match plan_thresholds(current_start, current_end, start, end) {
            None => None,
            Some(ThresholdPlan::Unchanged) => {
                let none = ThresholdWrite { attribute: ThresholdAttribute::Start, value: start };
                Some(
                    (
                        LimitChange {
                            start,
                            end,
                            second: none,
                            rollback: none,
                            stage: LimitStage::Ended,
                        },
                        LimitAction::Succeed(
                            threshold_result(current_start, current_end, start, end),
                        ),
                    ),
                )
            },
            Some(ThresholdPlan::Write { first, second, rollback }) => Some(
                (
                    LimitChange { start, end, second, rollback, stage: LimitStage::First },
                    LimitAction::Write(first),
                ),
            ),
        }
    }

    /// Takes in what became of a step and gives the next.
    pub fn advance(&mut self, event: LimitEvent) -> (action: LimitAction)
        ensures
            (*final(self), action.deep_view()) == changed(*old(self), event.deep_view()),
    {
        match (self.stage, event) {
            (LimitStage::Ended, _) => LimitAction::Nothing,
            (LimitStage::First, LimitEvent::Failed(error)) => {
                self.stage = LimitStage::Ended;
                LimitAction::Fail(error)
            },
            (LimitStage::First, _) => {
                self.stage = LimitStage::Second;
                LimitAction::Write(self.second)
            },
            (LimitStage::Second, LimitEvent::Failed(_)) => {
                self.stage = LimitStage::Back;
                LimitAction::Write(self.rollback)
            },
            (LimitStage::Second, _) => {
                self.stage = LimitStage::Reading;
                LimitAction::Read
            },
            (LimitStage::Back, LimitEvent::Failed(error)) => {
                self.stage = LimitStage::Ended;
                LimitAction::Fail(joined(NOT_ROLLED_BACK, error.as_str()))
            },
            (LimitStage::Back, _) => {
                self.stage = LimitStage::Ended;
                LimitAction::Fail(ROLLED_BACK.to_string())
            },
            (LimitStage::Reading, LimitEvent::Failed(error)) => {
                self.stage = LimitStage::Ended;
                LimitAction::Fail(error)
            },
            (LimitStage::Reading, LimitEvent::Observed { start, end }) => {
                self.stage = LimitStage::Ended;
                LimitAction::Succeed(threshold_result(start, end, self.start, self.end))
            },
            (LimitStage::Reading, LimitEvent::Written) => LimitAction::Read,
        }
    }
}

/// A second limit that cannot be written has the first put back, which brings
/// the limits back that the battery had, and the change ends in an error,
/// whether or not putting it back worked.
pub proof fn failed_second_limit_is_undone(
    current: (u8, u8),
    start: u8,
    end: u8,
    error: Seq<char>,
    last: LimitEventModel,
)
    requires
        is_range(current.0, current.1),
        is_range(start, end),
        current != (start, end),
    ensures
        ({
            let (begun, first) = change_begun(current, start, end);
            let (between, second) = changed(begun, LimitEventModel::Written);
            let (undoing, back) = changed(between, LimitEventModel::Failed(error));
            let (ended, report) = changed(undoing, last);
            &&& first matches LimitActionModel::Write(first)
            &&& second matches LimitActionModel::Write(second)
            &&& back matches LimitActionModel::Write(back)
            &&& written(written(current, first), second) == (start, end)
            &&& written(written(current, first), back) == current
            &&& report is Fail
            &&& ended.stage == LimitStage::Ended
        }),
{
}

/// Once a change of limits has begun it reports success only when both limits
/// were written and then read, and says that they were verified exactly where
/// those that were read are those asked for.
pub proof fn success_is_reported_after_reading(
    current: (u8, u8),
    start: u8,
    end: u8,
    events: Seq<LimitEventModel>,
    event: LimitEventModel,
)
    requires
        changed(after_events(change_begun(current, start, end).0, events), event).1 is Succeed,
    ensures
        events.len() >= 2,
        events[0] !is Failed && events[1] !is Failed,
        event matches LimitEventModel::Observed { start: s, end: e } && changed(
            after_events(change_begun(current, start, end).0, events),
            event,
        ).1 == LimitActionModel::Succeed(result_of((s, e), start, end)),
{
    lemma_events(change_begun(current, start, end).0, events);
}

/// A change of limits after what became of several steps.
pub open spec fn after_events(change: LimitChange, events: Seq<LimitEventModel>) -> LimitChange
    decreases events.len(),
{
    if events.len() == 0 {
        change
    } else {
        changed(after_events(change, events.drop_last()), events.last()).0
    }
}

proof fn lemma_events(change: LimitChange, events: Seq<LimitEventModel>)
    ensures
        ({
            let after = after_events(change, events);
            &&& after.start == change.start && after.end == change.end
            &&& change.stage is Ended ==> after.stage is Ended
            &&& change.stage is First && events.len() == 0 ==> after.stage is First
            &&& change.stage is First && after.stage is First ==> events.len() == 0
            &&& change.stage is First && after.stage is Second ==> events.len() == 1
                && events[0] !is Failed
            &&& change.stage is First && after.stage is Reading ==> events.len() >= 2
                && events[0] !is Failed && events[1] !is Failed
        }),
    decreases events.len(),
{
    if events.len() > 0 {
        lemma_events(change, events.drop_last());
    }
}

// Behaviours

/// A word without the brackets at its ends.
pub open spec fn without_brackets(word: Seq<char>) -> Seq<char> {
    bracket_end(bracket_start(word))
}

/// A word without the brackets that it begins with.
pub open spec fn bracket_start(word: Seq<char>) -> Seq<char>
    decreases word.len(),
{
    if word.len() > 0 && is_bracket(word[0]) {
        bracket_start(word.skip(1))
    } else {
        word
    }
}

/// A word without the brackets that it ends in.
pub open spec fn bracket_end(word: Seq<char>) -> Seq<char>
    decreases word.len(),
{
    if word.len() > 0 && is_bracket(word.last()) {
        bracket_end(word.drop_last())
    } else {
        word
    }
}

/// Whether a character is a square bracket.
pub open spec fn is_bracket(c: char) -> bool {
    c == '[' || c == ']'
}

/// The values that words name, without the selected one's brackets.
pub open spec fn choices_in(words: Seq<Seq<char>>) -> Seq<Seq<char>>
    decreases words.len(),
{
    if words.len() == 0 {
        Seq::empty()
    } else {
        let rest = choices_in(words.drop_last());
        let word = without_brackets(words.last());
        if word.len() == 0 {
            rest
        } else {
            rest.push(word)
        }
    }
}

/// The first of the words that stands in brackets.
pub open spec fn bracketed_in(words: Seq<Seq<char>>) -> Option<Seq<char>>
    decreases words.len(),
{
    if words.len() == 0 {
        None
    } else if words[0].len() > 0 && words[0][0] == '[' && words[0].last() == ']' {
        Some(without_brackets(words[0]))
    } else {
        bracketed_in(words.skip(1))
    }
}

/// The selected value and all values that an attribute offers. One value alone is selected.
pub open spec fn choices_of(contents: Seq<char>) -> Option<(Seq<char>, Seq<Seq<char>>)> {
    let words = words_of(contents);
    let choices = choices_in(words);
    match bracketed_in(words) {
        Some(selected) => Some((selected, choices)),
        None => if choices.len() == 1 {
            Some((choices[0], choices))
        } else {
            None
        },
    }
}

fn strip_brackets(word: &Vec<char>) -> (part: Vec<char>)
    ensures
        part@ == without_brackets(word@),
{
    let mut start: usize = 0;
    assert(word@.skip(0) =~= word@);
    while start < word.len() && (word[start] == '[' || word[start] == ']')
        invariant
            start <= word@.len(),
            bracket_start(word@) == bracket_start(word@.skip(start as int)),
        decreases word@.len() - start,
    {
        assert(word@.skip(start as int).skip(1) =~= word@.skip(start + 1));
        start = start + 1;
    }
    let ghost rest = word@.skip(start as int);
    let mut end: usize = word.len();
    assert(rest.take(end - start) =~= rest);
    while end > start && (word[end - 1] == '[' || word[end - 1] == ']')
        invariant
            start <= end <= word@.len(),
            rest == word@.skip(start as int),
            bracket_end(rest) == bracket_end(rest.take(end - start)),
        decreases end,
    {
        assert(rest.take(end - start).drop_last() =~= rest.take(end - start - 1));
        assert(rest.take(end - start).last() == word@[end - 1]);
        end = end - 1;
    }
    proof {
        assert(word@.subrange(start as int, end as int) =~= rest.take(end - start));
        if end > start {
            assert(rest.take(end - start).last() == word@[end - 1]);
        }
    }
    slice_chars(word, start, end)
}

fn collect_choices(words: &Vec<Vec<char>>) -> (choices: Vec<String>)
    ensures
        choices.deep_view() == choices_in(char_views(words@)),
{
    let ghost all = char_views(words@);
    let mut choices: Vec<String> = Vec::new();
    let mut i: usize = 0;
    assert(all.take(0) =~= Seq::<Seq<char>>::empty());
    assert(choices.deep_view() =~= Seq::<Seq<char>>::empty());
    while i < words.len()
        invariant
            i <= words@.len(),
            all == char_views(words@),
            choices.deep_view() == choices_in(all.take(i as int)),
        decreases words@.len() - i,
    {
        assert(all.take(i + 1).drop_last() =~= all.take(i as int));
        assert(all.take(i + 1).last() == words@[i as int]@);
        let ghost before = choices.deep_view();
        let word = strip_brackets(&words[i]);
        if word.len() > 0 {
            choices.push(text_of(&word));
            assert(choices.deep_view() =~= before.push(word@));
        }
        i = i + 1;
    }
    assert(all.take(i as int) =~= all);
    choices
}

fn find_bracketed(words: &Vec<Vec<char>>) -> (selected: Option<String>)
    ensures
        selected.deep_view() == bracketed_in(char_views(words@)),
{
    let ghost all = char_views(words@);
    let mut i: usize = 0;
    assert(all.skip(0) =~= all);
    while i < words.len()
        invariant
            i <= words@.len(),
            all == char_views(words@),
            bracketed_in(all) == bracketed_in(all.skip(i as int)),
        decreases words@.len() - i,
    {
        assert(all.skip(i as int)[0] == words@[i as int]@);
        let word = &words[i];
        if word.len() > 0 && word[0] == '[' && word[word.len() - 1] == ']' {
            return Some(text_of(&strip_brackets(word)));
        }
        assert(all.skip(i as int).skip(1) =~= all.skip(i + 1));
        i = i + 1;
    }
    None
}

/// Reads the selected value and all values that an attribute offers.
pub fn parse_choices(contents: &str) -> (choices: Option<(String, Vec<String>)>)
    ensures
        match choices {
            Some((selected, choices)) => choices_of(contents@) == Some(
                (selected@, choices.deep_view()),
            ),
            None => choices_of(contents@) is None,
        },
{
    let words = split_words(&chars_of(contents));
    let choices = collect_choices(&words);
    assert(choices.deep_view().len() == choices@.len());
    match find_bracketed(&words) {
        Some(selected) => Some((selected, choices)),
        None => if choices.len() == 1 {
            assert(choices.deep_view()[0] == choices@[0]@);
            Some((choices[0].clone(), choices))
        } else {
            None
        },
    }
}

/// Whether a charge behaviour is one that may be asked for.
pub open spec fn is_behaviour(behaviour: Seq<char>) -> bool {
    ||| behaviour == "auto"@
    ||| behaviour == "inhibit-charge"@
    ||| behaviour == "inhibit-charge-awake"@
    ||| behaviour == "force-discharge"@
}

/// Why a charge behaviour is refused, given what the battery offers.
pub open spec fn behaviour_refusal(
    battery: Seq<char>,
    behaviour: Seq<char>,
    offered: Seq<Seq<char>>,
) -> Option<Seq<char>> {
    if !is_behaviour(behaviour) {
        Some("unsupported charge behaviour: "@ + behaviour)
    } else if !offered.contains(behaviour) {
        Some("battery "@ + battery + (" does not support charge behaviour "@ + behaviour))
    } else {
        None
    }
}

/// Refuses a charge behaviour that nobody may ask for or that the battery does not offer.
pub fn check_behaviour(battery: &str, behaviour: &str, offered: &Vec<String>) -> (result: Result<
    (),
    String,
>)
    ensures
        match result {
            Ok(()) => behaviour_refusal(battery@, behaviour@, offered.deep_view()) is None,
            Err(message) => behaviour_refusal(battery@, behaviour@, offered.deep_view()) == Some(
                message@,
            ),
        },
{
    let known = same_text(behaviour, "auto") || same_text(behaviour, "inhibit-charge")
        || same_text(behaviour, "inhibit-charge-awake") || same_text(
        behaviour,
        "force-discharge",
    );
    if !known {
        return Err(joined("unsupported charge behaviour: ", behaviour));
    }
    if !contains_name(offered, behaviour) {
        let tail = joined(" does not support charge behaviour ", behaviour);
        return Err(joined3("battery ", battery, tail.as_str()));
    }
    Ok(())
}

/// Compares the behaviour that a battery reports with the one that was asked for.
pub fn confirm_behaviour(battery: &str, behaviour: &str, actual: &str) -> (result: Result<
    (),
    String,
>)
    ensures
        match result {
            Ok(()) => actual@ == behaviour@,
            Err(message) => actual@ != behaviour@ && message@ == "battery "@ + battery@ + (
            " reported charge behaviour "@ + actual@ + (" after requesting "@ + behaviour@)),
        },
{
    if same_text(actual, behaviour) {
        Ok(())
    } else {
        let requested = joined(" after requesting ", behaviour);
        let reported = joined3(" reported charge behaviour ", actual, requested.as_str());
        Err(joined3("battery ", battery, reported.as_str()))
    }
}

// Laws

/// A limit is read from a file that holds it and the end of a line, up to a
/// hundred.
pub proof fn limits_are_read_from_files(n: nat)
    ensures
        n <= 100 ==> percent_in(decimal_text(n).push('\n')) == Ok::<u8, PercentError>(n as u8),
        100 < n <= 255 ==> percent_in(decimal_text(n).push('\n')) == Err::<u8, PercentError>(
            PercentError::Range,
        ),
        n > 255 ==> percent_in(decimal_text(n).push('\n')) == Err::<u8, PercentError>(
            PercentError::Number,
        ),
{
    numbers_are_read_from_files(n, u8::MAX as nat);
}

/// Limits are written if and only if they differ from those there are, and both
/// are; what is reported is what was read back, and that it is what was asked for
/// if and only if it is.
pub proof fn limits_become_what_was_asked(current: (u8, u8), start: u8, end: u8, actual: (u8, u8))
    ensures
        write_plan(current, start, end) is Unchanged <==> current.0 == start && current.1 == end,
        write_plan(current, start, end) matches ThresholdPlan::Write { first, second, .. }
            ==> written(written(current, first), second) == (start, end),
        result_of(actual, start, end).actual_start_percent == actual.0,
        result_of(actual, start, end).actual_end_percent == actual.1,
        result_of(actual, start, end).verified <==> actual.0 == start && actual.1 == end,
        change_begun(current, start, end).1 is Succeed <==> current.0 == start && current.1 == end,
{
}

/// A limit that is written takes the place of that limit and leaves the other.
pub proof fn one_limit_is_written_at_a_time(limits: (u8, u8), value: u8)
    ensures
        written(
            limits,
            ThresholdWrite { attribute: ThresholdAttribute::Start, value },
        ) == (value, limits.1),
        written(
            limits,
            ThresholdWrite { attribute: ThresholdAttribute::End, value },
        ) == (limits.0, value),
{
}

/// A change of limits writes one limit, then the other, then reads them; it fails
/// with what went wrong, and ends there.
pub proof fn limits_are_changed_in_turn(change: LimitChange, event: LimitEventModel)
    ensures
        ({
            let (after, action) = changed(change, event);
            &&& change.stage == LimitStage::Ended ==> action is Nothing && after == change
            &&& change.stage == LimitStage::First && !(event is Failed) ==> action
                == LimitActionModel::Write(change.second) && after.stage == LimitStage::Second
            &&& change.stage == LimitStage::Second && !(event is Failed) ==> action is Read
                && after.stage == LimitStage::Reading
            &&& change.stage == LimitStage::Second && event is Failed ==> action
                == LimitActionModel::Write(change.rollback) && after.stage == LimitStage::Back
            &&& (change.stage == LimitStage::First || change.stage == LimitStage::Reading) ==> (
            event matches LimitEventModel::Failed(error) ==> action == LimitActionModel::Fail(error)
                && after.stage == LimitStage::Ended)
            &&& change.stage == LimitStage::Back ==> action is Fail && after.stage
                == LimitStage::Ended
            &&& change.stage == LimitStage::Reading ==> (event matches LimitEventModel::Observed {
                start,
                end,
            } ==> (action matches LimitActionModel::Succeed(result) && result.actual_start_percent
                == start && result.actual_end_percent == end && (result.verified <==> start
                == change.start && end == change.end)))
        }),
{
}

proof fn lemma_plain_word(word: Seq<char>)
    requires
        !word.contains('['),
        !word.contains(']'),
    ensures
        without_brackets(word) == word,
        without_brackets(seq!['['] + word.push(']')) == word,
{
    let whole = seq!['['] + word.push(']');
    assert(whole.skip(1) =~= word.push(']'));
    if word.len() > 0 {
        assert(word.contains(word[0]));
        assert(word.contains(word.last()));
        assert(word.push(']')[0] == word[0]);
        assert(word.push(']').drop_last() =~= word);
        assert(bracket_start(word.push(']')) == word.push(']'));
        assert(bracket_start(whole) == word.push(']'));
        assert(bracket_end(word) == word);
        assert(bracket_end(word.push(']')) == word);
    } else {
        assert(word.push(']').skip(1) =~= word);
        assert(bracket_start(word) == word);
        assert(bracket_start(word.push(']')) == word);
        assert(bracket_start(whole) == word);
        assert(bracket_end(word) == word);
    }
}

/// Of the choices that a file lists, each is offered, and the one in brackets is
/// the one made.
pub proof fn choice_in_brackets_is_made(before: Seq<Seq<char>>, word: Seq<char>, after: Seq<Seq<char>>)
    requires
        word.len() > 0,
        !word.contains('[') && !word.contains(']'),
        forall|i: int|
            0 <= i < before.len() ==> (#[trigger] before[i]).len() > 0 && !before[i].contains('[')
                && !before[i].contains(']'),
    ensures
        bracketed_in(before.push(seq!['['] + word.push(']')) + after) == Some(word),
        choices_in(before) == before,
        choices_in(before.push(seq!['['] + word.push(']'))) == before.push(word),
{
    let made = seq!['['] + word.push(']');
    lemma_plain_word(word);
    lemma_bracketed(before, made, after);
    lemma_choices(before);
    assert(before.push(made).drop_last() =~= before);
    assert(made[0] == '[' && made.last() == ']');
}

proof fn lemma_bracketed(before: Seq<Seq<char>>, made: Seq<char>, after: Seq<Seq<char>>)
    requires
        made.len() > 0,
        made[0] == '[',
        made.last() == ']',
        forall|i: int| 0 <= i < before.len() ==> !(#[trigger] before[i]).contains('['),
    ensures
        bracketed_in(before.push(made) + after) == Some(without_brackets(made)),
    decreases before.len(),
{
    let words = before.push(made) + after;
    if before.len() > 0 {
        let rest = before.skip(1);
        assert forall|i: int| 0 <= i < rest.len() implies !(#[trigger] rest[i]).contains('[') by {
            assert(rest[i] == before[i + 1]);
        }
        lemma_bracketed(rest, made, after);
        assert(words.skip(1) =~= rest.push(made) + after);
        assert(words[0] == before[0]);
        if words[0].len() > 0 {
            assert(words[0].contains(words[0][0]));
        }
    } else {
        assert(words[0] == made);
    }
}

proof fn lemma_choices(words: Seq<Seq<char>>)
    requires
        forall|i: int|
            0 <= i < words.len() ==> (#[trigger] words[i]).len() > 0 && !words[i].contains('[')
                && !words[i].contains(']'),
    ensures
        choices_in(words) == words,
    decreases words.len(),
{
    if words.len() > 0 {
        let shorter = words.drop_last();
        assert forall|i: int| 0 <= i < shorter.len() implies (#[trigger] shorter[i]).len() > 0
            && !shorter[i].contains('[') && !shorter[i].contains(']') by {
            assert(shorter[i] == words[i]);
        }
        lemma_choices(shorter);
        assert(words[words.len() - 1] == words.last());
        lemma_plain_word(words.last());
        assert(shorter.push(words.last()) =~= words);
    } else {
        assert(choices_in(words) =~= words);
    }
}

/// A behaviour is accepted if and only if it is one of the four there are and the
/// battery offers it.
pub proof fn offered_behaviours_are_accepted(
    battery: Seq<char>,
    behaviour: Seq<char>,
    offered: Seq<Seq<char>>,
)
    ensures
        behaviour_refusal(battery, behaviour, offered) is None <==> offered.contains(behaviour) && (
        behaviour == "auto"@ || behaviour == "inhibit-charge"@ || behaviour
            == "inhibit-charge-awake"@ || behaviour == "force-discharge"@),
        id_refusal(battery) is None <==> is_battery_id(battery),
{
    battery_ids_are_numbered(battery);
}

/// The choices of a file are its words. The one made is the one in brackets; where
/// none is, it is the only one, and of several none is made.
pub proof fn only_choice_is_made(contents: Seq<char>)
    ensures
        ({
            let offered = choices_in(words_of(contents));
            let marked = bracketed_in(words_of(contents));
            &&& marked matches Some(word) ==> choices_of(contents) == Some((word, offered))
            &&& marked is None && offered.len() == 1 ==> choices_of(contents) == Some(
                (offered[0], offered),
            )
            &&& marked is None && offered.len() != 1 ==> choices_of(contents) is None
        }),
{
}

} // verus!
