//! Events out of iCalendar files.

use vstd::prelude::*;
use vstd::utf8::encode_utf8;

use crate::activity::calendar::{
    can_show, chrono_seconds, date_text, format_date, instant_here, instant_in_zone, is_timezone,
    known_timezone, parse_date, parse_moment, parsed_date, parsed_moment, zone_instant,
};
use crate::activity::config::{CalendarSourceConfig, CalendarSourceConfigModel};
use crate::activity::model::{ActivityEvent, ActivityEventModel};
use crate::record::Record;
use crate::sorting::{sorted, sorting_orders_and_keeps_items, stable_sort, Order};
use crate::text::{
    ascii_upper_text, byte_length, case_is_that_of_ascii_letters, char_views, chars_of, equals_ignoring_case, first_position, integer_text,
    is_blank, is_empty, joined, joined3, lemma_first_position, lemma_split_joined,
    lemma_trimmed_end_of, one_character_is_trimmed_off, pair_replaced, position_of, replace_pair, same_chars, same_ignoring_case,
    same_text, signed_decimal, slice_chars, splitting_stops_at_each_character, split_chars, split_chars_once, split_on, split_once,
    text_less, text_lt, text_lt_asymmetric, text_lt_total, text_lt_transitive, text_of, trim_end_of,
    trim_start_of, trimmed, trimmed_end_of, trimmed_start_of, upper_chars,
};

verus! {

/// Milliseconds in a day.
pub const DAY_MS: i64 = 86_400_000;

/// Milliseconds in an hour.
pub const HOUR_MS: i64 = 3_600_000;

/// The start or the end of an event.
#[derive(Debug, PartialEq, Eq)]
pub struct ParsedTime {
    pub unix_ms: i64,
    pub date: Option<String>,
    pub all_day: bool,
    pub timezone: Option<String>,
}

/// What a [`ParsedTime`] holds.
#[verifier::ext_equal]
pub struct ParsedTimeModel {
    pub unix_ms: i64,
    pub date: Option<Seq<char>>,
    pub all_day: bool,
    pub timezone: Option<Seq<char>>,
}

impl DeepView for ParsedTime {
    type V = ParsedTimeModel;

    open spec fn deep_view(&self) -> ParsedTimeModel {
        ParsedTimeModel {
            unix_ms: self.unix_ms.deep_view(),
            date: self.date.deep_view(),
            all_day: self.all_day.deep_view(),
            timezone: self.timezone.deep_view(),
        }
    }
}

impl Record for ParsedTime {
    fn same(&self, other: &Self) -> (same: bool) {
        self.unix_ms.same(&other.unix_ms)
            && self.date.same(&other.date)
            && self.all_day.same(&other.all_day)
            && self.timezone.same(&other.timezone)
    }

    fn copy(&self) -> (copy: Self) {
        ParsedTime {
            unix_ms: self.unix_ms.copy(),
            date: self.date.copy(),
            all_day: self.all_day.copy(),
            timezone: self.timezone.copy(),
        }
    }
}

impl Clone for ParsedTime {
    fn clone(&self) -> (copy: Self)
        ensures
            copy.deep_view() == self.deep_view(),
    {
        self.copy()
    }
}

/// What the lines of an event have said so far.
#[derive(Debug, PartialEq, Eq)]
pub struct EventBuilder {
    pub uid: String,
    pub title: String,
    pub start: Option<ParsedTime>,
    pub end: Option<ParsedTime>,
    pub location: String,
    pub url: String,
    pub cancelled: bool,
}

/// What a [`EventBuilder`] holds.
#[verifier::ext_equal]
pub struct EventBuilderModel {
    pub uid: Seq<char>,
    pub title: Seq<char>,
    pub start: Option<ParsedTimeModel>,
    pub end: Option<ParsedTimeModel>,
    pub location: Seq<char>,
    pub url: Seq<char>,
    pub cancelled: bool,
}

impl DeepView for EventBuilder {
    type V = EventBuilderModel;

    open spec fn deep_view(&self) -> EventBuilderModel {
        EventBuilderModel {
            uid: self.uid.deep_view(),
            title: self.title.deep_view(),
            start: self.start.deep_view(),
            end: self.end.deep_view(),
            location: self.location.deep_view(),
            url: self.url.deep_view(),
            cancelled: self.cancelled.deep_view(),
        }
    }
}

impl Record for EventBuilder {
    fn same(&self, other: &Self) -> (same: bool) {
        self.uid.same(&other.uid)
            && self.title.same(&other.title)
            && self.start.same(&other.start)
            && self.end.same(&other.end)
            && self.location.same(&other.location)
            && self.url.same(&other.url)
            && self.cancelled.same(&other.cancelled)
    }

    fn copy(&self) -> (copy: Self) {
        EventBuilder {
            uid: self.uid.copy(),
            title: self.title.copy(),
            start: self.start.copy(),
            end: self.end.copy(),
            location: self.location.copy(),
            url: self.url.copy(),
            cancelled: self.cancelled.copy(),
        }
    }
}

impl Clone for EventBuilder {
    fn clone(&self) -> (copy: Self)
        ensures
            copy.deep_view() == self.deep_view(),
    {
        self.copy()
    }
}

impl EventBuilderModel {
    /// What a default [`EventBuilder`] holds.
    pub open spec fn initial() -> EventBuilderModel {
        EventBuilderModel {
            uid: Seq::empty(),
            title: Seq::empty(),
            start: None,
            end: None,
            location: Seq::empty(),
            url: Seq::empty(),
            cancelled: false,
        }
    }
}

impl Default for EventBuilder {
    fn default() -> (value: EventBuilder)
        ensures
            value.deep_view() == EventBuilderModel::initial(),
    {
        let value = EventBuilder {
            uid: String::new(),
            title: String::new(),
            start: None,
            end: None,
            location: String::new(),
            url: String::new(),
            cancelled: false,
        };
        assert(value.deep_view() =~= EventBuilderModel::initial());
        value
    }
}

/// Why a start or an end is not understood.
#[derive(Clone, Copy, Debug, PartialEq, Eq, Structural)]
pub enum TimeError {
    /// The value is no date.
    Date,
    /// The value is no date with a time of day.
    Moment,
    /// The time zone is not known.
    Timezone,
    /// The clocks of the zone skip the time.
    Skipped,
}

impl DeepView for TimeError {
    type V = TimeError;

    open spec fn deep_view(&self) -> TimeError {
        *self
    }
}

impl Record for TimeError {
    fn same(&self, other: &Self) -> (same: bool) {
        *self == *other
    }

    fn copy(&self) -> (copy: Self) {
        *self
    }
}

// Lines

/// The lines of a text, without the carriage returns that they end in.
pub open spec fn raw_lines(text: Seq<char>) -> Seq<Seq<char>> {
    let pieces = split_on(text, '\n');
    let lines = if pieces.last().len() == 0 {
        pieces.drop_last()
    } else {
        pieces
    };
    lines.map_values(|line: Seq<char>| trimmed_end_of(line, '\r'))
}

/// Whether a line continues the one in front of it.
pub open spec fn is_continuation(line: Seq<char>) -> bool {
    line.len() > 0 && (line[0] == ' ' || line[0] == '\t')
}

/// Lines with every continuation joined to the line that it continues.
pub open spec fn unfolded(raw: Seq<Seq<char>>) -> Seq<Seq<char>>
    decreases raw.len(),
{
    if raw.len() == 0 {
        Seq::empty()
    } else {
        let lines = unfolded(raw.drop_last());
        let line = raw.last();
        if is_continuation(line) && lines.len() > 0 {
            lines.drop_last().push(lines.last() + line.skip(1))
        } else {
            lines.push(line)
        }
    }
}

fn split_lines(text: &str) -> (lines: Vec<Vec<char>>)
    ensures
        char_views(lines@) == raw_lines(text@),
{
    let mut pieces = split_chars(&chars_of(text), '\n');
    let ghost all = char_views(pieces@);
    assert(all.last() == pieces@.last()@);
    let mut count: usize = pieces.len();
    if pieces[count - 1].len() == 0 {
        count = count - 1;
        assert(all.drop_last() =~= all.take(count as int));
    } else {
        assert(all =~= all.take(count as int));
    }
    let mut lines: Vec<Vec<char>> = Vec::new();
    let mut i: usize = 0;
    while i < count
        invariant
            i <= count <= pieces@.len(),
            all == char_views(pieces@),
            lines@.len() == i,
            forall|k: int|
                0 <= k < i ==> (#[trigger] lines@[k])@ == trimmed_end_of(all[k], '\r'),
        decreases count - i,
    {
        assert(all[i as int] == pieces@[i as int]@);
        lines.push(trim_end_of(&pieces[i], '\r'));
        i = i + 1;
    }
    assert(char_views(lines@) =~= raw_lines(text@));
    lines
}

fn append_chars(chars: &mut Vec<char>, more: &Vec<char>, from: usize)
    requires
        from <= more@.len(),
    ensures
        final(chars)@ == old(chars)@ + more@.skip(from as int),
{
    let mut i: usize = from;
    assert(more@.subrange(from as int, from as int) =~= Seq::<char>::empty());
    while i < more.len()
        invariant
            from <= i <= more@.len(),
            chars@ == old(chars)@ + more@.subrange(from as int, i as int),
        decreases more@.len() - i,
    {
        chars.push(more[i]);
        assert(more@.subrange(from as int, i + 1) =~= more@.subrange(from as int, i as int).push(
            more@[i as int],
        ));
        i = i + 1;
    }
    assert(more@.subrange(from as int, i as int) =~= more@.skip(from as int));
}

fn unfold_chars(text: &str) -> (lines: Vec<Vec<char>>)
    ensures
        char_views(lines@) == unfolded(raw_lines(text@)),
{
    let raw = split_lines(text);
    let ghost all = raw_lines(text@);
    let mut lines: Vec<Vec<char>> = Vec::new();
    let mut i: usize = 0;
    assert(all.take(0) =~= Seq::<Seq<char>>::empty());
    assert(char_views(lines@) =~= Seq::<Seq<char>>::empty());
    while i < raw.len()
        invariant
            i <= raw@.len(),
            all == char_views(raw@),
            char_views(lines@) == unfolded(all.take(i as int)),
        decreases raw@.len() - i,
    {
        let ghost before = char_views(lines@);
        assert(all.take(i + 1).drop_last() =~= all.take(i as int));
        assert(all.take(i + 1).last() == raw@[i as int]@);
        let line = &raw[i];
        if line.len() > 0 && (line[0] == ' ' || line[0] == '\t') && lines.len() > 0 {
            let ghost old_lines = lines@;
            if let Some(mut last) = lines.pop() {
                append_chars(&mut last, line, 1);
                lines.push(last);
                assert(char_views(old_lines).last() == old_lines.last()@);
                assert(char_views(lines@) =~= before.drop_last().push(before.last() + line@.skip(1)));
            }
        } else {
            lines.push(slice_chars(line, 0, line.len()));
            assert(line@.subrange(0, line@.len() as int) =~= line@);
            assert(char_views(lines@) =~= before.push(line@));
        }
        i = i + 1;
    }
    assert(all.take(i as int) =~= all);
    lines
}

/// The lines of a calendar, with continuations joined.
pub fn unfold_lines(contents: &str) -> (lines: Vec<String>)
    ensures
        lines.deep_view() == unfolded(raw_lines(contents@)),
{
    let raw = unfold_chars(contents);
    let mut lines: Vec<String> = Vec::new();
    let mut i: usize = 0;
    while i < raw.len()
        invariant
            i <= raw@.len(),
            lines@.len() == i,
            forall|k: int| 0 <= k < i ==> (#[trigger] lines@[k])@ == raw@[k]@,
        decreases raw@.len() - i,
    {
        lines.push(text_of(&raw[i]));
        i = i + 1;
    }
    assert(lines.deep_view() =~= char_views(raw@));
    lines
}

/// A text value with its escapes resolved.
pub open spec fn decoded(value: Seq<char>) -> Seq<char> {
    let lower = pair_replaced(value, '\\', 'n', '\n');
    let upper = pair_replaced(lower, '\\', 'N', '\n');
    let commas = pair_replaced(upper, '\\', ',', ',');
    let semicolons = pair_replaced(commas, '\\', ';', ';');
    pair_replaced(semicolons, '\\', '\\', '\\')
}

fn decode_chars(value: &Vec<char>) -> (text: String)
    ensures
        text@ == decoded(value@),
{
    let lower = replace_pair(value, '\\', 'n', '\n');
    let upper = replace_pair(&lower, '\\', 'N', '\n');
    let commas = replace_pair(&upper, '\\', ',', ',');
    let semicolons = replace_pair(&commas, '\\', ';', ';');
    text_of(&replace_pair(&semicolons, '\\', '\\', '\\'))
}

/// Resolves the escapes of a text value.
pub fn decode_text(value: &str) -> (text: String)
    ensures
        text@ == decoded(value@),
{
    decode_chars(&chars_of(value))
}

// Times

/// Whether a parameter of a property has this name.
pub open spec fn is_named(parameter: Seq<char>, name: Seq<char>) -> bool {
    match split_once(parameter, '=') {
        Some((key, _)) => ascii_upper_text(key) == name,
        None => false,
    }
}

/// The value of a parameter of a property.
pub open spec fn parameter_value(parameter: Seq<char>) -> Seq<char> {
    match split_once(parameter, '=') {
        Some((_, value)) => value,
        None => Seq::empty(),
    }
}

/// The value of the first of the parameters that has this name.
pub open spec fn first_value(parameters: Seq<Seq<char>>, name: Seq<char>) -> Option<Seq<char>>
    decreases parameters.len(),
{
    if parameters.len() == 0 {
        None
    } else if is_named(parameters[0], name) {
        Some(parameter_value(parameters[0]))
    } else {
        first_value(parameters.skip(1), name)
    }
}

/// Whether one of the parameters says that the value is a date.
pub open spec fn says_date(parameters: Seq<Seq<char>>) -> bool {
    exists|i: int|
        0 <= i < parameters.len() && is_named(#[trigger] parameters[i], "VALUE"@)
            && same_ignoring_case(parameter_value(parameters[i]), "DATE"@)
}

/// The parameters behind the name of a property.
pub open spec fn parameters_of(head: Seq<char>) -> Seq<Seq<char>> {
    split_on(head, ';').skip(1)
}

/// The time zone that a property names.
pub open spec fn zone_of(head: Seq<char>) -> Option<Seq<char>> {
    match first_value(parameters_of(head), "TZID"@) {
        Some(name) => Some(trimmed_end_of(trimmed_start_of(name, '"'), '"')),
        None => None,
    }
}

/// Whether a property holds a date without a time of day.
pub open spec fn is_date_valued(head: Seq<char>, value: Seq<char>) -> bool {
    says_date(parameters_of(head)) || (!value.contains('T') && encode_utf8(value).len() == 8)
}

/// How a time is found.
#[derive(Debug, PartialEq, Eq)]
pub enum TimePlan {
    /// The time is known.
    Known(ParsedTime),
    /// The time is not understood.
    Failed(TimeError),
    /// The time is that at which the clocks of this machine show this moment.
    Local { seconds: i64, nanos: u32 },
}

/// What a [`TimePlan`] holds.
pub enum TimePlanModel {
    Known(ParsedTimeModel),
    Failed(TimeError),
    Local { seconds: i64, nanos: u32 },
}

impl DeepView for TimePlan {
    type V = TimePlanModel;

    open spec fn deep_view(&self) -> TimePlanModel {
        match self {
            TimePlan::Known(time) => TimePlanModel::Known(time.deep_view()),
            TimePlan::Failed(error) => TimePlanModel::Failed(*error),
            TimePlan::Local { seconds, nanos } => TimePlanModel::Local {
                seconds: *seconds,
                nanos: *nanos,
            },
        }
    }
}

/// The Unix time of a moment on a clock that shows UTC, in milliseconds.
pub open spec fn utc_millis(moment: (i64, u32)) -> i64 {
    (moment.0 * 1000 + moment.1 / 1_000_000) as i64
}

/// The moment that a value gives, with or without seconds.
pub open spec fn value_moment(value: Seq<char>) -> Option<(i64, u32)> {
    match parsed_moment(value, "%Y%m%dT%H%M%S"@) {
        Some(moment) => Some(moment),
        None => parsed_moment(value, "%Y%m%dT%H%M"@),
    }
}

/// How the time that a property holds is found.
pub open spec fn planned_time(head: Seq<char>, value: Seq<char>) -> TimePlanModel {
    if is_date_valued(head, value) {
        match parsed_date(value, "%Y%m%d"@) {
            Some(days) => TimePlanModel::Known(
                ParsedTimeModel {
                    unix_ms: (days * DAY_MS) as i64,
                    date: date_text(days),
                    all_day: true,
                    timezone: zone_of(head),
                },
            ),
            None => TimePlanModel::Failed(TimeError::Date),
        }
    } else if value.len() > 0 && value.last() == 'Z' {
        match parsed_moment(value.drop_last(), "%Y%m%dT%H%M%S"@) {
            Some(moment) => TimePlanModel::Known(
                ParsedTimeModel {
                    unix_ms: utc_millis(moment),
                    date: None,
                    all_day: false,
                    timezone: Some("UTC"@),
                },
            ),
            None => TimePlanModel::Failed(TimeError::Moment),
        }
    } else {
        match (value_moment(value), zone_of(head)) {
            (None, _) => TimePlanModel::Failed(TimeError::Moment),
            (Some((seconds, nanos)), Some(name)) => zoned_time(name, seconds, nanos),
            (Some((seconds, nanos)), None) => TimePlanModel::Local { seconds, nanos },
        }
    }
}

/// The time at which the clocks of a zone first show a moment.
pub open spec fn zoned_time(name: Seq<char>, seconds: i64, nanos: u32) -> TimePlanModel {
    if !is_timezone(name) {
        TimePlanModel::Failed(TimeError::Timezone)
    } else {
        match zone_instant(name, seconds, nanos) {
            Some(unix_ms) => TimePlanModel::Known(
                ParsedTimeModel { unix_ms, date: None, all_day: false, timezone: Some(name) },
            ),
            None => TimePlanModel::Failed(TimeError::Skipped),
        }
    }
}

/// The time of a property, given the instant at which this machine's clocks
/// show the moment that it gives.
pub open spec fn resolved_time(plan: TimePlanModel, here: Option<i64>) -> Result<
    ParsedTimeModel,
    TimeError,
> {
    match plan {
        TimePlanModel::Known(time) => Ok(time),
        TimePlanModel::Failed(error) => Err(error),
        TimePlanModel::Local { .. } => match here {
            Some(unix_ms) => Ok(
                ParsedTimeModel { unix_ms, date: None, all_day: false, timezone: None },
            ),
            None => Err(TimeError::Skipped),
        },
    }
}

/// Whether an instant can be when this machine's clocks show the moment that a
/// plan asks for.
pub open spec fn can_be_here(plan: TimePlanModel, here: Option<i64>) -> bool {
    match (plan, here) {
        (TimePlanModel::Local { seconds, nanos }, Some(millis)) => can_show(
            millis as int,
            seconds as int,
            nanos as int,
        ),
        _ => true,
    }
}

/// Whether a day can be added to a time.
pub open spec fn time_fits(unix_ms: int) -> bool {
    unix_ms + DAY_MS <= i64::MAX
}

fn parameters(head: &Vec<char>) -> (parameters: Vec<Vec<char>>)
    ensures
        char_views(parameters@) == parameters_of(head@),
{
    let mut pieces = split_chars(head, ';');
    let ghost all = char_views(pieces@);
    let _ = pieces.remove(0);
    assert(char_views(pieces@) =~= all.skip(1));
    pieces
}

fn find_value(parameters: &Vec<Vec<char>>, name: &str) -> (value: Option<Vec<char>>)
    ensures
        match value {
            Some(value) => first_value(char_views(parameters@), name@) == Some(value@),
            None => first_value(char_views(parameters@), name@) is None,
        },
{
    let wanted = chars_of(name);
    let ghost all = char_views(parameters@);
    let mut i: usize = 0;
    assert(all.skip(0) =~= all);
    while i < parameters.len()
        invariant
            i <= parameters@.len(),
            wanted@ == name@,
            all == char_views(parameters@),
            first_value(all, name@) == first_value(all.skip(i as int), name@),
        decreases parameters@.len() - i,
    {
        assert(all.skip(i as int)[0] == parameters@[i as int]@);
        if let Some((key, value)) = split_chars_once(&parameters[i], '=') {
            if same_chars(&upper_chars(&key), &wanted) {
                return Some(value);
            }
        }
        assert(all.skip(i as int).skip(1) =~= all.skip(i + 1));
        i = i + 1;
    }
    None
}

fn finds_date(parameters: &Vec<Vec<char>>) -> (found: bool)
    ensures
        found == says_date(char_views(parameters@)),
{
    let wanted = chars_of("VALUE");
    let ghost all = char_views(parameters@);
    let mut i: usize = 0;
    while i < parameters.len()
        invariant
            i <= parameters@.len(),
            wanted@ == "VALUE"@,
            all == char_views(parameters@),
            forall|k: int|
                0 <= k < i ==> !(is_named(#[trigger] all[k], "VALUE"@) && same_ignoring_case(
                    parameter_value(all[k]),
                    "DATE"@,
                )),
        decreases parameters@.len() - i,
    {
        assert(all[i as int] == parameters@[i as int]@);
        if let Some((key, value)) = split_chars_once(&parameters[i], '=') {
            if same_chars(&upper_chars(&key), &wanted) {
                if equals_ignoring_case(text_of(&value).as_str(), "DATE") {
                    return true;
                }
            }
        }
        i = i + 1;
    }
    false
}

fn find_zone(parameters: &Vec<Vec<char>>, head: Ghost<Seq<char>>) -> (zone: Option<String>)
    requires
        char_views(parameters@) == parameters_of(head@),
    ensures
        zone.deep_view() == zone_of(head@),
{
    match find_value(parameters, "TZID") {
        Some(name) => Some(text_of(&trim_end_of(&trim_start_of(&name, '"'), '"'))),
        None => None,
    }
}

fn moment_millis(moment: (i64, u32)) -> (millis: i64)
    requires
        chrono_seconds(moment.0 as int),
        moment.1 < 2_000_000_000,
    ensures
        millis == utc_millis(moment),
        millis == moment.0 * 1000 + moment.1 / 1_000_000,
        time_fits(millis as int),
{
    moment.0 * 1000 + (moment.1 / 1_000_000) as i64
}

fn plan_date(value: &str, timezone: Option<String>) -> (plan: TimePlan)
    ensures
        plan.deep_view() == match parsed_date(value@, "%Y%m%d"@) {
            Some(days) => TimePlanModel::Known(
                ParsedTimeModel {
                    unix_ms: (days * DAY_MS) as i64,
                    date: date_text(days),
                    all_day: true,
                    timezone: timezone.deep_view(),
                },
            ),
            None => TimePlanModel::Failed(TimeError::Date),
        },
        plan matches TimePlan::Known(time) ==> time_fits(time.unix_ms as int) && time.date is Some,
{
    match parse_date(value, "%Y%m%d") {
        Some(days) => TimePlan::Known(
            ParsedTime {
                unix_ms: days as i64 * DAY_MS,
                date: format_date(days),
                all_day: true,
                timezone,
            },
        ),
        None => TimePlan::Failed(TimeError::Date),
    }
}

fn plan_zoned(name: String, seconds: i64, nanos: u32) -> (plan: TimePlan)
    ensures
        plan.deep_view() == zoned_time(name@, seconds, nanos),
        plan matches TimePlan::Known(time) ==> time_fits(time.unix_ms as int),
        plan !is Local,
{
    if !known_timezone(name.as_str()) {
        return TimePlan::Failed(TimeError::Timezone);
    }
    match instant_in_zone(name.as_str(), seconds, nanos) {
        Some(unix_ms) => TimePlan::Known(
            ParsedTime { unix_ms, date: None, all_day: false, timezone: Some(name) },
        ),
        None => TimePlan::Failed(TimeError::Skipped),
    }
}

/// Finds out how the time that a property holds is found. `key_and_params` is
/// what stands in front of the colon.
pub fn plan_time(key_and_params: &str, value: &str) -> (plan: TimePlan)
    ensures
        plan.deep_view() == planned_time(key_and_params@, value@),
        plan matches TimePlan::Known(time) ==> time_fits(time.unix_ms as int),
        plan matches TimePlan::Known(time) ==> time.all_day ==> time.date is Some,
{
    let head = chars_of(key_and_params);
    let parts = parameters(&head);
    let timezone = find_zone(&parts, Ghost(head@));
    let chars = chars_of(value);
    let has_time = position_of(&chars, 'T') < chars.len();
    proof {
        lemma_first_position(value@, 'T');
        assert(has_time == value@.contains('T'));
    }
    if finds_date(&parts) || (!has_time && byte_length(value) == 8) {
        return plan_date(value, timezone);
    }
    if chars.len() > 0 && chars[chars.len() - 1] == 'Z' {
        let shorter = text_of(&slice_chars(&chars, 0, chars.len() - 1));
        assert(shorter@ =~= value@.drop_last());
        return match parse_moment(shorter.as_str(), "%Y%m%dT%H%M%S") {
            Some(moment) => TimePlan::Known(
                ParsedTime {
                    unix_ms: moment_millis(moment),
                    date: None,
                    all_day: false,
                    timezone: Some("UTC".to_string()),
                },
            ),
            None => TimePlan::Failed(TimeError::Moment),
        };
    }
    let first = parse_moment(value, "%Y%m%dT%H%M%S");
    let moment = if first.is_some() {
        first
    } else {
        parse_moment(value, "%Y%m%dT%H%M")
    };
    match (moment, timezone) {
        (None, _) => TimePlan::Failed(TimeError::Moment),
        (Some((seconds, nanos)), Some(name)) => plan_zoned(name, seconds, nanos),
        (Some((seconds, nanos)), None) => TimePlan::Local { seconds, nanos },
    }
}

/// Settles a plan, given the instant at which this machine's clocks show the
/// moment that it asks for.
pub fn resolve_time(plan: TimePlan, here: Option<i64>) -> (time: Result<ParsedTime, TimeError>)
    ensures
        match time {
            Ok(time) => resolved_time(plan.deep_view(), here) == Ok::<_, TimeError>(
                time.deep_view(),
            ),
            Err(error) => resolved_time(plan.deep_view(), here) == Err::<ParsedTimeModel, _>(error),
        },
{
    match plan {
        TimePlan::Known(time) => Ok(time),
        TimePlan::Failed(error) => Err(error),
        TimePlan::Local { .. } => match here {
            Some(unix_ms) => Ok(ParsedTime { unix_ms, date: None, all_day: false, timezone: None }),
            None => Err(TimeError::Skipped),
        },
    }
}

/// Reads the time that a property holds. A time without a zone is that of this
/// machine's clocks.
pub fn parse_time(key_and_params: &str, value: &str) -> (time: Result<ParsedTime, TimeError>)
    ensures
        exists|here: Option<i64>|
            can_be_here(planned_time(key_and_params@, value@), here) && match time {
                Ok(time) => #[trigger] resolved_time(planned_time(key_and_params@, value@), here)
                    == Ok::<_, TimeError>(time.deep_view()),
                Err(error) => resolved_time(planned_time(key_and_params@, value@), here)
                    == Err::<ParsedTimeModel, _>(error),
            },
{
    let plan = plan_time(key_and_params, value);
    let here = match &plan {
        TimePlan::Local { seconds, nanos } => instant_here(*seconds, *nanos),
        _ => None,
    };
    resolve_time(plan, here)
}

// Events

/// Where an event ends that gives no end.
pub open spec fn default_end(start: ParsedTimeModel) -> ParsedTimeModel {
    ParsedTimeModel {
        unix_ms: (start.unix_ms + if start.all_day {
            DAY_MS
        } else {
            HOUR_MS
        }) as i64,
        date: next_date(start.date),
        all_day: start.all_day,
        timezone: start.timezone,
    }
}

/// The day behind a day, where both are dates.
pub open spec fn next_date(date: Option<Seq<char>>) -> Option<Seq<char>> {
    match date {
        Some(date) => match parsed_date(date, "%Y-%m-%d"@) {
            Some(days) => if days < i32::MAX {
                date_text((days + 1) as i32)
            } else {
                None
            },
            None => None,
        },
        None => None,
    }
}

/// The event that its lines describe. There is none where it was cancelled or
/// its start is not known.
pub open spec fn finished_event(
    source: CalendarSourceConfigModel,
    path: Seq<char>,
    builder: EventBuilderModel,
) -> Option<ActivityEventModel> {
    if builder.cancelled || builder.start is None {
        None
    } else {
        let start = builder.start->0;
        let end = match builder.end {
            Some(end) => end,
            None => default_end(start),
        };
        let start_text = integer_text(start.unix_ms as int);
        let uid = if builder.uid.len() == 0 {
            path + "-"@ + start_text
        } else {
            builder.uid
        };
        Some(
            ActivityEventModel {
                id: source.id + ":"@ + (uid + ":"@ + start_text),
                source_id: source.id,
                calendar_name: if source.name.len() == 0 {
                    source.id
                } else {
                    source.name
                },
                color: source.color,
                title: if trimmed(builder.title).len() == 0 {
                    "Untitled event"@
                } else {
                    builder.title
                },
                start_unix_ms: start.unix_ms,
                end_unix_ms: if end.unix_ms > start.unix_ms {
                    end.unix_ms
                } else {
                    start.unix_ms
                },
                all_day: start.all_day,
                start_date: start.date,
                end_date: end.date,
                timezone: start.timezone,
                location: builder.location,
                url: builder.url,
            },
        )
    }
}

fn date_behind(date: &Option<String>) -> (next: Option<String>)
    ensures
        next.deep_view() == next_date(date.deep_view()),
{
    match date {
        Some(date) => match parse_date(date.as_str(), "%Y-%m-%d") {
            Some(days) => if days < i32::MAX {
                format_date(days + 1)
            } else {
                None
            },
            None => None,
        },
        None => None,
    }
}

fn end_by_default(start: &ParsedTime) -> (end: ParsedTime)
    requires
        time_fits(start.unix_ms as int),
    ensures
        end.deep_view() == default_end(start.deep_view()),
{
    let duration: i64 = if start.all_day {
        DAY_MS
    } else {
        HOUR_MS
    };
    ParsedTime {
        unix_ms: start.unix_ms + duration,
        date: date_behind(&start.date),
        all_day: start.all_day,
        timezone: start.timezone.copy(),
    }
}

/// The event that its lines describe.
pub fn finish_event(source: &CalendarSourceConfig, path: &str, builder: EventBuilder) -> (event:
    Option<ActivityEvent>)
    requires
        builder.start matches Some(start) ==> builder.cancelled || builder.end is Some
            || time_fits(start.unix_ms as int),
    ensures
        event.deep_view() == finished_event(source.deep_view(), path@, builder.deep_view()),
{
    if builder.cancelled {
        return None;
    }
    let start = match builder.start {
        Some(start) => start,
        None => return None,
    };
    let end = match builder.end {
        Some(end) => end,
        None => end_by_default(&start),
    };
    let start_text = signed_decimal(start.unix_ms);
    let uid = if is_empty(builder.uid.as_str()) {
        joined3(path, "-", start_text.as_str())
    } else {
        builder.uid
    };
    let title = if is_blank(builder.title.as_str()) {
        "Untitled event".to_string()
    } else {
        builder.title
    };
    let tail = joined3(uid.as_str(), ":", start_text.as_str());
    let event = ActivityEvent {
        id: joined3(source.id.as_str(), ":", tail.as_str()),
        source_id: source.id.clone(),
        calendar_name: if is_empty(source.name.as_str()) {
            source.id.clone()
        } else {
            source.name.clone()
        },
        color: source.color.clone(),
        title,
        start_unix_ms: start.unix_ms,
        end_unix_ms: if end.unix_ms > start.unix_ms {
            end.unix_ms
        } else {
            start.unix_ms
        },
        all_day: start.all_day,
        start_date: start.date,
        end_date: end.date,
        timezone: start.timezone,
        location: builder.location,
        url: builder.url,
    };
    Some(event)
}

/// An event never ends before it starts.
pub proof fn events_do_not_end_early(
    source: CalendarSourceConfigModel,
    path: Seq<char>,
    builder: EventBuilderModel,
)
    requires
        finished_event(source, path, builder) is Some,
    ensures
        finished_event(source, path, builder)->0.start_unix_ms <= finished_event(
            source,
            path,
            builder,
        )->0.end_unix_ms,
{
}

// Calendars

/// When this machine's clocks show a moment, where they ever do.
#[derive(Clone, Copy, Debug, PartialEq, Eq, Structural)]
pub struct LocalTime {
    pub seconds: i64,
    pub nanos: u32,
    pub unix_ms: Option<i64>,
}

/// What a list of local times says of a moment.
pub open spec fn local_instant(zone: Seq<LocalTime>, seconds: i64, nanos: u32) -> Option<i64>
    decreases zone.len(),
{
    if zone.len() == 0 {
        None
    } else if zone[0].seconds == seconds && zone[0].nanos == nanos {
        zone[0].unix_ms
    } else {
        local_instant(zone.skip(1), seconds, nanos)
    }
}

/// Whether a list of local times names only instants to which a day can be added.
pub open spec fn zone_fits(zone: Seq<LocalTime>) -> bool {
    forall|i: int|
        0 <= i < zone.len() ==> ((#[trigger] zone[i]).unix_ms matches Some(unix_ms) ==> time_fits(
            unix_ms as int,
        ))
}

/// Whether a list of local times says of every moment when a clock can show it.
pub open spec fn zone_shows(zone: Seq<LocalTime>) -> bool {
    forall|i: int|
        0 <= i < zone.len() ==> ((#[trigger] zone[i]).unix_ms matches Some(unix_ms) ==> can_show(
            unix_ms as int,
            zone[i].seconds as int,
            zone[i].nanos as int,
        ))
}

/// The time of a property where it is understood.
pub open spec fn property_time(zone: Seq<LocalTime>, head: Seq<char>, value: Seq<char>) -> Option<
    ParsedTimeModel,
> {
    let plan = planned_time(head, value);
    let here = match plan {
        TimePlanModel::Local { seconds, nanos } => local_instant(zone, seconds, nanos),
        _ => None,
    };
    match resolved_time(plan, here) {
        Ok(time) => Some(time),
        Err(_) => None,
    }
}

/// The name of a property, in capitals.
pub open spec fn property_name(head: Seq<char>) -> Seq<char> {
    ascii_upper_text(split_on(head, ';')[0])
}

/// An event behind one more line of it.
pub open spec fn with_property(
    zone: Seq<LocalTime>,
    builder: EventBuilderModel,
    head: Seq<char>,
    value: Seq<char>,
) -> EventBuilderModel {
    let name = property_name(head);
    if name == "UID"@ {
        EventBuilderModel { uid: decoded(value), ..builder }
    } else if name == "SUMMARY"@ {
        EventBuilderModel { title: decoded(value), ..builder }
    } else if name == "DTSTART"@ {
        EventBuilderModel { start: property_time(zone, head, value), ..builder }
    } else if name == "DTEND"@ {
        EventBuilderModel { end: property_time(zone, head, value), ..builder }
    } else if name == "LOCATION"@ {
        EventBuilderModel { location: decoded(value), ..builder }
    } else if name == "URL"@ {
        EventBuilderModel { url: decoded(value), ..builder }
    } else if name == "STATUS"@ {
        EventBuilderModel { cancelled: same_ignoring_case(value, "CANCELLED"@), ..builder }
    } else {
        builder
    }
}

/// Events read so far, and the one that is being read.
pub struct CalendarReading {
    pub events: Seq<ActivityEventModel>,
    pub current: Option<EventBuilderModel>,
}

/// What has been read behind one more line.
pub open spec fn after_line(
    source: CalendarSourceConfigModel,
    path: Seq<char>,
    zone: Seq<LocalTime>,
    reading: CalendarReading,
    line: Seq<char>,
) -> CalendarReading {
    let upper = ascii_upper_text(line);
    if upper == "BEGIN:VEVENT"@ {
        CalendarReading {
            events: reading.events,
            current: Some(EventBuilderModel::initial()),
        }
    } else if upper == "END:VEVENT"@ {
        let event = match reading.current {
            Some(builder) => finished_event(source, path, builder),
            None => None,
        };
        CalendarReading {
            events: match event {
                Some(event) => reading.events.push(event),
                None => reading.events,
            },
            current: None,
        }
    } else {
        match (reading.current, split_once(line, ':')) {
            (Some(builder), Some((head, value))) => CalendarReading {
                events: reading.events,
                current: Some(with_property(zone, builder, head, value)),
            },
            _ => reading,
        }
    }
}

/// What has been read behind so many lines.
pub open spec fn after_lines(
    source: CalendarSourceConfigModel,
    path: Seq<char>,
    zone: Seq<LocalTime>,
    lines: Seq<Seq<char>>,
) -> CalendarReading
    decreases lines.len(),
{
    if lines.len() == 0 {
        CalendarReading { events: Seq::empty(), current: None }
    } else {
        after_line(
            source,
            path,
            zone,
            after_lines(source, path, zone, lines.drop_last()),
            lines.last(),
        )
    }
}

/// The events of a calendar, given when this machine's clocks show the moments in it.
pub open spec fn calendar_events(
    source: CalendarSourceConfigModel,
    path: Seq<char>,
    contents: Seq<char>,
    zone: Seq<LocalTime>,
) -> Seq<ActivityEventModel> {
    after_lines(source, path, zone, unfolded(raw_lines(contents))).events
}

fn find_local(zone: &Vec<LocalTime>, seconds: i64, nanos: u32) -> (instant: Option<i64>)
    requires
        zone_fits(zone@),
    ensures
        instant == local_instant(zone@, seconds, nanos),
        instant matches Some(unix_ms) ==> time_fits(unix_ms as int),
{
    let mut i: usize = 0;
    assert(zone@.skip(0) =~= zone@);
    while i < zone.len()
        invariant
            i <= zone@.len(),
            zone_fits(zone@),
            local_instant(zone@, seconds, nanos) == local_instant(
                zone@.skip(i as int),
                seconds,
                nanos,
            ),
        decreases zone@.len() - i,
    {
        assert(zone@.skip(i as int)[0] == zone@[i as int]);
        if zone[i].seconds == seconds && zone[i].nanos == nanos {
            return zone[i].unix_ms;
        }
        assert(zone@.skip(i as int).skip(1) =~= zone@.skip(i + 1));
        i = i + 1;
    }
    None
}

fn time_of_property(zone: &Vec<LocalTime>, head: &Vec<char>, value: &Vec<char>) -> (time: Option<
    ParsedTime,
>)
    requires
        zone_fits(zone@),
    ensures
        time.deep_view() == property_time(zone@, head@, value@),
        time matches Some(time) ==> time_fits(time.unix_ms as int),
{
    let plan = plan_time(text_of(head).as_str(), text_of(value).as_str());
    let here = match &plan {
        TimePlan::Local { seconds, nanos } => find_local(zone, *seconds, *nanos),
        _ => None,
    };
    match resolve_time(plan, here) {
        Ok(time) => Some(time),
        Err(_) => None,
    }
}

/// Whether a name is the literal, told by its characters.
fn is_name(name: &Vec<char>, literal: &str) -> (same: bool)
    ensures
        same == (name@ == literal@),
{
    same_chars(name, &chars_of(literal))
}

spec fn builder_fits(builder: Option<EventBuilder>) -> bool {
    builder matches Some(builder) ==> (builder.start matches Some(start) ==> time_fits(
        start.unix_ms as int,
    ))
}

fn name_of_property(head: &Vec<char>) -> (name: Vec<char>)
    ensures
        name@ == property_name(head@),
{
    let pieces = split_chars(head, ';');
    assert(char_views(pieces@)[0] == pieces@[0]@);
    upper_chars(&pieces[0])
}

fn add_property(
    zone: &Vec<LocalTime>,
    builder: &mut EventBuilder,
    head: &Vec<char>,
    value: &Vec<char>,
)
    requires
        zone_fits(zone@),
        builder_fits(Some(*old(builder))),
    ensures
        final(builder).deep_view() == with_property(zone@, old(builder).deep_view(), head@, value@),
        builder_fits(Some(*final(builder))),
{
    let name = name_of_property(head);
    if is_name(&name, "UID") {
        builder.uid = decode_chars(value);
    } else if is_name(&name, "SUMMARY") {
        builder.title = decode_chars(value);
    } else if is_name(&name, "DTSTART") {
        builder.start = time_of_property(zone, head, value);
    } else if is_name(&name, "DTEND") {
        builder.end = time_of_property(zone, head, value);
    } else if is_name(&name, "LOCATION") {
        builder.location = decode_chars(value);
    } else if is_name(&name, "URL") {
        builder.url = decode_chars(value);
    } else if is_name(&name, "STATUS") {
        builder.cancelled = equals_ignoring_case(text_of(value).as_str(), "CANCELLED");
    }
}

fn read_line(
    source: &CalendarSourceConfig,
    path: &str,
    zone: &Vec<LocalTime>,
    events: &mut Vec<ActivityEvent>,
    current: Option<EventBuilder>,
    line: &Vec<char>,
) -> (next: Option<EventBuilder>)
    requires
        zone_fits(zone@),
        builder_fits(current),
    ensures
        builder_fits(next),
        ({
            let reading = CalendarReading {
                events: old(events).deep_view(),
                current: current.deep_view(),
            };
            let result = after_line(source.deep_view(), path@, zone@, reading, line@);
            &&& result.events == final(events).deep_view()
            &&& result.current == next.deep_view()
        }),
{
    let upper = upper_chars(line);
    if is_name(&upper, "BEGIN:VEVENT") {
        return Some(EventBuilder::default());
    }
    if is_name(&upper, "END:VEVENT") {
        if let Some(builder) = current {
            if let Some(event) = finish_event(source, path, builder) {
                events.push(event);
                assert(events.deep_view() =~= old(events).deep_view().push(event.deep_view()));
            }
        }
        return None;
    }
    match current {
        Some(mut builder) => {
            if let Some((head, value)) = split_chars_once(line, ':') {
                add_property(zone, &mut builder, &head, &value);
            }
            Some(builder)
        },
        None => None,
    }
}

/// Reads a calendar, given when this machine's clocks show the moments in it.
pub fn parse_calendar_in(
    source: &CalendarSourceConfig,
    path: &str,
    contents: &str,
    zone: &Vec<LocalTime>,
) -> (events: Vec<ActivityEvent>)
    requires
        zone_fits(zone@),
    ensures
        events.deep_view() == calendar_events(source.deep_view(), path@, contents@, zone@),
{
    let lines = unfold_chars(contents);
    let ghost all = char_views(lines@);
    let mut events: Vec<ActivityEvent> = Vec::new();
    let mut current: Option<EventBuilder> = None;
    let mut i: usize = 0;
    assert(all.take(0) =~= Seq::<Seq<char>>::empty());
    assert(events.deep_view() =~= Seq::<ActivityEventModel>::empty());
    while i < lines.len()
        invariant
            i <= lines@.len(),
            all == char_views(lines@),
            zone_fits(zone@),
            builder_fits(current),
            after_lines(source.deep_view(), path@, zone@, all.take(i as int)) == (CalendarReading {
                events: events.deep_view(),
                current: current.deep_view(),
            }),
        decreases lines@.len() - i,
    {
        assert(all.take(i + 1).drop_last() =~= all.take(i as int));
        assert(all.take(i + 1).last() == lines@[i as int]@);
        current = read_line(source, path, zone, &mut events, current, &lines[i]);
        i = i + 1;
    }
    assert(all.take(i as int) =~= all);
    events
}

/// The moment without a zone that a line gives to an event's start or end.
pub open spec fn line_moment(line: Seq<char>) -> Option<(i64, u32)> {
    match split_once(line, ':') {
        Some((head, value)) => {
            let name = property_name(head);
            if name == "DTSTART"@ || name == "DTEND"@ {
                match planned_time(head, value) {
                    TimePlanModel::Local { seconds, nanos } => Some((seconds, nanos)),
                    _ => None,
                }
            } else {
                None
            }
        },
        None => None,
    }
}

/// The moments without a zone that lines give to starts and ends.
pub open spec fn line_moments(lines: Seq<Seq<char>>) -> Seq<(i64, u32)>
    decreases lines.len(),
{
    if lines.len() == 0 {
        Seq::empty()
    } else {
        let moments = line_moments(lines.drop_last());
        match line_moment(lines.last()) {
            Some(moment) => moments.push(moment),
            None => moments,
        }
    }
}

/// The moments that a list of local times answers for.
pub open spec fn moments_of(zone: Seq<LocalTime>) -> Seq<(i64, u32)> {
    zone.map_values(|time: LocalTime| (time.seconds, time.nanos))
}

fn look_up_local(line: &Vec<char>, zone: &mut Vec<LocalTime>)
    requires
        zone_fits(old(zone)@),
        zone_shows(old(zone)@),
    ensures
        zone_fits(final(zone)@),
        zone_shows(final(zone)@),
        moments_of(final(zone)@) == match line_moment(line@) {
            Some(moment) => moments_of(old(zone)@).push(moment),
            None => moments_of(old(zone)@),
        },
{
    if let Some((head, value)) = split_chars_once(line, ':') {
        let name = name_of_property(&head);
        if is_name(&name, "DTSTART") || is_name(&name, "DTEND") {
            let plan = plan_time(text_of(&head).as_str(), text_of(&value).as_str());
            if let TimePlan::Local { seconds, nanos } = plan {
                zone.push(LocalTime { seconds, nanos, unix_ms: instant_here(seconds, nanos) });
                assert(moments_of(zone@) =~= moments_of(old(zone)@).push((seconds, nanos)));
            }
        }
    }
}

/// Asks this machine's clocks for every moment without a zone in a calendar.
pub fn local_times(contents: &str) -> (zone: Vec<LocalTime>)
    ensures
        zone_fits(zone@),
        zone_shows(zone@),
        moments_of(zone@) == line_moments(unfolded(raw_lines(contents@))),
{
    let lines = unfold_chars(contents);
    let ghost all = char_views(lines@);
    let mut zone: Vec<LocalTime> = Vec::new();
    let mut i: usize = 0;
    assert(all.take(0) =~= Seq::<Seq<char>>::empty());
    assert(moments_of(zone@) =~= Seq::<(i64, u32)>::empty());
    while i < lines.len()
        invariant
            i <= lines@.len(),
            all == char_views(lines@),
            zone_fits(zone@),
            zone_shows(zone@),
            moments_of(zone@) == line_moments(all.take(i as int)),
        decreases lines@.len() - i,
    {
        assert(all.take(i + 1).drop_last() =~= all.take(i as int));
        assert(all.take(i + 1).last() == lines@[i as int]@);
        look_up_local(&lines[i], &mut zone);
        i = i + 1;
    }
    assert(all.take(i as int) =~= all);
    zone
}

/// Reads a calendar. Moments without a zone are those of this machine's clocks.
pub fn parse_calendar(source: &CalendarSourceConfig, path: &str, contents: &str) -> (events: Vec<
    ActivityEvent,
>)
    ensures
        exists|zone: Seq<LocalTime>|
            {
                &&& zone_fits(zone)
                &&& zone_shows(zone)
                &&& moments_of(zone) == line_moments(unfolded(raw_lines(contents@)))
                &&& events.deep_view() == #[trigger] calendar_events(
                    source.deep_view(),
                    path@,
                    contents@,
                    zone,
                )
            },
{
    let zone = local_times(contents);
    parse_calendar_in(source, path, contents, &zone)
}

// Joined calendars

/// Whether a line begins an event.
pub open spec fn begins_event(line: Seq<char>) -> bool {
    ascii_upper_text(line) == "BEGIN:VEVENT"@
}

/// Whether a line ends an event.
pub open spec fn ends_event(line: Seq<char>) -> bool {
    ascii_upper_text(line) == "END:VEVENT"@
}

/// Whether behind every line that begins an event there is one that ends an event.
pub open spec fn is_complete(lines: Seq<Seq<char>>) -> bool {
    forall|i: int|
        0 <= i < lines.len() && begins_event(#[trigger] lines[i]) ==> exists|j: int|
            i < j < lines.len() && ends_event(#[trigger] lines[j])
}

/// Whether two lists of local times say the same of every moment that lines give.
pub open spec fn same_clocks(
    zone: Seq<LocalTime>,
    other: Seq<LocalTime>,
    lines: Seq<Seq<char>>,
) -> bool {
    forall|i: int|
        0 <= i < lines.len() ==> (line_moment(#[trigger] lines[i]) matches Some(moment)
            ==> local_instant(zone, moment.0, moment.1) == local_instant(
            other,
            moment.0,
            moment.1,
        ))
}

proof fn lemma_raw_joined(a: Seq<char>, b: Seq<char>)
    requires
        a.len() == 0 || a.last() == '\n',
    ensures
        raw_lines(a + b) == raw_lines(a) + raw_lines(b),
{
    lemma_split_joined(a, b, '\n');
    let first = split_on(a, '\n');
    let second = split_on(b, '\n');
    let both = split_on(a + b, '\n');
    assert(second.len() > 0);
    assert(both.last() == second.last());
    assert((first.drop_last() + second).drop_last() =~= first.drop_last() + second.drop_last());
    assert(raw_lines(a + b) =~= raw_lines(a) + raw_lines(b));
}

proof fn lemma_raw_start(text: Seq<char>)
    requires
        !is_continuation(text),
        raw_lines(text).len() > 0,
    ensures
        !is_continuation(raw_lines(text)[0]),
{
    lemma_first_position(text, '\n');
    let first = split_on(text, '\n')[0];
    assert(first.is_prefix_of(text));
    lemma_trimmed_end_of(first, '\r');
    let line = trimmed_end_of(first, '\r');
    assert(raw_lines(text)[0] == line);
    if line.len() > 0 {
        assert(line[0] == first[0]);
        assert(first[0] == text[0]);
    }
}

proof fn lemma_unfolded_some(raw: Seq<Seq<char>>)
    ensures
        raw.len() > 0 ==> unfolded(raw).len() > 0,
{
}

proof fn lemma_unfolded_joined(a: Seq<Seq<char>>, b: Seq<Seq<char>>)
    requires
        b.len() > 0 ==> !is_continuation(b[0]),
    ensures
        unfolded(a + b) == unfolded(a) + unfolded(b),
    decreases b.len(),
{
    if b.len() == 0 {
        assert(a + b =~= a);
        assert(unfolded(a) + unfolded(b) =~= unfolded(a));
    } else {
        let shorter = b.drop_last();
        let line = b.last();
        assert((a + b).drop_last() =~= a + shorter);
        assert((a + b).last() == line);
        lemma_unfolded_joined(a, shorter);
        lemma_unfolded_some(shorter);
        let first = unfolded(a);
        let second = unfolded(shorter);
        if is_continuation(line) {
            assert(shorter.len() > 0);
            assert((first + second).drop_last() =~= first + second.drop_last());
            assert((first + second).last() == second.last());
        }
        assert(unfolded(a + b) =~= first + unfolded(b));
    }
}

proof fn lemma_moments_joined(a: Seq<Seq<char>>, b: Seq<Seq<char>>)
    ensures
        line_moments(a + b) == line_moments(a) + line_moments(b),
    decreases b.len(),
{
    if b.len() == 0 {
        assert(a + b =~= a);
        assert(line_moments(a) + line_moments(b) =~= line_moments(a));
    } else {
        assert((a + b).drop_last() =~= a + b.drop_last());
        lemma_moments_joined(a, b.drop_last());
        assert(line_moments(a + b) =~= line_moments(a) + line_moments(b));
    }
}

proof fn lemma_nothing_open(
    source: CalendarSourceConfigModel,
    path: Seq<char>,
    zone: Seq<LocalTime>,
    lines: Seq<Seq<char>>,
)
    ensures
        after_lines(source, path, zone, lines).current is Some ==> exists|i: int|
            0 <= i < lines.len() && begins_event(#[trigger] lines[i]) && forall|j: int|
                i < j < lines.len() ==> !ends_event(#[trigger] lines[j]),
    decreases lines.len(),
{
    if lines.len() > 0 {
        let shorter = lines.drop_last();
        let last = lines.len() - 1;
        lemma_nothing_open(source, path, zone, shorter);
        if after_lines(source, path, zone, lines).current is Some {
            if begins_event(lines[last]) {
            } else {
                let i = choose|i: int|
                    0 <= i < shorter.len() && begins_event(#[trigger] shorter[i]) && forall|j: int|
                        i < j < shorter.len() ==> !ends_event(#[trigger] shorter[j]);
                assert(begins_event(lines[i]));
                assert forall|j: int| i < j < lines.len() implies !ends_event(
                    #[trigger] lines[j],
                ) by {
                    if j < last {
                        assert(lines[j] == shorter[j]);
                    }
                }
            }
        }
    }
}

proof fn lemma_lines_joined(
    source: CalendarSourceConfigModel,
    path: Seq<char>,
    zone: Seq<LocalTime>,
    a: Seq<Seq<char>>,
    b: Seq<Seq<char>>,
)
    requires
        after_lines(source, path, zone, a).current is None,
    ensures
        after_lines(source, path, zone, a + b).events == after_lines(source, path, zone, a).events
            + after_lines(source, path, zone, b).events,
        after_lines(source, path, zone, a + b).current == after_lines(
            source,
            path,
            zone,
            b,
        ).current,
    decreases b.len(),
{
    let first = after_lines(source, path, zone, a).events;
    if b.len() == 0 {
        assert(a + b =~= a);
        assert(first + after_lines(source, path, zone, b).events =~= first);
    } else {
        assert((a + b).drop_last() =~= a + b.drop_last());
        lemma_lines_joined(source, path, zone, a, b.drop_last());
        assert(after_lines(source, path, zone, a + b).events =~= first + after_lines(
            source,
            path,
            zone,
            b,
        ).events);
    }
}

proof fn lemma_same_clocks(
    source: CalendarSourceConfigModel,
    path: Seq<char>,
    zone: Seq<LocalTime>,
    other: Seq<LocalTime>,
    lines: Seq<Seq<char>>,
)
    requires
        same_clocks(zone, other, lines),
    ensures
        after_lines(source, path, zone, lines) == after_lines(source, path, other, lines),
    decreases lines.len(),
{
    if lines.len() > 0 {
        let shorter = lines.drop_last();
        assert forall|i: int| 0 <= i < shorter.len() implies (line_moment(
            #[trigger] shorter[i],
        ) matches Some(moment) ==> local_instant(zone, moment.0, moment.1) == local_instant(
            other,
            moment.0,
            moment.1,
        )) by {
            assert(shorter[i] == lines[i]);
        }
        lemma_same_clocks(source, path, zone, other, shorter);
        assert(lines.last() == lines[lines.len() - 1]);
    }
}

/// The events of a calendar made of two are those of the first and then those
/// of the second, where the first ends with a line and leaves no event open,
/// and the second does not begin with a continuation. Of this machine's clocks
/// it is asked what is asked for the first and then what is asked for the
/// second; that they answer alike each time is all that is needed of them.
pub proof fn joined_calendars_keep_their_events(
    source: CalendarSourceConfigModel,
    path: Seq<char>,
    a: Seq<char>,
    b: Seq<char>,
    zone_a: Seq<LocalTime>,
    zone_b: Seq<LocalTime>,
    zone: Seq<LocalTime>,
)
    requires
        a.len() == 0 || a.last() == '\n',
        is_complete(unfolded(raw_lines(a))),
        !is_continuation(b),
        same_clocks(zone, zone_a, unfolded(raw_lines(a))),
        same_clocks(zone, zone_b, unfolded(raw_lines(b))),
    ensures
        calendar_events(source, path, a + b, zone) == calendar_events(source, path, a, zone_a)
            + calendar_events(source, path, b, zone_b),
        line_moments(unfolded(raw_lines(a + b))) == line_moments(unfolded(raw_lines(a)))
            + line_moments(unfolded(raw_lines(b))),
{
    lemma_raw_joined(a, b);
    if raw_lines(b).len() > 0 {
        lemma_raw_start(b);
    }
    lemma_unfolded_joined(raw_lines(a), raw_lines(b));
    let first = unfolded(raw_lines(a));
    let second = unfolded(raw_lines(b));
    lemma_moments_joined(first, second);
    lemma_nothing_open(source, path, zone, first);
    if after_lines(source, path, zone, first).current is Some {
        let i = choose|i: int|
            0 <= i < first.len() && begins_event(#[trigger] first[i]) && forall|j: int|
                i < j < first.len() ==> !ends_event(#[trigger] first[j]);
        assert(begins_event(first[i]));
        assert(false);
    }
    lemma_lines_joined(source, path, zone, first, second);
    lemma_same_clocks(source, path, zone, zone_a, first);
    lemma_same_clocks(source, path, zone, zone_b, second);
}

// Sources

/// A file of a calendar source.
#[derive(Debug, PartialEq, Eq)]
pub struct Document {
    pub path: String,
    pub contents: String,
}

/// What a [`Document`] holds.
#[verifier::ext_equal]
pub struct DocumentModel {
    pub path: Seq<char>,
    pub contents: Seq<char>,
}

impl DeepView for Document {
    type V = DocumentModel;

    open spec fn deep_view(&self) -> DocumentModel {
        DocumentModel {
            path: self.path.deep_view(),
            contents: self.contents.deep_view(),
        }
    }
}

impl Record for Document {
    fn same(&self, other: &Self) -> (same: bool) {
        self.path.same(&other.path)
            && self.contents.same(&other.contents)
    }

    fn copy(&self) -> (copy: Self) {
        Document {
            path: self.path.copy(),
            contents: self.contents.copy(),
        }
    }
}

impl Clone for Document {
    fn clone(&self) -> (copy: Self)
        ensures
            copy.deep_view() == self.deep_view(),
    {
        self.copy()
    }
}

/// Why a calendar source cannot be read.
#[derive(Debug, PartialEq, Eq)]
pub enum CalendarError {
    /// The source has no id.
    EmptySourceId,
    /// No provider reads sources of this kind.
    UnsupportedKind(String),
}

/// What a [`CalendarError`] says.
pub enum CalendarErrorModel {
    EmptySourceId,
    UnsupportedKind(Seq<char>),
}

impl DeepView for CalendarError {
    type V = CalendarErrorModel;

    open spec fn deep_view(&self) -> CalendarErrorModel {
        match self {
            CalendarError::EmptySourceId => CalendarErrorModel::EmptySourceId,
            CalendarError::UnsupportedKind(kind) => CalendarErrorModel::UnsupportedKind(kind@),
        }
    }
}

impl CalendarErrorModel {
    /// The sentence that reports the error.
    pub open spec fn message(self) -> Seq<char> {
        match self {
            CalendarErrorModel::EmptySourceId => "calendar source id cannot be empty"@,
            CalendarErrorModel::UnsupportedKind(kind) => "unsupported calendar source kind "@
                + kind,
        }
    }
}

impl CalendarError {
    /// The sentence that reports the error.
    pub fn message(&self) -> (message: String)
        ensures
            message@ == self.deep_view().message(),
    {
        match self {
            CalendarError::EmptySourceId => "calendar source id cannot be empty".to_string(),
            CalendarError::UnsupportedKind(kind) => joined(
                "unsupported calendar source kind ",
                kind.as_str(),
            ),
        }
    }
}

/// Where the files of a source are.
#[derive(Clone, Copy, Debug, PartialEq, Eq, Structural)]
pub enum SourceFiles {
    /// The path of the source is the file.
    File,
    /// The files stand in and below the path of the source.
    Directory,
}

impl DeepView for SourceFiles {
    type V = SourceFiles;

    open spec fn deep_view(&self) -> SourceFiles {
        *self
    }
}

impl Record for SourceFiles {
    fn same(&self, other: &Self) -> (same: bool) {
        *self == *other
    }

    fn copy(&self) -> (copy: Self) {
        *self
    }
}

/// Where the files of a source are, or why it cannot be read.
pub open spec fn files_of(source: CalendarSourceConfigModel) -> Result<
    SourceFiles,
    CalendarErrorModel,
> {
    if trimmed(source.id).len() == 0 {
        Err(CalendarErrorModel::EmptySourceId)
    } else if source.kind == "ics-file"@ {
        Ok(SourceFiles::File)
    } else if source.kind == "ics-directory"@ {
        Ok(SourceFiles::Directory)
    } else {
        Err(CalendarErrorModel::UnsupportedKind(source.kind))
    }
}

/// Finds out where the files of a source are.
pub fn source_files(source: &CalendarSourceConfig) -> (files: Result<SourceFiles, CalendarError>)
    ensures
        match files {
            Ok(files) => files_of(source.deep_view()) == Ok::<_, CalendarErrorModel>(files),
            Err(error) => files_of(source.deep_view()) == Err::<SourceFiles, _>(error.deep_view()),
        },
{
    if is_blank(source.id.as_str()) {
        return Err(CalendarError::EmptySourceId);
    }
    if same_text(source.kind.as_str(), "ics-file") {
        return Ok(SourceFiles::File);
    }
    if same_text(source.kind.as_str(), "ics-directory") {
        return Ok(SourceFiles::Directory);
    }
    Err(CalendarError::UnsupportedKind(source.kind.clone()))
}

/// Whether a file with this extension is an iCalendar file.
pub fn is_calendar_extension(extension: &str) -> (is_calendar: bool)
    ensures
        is_calendar == same_ignoring_case(extension@, "ics"@),
{
    equals_ignoring_case(extension, "ics")
}

/// Events by start, then by end, then by id.
pub struct EventOrder;

/// Whether an event comes before another.
pub open spec fn event_before(a: ActivityEventModel, b: ActivityEventModel) -> bool {
    ||| a.start_unix_ms < b.start_unix_ms
    ||| a.start_unix_ms == b.start_unix_ms && a.end_unix_ms < b.end_unix_ms
    ||| a.start_unix_ms == b.start_unix_ms && a.end_unix_ms == b.end_unix_ms && text_lt(a.id, b.id)
}

impl Order<ActivityEvent> for EventOrder {
    open spec fn before(a: ActivityEventModel, b: ActivityEventModel) -> bool {
        event_before(a, b)
    }

    proof fn asymmetric(a: ActivityEventModel, b: ActivityEventModel) {
        text_lt_asymmetric(a.id, b.id);
    }

    proof fn weak(a: ActivityEventModel, b: ActivityEventModel, c: ActivityEventModel) {
        text_lt_total(a.id, b.id);
        text_lt_total(b.id, c.id);
        text_lt_asymmetric(a.id, c.id);
        text_lt_asymmetric(c.id, c.id);
        if text_lt(a.id, b.id) && text_lt(b.id, c.id) {
            text_lt_transitive(a.id, b.id, c.id);
        }
    }

    fn is_before(a: &ActivityEvent, b: &ActivityEvent) -> (result: bool) {
        a.start_unix_ms < b.start_unix_ms || (a.start_unix_ms == b.start_unix_ms && (a.end_unix_ms
            < b.end_unix_ms || (a.end_unix_ms == b.end_unix_ms && text_less(
            a.id.as_str(),
            b.id.as_str(),
        ))))
    }
}

/// The events of documents, one document behind the other.
pub open spec fn document_events(
    source: CalendarSourceConfigModel,
    documents: Seq<DocumentModel>,
    zone: Seq<LocalTime>,
) -> Seq<ActivityEventModel>
    decreases documents.len(),
{
    if documents.len() == 0 {
        Seq::empty()
    } else {
        document_events(source, documents.drop_last(), zone) + calendar_events(
            source,
            documents.last().path,
            documents.last().contents,
            zone,
        )
    }
}

/// The events of a source in order, or why it cannot be read.
pub open spec fn source_events(
    source: CalendarSourceConfigModel,
    documents: Seq<DocumentModel>,
    zone: Seq<LocalTime>,
) -> Result<Seq<ActivityEventModel>, CalendarErrorModel> {
    match files_of(source) {
        Ok(_) => Ok(
            sorted::<ActivityEvent, EventOrder>(document_events(source, documents, zone)),
        ),
        Err(error) => Err(error),
    }
}

/// The moments without a zone that documents give to starts and ends.
pub open spec fn document_moments(documents: Seq<DocumentModel>) -> Seq<(i64, u32)>
    decreases documents.len(),
{
    if documents.len() == 0 {
        Seq::empty()
    } else {
        document_moments(documents.drop_last()) + line_moments(
            unfolded(raw_lines(documents.last().contents)),
        )
    }
}

/// Moves all of `more` behind what `items` holds.
fn extend<T: DeepView>(items: &mut Vec<T>, more: Vec<T>)
    ensures
        final(items)@ == old(items)@ + more@,
        final(items).deep_view() == old(items).deep_view() + more.deep_view(),
{
    let ghost added = more@;
    let ghost model = more.deep_view();
    let mut more = more;
    items.append(&mut more);
    assert(items@ =~= old(items)@ + added);
    assert(items.deep_view() =~= old(items).deep_view() + model);
}

/// Asks this machine's clocks for every moment without a zone in documents.
pub fn document_local_times(documents: &Vec<Document>) -> (zone: Vec<LocalTime>)
    ensures
        zone_fits(zone@),
        zone_shows(zone@),
        moments_of(zone@) == document_moments(documents.deep_view()),
{
    let ghost all = documents.deep_view();
    let mut zone: Vec<LocalTime> = Vec::new();
    let mut i: usize = 0;
    assert(all.take(0) =~= Seq::<DocumentModel>::empty());
    assert(moments_of(zone@) =~= Seq::<(i64, u32)>::empty());
    while i < documents.len()
        invariant
            i <= documents@.len(),
            all == documents.deep_view(),
            zone_fits(zone@),
            zone_shows(zone@),
            moments_of(zone@) == document_moments(all.take(i as int)),
        decreases documents@.len() - i,
    {
        assert(all.take(i + 1).drop_last() =~= all.take(i as int));
        assert(all.take(i + 1).last() == documents@[i as int].deep_view());
        let ghost before = zone@;
        let mut more = local_times(documents[i].contents.as_str());
        let ghost added = more@;
        zone.append(&mut more);
        assert(zone@ =~= before + added);
        assert(moments_of(zone@) =~= moments_of(before) + moments_of(added));
        i = i + 1;
    }
    assert(all.take(i as int) =~= all);
    zone
}

/// Reads the events of a source out of its files, given when this machine's
/// clocks show the moments in them.
pub fn load_source_in(
    source: &CalendarSourceConfig,
    documents: &Vec<Document>,
    zone: &Vec<LocalTime>,
) -> (events: Result<Vec<ActivityEvent>, CalendarError>)
    requires
        zone_fits(zone@),
    ensures
        match events {
            Ok(events) => source_events(source.deep_view(), documents.deep_view(), zone@) == Ok::<
                _,
                CalendarErrorModel,
            >(events.deep_view()),
            Err(error) => source_events(source.deep_view(), documents.deep_view(), zone@) == Err::<
                Seq<ActivityEventModel>,
                _,
            >(error.deep_view()),
        },
{
    if let Err(error) = source_files(source) {
        return Err(error);
    }
    let ghost all = documents.deep_view();
    let mut events: Vec<ActivityEvent> = Vec::new();
    let mut i: usize = 0;
    assert(all.take(0) =~= Seq::<DocumentModel>::empty());
    assert(events.deep_view() =~= Seq::<ActivityEventModel>::empty());
    while i < documents.len()
        invariant
            i <= documents@.len(),
            all == documents.deep_view(),
            zone_fits(zone@),
            events.deep_view() == document_events(source.deep_view(), all.take(i as int), zone@),
        decreases documents@.len() - i,
    {
        assert(all.take(i + 1).drop_last() =~= all.take(i as int));
        assert(all.take(i + 1).last() == documents@[i as int].deep_view());
        let document = &documents[i];
        extend(
            &mut events,
            parse_calendar_in(source, document.path.as_str(), document.contents.as_str(), zone),
        );
        i = i + 1;
    }
    assert(all.take(i as int) =~= all);
    Ok(stable_sort::<ActivityEvent, EventOrder>(events))
}

/// Reads the events of a source out of its files. Moments without a zone are
/// those of this machine's clocks.
pub fn load_source(source: &CalendarSourceConfig, documents: &Vec<Document>) -> (events: Result<
    Vec<ActivityEvent>,
    CalendarError,
>)
    ensures
        exists|zone: Seq<LocalTime>|
            {
                &&& zone_fits(zone)
                &&& zone_shows(zone)
                &&& moments_of(zone) == document_moments(documents.deep_view())
                &&& match events {
                    Ok(events) => #[trigger] source_events(
                        source.deep_view(),
                        documents.deep_view(),
                        zone,
                    ) == Ok::<_, CalendarErrorModel>(events.deep_view()),
                    Err(error) => source_events(source.deep_view(), documents.deep_view(), zone)
                        == Err::<Seq<ActivityEventModel>, _>(error.deep_view()),
                }
            },
{
    let zone = document_local_times(documents);
    load_source_in(source, documents, &zone)
}

// Laws

/// The last line among some that gives a property, as its head and its value.
pub open spec fn last_property(lines: Seq<Seq<char>>, name: Seq<char>) -> Option<
    (Seq<char>, Seq<char>),
>
    decreases lines.len(),
{
    if lines.len() == 0 {
        None
    } else {
        match split_once(lines.last(), ':') {
            Some((head, value)) => if property_name(head) == name {
                Some((head, value))
            } else {
                last_property(lines.drop_last(), name)
            },
            None => last_property(lines.drop_last(), name),
        }
    }
}

/// The text that some lines give to a property.
pub open spec fn last_text(lines: Seq<Seq<char>>, name: Seq<char>) -> Seq<char> {
    match last_property(lines, name) {
        Some((_, value)) => decoded(value),
        None => Seq::empty(),
    }
}

/// The time that some lines give to a property.
pub open spec fn last_time(zone: Seq<LocalTime>, lines: Seq<Seq<char>>, name: Seq<char>) -> Option<
    ParsedTimeModel,
> {
    match last_property(lines, name) {
        Some((head, value)) => property_time(zone, head, value),
        None => None,
    }
}

/// Whether some lines say that an event is cancelled.
pub open spec fn says_cancelled(lines: Seq<Seq<char>>) -> bool {
    match last_property(lines, "STATUS"@) {
        Some((_, value)) => same_ignoring_case(value, "CANCELLED"@),
        None => false,
    }
}

proof fn lemma_property_names()
    ensures
        "UID"@ != "SUMMARY"@ && "UID"@ != "DTSTART"@ && "UID"@ != "DTEND"@ && "UID"@ != "LOCATION"@
            && "UID"@ != "URL"@ && "UID"@ != "STATUS"@,
        "SUMMARY"@ != "DTSTART"@ && "SUMMARY"@ != "DTEND"@ && "SUMMARY"@ != "LOCATION"@
            && "SUMMARY"@ != "URL"@ && "SUMMARY"@ != "STATUS"@,
        "DTSTART"@ != "DTEND"@ && "DTSTART"@ != "LOCATION"@ && "DTSTART"@ != "URL"@ && "DTSTART"@
            != "STATUS"@,
        "DTEND"@ != "LOCATION"@ && "DTEND"@ != "URL"@ && "DTEND"@ != "STATUS"@,
        "LOCATION"@ != "URL"@ && "LOCATION"@ != "STATUS"@,
        "URL"@ != "STATUS"@,
{
    reveal_strlit("UID");
    reveal_strlit("SUMMARY");
    reveal_strlit("DTSTART");
    reveal_strlit("DTEND");
    reveal_strlit("LOCATION");
    reveal_strlit("URL");
    reveal_strlit("STATUS");
    assert("UID"@.len() == 3 && "SUMMARY"@.len() == 7 && "DTSTART"@.len() == 7);
    assert("DTEND"@.len() == 5 && "LOCATION"@.len() == 8 && "URL"@.len() == 3);
    assert("STATUS"@.len() == 6);
    assert("UID"@[1] == 'I' && "URL"@[1] == 'R');
    assert("SUMMARY"@[0] == 'S' && "DTSTART"@[0] == 'D');
}

/// A property changes one part of an event alone: the status whether it is
/// cancelled, exactly by whether its value is `CANCELLED` in any case; the
/// start and the end their times; the others their texts.
pub proof fn properties_change_their_own_part(
    zone: Seq<LocalTime>,
    builder: EventBuilderModel,
    head: Seq<char>,
    value: Seq<char>,
)
    ensures
        ({
            let after = with_property(zone, builder, head, value);
            let name = property_name(head);
            &&& after.cancelled == if name == "STATUS"@ {
                same_ignoring_case(value, "CANCELLED"@)
            } else {
                builder.cancelled
            }
            &&& after.start == if name == "DTSTART"@ {
                property_time(zone, head, value)
            } else {
                builder.start
            }
            &&& after.end == if name == "DTEND"@ {
                property_time(zone, head, value)
            } else {
                builder.end
            }
            &&& after.uid == if name == "UID"@ {
                decoded(value)
            } else {
                builder.uid
            }
            &&& after.title == if name == "SUMMARY"@ {
                decoded(value)
            } else {
                builder.title
            }
            &&& after.location == if name == "LOCATION"@ {
                decoded(value)
            } else {
                builder.location
            }
            &&& after.url == if name == "URL"@ {
                decoded(value)
            } else {
                builder.url
            }
        }),
{
    lemma_property_names();
}

proof fn lemma_block(
    source: CalendarSourceConfigModel,
    path: Seq<char>,
    zone: Seq<LocalTime>,
    before: Seq<Seq<char>>,
    begin: Seq<char>,
    body: Seq<Seq<char>>,
)
    requires
        ascii_upper_text(begin) == "BEGIN:VEVENT"@,
        forall|i: int|
            0 <= i < body.len() ==> ascii_upper_text(#[trigger] body[i]) != "BEGIN:VEVENT"@
                && ascii_upper_text(body[i]) != "END:VEVENT"@,
    ensures
        ({
            let reading = after_lines(source, path, zone, before.push(begin) + body);
            &&& reading.events == after_lines(source, path, zone, before).events
            &&& reading.current matches Some(builder) && {
                &&& builder.cancelled == says_cancelled(body)
                &&& builder.start == last_time(zone, body, "DTSTART"@)
                &&& builder.end == last_time(zone, body, "DTEND"@)
                &&& builder.uid == last_text(body, "UID"@)
                &&& builder.title == last_text(body, "SUMMARY"@)
                &&& builder.location == last_text(body, "LOCATION"@)
                &&& builder.url == last_text(body, "URL"@)
            }
        }),
    decreases body.len(),
{
    let lines = before.push(begin) + body;
    if body.len() == 0 {
        assert(lines =~= before.push(begin));
        assert(lines.drop_last() =~= before);
    } else {
        let shorter = body.drop_last();
        assert forall|i: int| 0 <= i < shorter.len() implies ascii_upper_text(#[trigger] shorter[i])
            != "BEGIN:VEVENT"@ && ascii_upper_text(shorter[i]) != "END:VEVENT"@ by {
            assert(shorter[i] == body[i]);
        }
        lemma_block(source, path, zone, before, begin, shorter);
        assert(lines.drop_last() =~= before.push(begin) + shorter);
        assert(lines.last() == body[body.len() - 1]);
        let reading = after_lines(source, path, zone, lines.drop_last());
        match split_once(body.last(), ':') {
            Some((head, value)) => {
                properties_change_their_own_part(zone, reading.current->0, head, value);
            },
            None => {},
        }
    }
}

/// The lines between the start and the end of an event make one event, behind
/// those before, if and only if its start is understood and it is not said to
/// be cancelled. It starts and ends when the lines say, or lasts a day or an
/// hour where they give no end, and carries their title, place and address;
/// any other block makes none.
pub proof fn event_block_makes_its_event(
    source: CalendarSourceConfigModel,
    path: Seq<char>,
    zone: Seq<LocalTime>,
    before: Seq<Seq<char>>,
    begin: Seq<char>,
    body: Seq<Seq<char>>,
    end: Seq<char>,
)
    requires
        ascii_upper_text(begin) == "BEGIN:VEVENT"@,
        ascii_upper_text(end) == "END:VEVENT"@,
        forall|i: int|
            0 <= i < body.len() ==> ascii_upper_text(#[trigger] body[i]) != "BEGIN:VEVENT"@
                && ascii_upper_text(body[i]) != "END:VEVENT"@,
    ensures
        ({
            let reading = after_lines(source, path, zone, (before.push(begin) + body).push(end));
            let earlier = after_lines(source, path, zone, before).events;
            let start = last_time(zone, body, "DTSTART"@);
            let finish = last_time(zone, body, "DTEND"@);
            let event = reading.events.last();
            let title = last_text(body, "SUMMARY"@);
            let uid = last_text(body, "UID"@);
            &&& reading.current is None
            &&& says_cancelled(body) || start is None ==> reading.events == earlier
            &&& !says_cancelled(body) && start is Some ==> {
                &&& reading.events == earlier.push(event)
                &&& event.start_unix_ms == start->0.unix_ms
                &&& event.all_day == start->0.all_day
                &&& event.start_date == start->0.date
                &&& event.timezone == start->0.timezone
                &&& finish is Some && finish->0.unix_ms >= start->0.unix_ms ==> event.end_unix_ms
                    == finish->0.unix_ms
                &&& finish is Some && finish->0.unix_ms < start->0.unix_ms ==> event.end_unix_ms
                    == start->0.unix_ms
                &&& finish is Some ==> event.end_date == finish->0.date
                &&& finish is None && start->0.all_day && start->0.unix_ms <= i64::MAX - 86_400_000
                    ==> event.end_unix_ms == start->0.unix_ms + 86_400_000
                &&& finish is None && !start->0.all_day && start->0.unix_ms <= i64::MAX - 3_600_000
                    ==> event.end_unix_ms == start->0.unix_ms + 3_600_000
                &&& finish is None && start->0.date is None ==> event.end_date is None
                &&& finish is None ==> (start->0.date matches Some(date) ==> (parsed_date(
                    date,
                    "%Y-%m-%d"@,
                ) matches Some(days) ==> days < i32::MAX ==> event.end_date == date_text(
                    (days + 1) as i32,
                )))
                &&& trimmed(title).len() > 0 ==> event.title == title
                &&& trimmed(title).len() == 0 ==> event.title == "Untitled event"@
                &&& event.location == last_text(body, "LOCATION"@)
                &&& event.url == last_text(body, "URL"@)
                &&& event.source_id == source.id
                &&& event.color == source.color
                &&& source.name.len() > 0 ==> event.calendar_name == source.name
                &&& source.name.len() == 0 ==> event.calendar_name == source.id
                &&& uid.len() > 0 ==> event.id == source.id + ":"@ + (uid + ":"@ + integer_text(
                    start->0.unix_ms as int,
                ))
            }
        }),
{
    lemma_block(source, path, zone, before, begin, body);
    reveal_strlit("BEGIN:VEVENT");
    reveal_strlit("END:VEVENT");
    assert("BEGIN:VEVENT"@.len() == 12 && "END:VEVENT"@.len() == 10);
    let lines = (before.push(begin) + body).push(end);
    assert(lines.drop_last() =~= before.push(begin) + body);
    assert(lines.last() == end);
}

/// Only the end of an event adds to the events, and lines outside of events make
/// none.
pub proof fn lines_outside_events_are_skipped(
    source: CalendarSourceConfigModel,
    path: Seq<char>,
    zone: Seq<LocalTime>,
    before: Seq<Seq<char>>,
    line: Seq<char>,
)
    requires
        ascii_upper_text(line) != "BEGIN:VEVENT"@,
    ensures
        after_lines(source, path, zone, before).current is None ==> after_lines(
            source,
            path,
            zone,
            before.push(line),
        ) == after_lines(source, path, zone, before),
        ascii_upper_text(line) != "END:VEVENT"@ ==> after_lines(
            source,
            path,
            zone,
            before.push(line),
        ).events == after_lines(source, path, zone, before).events,
{
    assert(before.push(line).drop_last() =~= before);
}

/// The name of a property is what stands before its parameters, whatever its
/// case.
pub proof fn property_name_stands_before_parameters(name: Seq<char>, parameters: Seq<char>)
    requires
        !name.contains(';'),
        parameters.len() == 0 || parameters[0] == ';',
    ensures
        property_name(name + parameters) == ascii_upper_text(name),
        parameters.len() > 0 ==> parameters_of(name + parameters) == split_on(
            parameters.skip(1),
            ';',
        ),
        parameters.len() == 0 ==> parameters_of(name + parameters).len() == 0,
{
    let head = name + parameters;
    lemma_first_position(head, ';');
    let at = first_position(head, ';') as int;
    if at < name.len() {
        assert(head[at] == name[at]);
        assert(name.contains(';'));
    }
    if parameters.len() > 0 {
        assert(head[name.len() as int] == ';');
        assert(at == name.len());
    }
    assert(head.take(name.len() as int) =~= name);
    if parameters.len() > 0 {
        assert(head.skip(at + 1) =~= parameters.skip(1));
        let rest = split_on(parameters.skip(1), ';');
        assert((seq![name] + rest).skip(1) =~= rest);
    } else {
        assert(head =~= name);
    }
}

/// A time that ends in `Z` and is no date is in UTC; the milliseconds are those of
/// the moment that it writes.
pub proof fn utc_times_are_read(zone: Seq<LocalTime>, head: Seq<char>, value: Seq<char>)
    requires
        value.contains('T'),
        value.last() == 'Z',
        !says_date(parameters_of(head)),
    ensures
        property_time(zone, head, value) is Some <==> parsed_moment(
            value.drop_last(),
            "%Y%m%dT%H%M%S"@,
        ) is Some,
        property_time(zone, head, value) matches Some(time) ==> {
            let moment = parsed_moment(value.drop_last(), "%Y%m%dT%H%M%S"@)->0;
            &&& time.unix_ms == (moment.0 * 1000 + moment.1 / 1_000_000) as i64
            &&& !time.all_day
            &&& time.date is None
            &&& time.timezone == Some("UTC"@)
        },
{
}

/// A date, by its parameter or by its look, lasts the whole day that it writes.
pub proof fn dates_last_the_day(zone: Seq<LocalTime>, head: Seq<char>, value: Seq<char>)
    requires
        says_date(parameters_of(head)) || (!value.contains('T') && encode_utf8(value).len() == 8),
    ensures
        property_time(zone, head, value) is Some <==> parsed_date(value, "%Y%m%d"@) is Some,
        property_time(zone, head, value) matches Some(time) ==> {
            let days = parsed_date(value, "%Y%m%d"@)->0;
            &&& time.unix_ms == days * 24 * 60 * 60 * 1000
            &&& time.all_day
            &&& time.date == date_text(days)
            &&& time.timezone == zone_of(head)
        },
{
    if let Some(days) = parsed_date(value, "%Y%m%d"@) {
        assert(i32::MIN <= days <= i32::MAX);
        assert(days * DAY_MS == days * 86_400_000);
        assert(i64::MIN <= days * 86_400_000 <= i64::MAX);
    }
}

/// Any other time is one that the clocks of its zone show, or the clocks here
/// where it names no zone. A zone that is not known, and a time that the clocks
/// skip, make it one that is not understood.
pub proof fn zoned_times_are_read(
    zone: Seq<LocalTime>,
    head: Seq<char>,
    value: Seq<char>,
    seconds: i64,
    nanos: u32,
)
    requires
        value.contains('T'),
        value.last() != 'Z',
        !says_date(parameters_of(head)),
        parsed_moment(value, "%Y%m%dT%H%M%S"@) == Some((seconds, nanos)) || (parsed_moment(
            value,
            "%Y%m%dT%H%M%S"@,
        ) is None && parsed_moment(value, "%Y%m%dT%H%M"@) == Some((seconds, nanos))),
    ensures
        zone_of(head) matches Some(name) ==> {
            &&& property_time(zone, head, value) is Some <==> is_timezone(name) && zone_instant(
                name,
                seconds,
                nanos,
            ) is Some
            &&& property_time(zone, head, value) matches Some(time) ==> time.unix_ms
                == zone_instant(name, seconds, nanos)->0 && time.timezone == Some(name)
                && !time.all_day && time.date is None
        },
        zone_of(head) is None ==> {
            &&& property_time(zone, head, value) is Some <==> local_instant(
                zone,
                seconds,
                nanos,
            ) is Some
            &&& property_time(zone, head, value) matches Some(time) ==> time.unix_ms
                == local_instant(zone, seconds, nanos)->0 && time.timezone is None && !time.all_day
                && time.date is None
        },
{
}

/// What the clocks here show is looked up among the times that are known: the
/// first entry for a moment counts.
pub proof fn local_times_are_looked_up(zone: Seq<LocalTime>, at: int)
    requires
        0 <= at < zone.len(),
        forall|i: int|
            0 <= i < at ==> (#[trigger] zone[i]).seconds != zone[at].seconds || zone[i].nanos
                != zone[at].nanos,
    ensures
        local_instant(zone, zone[at].seconds, zone[at].nanos) == zone[at].unix_ms,
    decreases zone.len(),
{
    if at > 0 {
        assert(zone[0].seconds != zone[at].seconds || zone[0].nanos != zone[at].nanos);
        let rest = zone.skip(1);
        assert forall|i: int| 0 <= i < at - 1 implies (#[trigger] rest[i]).seconds != rest[at
            - 1].seconds || rest[i].nanos != rest[at - 1].nanos by {
            assert(rest[i] == zone[i + 1]);
        }
        local_times_are_looked_up(rest, at - 1);
    }
}

/// A line that is folded, so that the next one goes on with it behind a blank or a
/// tab, is read as one line; lines that do not go on with others are read as
/// they are.
pub proof fn folded_lines_are_joined(
    raw: Seq<Seq<char>>,
    line: Seq<char>,
    blank: char,
    rest: Seq<char>,
)
    requires
        line.len() > 0,
        line[0] != ' ' && line[0] != '\t',
        blank == ' ' || blank == '\t',
    ensures
        unfolded(raw.push(line)) == unfolded(raw).push(line),
        unfolded(raw.push(line).push(seq![blank] + rest)) == unfolded(raw.push(line + rest)),
        unfolded(raw.push(Seq::empty())) == unfolded(raw).push(Seq::empty()),
{
    assert(raw.push(line).drop_last() =~= raw);
    assert(raw.push(Seq::<char>::empty()).drop_last() =~= raw);
    assert(raw.push(line + rest).drop_last() =~= raw);
    let more = seq![blank] + rest;
    assert(raw.push(line).push(more).drop_last() =~= raw.push(line));
    assert(more.skip(1) =~= rest);
    assert(more[0] == blank && (line + rest)[0] == line[0]);
    assert(unfolded(raw.push(line)).last() == line);
    assert(unfolded(raw).push(line).drop_last() =~= unfolded(raw));
}

/// Lines end at a line feed, and carriage returns before it do not belong to them.
pub proof fn lines_end_at_line_feeds(line: Seq<char>, returned: bool, rest: Seq<char>)
    requires
        !line.contains('\n'),
        line.len() == 0 || line.last() != '\r',
    ensures
        raw_lines(
            line + (if returned {
                seq!['\r', '\n']
            } else {
                seq!['\n']
            }) + rest,
        ) == seq![line] + raw_lines(rest),
{
    let first = if returned {
        line.push('\r')
    } else {
        line
    };
    let ended = first.push('\n');
    assert(ended + rest =~= line + (if returned {
        seq!['\r', '\n']
    } else {
        seq!['\n']
    }) + rest);
    lemma_raw_joined(ended, rest);
    lemma_first_position(ended, '\n');
    let at = first_position(ended, '\n') as int;
    if at < first.len() {
        assert(ended[at] == first[at]);
        if at < line.len() {
            assert(line[at] == '\n');
        }
    }
    assert(ended[first.len() as int] == '\n');
    assert(at == first.len());
    assert(ended.take(at) =~= first);
    assert(ended.skip(at + 1) =~= Seq::<char>::empty());
    lemma_first_position(Seq::<char>::empty(), '\n');
    assert(split_on(Seq::<char>::empty(), '\n') =~= seq![Seq::<char>::empty()]);
    assert(split_on(ended, '\n') =~= seq![first, Seq::<char>::empty()]);
    assert(split_on(ended, '\n').drop_last() =~= seq![first]);
    assert(first.drop_last() =~= if returned { line } else { line.drop_last() });
    reveal_with_fuel(trimmed_end_of, 3);
    assert(trimmed_end_of(first, '\r') == line);
    assert(raw_lines(ended) =~= seq![line]);
}

proof fn lemma_pair_skipped(plain: Seq<char>, text: Seq<char>, b: char, to: char)
    requires
        !plain.contains('\\'),
    ensures
        pair_replaced(plain + text, '\\', b, to) == plain + pair_replaced(text, '\\', b, to),
    decreases plain.len(),
{
    if plain.len() == 0 {
        assert(plain + text =~= text);
        assert(plain + pair_replaced(text, '\\', b, to) =~= pair_replaced(text, '\\', b, to));
    } else {
        let whole = plain + text;
        let rest = plain.skip(1);
        assert(plain.contains(plain[0]));
        assert(whole.skip(1) =~= rest + text);
        assert forall|i: int| 0 <= i < rest.len() implies rest[i] != '\\' by {
            assert(plain.contains(plain[i + 1]));
        }
        lemma_pair_skipped(rest, text, b, to);
        assert(pair_replaced(whole, '\\', b, to) =~= plain + pair_replaced(text, '\\', b, to));
    }
}

proof fn lemma_pair_absent(plain: Seq<char>, b: char, to: char)
    requires
        !plain.contains('\\'),
    ensures
        pair_replaced(plain, '\\', b, to) == plain,
{
    lemma_pair_skipped(plain, Seq::empty(), b, to);
    assert(plain + Seq::<char>::empty() =~= plain);
}

proof fn lemma_pair_kept(c: char, plain: Seq<char>, b: char, to: char)
    requires
        !plain.contains('\\'),
        c != b,
        c == '\\' ==> plain.len() == 0 || plain[0] != b,
    ensures
        pair_replaced(seq!['\\', c] + plain, '\\', b, to) == seq!['\\', c] + plain,
{
    let text = seq!['\\', c] + plain;
    let tail = seq![c] + plain;
    assert(text.skip(1) =~= tail);
    lemma_pair_absent(plain, b, to);
    assert(tail.skip(1) =~= plain);
    assert(pair_replaced(tail, '\\', b, to) =~= tail);
    assert(pair_replaced(text, '\\', b, to) =~= text);
}

proof fn lemma_pair_taken(c: char, plain: Seq<char>, to: char)
    requires
        !plain.contains('\\'),
    ensures
        pair_replaced(seq!['\\', c] + plain, '\\', c, to) == seq![to] + plain,
{
    let text = seq!['\\', c] + plain;
    assert(text.skip(2) =~= plain);
    lemma_pair_absent(plain, c, to);
}

/// Texts stand for themselves, but for what is escaped: `\n` and `\N` stand for
/// the end of a line, and a comma, a semicolon and a backslash behind a backslash
/// for themselves.
pub proof fn escapes_are_read(plain: Seq<char>, c: char, rest: Seq<char>)
    requires
        !plain.contains('\\'),
        !rest.contains('\\'),
        c == 'n' || c == 'N' || c == ',' || c == ';' || c == '\\',
        c == '\\' && rest.len() > 0 ==> rest[0] != 'n' && rest[0] != 'N' && rest[0] != ','
            && rest[0] != ';',
    ensures
        decoded(plain) == plain,
        decoded(plain + seq!['\\', c] + rest) == plain.push(
            if c == 'n' || c == 'N' {
                '\n'
            } else {
                c
            },
        ) + rest,
{
    lemma_pair_absent(plain, 'n', '\n');
    lemma_pair_absent(plain, 'N', '\n');
    lemma_pair_absent(plain, ',', ',');
    lemma_pair_absent(plain, ';', ';');
    lemma_pair_absent(plain, '\\', '\\');
    let pair = seq!['\\', c] + rest;
    let text = plain + pair;
    assert(plain + seq!['\\', c] + rest =~= text);
    let result = if c == 'n' || c == 'N' { '\n' } else { c };
    let done = plain + (seq![result] + rest);
    assert(plain.push(result) + rest =~= done);
    lemma_pair_skipped(plain, pair, 'n', '\n');
    lemma_pair_skipped(plain, pair, 'N', '\n');
    lemma_pair_skipped(plain, pair, ',', ',');
    lemma_pair_skipped(plain, pair, ';', ';');
    lemma_pair_skipped(plain, pair, '\\', '\\');
    lemma_pair_taken(c, rest, result);
    if c != 'n' {
        lemma_pair_kept(c, rest, 'n', '\n');
        if c != 'N' {
            lemma_pair_kept(c, rest, 'N', '\n');
            if c != ',' {
                lemma_pair_kept(c, rest, ',', ',');
                if c != ';' {
                    lemma_pair_kept(c, rest, ';', ';');
                }
            }
        }
    }
    if c != '\\' {
        assert forall|i: int| 0 <= i < done.len() implies done[i] != '\\' by {
            if i < plain.len() {
                assert(plain.contains(plain[i]));
            } else if i > plain.len() {
                assert(rest.contains(rest[i - plain.len() - 1]));
            }
        }
        lemma_pair_absent(done, 'N', '\n');
        lemma_pair_absent(done, ',', ',');
        lemma_pair_absent(done, ';', ';');
        lemma_pair_absent(done, '\\', '\\');
    }
}

/// A source that has an id and is of a kind that is read gives the events of all
/// its files, by their starts; any other is refused.
pub proof fn sources_give_the_events_of_their_files(
    source: CalendarSourceConfigModel,
    documents: Seq<DocumentModel>,
    zone: Seq<LocalTime>,
    event: ActivityEventModel,
)
    ensures
        ({
            let read = source_events(source, documents, zone);
            let named = trimmed(source.id).len() > 0;
            &&& read is Ok <==> named && (source.kind == "ics-file"@ || source.kind
                == "ics-directory"@)
            &&& !named ==> read == Err::<Seq<ActivityEventModel>, CalendarErrorModel>(
                CalendarErrorModel::EmptySourceId,
            )
            &&& named && source.kind == "ics-file"@ ==> files_of(source) == Ok::<
                SourceFiles,
                CalendarErrorModel,
            >(SourceFiles::File)
            &&& named && source.kind == "ics-directory"@ ==> files_of(source) == Ok::<
                SourceFiles,
                CalendarErrorModel,
            >(SourceFiles::Directory)
            &&& read matches Ok(events) ==> {
                &&& events.contains(event) <==> exists|i: int|
                    0 <= i < documents.len() && calendar_events(
                        source,
                        (#[trigger] documents[i]).path,
                        documents[i].contents,
                        zone,
                    ).contains(event)
                &&& forall|i: int, j: int|
                    0 <= i < j < events.len() ==> (#[trigger] events[i]).start_unix_ms <= (
                    #[trigger] events[j]).start_unix_ms
            }
        }),
{
    broadcast use vstd::seq_lib::group_to_multiset_ensures;

    reveal_strlit("ics-file");
    reveal_strlit("ics-directory");
    assert("ics-file"@.len() == 8 && "ics-directory"@.len() == 13);
    let all = document_events(source, documents, zone);
    let events = sorted::<ActivityEvent, EventOrder>(all);
    sorting_orders_and_keeps_items::<ActivityEvent, EventOrder>(all);
    lemma_document_events(source, documents, zone, event);
    assert(events.contains(event) <==> events.to_multiset().count(event) > 0);
    assert(all.contains(event) <==> all.to_multiset().count(event) > 0);
    assert forall|i: int, j: int| 0 <= i < j < events.len() implies (
    #[trigger] events[i]).start_unix_ms <= (#[trigger] events[j]).start_unix_ms by {
        assert(!EventOrder::before(events[j], events[i]));
    }
}

proof fn lemma_document_events(
    source: CalendarSourceConfigModel,
    documents: Seq<DocumentModel>,
    zone: Seq<LocalTime>,
    event: ActivityEventModel,
)
    ensures
        document_events(source, documents, zone).contains(event) <==> exists|i: int|
            0 <= i < documents.len() && calendar_events(
                source,
                (#[trigger] documents[i]).path,
                documents[i].contents,
                zone,
            ).contains(event),
    decreases documents.len(),
{
    if documents.len() > 0 {
        let shorter = documents.drop_last();
        lemma_document_events(source, shorter, zone, event);
        let before = document_events(source, shorter, zone);
        let last = calendar_events(
            source,
            documents.last().path,
            documents.last().contents,
            zone,
        );
        let all = document_events(source, documents, zone);
        assert(all == before + last);
        if all.contains(event) {
            let m = choose|m: int| 0 <= m < all.len() && all[m] == event;
            if m < before.len() {
                assert(before[m] == event);
                let k = choose|k: int|
                    0 <= k < shorter.len() && calendar_events(
                        source,
                        (#[trigger] shorter[k]).path,
                        shorter[k].contents,
                        zone,
                    ).contains(event);
                assert(documents[k] == shorter[k]);
            } else {
                assert(last[m - before.len()] == event);
                assert(documents[documents.len() - 1] == documents.last());
            }
        }
        if exists|i: int|
            0 <= i < documents.len() && calendar_events(
                source,
                (#[trigger] documents[i]).path,
                documents[i].contents,
                zone,
            ).contains(event) {
            let k = choose|i: int|
                0 <= i < documents.len() && calendar_events(
                    source,
                    (#[trigger] documents[i]).path,
                    documents[i].contents,
                    zone,
                ).contains(event);
            if k < documents.len() - 1 {
                assert(shorter[k] == documents[k]);
                let m = choose|m: int| 0 <= m < before.len() && before[m] == event;
                assert(all[m] == event);
            } else {
                let m = choose|m: int| 0 <= m < last.len() && last[m] == event;
                assert(all[before.len() + m] == event);
            }
        }
    }
}

/// Reading further lines takes no event back.
pub proof fn events_read_stay(
    source: CalendarSourceConfigModel,
    path: Seq<char>,
    zone: Seq<LocalTime>,
    lines: Seq<Seq<char>>,
    more: Seq<Seq<char>>,
)
    ensures
        after_lines(source, path, zone, lines).events.is_prefix_of(
            after_lines(source, path, zone, lines + more).events,
        ),
    decreases more.len(),
{
    if more.len() == 0 {
        assert(lines + more =~= lines);
    } else {
        events_read_stay(source, path, zone, lines, more.drop_last());
        assert((lines + more).drop_last() =~= lines + more.drop_last());
    }
}

/// An event whose start is understood is among the events of its calendar,
/// wherever it stands there, unless its status is `CANCELLED`: so where it is
/// confirmed, tentative or without a status.
pub proof fn standing_events_are_read(
    source: CalendarSourceConfigModel,
    path: Seq<char>,
    contents: Seq<char>,
    zone: Seq<LocalTime>,
    before: Seq<Seq<char>>,
    begin: Seq<char>,
    body: Seq<Seq<char>>,
    end: Seq<char>,
    after: Seq<Seq<char>>,
)
    requires
        unfolded(raw_lines(contents)) == (before.push(begin) + body).push(end) + after,
        same_ignoring_case(begin, "BEGIN:VEVENT"@),
        same_ignoring_case(end, "END:VEVENT"@),
        forall|i: int|
            0 <= i < body.len() ==> !same_ignoring_case(#[trigger] body[i], "BEGIN:VEVENT"@)
                && !same_ignoring_case(body[i], "END:VEVENT"@),
        last_time(zone, body, "DTSTART"@) is Some,
        last_property(body, "STATUS"@) matches Some((_, status)) ==> same_ignoring_case(
            status,
            "CONFIRMED"@,
        ) || same_ignoring_case(status, "TENTATIVE"@),
    ensures
        exists|i: int|
            0 <= i < calendar_events(source, path, contents, zone).len() && (
            #[trigger] calendar_events(source, path, contents, zone)[i]).start_unix_ms == last_time(
                zone,
                body,
                "DTSTART"@,
            )->0.unix_ms,
{
    reveal_strlit("BEGIN:VEVENT");
    reveal_strlit("END:VEVENT");
    assert(ascii_upper_text("BEGIN:VEVENT"@) =~= "BEGIN:VEVENT"@);
    assert(ascii_upper_text("END:VEVENT"@) =~= "END:VEVENT"@);
    reveal_strlit("CONFIRMED");
    reveal_strlit("TENTATIVE");
    reveal_strlit("CANCELLED");
    assert(ascii_upper_text("CONFIRMED"@)[1] == 'O');
    assert(ascii_upper_text("TENTATIVE"@)[0] == 'T');
    assert(ascii_upper_text("CANCELLED"@)[0] == 'C');
    assert(ascii_upper_text("CANCELLED"@)[1] == 'A');
    let block = (before.push(begin) + body).push(end);
    event_block_makes_its_event(source, path, zone, before, begin, body, end);
    events_read_stay(source, path, zone, block, after);
    let read = after_lines(source, path, zone, block).events;
    let events = calendar_events(source, path, contents, zone);
    let at = read.len() - 1;
    assert(events[at] == read[at]);
}

/// A value is said to be a date by a parameter `VALUE` that is `DATE`, both in any
/// case, and by nothing else.
pub proof fn parameter_says_date(parameters: Seq<Seq<char>>, parameter: Seq<char>)
    ensures
        !says_date(Seq::empty()),
        says_date(parameters.push(parameter)) <==> says_date(parameters) || (split_once(
            parameter,
            '=',
        ) matches Some((key, value)) && same_ignoring_case(key, "VALUE"@) && same_ignoring_case(
            value,
            "DATE"@,
        )),
{
    reveal_strlit("VALUE");
    assert(ascii_upper_text("VALUE"@) =~= "VALUE"@);
    let more = parameters.push(parameter);
    if says_date(parameters) {
        let k = choose|i: int|
            0 <= i < parameters.len() && is_named(#[trigger] parameters[i], "VALUE"@)
                && same_ignoring_case(parameter_value(parameters[i]), "DATE"@);
        assert(more[k] == parameters[k]);
    }
    if says_date(more) {
        let k = choose|i: int|
            0 <= i < more.len() && is_named(#[trigger] more[i], "VALUE"@) && same_ignoring_case(
                parameter_value(more[i]),
                "DATE"@,
            );
        if k < parameters.len() {
            assert(more[k] == parameters[k]);
        }
    }
    assert(more[parameters.len() as int] == parameter);
}

/// The zone of a time is the value of its parameter `TZID`, in any case, without
/// the quotes around it; a time without parameters names none.
pub proof fn zone_is_named_by_parameter(
    name: Seq<char>,
    key: Seq<char>,
    zone: Seq<char>,
    quoted: bool,
)
    requires
        !name.contains(';'),
        same_ignoring_case(key, "TZID"@),
        !zone.contains(';'),
        zone.len() > 0,
        zone[0] != '"',
        zone.last() != '"',
    ensures
        zone_of(name) is None,
        zone_of(
            name + (seq![';'] + (key.push('=') + (if quoted {
                seq!['"'] + zone.push('"')
            } else {
                zone
            }))),
        ) == Some(zone),
{
    reveal_strlit("TZID");
    let wanted = "TZID"@;
    assert(wanted.len() == 4 && wanted[0] == 'T' && wanted[1] == 'Z' && wanted[2] == 'I'
        && wanted[3] == 'D');
    assert(ascii_upper_text(wanted) =~= wanted);
    case_is_that_of_ascii_letters(key, wanted);
    assert forall|i: int| 0 <= i < key.len() implies key[i] != ';' && key[i] != '=' by {
        assert(key[i] == key[i]);
    }
    let value = if quoted {
        seq!['"'] + zone.push('"')
    } else {
        zone
    };
    let parameter = key.push('=') + value;
    let parameters = seq![';'] + parameter;
    assert forall|i: int| 0 <= i < parameter.len() implies parameter[i] != ';' by {
        if i < key.len() {
            assert(parameter[i] == key[i]);
        } else if i > key.len() {
            let k = i - key.len() - 1;
            assert(parameter[i] == value[k]);
            if quoted {
                if 0 < k < value.len() - 1 {
                    assert(value[k] == zone[k - 1]);
                    assert(zone.contains(zone[k - 1]));
                }
            } else {
                assert(zone.contains(zone[k]));
            }
        }
    }
    property_name_stands_before_parameters(name, parameters);
    property_name_stands_before_parameters(name, Seq::empty());
    assert(name + Seq::<char>::empty() =~= name);
    assert(parameters.skip(1) =~= parameter);
    splitting_stops_at_each_character(parameter, ';', Seq::empty());
    assert(!key.contains('='));
    splitting_stops_at_each_character(key, '=', value);
    assert(parameters_of(name + parameters) == seq![parameter]);
    assert(is_named(parameter, wanted));
    assert(first_value(seq![parameter], wanted) == Some(value));
    assert(first_value(parameters_of(name), wanted) is None);
    one_character_is_trimmed_off(zone, '"');
    one_character_is_trimmed_off(zone.push('"'), '"');
    assert(zone.push('"')[0] == zone[0]);
}

} // verus!
