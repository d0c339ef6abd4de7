//! Merged view of all calendar sources and tasks.

use vstd::prelude::*;

use crate::activity::config::{
    ActivityConfig, ActivityConfigModel, CalendarSourceConfig, CalendarSourceConfigModel,
};
use crate::activity::model::{
    ActivityEvent, ActivityEventModel, ActivitySourceState, ActivitySourceStateModel,
    ActivityState, ActivityStateModel, TodoItem, TodoItemModel,
};
use crate::record::Record;
use crate::text::{is_empty, same_text};

verus! {

/// The events that a source gave when it was last read without error.
#[derive(Debug, PartialEq, Eq)]
pub struct SourceEvents {
    pub source_id: String,
    pub events: Vec<ActivityEvent>,
}

/// What a [`SourceEvents`] holds.
#[verifier::ext_equal]
pub struct SourceEventsModel {
    pub source_id: Seq<char>,
    pub events: Seq<ActivityEventModel>,
}

impl DeepView for SourceEvents {
    type V = SourceEventsModel;

    open spec fn deep_view(&self) -> SourceEventsModel {
        SourceEventsModel {
            source_id: self.source_id.deep_view(),
            events: self.events.deep_view(),
        }
    }
}

impl Record for SourceEvents {
    fn same(&self, other: &Self) -> (same: bool) {
        self.source_id.same(&other.source_id)
            && self.events.same(&other.events)
    }

    fn copy(&self) -> (copy: Self) {
        SourceEvents {
            source_id: self.source_id.copy(),
            events: self.events.copy(),
        }
    }
}

impl Clone for SourceEvents {
    fn clone(&self) -> (copy: Self)
        ensures
            copy.deep_view() == self.deep_view(),
    {
        self.copy()
    }
}

/// What is known of all sources and tasks. No source has more than one entry
/// among the events, nor among the states (see [`ActivityDataModel::wf`]).
#[derive(Debug, PartialEq, Eq)]
pub struct ActivityData {
    pub config: ActivityConfig,
    pub events_by_source: Vec<SourceEvents>,
    pub source_states: Vec<ActivitySourceState>,
    pub todos: Vec<TodoItem>,
}

/// What a [`ActivityData`] holds.
#[verifier::ext_equal]
pub struct ActivityDataModel {
    pub config: ActivityConfigModel,
    pub events_by_source: Seq<SourceEventsModel>,
    pub source_states: Seq<ActivitySourceStateModel>,
    pub todos: Seq<TodoItemModel>,
}

impl DeepView for ActivityData {
    type V = ActivityDataModel;

    open spec fn deep_view(&self) -> ActivityDataModel {
        ActivityDataModel {
            config: self.config.deep_view(),
            events_by_source: self.events_by_source.deep_view(),
            source_states: self.source_states.deep_view(),
            todos: self.todos.deep_view(),
        }
    }
}

impl Record for ActivityData {
    fn same(&self, other: &Self) -> (same: bool) {
        self.config.same(&other.config)
            && self.events_by_source.same(&other.events_by_source)
            && self.source_states.same(&other.source_states)
            && self.todos.same(&other.todos)
    }

    fn copy(&self) -> (copy: Self) {
        ActivityData {
            config: self.config.copy(),
            events_by_source: self.events_by_source.copy(),
            source_states: self.source_states.copy(),
            todos: self.todos.copy(),
        }
    }
}

impl Clone for ActivityData {
    fn clone(&self) -> (copy: Self)
        ensures
            copy.deep_view() == self.deep_view(),
    {
        self.copy()
    }
}

impl ActivityDataModel {
    /// What a default [`ActivityData`] holds.
    pub open spec fn initial() -> ActivityDataModel {
        ActivityDataModel {
            config: ActivityConfigModel::initial(),
            events_by_source: Seq::empty(),
            source_states: Seq::empty(),
            todos: Seq::empty(),
        }
    }
}

impl Default for ActivityData {
    fn default() -> (value: ActivityData)
        ensures
            value.deep_view() == ActivityDataModel::initial(),
    {
        let value = ActivityData {
            config: ActivityConfig::default(),
            events_by_source: Vec::new(),
            source_states: Vec::new(),
            todos: Vec::new(),
        };
        assert(value.deep_view() =~= ActivityDataModel::initial());
        value
    }
}

/// The sources of which events are kept.
pub open spec fn event_ids(entries: Seq<SourceEventsModel>) -> Seq<Seq<char>> {
    entries.map_values(|entry: SourceEventsModel| entry.source_id)
}

/// The sources of which a state is kept.
pub open spec fn state_ids(entries: Seq<ActivitySourceStateModel>) -> Seq<Seq<char>> {
    entries.map_values(|entry: ActivitySourceStateModel| entry.id)
}

impl ActivityDataModel {
    /// Whether no source has two entries among the events, nor among the states.
    pub open spec fn wf(self) -> bool {
        &&& event_ids(self.events_by_source).no_duplicates()
        &&& state_ids(self.source_states).no_duplicates()
    }
}

// Tables by source

/// The events that are kept for a source.
pub open spec fn events_of(entries: Seq<SourceEventsModel>, id: Seq<char>) -> Option<
    Seq<ActivityEventModel>,
>
    decreases entries.len(),
{
    if entries.len() == 0 {
        None
    } else if entries[0].source_id == id {
        Some(entries[0].events)
    } else {
        events_of(entries.skip(1), id)
    }
}

/// The state that is kept for a source.
pub open spec fn state_of(entries: Seq<ActivitySourceStateModel>, id: Seq<char>) -> Option<
    ActivitySourceStateModel,
>
    decreases entries.len(),
{
    if entries.len() == 0 {
        None
    } else if entries[0].id == id {
        Some(entries[0])
    } else {
        state_of(entries.skip(1), id)
    }
}

/// The events of sources with `events` for one of them: in its place where it
/// has one, else behind the others.
pub open spec fn with_events(
    entries: Seq<SourceEventsModel>,
    id: Seq<char>,
    events: Seq<ActivityEventModel>,
) -> Seq<SourceEventsModel>
    decreases entries.len(),
{
    if entries.len() == 0 {
        seq![SourceEventsModel { source_id: id, events }]
    } else if entries[0].source_id == id {
        seq![SourceEventsModel { source_id: id, events }] + entries.skip(1)
    } else {
        seq![entries[0]] + with_events(entries.skip(1), id, events)
    }
}

/// The states of sources with `state` for one of them: in its place where it
/// has one, else behind the others.
pub open spec fn with_state(
    entries: Seq<ActivitySourceStateModel>,
    state: ActivitySourceStateModel,
) -> Seq<ActivitySourceStateModel>
    decreases entries.len(),
{
    if entries.len() == 0 {
        seq![state]
    } else if entries[0].id == state.id {
        seq![state] + entries.skip(1)
    } else {
        seq![entries[0]] + with_state(entries.skip(1), state)
    }
}

/// Whether a source with an id is configured.
pub open spec fn is_configured(config: ActivityConfigModel, id: Seq<char>) -> bool {
    exists|i: int|
        0 <= i < config.calendar_sources.len() && (#[trigger] config.calendar_sources[i]).id == id
}

/// The name to show for a source.
pub open spec fn shown_name(source: CalendarSourceConfigModel) -> Seq<char> {
    if source.name.len() == 0 {
        source.id
    } else {
        source.name
    }
}

/// Putting in the events of one source leaves those of all others.
pub proof fn other_sources_keep_events(
    entries: Seq<SourceEventsModel>,
    id: Seq<char>,
    events: Seq<ActivityEventModel>,
    other: Seq<char>,
)
    ensures
        events_of(with_events(entries, id, events), other) == if other == id {
            Some(events)
        } else {
            events_of(entries, other)
        },
    decreases entries.len(),
{
    let result = with_events(entries, id, events);
    if entries.len() > 0 {
        assert((seq![SourceEventsModel { source_id: id, events }] + entries.skip(1)).skip(1)
            =~= entries.skip(1));
        if entries[0].source_id != id {
            other_sources_keep_events(entries.skip(1), id, events, other);
            assert(result.skip(1) =~= with_events(entries.skip(1), id, events));
        }
    } else {
        assert(result.skip(1).len() == 0);
        assert(events_of(result.skip(1), other) is None);
    }
}

proof fn lemma_event_ids(
    entries: Seq<SourceEventsModel>,
    id: Seq<char>,
    events: Seq<ActivityEventModel>,
)
    ensures
        event_ids(with_events(entries, id, events)) == if event_ids(entries).contains(id) {
            event_ids(entries)
        } else {
            event_ids(entries).push(id)
        },
    decreases entries.len(),
{
    let ids = event_ids(entries);
    let result = event_ids(with_events(entries, id, events));
    if entries.len() == 0 {
        assert(result =~= ids.push(id));
    } else if entries[0].source_id == id {
        assert(ids[0] == id);
        assert(result =~= ids);
    } else {
        let rest = event_ids(entries.skip(1));
        lemma_event_ids(entries.skip(1), id, events);
        assert(ids =~= seq![entries[0].source_id] + rest);
        assert(result =~= seq![entries[0].source_id] + event_ids(
            with_events(entries.skip(1), id, events),
        ));
        if rest.contains(id) {
            let k = choose|k: int| 0 <= k < rest.len() && rest[k] == id;
            assert(ids[k + 1] == id);
        } else if ids.contains(id) {
            let k = choose|k: int| 0 <= k < ids.len() && ids[k] == id;
            assert(rest[k - 1] == id);
        }
        assert(seq![entries[0].source_id] + rest.push(id) =~= ids.push(id));
    }
}

proof fn lemma_state_ids(entries: Seq<ActivitySourceStateModel>, state: ActivitySourceStateModel)
    ensures
        state_ids(with_state(entries, state)) == if state_ids(entries).contains(state.id) {
            state_ids(entries)
        } else {
            state_ids(entries).push(state.id)
        },
    decreases entries.len(),
{
    let ids = state_ids(entries);
    let result = state_ids(with_state(entries, state));
    if entries.len() == 0 {
        assert(result =~= ids.push(state.id));
    } else if entries[0].id == state.id {
        assert(ids[0] == state.id);
        assert(result =~= ids);
    } else {
        let rest = state_ids(entries.skip(1));
        lemma_state_ids(entries.skip(1), state);
        assert(ids =~= seq![entries[0].id] + rest);
        assert(result =~= seq![entries[0].id] + state_ids(with_state(entries.skip(1), state)));
        if rest.contains(state.id) {
            let k = choose|k: int| 0 <= k < rest.len() && rest[k] == state.id;
            assert(ids[k + 1] == state.id);
        } else if ids.contains(state.id) {
            let k = choose|k: int| 0 <= k < ids.len() && ids[k] == state.id;
            assert(rest[k - 1] == state.id);
        }
        assert(seq![entries[0].id] + rest.push(state.id) =~= ids.push(state.id));
    }
}

proof fn lemma_filter_keys<T>(
    items: Seq<T>,
    wanted: spec_fn(T) -> bool,
    key: spec_fn(T) -> Seq<char>,
)
    requires
        items.map_values(key).no_duplicates(),
    ensures
        items.filter(wanted).map_values(key).no_duplicates(),
    decreases items.len(),
{
    reveal(Seq::filter);
    if items.len() > 0 {
        let shorter = items.drop_last();
        let all = items.map_values(key);
        assert forall|i: int, j: int|
            0 <= i < j < shorter.len() implies shorter.map_values(key)[i] != shorter.map_values(
            key,
        )[j] by {
            assert(all[i] == shorter.map_values(key)[i]);
            assert(all[j] == shorter.map_values(key)[j]);
        }
        lemma_filter_keys(shorter, wanted, key);
        let kept = shorter.filter(wanted);
        if wanted(items.last()) {
            assert(items.filter(wanted) == kept.push(items.last()));
            let keys = items.filter(wanted).map_values(key);
            assert(keys =~= kept.map_values(key).push(key(items.last())));
            assert forall|i: int| 0 <= i < kept.len() implies key(#[trigger] kept[i]) != key(
                items.last(),
            ) by {
                shorter.lemma_filter_contains_rev(wanted, kept[i]);
                let k = choose|k: int| 0 <= k < shorter.len() && shorter[k] == kept[i];
                assert(all[k] == key(kept[i]));
                assert(all[items.len() - 1] == key(items.last()));
            }
            assert forall|i: int, j: int| 0 <= i < j < keys.len() implies keys[i] != keys[j] by {
                if j < kept.len() {
                    assert(kept.map_values(key)[i] == keys[i]);
                    assert(kept.map_values(key)[j] == keys[j]);
                } else {
                    assert(keys[i] == key(kept[i]));
                }
            }
        }
    }
}

proof fn lemma_one_entry(
    data: ActivityDataModel,
    source: CalendarSourceConfigModel,
    result: SourceResultModel,
)
    requires
        data.wf(),
    ensures
        with_source(data, source, result).wf(),
{
    match result {
        SourceResultModel::Loaded(events) => {
            lemma_event_ids(data.events_by_source, source.id, events);
            lemma_state_ids(data.source_states, source_state(source, events.len(), None));
        },
        SourceResultModel::Failed(error) => {
            lemma_state_ids(
                data.source_states,
                source_state(source, kept_count(data.events_by_source, source.id), Some(error)),
            );
        },
    }
}

proof fn lemma_one_entry_of_configured(data: ActivityDataModel, config: ActivityConfigModel)
    requires
        data.wf(),
    ensures
        with_config(data, config).wf(),
{
    lemma_filter_keys(
        data.events_by_source,
        |entry: SourceEventsModel| is_configured(config, entry.source_id),
        |entry: SourceEventsModel| entry.source_id,
    );
    lemma_filter_keys(
        data.source_states,
        |entry: ActivitySourceStateModel| is_configured(config, entry.id),
        |entry: ActivitySourceStateModel| entry.id,
    );
}

proof fn lemma_one_entry_each(
    data: ActivityDataModel,
    sources: Seq<CalendarSourceConfigModel>,
    results: Seq<SourceResultModel>,
)
    requires
        data.wf(),
    ensures
        with_sources(data, sources, results).wf(),
    decreases sources.len(),
{
    if sources.len() > 0 {
        lemma_one_entry_each(data, sources.drop_last(), results.drop_last());
        lemma_one_entry(
            with_sources(data, sources.drop_last(), results.drop_last()),
            sources.last(),
            results.last(),
        );
    }
}

/// A source never has two entries: none has at the start, and a refresh leaves
/// it so, whatever is configured and whatever reading the sources gave.
pub proof fn sources_have_one_entry_each(
    data: ActivityDataModel,
    config: ActivityConfigModel,
    results: Seq<SourceResultModel>,
)
    requires
        data.wf(),
    ensures
        ActivityDataModel::initial().wf(),
        refreshed(data, config, results).wf(),
{
    lemma_one_entry_of_configured(data, config);
    lemma_one_entry_each(with_config(data, config), config.calendar_sources, results);
}

fn find_events(entries: &Vec<SourceEvents>, id: &str) -> (at: usize)
    ensures
        at <= entries@.len(),
        forall|i: int| 0 <= i < at ==> (#[trigger] entries@[i]).source_id@ != id@,
        at < entries@.len() ==> entries@[at as int].source_id@ == id@,
{
    let mut at: usize = 0;
    while at < entries.len()
        invariant
            at <= entries@.len(),
            forall|i: int| 0 <= i < at ==> (#[trigger] entries@[i]).source_id@ != id@,
        decreases entries@.len() - at,
    {
        if same_text(entries[at].source_id.as_str(), id) {
            return at;
        }
        at = at + 1;
    }
    at
}

pub(crate) fn find_state(entries: &Vec<ActivitySourceState>, id: &str) -> (at: usize)
    ensures
        at <= entries@.len(),
        forall|i: int| 0 <= i < at ==> (#[trigger] entries@[i]).id@ != id@,
        at < entries@.len() ==> entries@[at as int].id@ == id@,
{
    let mut at: usize = 0;
    while at < entries.len()
        invariant
            at <= entries@.len(),
            forall|i: int| 0 <= i < at ==> (#[trigger] entries@[i]).id@ != id@,
        decreases entries@.len() - at,
    {
        if same_text(entries[at].id.as_str(), id) {
            return at;
        }
        at = at + 1;
    }
    at
}

proof fn lemma_events_at(
    entries: Seq<SourceEventsModel>,
    id: Seq<char>,
    events: Seq<ActivityEventModel>,
    at: int,
)
    requires
        0 <= at <= entries.len(),
        forall|i: int| 0 <= i < at ==> (#[trigger] entries[i]).source_id != id,
        at < entries.len() ==> entries[at].source_id == id,
    ensures
        events_of(entries, id) == if at < entries.len() {
            Some(entries[at].events)
        } else {
            None
        },
        with_events(entries, id, events) == if at < entries.len() {
            entries.update(at, SourceEventsModel { source_id: id, events })
        } else {
            entries.push(SourceEventsModel { source_id: id, events })
        },
    decreases entries.len(),
{
    let new = SourceEventsModel { source_id: id, events };
    if entries.len() > 0 && at > 0 {
        let rest = entries.skip(1);
        assert forall|i: int| 0 <= i < at - 1 implies (#[trigger] rest[i]).source_id != id by {
            assert(rest[i] == entries[i + 1]);
        }
        lemma_events_at(rest, id, events, at - 1);
        if at < entries.len() {
            assert(seq![entries[0]] + rest.update(at - 1, new) =~= entries.update(at, new));
        } else {
            assert(seq![entries[0]] + rest.push(new) =~= entries.push(new));
        }
    } else if entries.len() > 0 {
        assert(seq![new] + entries.skip(1) =~= entries.update(0, new));
    } else {
        assert(seq![new] =~= entries.push(new));
    }
}

pub(crate) proof fn lemma_state_at(
    entries: Seq<ActivitySourceStateModel>,
    new: ActivitySourceStateModel,
    at: int,
)
    requires
        0 <= at <= entries.len(),
        forall|i: int| 0 <= i < at ==> (#[trigger] entries[i]).id != new.id,
        at < entries.len() ==> entries[at].id == new.id,
    ensures
        state_of(entries, new.id) == if at < entries.len() {
            Some(entries[at])
        } else {
            None
        },
        with_state(entries, new) == if at < entries.len() {
            entries.update(at, new)
        } else {
            entries.push(new)
        },
    decreases entries.len(),
{
    if entries.len() > 0 && at > 0 {
        let rest = entries.skip(1);
        assert forall|i: int| 0 <= i < at - 1 implies (#[trigger] rest[i]).id != new.id by {
            assert(rest[i] == entries[i + 1]);
        }
        lemma_state_at(rest, new, at - 1);
        if at < entries.len() {
            assert(seq![entries[0]] + rest.update(at - 1, new) =~= entries.update(at, new));
        } else {
            assert(seq![entries[0]] + rest.push(new) =~= entries.push(new));
        }
    } else if entries.len() > 0 {
        assert(seq![new] + entries.skip(1) =~= entries.update(0, new));
    } else {
        assert(seq![new] =~= entries.push(new));
    }
}

fn put_events(entries: &mut Vec<SourceEvents>, id: &str, events: Vec<ActivityEvent>)
    ensures
        final(entries).deep_view() == with_events(
            old(entries).deep_view(),
            id@,
            events.deep_view(),
        ),
{
    let at: usize = find_events(entries, id);
    let ghost before = entries.deep_view();
    let ghost given = events.deep_view();
    proof {
        assert forall|i: int| 0 <= i < at implies (#[trigger] before[i]).source_id != id@ by {
            assert(before[i] == entries@[i].deep_view());
        }
        lemma_events_at(before, id@, given, at as int);
    }
    let entry = SourceEvents { source_id: id.to_string(), events };
    if at < entries.len() {
        entries.set(at, entry);
        assert(entries.deep_view() =~= before.update(at as int, entry.deep_view()));
    } else {
        entries.push(entry);
        assert(entries.deep_view() =~= before.push(entry.deep_view()));
    }
}

fn put_state(entries: &mut Vec<ActivitySourceState>, state: ActivitySourceState)
    ensures
        final(entries).deep_view() == with_state(old(entries).deep_view(), state.deep_view()),
{
    let at: usize = find_state(entries, state.id.as_str());
    let ghost before = entries.deep_view();
    proof {
        assert forall|i: int| 0 <= i < at implies (#[trigger] before[i]).id != state.id@ by {
            assert(before[i] == entries@[i].deep_view());
        }
        lemma_state_at(before, state.deep_view(), at as int);
    }
    if at < entries.len() {
        entries.set(at, state);
        assert(entries.deep_view() =~= before.update(at as int, state.deep_view()));
    } else {
        entries.push(state);
        assert(entries.deep_view() =~= before.push(state.deep_view()));
    }
}

/// The number of events that are kept for a source.
pub open spec fn kept_count(entries: Seq<SourceEventsModel>, id: Seq<char>) -> nat {
    match events_of(entries, id) {
        Some(events) => events.len(),
        None => 0,
    }
}

fn count_events(entries: &Vec<SourceEvents>, id: &str) -> (count: usize)
    ensures
        count == kept_count(entries.deep_view(), id@),
{
    let at: usize = find_events(entries, id);
    let ghost all = entries.deep_view();
    proof {
        assert forall|i: int| 0 <= i < at implies (#[trigger] all[i]).source_id != id@ by {
            assert(all[i] == entries@[i].deep_view());
        }
        lemma_events_at(all, id@, Seq::empty(), at as int);
    }
    if at < entries.len() {
        assert(all[at as int].events.len() == entries@[at as int].events@.len());
        entries[at].events.len()
    } else {
        0
    }
}

/// A count as an unsigned number of 32 bits, the greatest where it is too great.
pub open spec fn count_u32(count: nat) -> u32 {
    if count > u32::MAX {
        u32::MAX
    } else {
        count as u32
    }
}

/// A count as an unsigned number of 32 bits, the greatest where it is too great.
pub fn bounded_count(count: usize) -> (bounded: u32)
    ensures
        bounded == count_u32(count as nat),
{
    if count > u32::MAX as usize {
        u32::MAX
    } else {
        count as u32
    }
}

// Refresh

/// What reading a source gave.
#[derive(Debug, PartialEq, Eq)]
pub enum SourceResult {
    /// The source gave these events.
    Loaded(Vec<ActivityEvent>),
    /// The source could not be read, for this reason.
    Failed(String),
}

/// What a [`SourceResult`] holds.
pub enum SourceResultModel {
    Loaded(Seq<ActivityEventModel>),
    Failed(Seq<char>),
}

impl DeepView for SourceResult {
    type V = SourceResultModel;

    open spec fn deep_view(&self) -> SourceResultModel {
        match self {
            SourceResult::Loaded(events) => SourceResultModel::Loaded(events.deep_view()),
            SourceResult::Failed(error) => SourceResultModel::Failed(error@),
        }
    }
}

/// The state of a source that was read.
pub open spec fn source_state(
    source: CalendarSourceConfigModel,
    count: nat,
    error: Option<Seq<char>>,
) -> ActivitySourceStateModel {
    ActivitySourceStateModel {
        id: source.id,
        name: shown_name(source),
        kind: source.kind,
        available: error is None,
        item_count: count_u32(count),
        error,
    }
}

/// What is known once a configuration took effect: sources that are no longer
/// configured are forgotten.
pub open spec fn with_config(data: ActivityDataModel, config: ActivityConfigModel)
    -> ActivityDataModel {
    ActivityDataModel {
        config,
        events_by_source: data.events_by_source.filter(
            |entry: SourceEventsModel| is_configured(config, entry.source_id),
        ),
        source_states: data.source_states.filter(
            |entry: ActivitySourceStateModel| is_configured(config, entry.id),
        ),
        todos: data.todos,
    }
}

/// What is known once a source was read. A source that could not be read keeps
/// the events that it had.
pub open spec fn with_source(
    data: ActivityDataModel,
    source: CalendarSourceConfigModel,
    result: SourceResultModel,
) -> ActivityDataModel {
    match result {
        SourceResultModel::Loaded(events) => ActivityDataModel {
            events_by_source: with_events(data.events_by_source, source.id, events),
            source_states: with_state(
                data.source_states,
                source_state(source, events.len(), None),
            ),
            ..data
        },
        SourceResultModel::Failed(error) => ActivityDataModel {
            source_states: with_state(
                data.source_states,
                source_state(source, kept_count(data.events_by_source, source.id), Some(error)),
            ),
            ..data
        },
    }
}

/// What is known once so many sources were read.
pub open spec fn with_sources(
    data: ActivityDataModel,
    sources: Seq<CalendarSourceConfigModel>,
    results: Seq<SourceResultModel>,
) -> ActivityDataModel
    decreases sources.len(),
{
    if sources.len() == 0 {
        data
    } else {
        with_source(
            with_sources(data, sources.drop_last(), results.drop_last()),
            sources.last(),
            results.last(),
        )
    }
}

/// The first reason for which a source could not be read.
pub open spec fn first_failure(results: Seq<SourceResultModel>) -> Option<Seq<char>>
    decreases results.len(),
{
    if results.len() == 0 {
        None
    } else {
        match first_failure(results.drop_last()) {
            Some(error) => Some(error),
            None => match results.last() {
                SourceResultModel::Failed(error) => Some(error),
                SourceResultModel::Loaded(_) => None,
            },
        }
    }
}

/// What is known once a configuration took effect and its sources were read.
pub open spec fn refreshed(
    data: ActivityDataModel,
    config: ActivityConfigModel,
    results: Seq<SourceResultModel>,
) -> ActivityDataModel {
    with_sources(with_config(data, config), config.calendar_sources, results)
}

/// The summary while sources are being read.
pub open spec fn syncing_state(current: ActivityStateModel) -> ActivityStateModel {
    ActivityStateModel { available: true, syncing: true, ..current }
}

/// The summary while sources are being read.
pub fn begin_refresh(current: ActivityState) -> (state: ActivityState)
    ensures
        state.deep_view() == syncing_state(current.deep_view()),
{
    ActivityState { available: true, syncing: true, ..current }
}

pub(crate) fn name_to_show(source: &CalendarSourceConfig) -> (name: String)
    ensures
        name@ == shown_name(source.deep_view()),
{
    if is_empty(source.name.as_str()) {
        source.id.clone()
    } else {
        source.name.clone()
    }
}

fn configures(config: &ActivityConfig, id: &str) -> (found: bool)
    ensures
        found == is_configured(config.deep_view(), id@),
{
    let mut i: usize = 0;
    while i < config.calendar_sources.len()
        invariant
            i <= config.calendar_sources@.len(),
            forall|k: int|
                0 <= k < i ==> (#[trigger] config.deep_view().calendar_sources[k]).id != id@,
        decreases config.calendar_sources@.len() - i,
    {
        assert(config.deep_view().calendar_sources[i as int]
            == config.calendar_sources@[i as int].deep_view());
        if same_text(config.calendar_sources[i].id.as_str(), id) {
            return true;
        }
        i = i + 1;
    }
    false
}

fn configured_events(entries: &Vec<SourceEvents>, config: &ActivityConfig) -> (kept: Vec<
    SourceEvents,
>)
    ensures
        kept.deep_view() == entries.deep_view().filter(
            |entry: SourceEventsModel| is_configured(config.deep_view(), entry.source_id),
        ),
{
    let ghost wanted = |entry: SourceEventsModel|
        is_configured(config.deep_view(), entry.source_id);
    let ghost all = entries.deep_view();
    let mut kept: Vec<SourceEvents> = Vec::new();
    let mut i: usize = 0;
    proof {
        reveal(Seq::filter);
        assert(kept.deep_view() =~= all.take(0).filter(wanted));
    }
    while i < entries.len()
        invariant
            i <= entries@.len(),
            all == entries.deep_view(),
            wanted == (|entry: SourceEventsModel|
                is_configured(config.deep_view(), entry.source_id)),
            kept.deep_view() == all.take(i as int).filter(wanted),
        decreases entries@.len() - i,
    {
        reveal(Seq::filter);
        assert(all.take(i + 1).drop_last() =~= all.take(i as int));
        assert(all.take(i + 1).last() == entries@[i as int].deep_view());
        let ghost before = kept.deep_view();
        if configures(config, entries[i].source_id.as_str()) {
            kept.push(entries[i].copy());
            assert(kept.deep_view() =~= before.push(all[i as int]));
        }
        i = i + 1;
    }
    assert(all.take(i as int) =~= all);
    kept
}

fn configured_states(entries: &Vec<ActivitySourceState>, config: &ActivityConfig) -> (kept: Vec<
    ActivitySourceState,
>)
    ensures
        kept.deep_view() == entries.deep_view().filter(
            |entry: ActivitySourceStateModel| is_configured(config.deep_view(), entry.id),
        ),
{
    let ghost wanted = |entry: ActivitySourceStateModel|
        is_configured(config.deep_view(), entry.id);
    let ghost all = entries.deep_view();
    let mut kept: Vec<ActivitySourceState> = Vec::new();
    let mut i: usize = 0;
    proof {
        reveal(Seq::filter);
        assert(kept.deep_view() =~= all.take(0).filter(wanted));
    }
    while i < entries.len()
        invariant
            i <= entries@.len(),
            all == entries.deep_view(),
            wanted == (|entry: ActivitySourceStateModel|
                is_configured(config.deep_view(), entry.id)),
            kept.deep_view() == all.take(i as int).filter(wanted),
        decreases entries@.len() - i,
    {
        reveal(Seq::filter);
        assert(all.take(i + 1).drop_last() =~= all.take(i as int));
        assert(all.take(i + 1).last() == entries@[i as int].deep_view());
        let ghost before = kept.deep_view();
        if configures(config, entries[i].id.as_str()) {
            kept.push(entries[i].copy());
            assert(kept.deep_view() =~= before.push(all[i as int]));
        }
        i = i + 1;
    }
    assert(all.take(i as int) =~= all);
    kept
}

impl ActivityData {
    /// Lets a configuration take effect.
    pub fn apply_config(&mut self, config: &ActivityConfig)
        ensures
            final(self).deep_view() == with_config(old(self).deep_view(), config.deep_view()),
            old(self).deep_view().wf() ==> final(self).deep_view().wf(),
    {
        proof {
            if self.deep_view().wf() {
                lemma_one_entry_of_configured(self.deep_view(), config.deep_view());
            }
        }
        self.config = config.copy();
        self.events_by_source = configured_events(&self.events_by_source, config);
        self.source_states = configured_states(&self.source_states, config);
        assert(self.deep_view() =~= with_config(old(self).deep_view(), config.deep_view()));
    }

    /// Takes in what reading a source gave.
    pub fn record_source(&mut self, source: &CalendarSourceConfig, result: SourceResult)
        ensures
            final(self).deep_view() == with_source(
                old(self).deep_view(),
                source.deep_view(),
                result.deep_view(),
            ),
            old(self).deep_view().wf() ==> final(self).deep_view().wf(),
    {
        proof {
            if self.deep_view().wf() {
                lemma_one_entry(self.deep_view(), source.deep_view(), result.deep_view());
            }
        }
        match result {
            SourceResult::Loaded(events) => {
                let state = ActivitySourceState {
                    id: source.id.clone(),
                    name: name_to_show(source),
                    kind: source.kind.clone(),
                    available: true,
                    item_count: bounded_count(events.len()),
                    error: None,
                };
                put_state(&mut self.source_states, state);
                put_events(&mut self.events_by_source, source.id.as_str(), events);
            },
            SourceResult::Failed(error) => {
                let kept: usize = count_events(&self.events_by_source, source.id.as_str());
                let state = ActivitySourceState {
                    id: source.id.clone(),
                    name: name_to_show(source),
                    kind: source.kind.clone(),
                    available: false,
                    item_count: bounded_count(kept),
                    error: Some(error),
                };
                put_state(&mut self.source_states, state);
            },
        }
    }

    /// Lets a configuration take effect and takes in what reading each of its
    /// sources gave. Gives the first reason for which one could not be read.
    pub fn refresh(&mut self, config: &ActivityConfig, results: Vec<SourceResult>) -> (error: Option<
        String,
    >)
        requires
            results@.len() == config.calendar_sources@.len(),
        ensures
            final(self).deep_view() == refreshed(
                old(self).deep_view(),
                config.deep_view(),
                results.deep_view(),
            ),
            error.deep_view() == first_failure(results.deep_view()),
            old(self).deep_view().wf() ==> final(self).deep_view().wf(),
    {
        proof {
            if self.deep_view().wf() {
                sources_have_one_entry_each(
                    self.deep_view(),
                    config.deep_view(),
                    results.deep_view(),
                );
            }
        }
        let ghost sources = config.deep_view().calendar_sources;
        let ghost given = results.deep_view();
        let ghost start = with_config(self.deep_view(), config.deep_view());
        self.apply_config(config);
        let count: usize = results.len();
        let mut rest = results;
        let mut error: Option<String> = None;
        let mut i: usize = 0;
        assert(sources.take(0) =~= Seq::empty());
        assert(given.take(0) =~= Seq::empty());
        while i < count
            invariant
                i <= count == config.calendar_sources@.len(),
                sources == config.deep_view().calendar_sources,
                given.len() == count,
                rest@.len() == count - i,
                forall|k: int| 0 <= k < rest@.len() ==> (#[trigger] rest@[k]).deep_view() == given[k
                    + i],
                self.deep_view() == with_sources(
                    start,
                    sources.take(i as int),
                    given.take(i as int),
                ),
                error.deep_view() == first_failure(given.take(i as int)),
            decreases count - i,
        {
            proof {
                assert(sources.take(i + 1).drop_last() =~= sources.take(i as int));
                assert(given.take(i + 1).drop_last() =~= given.take(i as int));
                assert(sources.take(i + 1).last() == config.calendar_sources@[i as int].deep_view());
                assert(rest@[0].deep_view() == given[i as int]);
            }
            let result = rest.remove(0);
            if error.is_none() {
                if let SourceResult::Failed(reason) = &result {
                    error = Some(reason.clone());
                }
            }
            self.record_source(&config.calendar_sources[i], result);
            i = i + 1;
        }
        assert(sources.take(i as int) =~= sources);
        assert(given.take(i as int) =~= given);
        error
    }
}

proof fn lemma_configured_events(
    entries: Seq<SourceEventsModel>,
    config: ActivityConfigModel,
    id: Seq<char>,
)
    requires
        is_configured(config, id),
    ensures
        events_of(
            entries.filter(|entry: SourceEventsModel| is_configured(config, entry.source_id)),
            id,
        ) == events_of(entries, id),
    decreases entries.len(),
{
    reveal(Seq::filter);
    let wanted = |entry: SourceEventsModel| is_configured(config, entry.source_id);
    if entries.len() > 0 {
        let shorter = entries.drop_last();
        let last = entries.last();
        lemma_configured_events(shorter, config, id);
        assert(entries =~= shorter.push(last));
        lemma_events_behind(shorter, last, id);
        lemma_events_behind(shorter.filter(wanted), last, id);
    }
}

proof fn lemma_events_behind(
    entries: Seq<SourceEventsModel>,
    last: SourceEventsModel,
    id: Seq<char>,
)
    ensures
        events_of(entries.push(last), id) == match events_of(entries, id) {
            Some(events) => Some(events),
            None => if last.source_id == id {
                Some(last.events)
            } else {
                None
            },
        },
    decreases entries.len(),
{
    let longer = entries.push(last);
    if entries.len() > 0 {
        assert(longer.skip(1) =~= entries.skip(1).push(last));
        assert(longer[0] == entries[0]);
        lemma_events_behind(entries.skip(1), last, id);
    } else {
        assert(longer.skip(1).len() == 0);
        assert(events_of(longer.skip(1), id) is None);
    }
}

proof fn lemma_sources_events(
    data: ActivityDataModel,
    sources: Seq<CalendarSourceConfigModel>,
    results: Seq<SourceResultModel>,
    id: Seq<char>,
)
    requires
        sources.len() == results.len(),
        forall|i: int, j: int|
            0 <= i < j < sources.len() ==> #[trigger] sources[i].id != #[trigger] sources[j].id,
    ensures
        forall|i: int|
            0 <= i < sources.len() && (#[trigger] sources[i]).id == id ==> events_of(
                with_sources(data, sources, results).events_by_source,
                id,
            ) == match results[i] {
                SourceResultModel::Loaded(events) => Some(events),
                SourceResultModel::Failed(_) => events_of(data.events_by_source, id),
            },
        (forall|i: int| 0 <= i < sources.len() ==> (#[trigger] sources[i]).id != id) ==> events_of(
            with_sources(data, sources, results).events_by_source,
            id,
        ) == events_of(data.events_by_source, id),
    decreases sources.len(),
{
    if sources.len() > 0 {
        let shorter = sources.drop_last();
        let last = sources.last();
        let before = with_sources(data, shorter, results.drop_last());
        assert forall|i: int, j: int| 0 <= i < j < shorter.len() implies #[trigger] shorter[i].id
            != #[trigger] shorter[j].id by {
            assert(shorter[i] == sources[i] && shorter[j] == sources[j]);
        }
        lemma_sources_events(data, shorter, results.drop_last(), id);
        if let SourceResultModel::Loaded(events) = results.last() {
            other_sources_keep_events(before.events_by_source, last.id, events, id);
        }
        assert forall|i: int| 0 <= i < sources.len() && (#[trigger] sources[i]).id == id implies
            events_of(with_sources(data, sources, results).events_by_source, id)
            == match results[i] {
            SourceResultModel::Loaded(events) => Some(events),
            SourceResultModel::Failed(_) => events_of(data.events_by_source, id),
        } by {
            if i < shorter.len() {
                assert(shorter[i] == sources[i]);
                assert(sources[sources.len() - 1].id != id);
            } else {
                assert forall|k: int| 0 <= k < shorter.len() implies (#[trigger] shorter[k]).id
                    != id by {
                    assert(shorter[k] == sources[k]);
                }
            }
        }
        if forall|i: int| 0 <= i < sources.len() ==> (#[trigger] sources[i]).id != id {
            assert(sources[sources.len() - 1].id != id);
            assert forall|k: int| 0 <= k < shorter.len() implies (#[trigger] shorter[k]).id
                != id by {
                assert(shorter[k] == sources[k]);
            }
        }
    }
}

/// After a refresh a source has the events that it gave. One that could not be
/// read still has the events that it had before.
pub proof fn failed_refresh_keeps_events(
    data: ActivityDataModel,
    config: ActivityConfigModel,
    results: Seq<SourceResultModel>,
    i: int,
)
    requires
        results.len() == config.calendar_sources.len(),
        forall|i: int, j: int|
            0 <= i < j < config.calendar_sources.len() ==> #[trigger] config.calendar_sources[i].id
                != #[trigger] config.calendar_sources[j].id,
        0 <= i < results.len(),
    ensures
        events_of(
            refreshed(data, config, results).events_by_source,
            config.calendar_sources[i].id,
        ) == match results[i] {
            SourceResultModel::Loaded(events) => Some(events),
            SourceResultModel::Failed(_) => events_of(
                data.events_by_source,
                config.calendar_sources[i].id,
            ),
        },
{
    let id = config.calendar_sources[i].id;
    lemma_configured_events(data.events_by_source, config, id);
    lemma_sources_events(with_config(data, config), config.calendar_sources, results, id);
}

// Laws

proof fn lemma_state_kept(
    entries: Seq<ActivitySourceStateModel>,
    state: ActivitySourceStateModel,
    other: Seq<char>,
)
    ensures
        state_of(with_state(entries, state), other) == if other == state.id {
            Some(state)
        } else {
            state_of(entries, other)
        },
    decreases entries.len(),
{
    let result = with_state(entries, state);
    if entries.len() > 0 {
        assert((seq![state] + entries.skip(1)).skip(1) =~= entries.skip(1));
        if entries[0].id != state.id {
            lemma_state_kept(entries.skip(1), state, other);
            assert(result.skip(1) =~= with_state(entries.skip(1), state));
        }
    } else {
        assert(result.skip(1).len() == 0);
        assert(state_of(result.skip(1), other) is None);
    }
}

/// A source that was read is available, with as many items as it gave and no
/// error. One that could not be read is not, tells why, and counts the events
/// that are kept from before. Either way it is told by its own id, name and
/// kind, and the other sources, the tasks and the settings stay as they were.
pub proof fn sources_tell_how_reading_went(
    data: ActivityDataModel,
    source: CalendarSourceConfigModel,
    result: SourceResultModel,
    other: Seq<char>,
)
    requires
        result matches SourceResultModel::Loaded(events) ==> events.len() <= u32::MAX,
    ensures
        ({
            let after = with_source(data, source, result);
            let state = state_of(after.source_states, source.id);
            &&& state is Some
            &&& state->0.id == source.id
            &&& state->0.kind == source.kind
            &&& source.name.len() > 0 ==> state->0.name == source.name
            &&& source.name.len() == 0 ==> state->0.name == source.id
            &&& result matches SourceResultModel::Loaded(events) ==> {
                &&& state->0.available
                &&& state->0.error is None
                &&& state->0.item_count == events.len()
                &&& events_of(after.events_by_source, source.id) == Some(events)
            }
            &&& result matches SourceResultModel::Failed(error) ==> {
                &&& !state->0.available
                &&& state->0.error == Some(error)
                &&& after.events_by_source == data.events_by_source
                &&& events_of(data.events_by_source, source.id) matches Some(kept)
                    ==> kept.len() <= u32::MAX ==> state->0.item_count == kept.len()
                &&& events_of(data.events_by_source, source.id) is None ==> state->0.item_count == 0
            }
            &&& other != source.id ==> state_of(after.source_states, other) == state_of(
                data.source_states,
                other,
            ) && events_of(after.events_by_source, other) == events_of(data.events_by_source, other)
            &&& after.todos == data.todos
            &&& after.config == data.config
        }),
{
    match result {
        SourceResultModel::Loaded(events) => {
            lemma_state_kept(data.source_states, source_state(source, events.len(), None), source.id);
            lemma_state_kept(data.source_states, source_state(source, events.len(), None), other);
            other_sources_keep_events(data.events_by_source, source.id, events, source.id);
            other_sources_keep_events(data.events_by_source, source.id, events, other);
        },
        SourceResultModel::Failed(error) => {
            let state = source_state(
                source,
                kept_count(data.events_by_source, source.id),
                Some(error),
            );
            lemma_state_kept(data.source_states, state, source.id);
            lemma_state_kept(data.source_states, state, other);
        },
    }
}

/// New settings drop what is kept of the sources that they no longer name, and
/// keep what they do, and all tasks.
pub proof fn new_settings_keep_named_sources(
    data: ActivityDataModel,
    config: ActivityConfigModel,
    entry: SourceEventsModel,
    state: ActivitySourceStateModel,
)
    ensures
        ({
            let after = with_config(data, config);
            &&& after.config == config
            &&& after.todos == data.todos
            &&& after.events_by_source.contains(entry) <==> data.events_by_source.contains(entry)
                && exists|i: int|
                0 <= i < config.calendar_sources.len() && (
                #[trigger] config.calendar_sources[i]).id == entry.source_id
            &&& after.source_states.contains(state) <==> data.source_states.contains(state)
                && exists|i: int|
                0 <= i < config.calendar_sources.len() && (
                #[trigger] config.calendar_sources[i]).id == state.id
        }),
{
    lemma_filter_holds(
        data.events_by_source,
        |entry: SourceEventsModel| is_configured(config, entry.source_id),
        entry,
    );
    lemma_filter_holds(
        data.source_states,
        |entry: ActivitySourceStateModel| is_configured(config, entry.id),
        state,
    );
}

proof fn lemma_filter_holds<T>(items: Seq<T>, wanted: spec_fn(T) -> bool, item: T)
    ensures
        items.filter(wanted).contains(item) <==> items.contains(item) && wanted(item),
{
    let kept = items.filter(wanted);
    if kept.contains(item) {
        let k = choose|k: int| 0 <= k < kept.len() && kept[k] == item;
        items.lemma_filter_pred(wanted, k);
        items.lemma_filter_contains_rev(wanted, item);
    }
    if items.contains(item) && wanted(item) {
        let k = choose|k: int| 0 <= k < items.len() && items[k] == item;
        items.lemma_filter_contains(wanted, k);
    }
}

/// The failure that is told of a refresh is the first; there is none if and only
/// if every source could be read.
pub proof fn first_failure_is_told(results: Seq<SourceResultModel>)
    ensures
        first_failure(results) is None <==> forall|i: int|
            0 <= i < results.len() ==> (#[trigger] results[i]) is Loaded,
        first_failure(results) matches Some(error) ==> exists|i: int|
            0 <= i < results.len() && #[trigger] results[i] == SourceResultModel::Failed(error)
                && forall|j: int| 0 <= j < i ==> (#[trigger] results[j]) is Loaded,
    decreases results.len(),
{
    if results.len() > 0 {
        let shorter = results.drop_last();
        first_failure_is_told(shorter);
        let last = results.len() - 1;
        assert forall|i: int| 0 <= i < shorter.len() implies #[trigger] shorter[i]
            == results[i] by {}
        if first_failure(shorter) is Some {
            let error = first_failure(shorter)->0;
            let k = choose|i: int|
                0 <= i < shorter.len() && #[trigger] shorter[i] == SourceResultModel::Failed(error)
                    && forall|j: int| 0 <= j < i ==> (#[trigger] shorter[j]) is Loaded;
            assert(results[k] == SourceResultModel::Failed(error));
            assert forall|j: int| 0 <= j < k implies (#[trigger] results[j]) is Loaded by {
                assert(shorter[j] is Loaded);
            }
        } else {
            assert forall|j: int| 0 <= j < last implies (#[trigger] results[j]) is Loaded by {
                assert(shorter[j] is Loaded);
            }
            assert(results[last] == results.last());
        }
    }
}

/// While a refresh runs nothing else changes of what is shown.
pub proof fn refreshing_shows_the_rest_unchanged(current: ActivityStateModel)
    ensures
        ({
            let state = syncing_state(current);
            &&& state.syncing && state.available
            &&& state.event_count == current.event_count
            &&& state.incomplete_todo_count == current.incomplete_todo_count
            &&& state.next_event == current.next_event
            &&& state.sources == current.sources
            &&& state.world_clocks == current.world_clocks
            &&& state.weather == current.weather
            &&& state.weather_locations == current.weather_locations
            &&& state.error == current.error
        }),
{
}

/// A count is shown as it is, up to the greatest that can be shown.
pub proof fn counts_are_shown(count: nat)
    ensures
        count <= u32::MAX ==> count_u32(count) == count,
        count > u32::MAX ==> count_u32(count) == u32::MAX,
{
}

} // verus!
