//! The compact summary of all sources, tasks, and clocks.

use vstd::prelude::*;

use crate::activity::calendar::{chrono_holds, is_timezone, zone_at, zone_time};
use crate::activity::config::{
    CalendarSourceConfig, CalendarSourceConfigModel, WorldClockConfig, WorldClockConfigModel,
};
use crate::activity::model::{
    ActivityEvent, ActivityEventModel, ActivitySourceState, ActivitySourceStateModel,
    ActivityState, ActivityStateModel, TodoItem, TodoItemModel, WorldClockState,
    WorldClockStateModel,
};
use crate::activity::range::{all_events, merged_events};
use crate::activity::service::{
    bounded_count, count_u32, find_state, lemma_state_at, name_to_show, shown_name, state_of,
    ActivityData, ActivityDataModel,
};
use crate::record::Record;
use crate::sorting::{sorted, sorting_orders_and_keeps_items, stable_sort, Order};
use crate::text::{
    after_last, chars_after_last, chars_of, end_stands_behind_last_character, is_empty, replace_chars, replaced, text_of,
};
use crate::time::unix_ms_i64;

verus! {

/// Events by start.
pub struct StartOrder;

impl Order<ActivityEvent> for StartOrder {
    open spec fn before(a: ActivityEventModel, b: ActivityEventModel) -> bool {
        a.start_unix_ms < b.start_unix_ms
    }

    proof fn asymmetric(a: ActivityEventModel, b: ActivityEventModel) {
    }

    proof fn weak(a: ActivityEventModel, b: ActivityEventModel, c: ActivityEventModel) {
    }

    fn is_before(a: &ActivityEvent, b: &ActivityEvent) -> (result: bool) {
        a.start_unix_ms < b.start_unix_ms
    }
}

/// The first of the events that has not ended.
pub open spec fn first_pending(events: Seq<ActivityEventModel>, now: i64) -> Option<
    ActivityEventModel,
>
    decreases events.len(),
{
    if events.len() == 0 {
        None
    } else if events[0].end_unix_ms >= now {
        Some(events[0])
    } else {
        first_pending(events.skip(1), now)
    }
}

/// The state to show for a source: what is known of it, or nothing yet.
pub open spec fn shown_state(
    states: Seq<ActivitySourceStateModel>,
    source: CalendarSourceConfigModel,
) -> ActivitySourceStateModel {
    match state_of(states, source.id) {
        Some(state) => state,
        None => ActivitySourceStateModel {
            id: source.id,
            name: shown_name(source),
            kind: source.kind,
            ..ActivitySourceStateModel::initial()
        },
    }
}

/// The states to show for all sources.
pub open spec fn shown_states(data: ActivityDataModel) -> Seq<ActivitySourceStateModel> {
    data.config.calendar_sources.map_values(
        |source: CalendarSourceConfigModel| shown_state(data.source_states, source),
    )
}

/// The first error among states of sources.
pub open spec fn first_error(states: Seq<ActivitySourceStateModel>) -> Option<Seq<char>>
    decreases states.len(),
{
    if states.len() == 0 {
        None
    } else if states[0].error is Some {
        states[0].error
    } else {
        first_error(states.skip(1))
    }
}

/// How many tasks are not done.
pub open spec fn open_count(todos: Seq<TodoItemModel>) -> nat
    decreases todos.len(),
{
    if todos.len() == 0 {
        0
    } else {
        open_count(todos.drop_last()) + if todos.last().completed {
            0nat
        } else {
            1nat
        }
    }
}

/// The summary of what is known, given the clocks at that time. The weather is
/// that of the summary before.
pub open spec fn summary_of(
    data: ActivityDataModel,
    previous: ActivityStateModel,
    clocks: Seq<WorldClockStateModel>,
    now: i64,
    error: Option<Seq<char>>,
    syncing: bool,
) -> ActivityStateModel {
    let events = sorted::<ActivityEvent, StartOrder>(all_events(data.events_by_source));
    let sources = shown_states(data);
    ActivityStateModel {
        available: true,
        syncing,
        event_count: count_u32(events.len()),
        incomplete_todo_count: count_u32(open_count(data.todos)),
        next_event: first_pending(events, now),
        sources,
        world_clocks: clocks,
        weather: previous.weather,
        weather_locations: previous.weather_locations,
        error: if error is Some {
            error
        } else {
            first_error(sources)
        },
    }
}

fn find_pending(events: &Vec<ActivityEvent>, now: i64) -> (event: Option<ActivityEvent>)
    ensures
        event.deep_view() == first_pending(events.deep_view(), now),
{
    let ghost all = events.deep_view();
    let mut i: usize = 0;
    assert(all.skip(0) =~= all);
    while i < events.len()
        invariant
            i <= events@.len(),
            all == events.deep_view(),
            first_pending(all, now) == first_pending(all.skip(i as int), now),
        decreases events@.len() - i,
    {
        assert(all.skip(i as int)[0] == events@[i as int].deep_view());
        if events[i].end_unix_ms >= now {
            return Some(events[i].copy());
        }
        assert(all.skip(i as int).skip(1) =~= all.skip(i + 1));
        i = i + 1;
    }
    None
}

fn find_error(states: &Vec<ActivitySourceState>) -> (error: Option<String>)
    ensures
        error.deep_view() == first_error(states.deep_view()),
{
    let ghost all = states.deep_view();
    let mut i: usize = 0;
    assert(all.skip(0) =~= all);
    while i < states.len()
        invariant
            i <= states@.len(),
            all == states.deep_view(),
            first_error(all) == first_error(all.skip(i as int)),
        decreases states@.len() - i,
    {
        assert(all.skip(i as int)[0] == states@[i as int].deep_view());
        if states[i].error.is_some() {
            return states[i].error.copy();
        }
        assert(all.skip(i as int).skip(1) =~= all.skip(i + 1));
        i = i + 1;
    }
    None
}

fn count_open(todos: &Vec<TodoItem>) -> (count: usize)
    ensures
        count == open_count(todos.deep_view()),
{
    let ghost all = todos.deep_view();
    let mut count: usize = 0;
    let mut i: usize = 0;
    assert(all.take(0) =~= Seq::<TodoItemModel>::empty());
    while i < todos.len()
        invariant
            count <= i <= todos@.len(),
            all == todos.deep_view(),
            count == open_count(all.take(i as int)),
        decreases todos@.len() - i,
    {
        assert(all.take(i + 1).drop_last() =~= all.take(i as int));
        assert(all.take(i + 1).last() == todos@[i as int].deep_view());
        if !todos[i].completed {
            count = count + 1;
        }
        i = i + 1;
    }
    assert(all.take(i as int) =~= all);
    count
}

fn state_to_show(states: &Vec<ActivitySourceState>, source: &CalendarSourceConfig) -> (state:
    ActivitySourceState)
    ensures
        state.deep_view() == shown_state(states.deep_view(), source.deep_view()),
{
    let at: usize = find_state(states, source.id.as_str());
    let fresh = ActivitySourceState {
        id: source.id.clone(),
        name: name_to_show(source),
        kind: source.kind.clone(),
        ..ActivitySourceState::default()
    };
    proof {
        let all = states.deep_view();
        assert forall|i: int| 0 <= i < at implies (#[trigger] all[i]).id != source.id@ by {
            assert(all[i] == states@[i].deep_view());
        }
        lemma_state_at(all, fresh.deep_view(), at as int);
    }
    if at < states.len() {
        states[at].copy()
    } else {
        fresh
    }
}

fn states_to_show(data: &ActivityData) -> (states: Vec<ActivitySourceState>)
    ensures
        states.deep_view() == shown_states(data.deep_view()),
{
    let sources = &data.config.calendar_sources;
    let mut states: Vec<ActivitySourceState> = Vec::new();
    let mut i: usize = 0;
    while i < sources.len()
        invariant
            i <= sources@.len(),
            *sources == data.config.calendar_sources,
            states@.len() == i,
            forall|k: int|
                0 <= k < i ==> (#[trigger] states@[k]).deep_view() == shown_state(
                    data.deep_view().source_states,
                    sources@[k].deep_view(),
                ),
        decreases sources@.len() - i,
    {
        states.push(state_to_show(&data.source_states, &sources[i]));
        i = i + 1;
    }
    assert(states.deep_view() =~= shown_states(data.deep_view()));
    states
}

impl ActivityData {
    /// The summary to publish, given the clocks at that time.
    pub fn summary(
        &self,
        previous: &ActivityState,
        world_clocks: Vec<WorldClockState>,
        now: i64,
        error: Option<String>,
        syncing: bool,
    ) -> (state: ActivityState)
        ensures
            state.deep_view() == summary_of(
                self.deep_view(),
                previous.deep_view(),
                world_clocks.deep_view(),
                now,
                error.deep_view(),
                syncing,
            ),
    {
        let events = stable_sort::<ActivityEvent, StartOrder>(merged_events(&self.events_by_source));
        let next_event = find_pending(&events, now);
        let sources = states_to_show(self);
        let error = if error.is_some() {
            error
        } else {
            find_error(&sources)
        };
        assert(events.deep_view().len() == events@.len());
        ActivityState {
            available: true,
            syncing,
            event_count: bounded_count(events.len()),
            incomplete_todo_count: bounded_count(count_open(&self.todos)),
            next_event,
            sources,
            world_clocks,
            weather: previous.weather.copy(),
            weather_locations: previous.weather_locations.copy(),
            error,
        }
    }
}

// World clocks

/// The city in the name of a time zone.
pub open spec fn zone_city(timezone: Seq<char>) -> Seq<char> {
    replaced(after_last(timezone, '/'), '_', ' ')
}

/// A clock, given the abbreviation and the offset of its zone at that time.
pub open spec fn clock_of(
    timezone: Seq<char>,
    label: Seq<char>,
    abbreviation: Seq<char>,
    utc_offset_seconds: i32,
) -> WorldClockStateModel {
    WorldClockStateModel {
        timezone,
        label: if label.len() == 0 {
            zone_city(timezone)
        } else {
            label
        },
        city: zone_city(timezone),
        abbreviation,
        utc_offset_seconds,
    }
}

/// The city in the name of a time zone.
pub fn city_of(timezone: &str) -> (city: String)
    ensures
        city@ == zone_city(timezone@),
{
    text_of(&replace_chars(&chars_after_last(&chars_of(timezone), '/'), '_', ' '))
}

/// A clock, given the abbreviation and the offset of its zone at that time.
pub fn clock_at(timezone: &str, label: &str, abbreviation: String, utc_offset_seconds: i32) -> (clock:
    WorldClockState)
    ensures
        clock.deep_view() == clock_of(timezone@, label@, abbreviation@, utc_offset_seconds),
{
    let city = city_of(timezone);
    WorldClockState {
        timezone: timezone.to_string(),
        label: if is_empty(label) {
            city.clone()
        } else {
            label.to_string()
        },
        city,
        abbreviation,
        utc_offset_seconds,
    }
}

/// A clock in a time zone at a Unix time in milliseconds. The zone tells its
/// abbreviation and offset at that time.
pub open spec fn clock_at_time(timezone: Seq<char>, label: Seq<char>, millis: i64)
    -> WorldClockStateModel {
    let (abbreviation, offset) = zone_time(timezone, millis)->0;
    clock_of(timezone, label, abbreviation, offset)
}

/// A clock in a time zone at a Unix time in milliseconds. There is none in a
/// zone that is not known.
pub fn world_clock_at(timezone: &str, label: &str, millis: i64) -> (clock: Option<WorldClockState>)
    requires
        chrono_holds(millis as int),
    ensures
        match clock {
            Some(clock) => is_timezone(timezone@) && clock.deep_view() == clock_at_time(
                timezone@,
                label@,
                millis,
            ),
            None => !is_timezone(timezone@),
        },
{
    match zone_at(timezone, millis) {
        Some((abbreviation, offset)) => Some(clock_at(timezone, label, abbreviation, offset)),
        None => None,
    }
}

/// Whether a clock is the one that was configured, as it is at some time.
pub open spec fn is_clock_of(clock: WorldClockStateModel, config: WorldClockConfigModel) -> bool {
    exists|now: i64|
        chrono_holds(now as int) && clock == #[trigger] clock_at_time(
            config.timezone,
            config.label,
            now,
        )
}

/// A clock in a time zone now. There is none in a zone that is not known.
pub fn world_clock(timezone: &str, label: &str) -> (clock: Option<WorldClockState>)
    ensures
        match clock {
            Some(clock) => is_timezone(timezone@) && is_clock_of(
                clock.deep_view(),
                WorldClockConfigModel { timezone: timezone@, label: label@ },
            ),
            None => !is_timezone(timezone@),
        },
{
    let now: i64 = unix_ms_i64();
    let clock = world_clock_at(timezone, label, now);
    proof {
        let config = WorldClockConfigModel { timezone: timezone@, label: label@ };
        if clock is Some {
            assert(clock->0.deep_view() == clock_at_time(config.timezone, config.label, now));
        }
    }
    clock
}

/// The configured clocks in zones that are known.
pub open spec fn known_clocks(clocks: Seq<WorldClockConfigModel>) -> Seq<WorldClockConfigModel> {
    clocks.filter(|clock: WorldClockConfigModel| is_timezone(clock.timezone))
}

/// The configured clocks now, but for those in zones that are not known.
pub fn world_clocks(clocks: &Vec<WorldClockConfig>) -> (states: Vec<WorldClockState>)
    ensures
        states@.len() == known_clocks(clocks.deep_view()).len(),
        forall|i: int|
            0 <= i < states@.len() ==> is_clock_of(
                (#[trigger] states@[i]).deep_view(),
                known_clocks(clocks.deep_view())[i],
            ),
{
    let ghost all = clocks.deep_view();
    let mut states: Vec<WorldClockState> = Vec::new();
    let mut i: usize = 0;
    proof {
        reveal(Seq::filter);
        assert(known_clocks(all.take(0)) =~= Seq::<WorldClockConfigModel>::empty());
    }
    while i < clocks.len()
        invariant
            i <= clocks@.len(),
            all == clocks.deep_view(),
            states@.len() == known_clocks(all.take(i as int)).len(),
            forall|k: int|
                0 <= k < states@.len() ==> is_clock_of(
                    (#[trigger] states@[k]).deep_view(),
                    known_clocks(all.take(i as int))[k],
                ),
        decreases clocks@.len() - i,
    {
        reveal(Seq::filter);
        assert(all.take(i + 1).drop_last() =~= all.take(i as int));
        assert(all.take(i + 1).last() == clocks@[i as int].deep_view());
        if let Some(clock) = world_clock(clocks[i].timezone.as_str(), clocks[i].label.as_str()) {
            states.push(clock);
        }
        i = i + 1;
    }
    assert(all.take(i as int) =~= all);
    states
}

// Laws

proof fn lemma_first_pending(events: Seq<ActivityEventModel>, now: i64)
    ensures
        first_pending(events, now) is None <==> forall|i: int|
            0 <= i < events.len() ==> (#[trigger] events[i]).end_unix_ms < now,
        first_pending(events, now) matches Some(event) ==> exists|i: int|
            0 <= i < events.len() && #[trigger] events[i] == event && event.end_unix_ms >= now
                && forall|j: int| 0 <= j < i ==> (#[trigger] events[j]).end_unix_ms < now,
    decreases events.len(),
{
    if events.len() > 0 && events[0].end_unix_ms < now {
        let rest = events.skip(1);
        lemma_first_pending(rest, now);
        assert forall|i: int| 0 < i < events.len() implies #[trigger] events[i] == rest[i - 1] by {}
        if first_pending(rest, now) is Some {
            let event = first_pending(rest, now)->0;
            let k = choose|i: int|
                0 <= i < rest.len() && #[trigger] rest[i] == event && event.end_unix_ms >= now
                    && forall|j: int| 0 <= j < i ==> (#[trigger] rest[j]).end_unix_ms < now;
            assert(events[k + 1] == event);
            assert forall|j: int| 0 <= j < k + 1 implies (#[trigger] events[j]).end_unix_ms
                < now by {
                if j > 0 {
                    assert(rest[j - 1].end_unix_ms < now);
                }
            }
        } else {
            assert forall|i: int| 0 <= i < events.len() implies (#[trigger] events[i]).end_unix_ms
                < now by {
                if i > 0 {
                    assert(rest[i - 1].end_unix_ms < now);
                }
            }
        }
    }
}

/// The next event is one that has not ended; none that has not ended starts
/// before it. There is none if and only if all events have ended.
pub proof fn next_event_is_the_earliest_not_over(
    data: ActivityDataModel,
    previous: ActivityStateModel,
    clocks: Seq<WorldClockStateModel>,
    now: i64,
    error: Option<Seq<char>>,
    syncing: bool,
)
    ensures
        ({
            let next = summary_of(data, previous, clocks, now, error, syncing).next_event;
            let all = all_events(data.events_by_source);
            &&& next is None <==> forall|i: int|
                0 <= i < all.len() ==> (#[trigger] all[i]).end_unix_ms < now
            &&& next matches Some(event) ==> {
                &&& all.contains(event)
                &&& event.end_unix_ms >= now
                &&& forall|i: int|
                    0 <= i < all.len() && (#[trigger] all[i]).end_unix_ms >= now
                        ==> event.start_unix_ms <= all[i].start_unix_ms
            }
        }),
{
    let all = all_events(data.events_by_source);
    let events = sorted::<ActivityEvent, StartOrder>(all);
    sorting_orders_and_keeps_items::<ActivityEvent, StartOrder>(all);
    lemma_first_pending(events, now);
    if first_pending(events, now) is Some {
        let event = first_pending(events, now)->0;
        let at = choose|i: int|
            0 <= i < events.len() && #[trigger] events[i] == event && event.end_unix_ms >= now
                && forall|j: int| 0 <= j < i ==> (#[trigger] events[j]).end_unix_ms < now;
        lemma_sorted_holds(all, event);
        assert(events.contains(event));
        assert forall|i: int|
            0 <= i < all.len() && (#[trigger] all[i]).end_unix_ms >= now implies event.start_unix_ms
            <= all[i].start_unix_ms by {
            lemma_sorted_holds(all, all[i]);
            let k = choose|k: int| 0 <= k < events.len() && events[k] == all[i];
            assert(events[k] == all[i]);
            if k > at {
                assert(!StartOrder::before(events[k], events[at]));
            }
        }
        let m = choose|k: int| 0 <= k < all.len() && all[k] == event;
        assert(all[m].end_unix_ms >= now);
    } else {
        assert forall|i: int| 0 <= i < all.len() implies (#[trigger] all[i]).end_unix_ms < now by {
            lemma_sorted_holds(all, all[i]);
            let k = choose|k: int| 0 <= k < events.len() && events[k] == all[i];
            assert(events[k].end_unix_ms < now);
        }
    }
}

proof fn lemma_sorted_holds(events: Seq<ActivityEventModel>, event: ActivityEventModel)
    ensures
        events.contains(event) <==> sorted::<ActivityEvent, StartOrder>(events).contains(event),
{
    broadcast use vstd::seq_lib::group_to_multiset_ensures;

    let other = sorted::<ActivityEvent, StartOrder>(events);
    sorting_orders_and_keeps_items::<ActivityEvent, StartOrder>(events);
    assert(events.to_multiset().count(event) == other.to_multiset().count(event));
}

/// A task more is counted if and only if it is to be done.
pub proof fn tasks_to_be_done_are_counted(todos: Seq<TodoItemModel>, todo: TodoItemModel)
    ensures
        open_count(Seq::empty()) == 0,
        todo.completed ==> open_count(todos.push(todo)) == open_count(todos),
        !todo.completed ==> open_count(todos.push(todo)) == open_count(todos) + 1,
{
    assert(todos.push(todo).drop_last() =~= todos);
}

/// The summary counts all events and the tasks to be done, shows the sources in
/// the order of the settings, keeps the weather, and tells the error it is
/// given, or else the first that a source has.
pub proof fn summary_shows_all_parts(
    data: ActivityDataModel,
    previous: ActivityStateModel,
    clocks: Seq<WorldClockStateModel>,
    now: i64,
    error: Option<Seq<char>>,
    syncing: bool,
    i: int,
)
    ensures
        ({
            let state = summary_of(data, previous, clocks, now, error, syncing);
            &&& state.available
            &&& state.syncing == syncing
            &&& all_events(data.events_by_source).len() <= u32::MAX ==> state.event_count
                == all_events(data.events_by_source).len()
            &&& open_count(data.todos) <= u32::MAX ==> state.incomplete_todo_count == open_count(
                data.todos,
            )
            &&& state.world_clocks == clocks
            &&& state.weather == previous.weather
            &&& state.weather_locations == previous.weather_locations
            &&& error is Some ==> state.error == error
            &&& state.sources.len() == data.config.calendar_sources.len()
            &&& 0 <= i < state.sources.len() ==> {
                let source = data.config.calendar_sources[i];
                &&& state_of(data.source_states, source.id) matches Some(told)
                    ==> state.sources[i] == told
                &&& state_of(data.source_states, source.id) is None ==> state.sources[i].id
                    == source.id && state.sources[i].kind == source.kind && state.sources[i].name
                    == (if source.name.len() == 0 {
                    source.id
                } else {
                    source.name
                }) && state.sources[i].item_count == 0
            }
            &&& error is None && (forall|k: int|
                0 <= k < state.sources.len() ==> (#[trigger] state.sources[k]).error is None)
                ==> state.error is None
            &&& error is None && 0 <= i < state.sources.len() && state.sources[i].error is Some && (
            forall|k: int| 0 <= k < i ==> (#[trigger] state.sources[k]).error is None)
                ==> state.error == state.sources[i].error
        }),
{
    sorting_orders_and_keeps_items::<ActivityEvent, StartOrder>(all_events(data.events_by_source));
    let sources = shown_states(data);
    if forall|k: int| 0 <= k < sources.len() ==> (#[trigger] sources[k]).error is None {
        lemma_first_error(sources, sources.len() as int);
    }
    if 0 <= i < sources.len() && sources[i].error is Some && (forall|k: int|
        0 <= k < i ==> (#[trigger] sources[k]).error is None) {
        lemma_first_error(sources, i);
    }
}

proof fn lemma_first_error(states: Seq<ActivitySourceStateModel>, at: int)
    requires
        0 <= at <= states.len(),
        forall|k: int| 0 <= k < at ==> (#[trigger] states[k]).error is None,
        at < states.len() ==> states[at].error is Some,
    ensures
        at < states.len() ==> first_error(states) == states[at].error,
        at == states.len() ==> first_error(states) is None,
    decreases states.len(),
{
    if at > 0 {
        assert(states[0].error is None);
        let rest = states.skip(1);
        assert forall|k: int| 0 <= k < at - 1 implies (#[trigger] rest[k]).error is None by {
            assert(rest[k] == states[k + 1]);
        }
        if at < states.len() {
            assert(rest[at - 1] == states[at]);
        }
        lemma_first_error(rest, at - 1);
    }
}

/// The city of a zone is the end of its name, with blanks for underscores. A clock
/// shows its label, or the city where it has none.
pub proof fn clocks_are_labelled(
    region: Seq<char>,
    city: Seq<char>,
    label: Seq<char>,
    abbreviation: Seq<char>,
    offset: i32,
    i: int,
)
    requires
        !city.contains('/'),
        0 <= i < city.len(),
    ensures
        zone_city(region.push('/') + city) == zone_city(city),
        zone_city(city).len() == city.len(),
        zone_city(city)[i] == if city[i] == '_' {
            ' '
        } else {
            city[i]
        },
        ({
            let clock = clock_of(city, label, abbreviation, offset);
            &&& clock.timezone == city
            &&& clock.city == zone_city(city)
            &&& label.len() > 0 ==> clock.label == label
            &&& label.len() == 0 ==> clock.label == zone_city(city)
            &&& clock.abbreviation == abbreviation
            &&& clock.utc_offset_seconds == offset
        }),
{
    end_stands_behind_last_character(region, '/', city);
}

/// A clock shows the zone that its settings name, its city, and its label or the
/// city where it has none.
pub proof fn clocks_show_their_zone(clock: WorldClockStateModel, config: WorldClockConfigModel)
    requires
        is_clock_of(clock, config),
    ensures
        clock.timezone == config.timezone,
        clock.city == zone_city(config.timezone),
        config.label.len() > 0 ==> clock.label == config.label,
        config.label.len() == 0 ==> clock.label == zone_city(config.timezone),
        exists|now: i64|
            {
                let shown = #[trigger] zone_time(config.timezone, now);
                &&& chrono_holds(now as int)
                &&& shown is Some ==> (clock.abbreviation, clock.utc_offset_seconds) == shown->0
            },
{
    let now = choose|now: i64|
        chrono_holds(now as int) && clock == #[trigger] clock_at_time(
            config.timezone,
            config.label,
            now,
        );
    let shown = zone_time(config.timezone, now);
    assert(chrono_holds(now as int));
}

/// The clocks that are shown are those whose zone is known, in order.
pub proof fn clocks_of_known_zones_are_shown(
    clocks: Seq<WorldClockConfigModel>,
    clock: WorldClockConfigModel,
)
    ensures
        known_clocks(Seq::empty()).len() == 0,
        known_clocks(clocks.push(clock)) == if is_timezone(clock.timezone) {
            known_clocks(clocks).push(clock)
        } else {
            known_clocks(clocks)
        },
{
    reveal(Seq::filter);
    assert(clocks.push(clock).drop_last() =~= clocks);
}

} // verus!
