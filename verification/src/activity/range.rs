//! Bounded queries over events and tasks.

use vstd::prelude::*;

use crate::activity::calendar::{can_be_date, date_here, utc_date, utc_date_text};
use crate::activity::ics::EventOrder;
use crate::activity::model::{
    ActivityEvent, ActivityEventModel, ActivityRange, ActivityRangeModel, TodoItem, TodoItemModel,
};
use crate::activity::service::{ActivityData, SourceEvents, SourceEventsModel};
use crate::record::Record;
use crate::sorting::{sorted, sorting_orders_and_keeps_items, stable_sort, Order};
use crate::text::{text_less, text_lt, text_lt_asymmetric, text_lt_total, text_lt_transitive};

verus! {

/// The longest stretch of time that a query spans, in milliseconds: 370 days.
pub const MAX_RANGE_MS: i64 = 31_968_000_000;

/// Why a query is refused.
#[derive(Clone, Copy, Debug, PartialEq, Eq, Structural)]
pub enum RangeError {
    /// The range ends where it starts, or before.
    Inverted,
    /// The range spans more than 370 days.
    TooLong,
}

impl DeepView for RangeError {
    type V = RangeError;

    open spec fn deep_view(&self) -> RangeError {
        *self
    }
}

impl Record for RangeError {
    fn same(&self, other: &Self) -> (same: bool) {
        *self == *other
    }

    fn copy(&self) -> (copy: Self) {
        *self
    }
}

impl RangeError {
    /// The sentence that reports the error.
    pub open spec fn text(self) -> Seq<char> {
        match self {
            RangeError::Inverted => "to_unix_ms must be greater than from_unix_ms"@,
            RangeError::TooLong => "activity range cannot exceed 370 days"@,
        }
    }

    /// The sentence that reports the error.
    pub fn message(&self) -> (message: &'static str)
        ensures
            message@ == self.text(),
    {
        match self {
            RangeError::Inverted => "to_unix_ms must be greater than from_unix_ms",
            RangeError::TooLong => "activity range cannot exceed 370 days",
        }
    }
}

/// Why a range is refused.
pub open spec fn range_error(from: int, to: int) -> Option<RangeError> {
    if to <= from {
        Some(RangeError::Inverted)
    } else if to - from > MAX_RANGE_MS {
        Some(RangeError::TooLong)
    } else {
        None
    }
}

/// The events of all sources, one source behind the other.
pub open spec fn all_events(entries: Seq<SourceEventsModel>) -> Seq<ActivityEventModel>
    decreases entries.len(),
{
    if entries.len() == 0 {
        Seq::empty()
    } else {
        all_events(entries.drop_last()) + entries.last().events
    }
}

/// Whether an event overlaps a range.
pub open spec fn overlaps(event: ActivityEventModel, from: int, to: int) -> bool {
    event.end_unix_ms > from && event.start_unix_ms < to
}

/// Whether a text does not come before another, where there is one.
pub open spec fn not_before(text: Seq<char>, bound: Option<Seq<char>>) -> bool {
    match bound {
        Some(bound) => !text_lt(text, bound),
        None => true,
    }
}

/// Whether a text comes before another, where there is one.
pub open spec fn is_before(text: Seq<char>, bound: Option<Seq<char>>) -> bool {
    match bound {
        Some(bound) => text_lt(text, bound),
        None => true,
    }
}

/// Whether a task is due in a range. One that is never due is in every range.
pub open spec fn due_in(todo: TodoItemModel, from: i64, to: i64) -> bool {
    match (todo.due_unix_ms, todo.due_date) {
        (Some(due), _) => from <= due < to,
        (None, Some(date)) => not_before(date, utc_date_text(from)) && is_before(
            date,
            utc_date_text(to),
        ),
        (None, None) => true,
    }
}

/// Tasks with open ones first, then by when they are due, then by priority,
/// then by when they were made.
pub struct TodoOrder;

/// When a task is due: never is last.
pub open spec fn due_key(todo: TodoItemModel) -> i64 {
    match todo.due_unix_ms {
        Some(due) => due,
        None => i64::MAX,
    }
}

/// Whether a task comes before another.
pub open spec fn todo_before(a: TodoItemModel, b: TodoItemModel) -> bool {
    if a.completed != b.completed {
        !a.completed
    } else if due_key(a) != due_key(b) {
        due_key(a) < due_key(b)
    } else if a.priority != b.priority {
        a.priority > b.priority
    } else {
        a.created_unix_ms < b.created_unix_ms
    }
}

impl Order<TodoItem> for TodoOrder {
    open spec fn before(a: TodoItemModel, b: TodoItemModel) -> bool {
        todo_before(a, b)
    }

    proof fn asymmetric(a: TodoItemModel, b: TodoItemModel) {
    }

    proof fn weak(a: TodoItemModel, b: TodoItemModel, c: TodoItemModel) {
    }

    fn is_before(a: &TodoItem, b: &TodoItem) -> (result: bool) {
        let a_due: i64 = match a.due_unix_ms {
            Some(due) => due,
            None => i64::MAX,
        };
        let b_due: i64 = match b.due_unix_ms {
            Some(due) => due,
            None => i64::MAX,
        };
        if a.completed != b.completed {
            !a.completed
        } else if a_due != b_due {
            a_due < b_due
        } else if a.priority != b.priority {
            a.priority > b.priority
        } else {
            a.created_unix_ms < b.created_unix_ms
        }
    }
}

/// The events in a range, in order.
pub open spec fn range_events(entries: Seq<SourceEventsModel>, from: i64, to: i64) -> Seq<
    ActivityEventModel,
> {
    sorted::<ActivityEvent, EventOrder>(
        all_events(entries).filter(
            |event: ActivityEventModel| overlaps(event, from as int, to as int),
        ),
    )
}

/// The tasks in a range, in order.
pub open spec fn range_todos(todos: Seq<TodoItemModel>, from: i64, to: i64) -> Seq<TodoItemModel> {
    sorted::<TodoItem, TodoOrder>(todos.filter(|todo: TodoItemModel| due_in(todo, from, to)))
}

/// The date that this machine's calendar shows at a time, where it shows one.
#[derive(Debug, PartialEq, Eq)]
pub struct LocalDate {
    pub unix_ms: i64,
    pub date: Option<String>,
}

/// What a [`LocalDate`] holds.
#[verifier::ext_equal]
pub struct LocalDateModel {
    pub unix_ms: i64,
    pub date: Option<Seq<char>>,
}

impl DeepView for LocalDate {
    type V = LocalDateModel;

    open spec fn deep_view(&self) -> LocalDateModel {
        LocalDateModel {
            unix_ms: self.unix_ms.deep_view(),
            date: self.date.deep_view(),
        }
    }
}

impl Record for LocalDate {
    fn same(&self, other: &Self) -> (same: bool) {
        self.unix_ms.same(&other.unix_ms)
            && self.date.same(&other.date)
    }

    fn copy(&self) -> (copy: Self) {
        LocalDate {
            unix_ms: self.unix_ms.copy(),
            date: self.date.copy(),
        }
    }
}

impl Clone for LocalDate {
    fn clone(&self) -> (copy: Self)
        ensures
            copy.deep_view() == self.deep_view(),
    {
        self.copy()
    }
}

/// What a list of local dates says of a time.
pub open spec fn local_date(dates: Seq<LocalDateModel>, unix_ms: i64) -> Option<Seq<char>>
    decreases dates.len(),
{
    if dates.len() == 0 {
        None
    } else if dates[0].unix_ms == unix_ms {
        dates[0].date
    } else {
        local_date(dates.skip(1), unix_ms)
    }
}

/// The date of an event: its own, or that of this machine's calendar when it starts.
pub open spec fn event_date(event: ActivityEventModel, dates: Seq<LocalDateModel>) -> Option<
    Seq<char>,
> {
    match event.start_date {
        Some(date) => Some(date),
        None => local_date(dates, event.start_unix_ms),
    }
}

/// Whether something happens on a date.
pub open spec fn is_busy(
    events: Seq<ActivityEventModel>,
    todos: Seq<TodoItemModel>,
    dates: Seq<LocalDateModel>,
    date: Seq<char>,
) -> bool {
    ||| exists|i: int|
        0 <= i < events.len() && event_date(#[trigger] events[i], dates) == Some(date)
    ||| exists|i: int| 0 <= i < todos.len() && (#[trigger] todos[i]).due_date == Some(date)
}

/// Whether texts are in ascending order, none of them twice.
pub open spec fn ascending(texts: Seq<Seq<char>>) -> bool {
    forall|i: int, j: int| 0 <= i < j < texts.len() ==> text_lt(#[trigger] texts[i], #[trigger] texts[j])
}

/// Whether a list holds the busy dates, each once and in order.
pub open spec fn are_busy_dates(
    list: Seq<Seq<char>>,
    events: Seq<ActivityEventModel>,
    todos: Seq<TodoItemModel>,
    dates: Seq<LocalDateModel>,
) -> bool {
    &&& ascending(list)
    &&& forall|date: Seq<char>| #[trigger] list.contains(date) <==> is_busy(events, todos, dates, date)
}

/// Whether a range holds what a query for it owes.
pub open spec fn answers_query(
    range: ActivityRangeModel,
    entries: Seq<SourceEventsModel>,
    todos: Seq<TodoItemModel>,
    from: i64,
    to: i64,
    dates: Seq<LocalDateModel>,
) -> bool {
    &&& range.from_unix_ms == from
    &&& range.to_unix_ms == to
    &&& range.events == range_events(entries, from, to)
    &&& range.todos == range_todos(todos, from, to)
    &&& are_busy_dates(range.busy_dates, range.events, range.todos, dates)
}

/// Puts a date into an ascending list that may hold it already.
fn insert_date(list: &mut Vec<String>, date: &String)
    requires
        ascending(old(list).deep_view()),
    ensures
        ascending(final(list).deep_view()),
        forall|d: Seq<char>| #[trigger]
            final(list).deep_view().contains(d) <==> old(list).deep_view().contains(d) || d
                == date@,
{
    let ghost before = list.deep_view();
    let mut at: usize = 0;
    while at < list.len() && text_less(list[at].as_str(), date.as_str())
        invariant
            at <= list@.len(),
            before == list.deep_view(),
            forall|i: int| 0 <= i < at ==> text_lt(#[trigger] before[i], date@),
        decreases list@.len() - at,
    {
        assert(before[at as int] == list@[at as int]@);
        at = at + 1;
    }
    if at < list.len() && list[at] == *date {
        assert(before[at as int] == date@);
        return;
    }
    proof {
        if at < list@.len() {
            assert(before[at as int] == list@[at as int]@);
            text_lt_total(before[at as int], date@);
        }
        assert forall|i: int| at <= i < before.len() implies text_lt(date@, #[trigger] before[i]) by {
            if i > at {
                assert(text_lt(before[at as int], before[i]));
                text_lt_transitive(date@, before[at as int], before[i]);
            }
        }
    }
    list.insert(at, date.clone());
    proof {
        let after = list.deep_view();
        assert(after =~= before.insert(at as int, date@));
        assert forall|i: int, j: int| 0 <= i < j < after.len() implies text_lt(
            #[trigger] after[i],
            #[trigger] after[j],
        ) by {
            let bi = if i < at { i } else { i - 1 };
            let bj = if j < at { j } else { j - 1 };
            if i != at {
                assert(after[i] == before[bi]);
            }
            if j != at {
                assert(after[j] == before[bj]);
            }
        }
        assert forall|d: Seq<char>| #[trigger] after.contains(d) <==> before.contains(d) || d
            == date@ by {
            if before.contains(d) {
                let k = choose|k: int| 0 <= k < before.len() && before[k] == d;
                let m = if k < at { k } else { k + 1 };
                assert(after[m] == d);
            }
            if d == date@ {
                assert(after[at as int] == d);
            }
            if after.contains(d) && d != date@ {
                let k = choose|k: int| 0 <= k < after.len() && after[k] == d;
                let m = if k < at { k } else { k - 1 };
                assert(before[m] == d);
            }
        }
    }
}

fn find_date(dates: &Vec<LocalDate>, unix_ms: i64) -> (date: Option<String>)
    ensures
        date.deep_view() == local_date(dates.deep_view(), unix_ms),
{
    let ghost all = dates.deep_view();
    let mut i: usize = 0;
    assert(all.skip(0) =~= all);
    while i < dates.len()
        invariant
            i <= dates@.len(),
            all == dates.deep_view(),
            local_date(all, unix_ms) == local_date(all.skip(i as int), unix_ms),
        decreases dates@.len() - i,
    {
        assert(all.skip(i as int)[0] == dates@[i as int].deep_view());
        if dates[i].unix_ms == unix_ms {
            return dates[i].date.copy();
        }
        assert(all.skip(i as int).skip(1) =~= all.skip(i + 1));
        i = i + 1;
    }
    None
}

fn date_of_event(event: &ActivityEvent, dates: &Vec<LocalDate>) -> (date: Option<String>)
    ensures
        date.deep_view() == event_date(event.deep_view(), dates.deep_view()),
{
    match &event.start_date {
        Some(date) => Some(date.clone()),
        None => find_date(dates, event.start_unix_ms),
    }
}

fn collect_dates(events: &Vec<ActivityEvent>, todos: &Vec<TodoItem>, dates: &Vec<LocalDate>) -> (list:
    Vec<String>)
    ensures
        are_busy_dates(
            list.deep_view(),
            events.deep_view(),
            todos.deep_view(),
            dates.deep_view(),
        ),
{
    let ghost all = events.deep_view();
    let ghost tasks = todos.deep_view();
    let ghost table = dates.deep_view();
    let mut list: Vec<String> = Vec::new();
    let mut i: usize = 0;
    while i < events.len()
        invariant
            i <= events@.len(),
            all == events.deep_view(),
            table == dates.deep_view(),
            ascending(list.deep_view()),
            forall|d: Seq<char>| #[trigger]
                list.deep_view().contains(d) <==> exists|k: int|
                    0 <= k < i && event_date(#[trigger] all[k], table) == Some(d),
        decreases events@.len() - i,
    {
        assert(all[i as int] == events@[i as int].deep_view());
        let ghost before = list.deep_view();
        if let Some(date) = date_of_event(&events[i], dates) {
            insert_date(&mut list, &date);
        }
        assert forall|d: Seq<char>| #[trigger] list.deep_view().contains(d) <==> exists|k: int|
            0 <= k < i + 1 && event_date(#[trigger] all[k], table) == Some(d) by {
            assert(before.contains(d) <==> exists|k: int|
                0 <= k < i && event_date(#[trigger] all[k], table) == Some(d));
            if event_date(all[i as int], table) == Some(d) {
                assert(list.deep_view().contains(d));
            }
        }
        i = i + 1;
    }
    let ghost first = list.deep_view();
    let mut j: usize = 0;
    while j < todos.len()
        invariant
            j <= todos@.len(),
            tasks == todos.deep_view(),
            ascending(list.deep_view()),
            forall|d: Seq<char>| #[trigger]
                list.deep_view().contains(d) <==> first.contains(d) || exists|k: int|
                    0 <= k < j && (#[trigger] tasks[k]).due_date == Some(d),
        decreases todos@.len() - j,
    {
        assert(tasks[j as int] == todos@[j as int].deep_view());
        let ghost before = list.deep_view();
        if let Some(date) = &todos[j].due_date {
            insert_date(&mut list, date);
        }
        assert forall|d: Seq<char>| #[trigger] list.deep_view().contains(d) <==> first.contains(d)
            || exists|k: int| 0 <= k < j + 1 && (#[trigger] tasks[k]).due_date == Some(d) by {
            assert(before.contains(d) <==> first.contains(d) || exists|k: int|
                0 <= k < j && (#[trigger] tasks[k]).due_date == Some(d));
            if tasks[j as int].due_date == Some(d) {
                assert(list.deep_view().contains(d));
            }
        }
        j = j + 1;
    }
    assert forall|d: Seq<char>| #[trigger] list.deep_view().contains(d) <==> is_busy(
        all,
        tasks,
        table,
        d,
    ) by {
        assert(first.contains(d) <==> exists|k: int|
            0 <= k < all.len() && event_date(#[trigger] all[k], table) == Some(d));
    }
    list
}

/// All events, each with the sources in the order in which they stand.
pub fn merged_events(entries: &Vec<SourceEvents>) -> (events: Vec<ActivityEvent>)
    ensures
        events.deep_view() == all_events(entries.deep_view()),
{
    let ghost all = entries.deep_view();
    let mut events: Vec<ActivityEvent> = Vec::new();
    let mut i: usize = 0;
    assert(all.take(0) =~= Seq::<SourceEventsModel>::empty());
    assert(events.deep_view() =~= Seq::<ActivityEventModel>::empty());
    while i < entries.len()
        invariant
            i <= entries@.len(),
            all == entries.deep_view(),
            events.deep_view() == all_events(all.take(i as int)),
        decreases entries@.len() - i,
    {
        assert(all.take(i + 1).drop_last() =~= all.take(i as int));
        assert(all.take(i + 1).last() == entries@[i as int].deep_view());
        let ghost before = events.deep_view();
        let mut more = entries[i].events.copy();
        let ghost added = more.deep_view();
        events.append(&mut more);
        assert(events.deep_view() =~= before + added);
        i = i + 1;
    }
    assert(all.take(i as int) =~= all);
    events
}

fn select_events(entries: &Vec<SourceEvents>, from: i64, to: i64) -> (events: Vec<ActivityEvent>)
    ensures
        events.deep_view() == range_events(entries.deep_view(), from, to),
{
    let merged = merged_events(entries);
    let ghost all = merged.deep_view();
    let ghost wanted = |event: ActivityEventModel| overlaps(event, from as int, to as int);
    let mut events: Vec<ActivityEvent> = Vec::new();
    let mut i: usize = 0;
    proof {
        reveal(Seq::filter);
        assert(events.deep_view() =~= all.take(0).filter(wanted));
    }
    while i < merged.len()
        invariant
            i <= merged@.len(),
            all == merged.deep_view(),
            wanted == (|event: ActivityEventModel| overlaps(event, from as int, to as int)),
            events.deep_view() == all.take(i as int).filter(wanted),
        decreases merged@.len() - i,
    {
        reveal(Seq::filter);
        assert(all.take(i + 1).drop_last() =~= all.take(i as int));
        assert(all.take(i + 1).last() == merged@[i as int].deep_view());
        let ghost before = events.deep_view();
        if merged[i].end_unix_ms > from && merged[i].start_unix_ms < to {
            events.push(merged[i].copy());
            assert(events.deep_view() =~= before.push(all[i as int]));
        }
        i = i + 1;
    }
    assert(all.take(i as int) =~= all);
    stable_sort::<ActivityEvent, EventOrder>(events)
}

fn select_todos(todos: &Vec<TodoItem>, from: i64, to: i64) -> (selected: Vec<TodoItem>)
    ensures
        selected.deep_view() == range_todos(todos.deep_view(), from, to),
{
    let from_date = utc_date(from);
    let to_date = utc_date(to);
    let ghost all = todos.deep_view();
    let ghost wanted = |todo: TodoItemModel| due_in(todo, from, to);
    let mut selected: Vec<TodoItem> = Vec::new();
    let mut i: usize = 0;
    proof {
        reveal(Seq::filter);
        assert(selected.deep_view() =~= all.take(0).filter(wanted));
    }
    while i < todos.len()
        invariant
            i <= todos@.len(),
            all == todos.deep_view(),
            wanted == (|todo: TodoItemModel| due_in(todo, from, to)),
            from_date.deep_view() == utc_date_text(from),
            to_date.deep_view() == utc_date_text(to),
            selected.deep_view() == all.take(i as int).filter(wanted),
        decreases todos@.len() - i,
    {
        reveal(Seq::filter);
        assert(all.take(i + 1).drop_last() =~= all.take(i as int));
        assert(all.take(i + 1).last() == todos@[i as int].deep_view());
        let ghost before = selected.deep_view();
        let todo = &todos[i];
        let is_due = match (&todo.due_unix_ms, &todo.due_date) {
            (Some(due), _) => from <= *due && *due < to,
            (None, Some(date)) => {
                let late = match &from_date {
                    Some(bound) => !text_less(date.as_str(), bound.as_str()),
                    None => true,
                };
                let early = match &to_date {
                    Some(bound) => text_less(date.as_str(), bound.as_str()),
                    None => true,
                };
                late && early
            },
            (None, None) => true,
        };
        if is_due {
            selected.push(todo.copy());
            assert(selected.deep_view() =~= before.push(all[i as int]));
        }
        i = i + 1;
    }
    assert(all.take(i as int) =~= all);
    stable_sort::<TodoItem, TodoOrder>(selected)
}

fn check_range(from: i64, to: i64) -> (error: Option<RangeError>)
    ensures
        error == range_error(from as int, to as int),
{
    if to <= from {
        return Some(RangeError::Inverted);
    }
    match to.checked_sub(from) {
        Some(length) => if length > MAX_RANGE_MS {
            Some(RangeError::TooLong)
        } else {
            None
        },
        None => Some(RangeError::TooLong),
    }
}

/// The times at which events without a date of their own start.
pub open spec fn undated_starts(events: Seq<ActivityEventModel>) -> Seq<i64>
    decreases events.len(),
{
    if events.len() == 0 {
        Seq::empty()
    } else if events.last().start_date is None {
        undated_starts(events.drop_last()).push(events.last().start_unix_ms)
    } else {
        undated_starts(events.drop_last())
    }
}

/// The times that a list of local dates answers for.
pub open spec fn times_of(dates: Seq<LocalDateModel>) -> Seq<i64> {
    dates.map_values(|date: LocalDateModel| date.unix_ms)
}

/// Whether a list of local dates says of every time what a calendar can show then.
pub open spec fn dates_show(dates: Seq<LocalDateModel>) -> bool {
    forall|i: int|
        0 <= i < dates.len() ==> can_be_date((#[trigger] dates[i]).unix_ms, dates[i].date)
}

/// Asks this machine's calendar for the date on which each event without a date starts.
pub fn local_dates(events: &Vec<ActivityEvent>) -> (dates: Vec<LocalDate>)
    ensures
        times_of(dates.deep_view()) == undated_starts(events.deep_view()),
        dates_show(dates.deep_view()),
{
    let ghost all = events.deep_view();
    let mut dates: Vec<LocalDate> = Vec::new();
    let mut i: usize = 0;
    assert(all.take(0) =~= Seq::<ActivityEventModel>::empty());
    assert(times_of(dates.deep_view()) =~= Seq::<i64>::empty());
    while i < events.len()
        invariant
            i <= events@.len(),
            all == events.deep_view(),
            times_of(dates.deep_view()) == undated_starts(all.take(i as int)),
            dates_show(dates.deep_view()),
        decreases events@.len() - i,
    {
        assert(all.take(i + 1).drop_last() =~= all.take(i as int));
        assert(all.take(i + 1).last() == events@[i as int].deep_view());
        let ghost before = times_of(dates.deep_view());
        let ghost shown = dates.deep_view();
        if events[i].start_date.is_none() {
            let unix_ms: i64 = events[i].start_unix_ms;
            let date = date_here(unix_ms);
            let ghost added = LocalDateModel { unix_ms, date: date.deep_view() };
            dates.push(LocalDate { unix_ms, date });
            assert(times_of(dates.deep_view()) =~= before.push(unix_ms));
            assert(dates.deep_view() =~= shown.push(added));
        }
        i = i + 1;
    }
    assert(all.take(i as int) =~= all);
    dates
}

impl ActivityData {
    /// The events and tasks in a range, given what this machine's calendar
    /// shows when events without a date start.
    pub fn query_range_in(&self, from_unix_ms: i64, to_unix_ms: i64, dates: &Vec<LocalDate>) -> (range:
        Result<ActivityRange, RangeError>)
        ensures
            match range {
                Ok(range) => range_error(from_unix_ms as int, to_unix_ms as int) is None
                    && answers_query(
                    range.deep_view(),
                    self.deep_view().events_by_source,
                    self.deep_view().todos,
                    from_unix_ms,
                    to_unix_ms,
                    dates.deep_view(),
                ),
                Err(error) => range_error(from_unix_ms as int, to_unix_ms as int) == Some(error),
            },
    {
        if let Some(error) = check_range(from_unix_ms, to_unix_ms) {
            return Err(error);
        }
        let events = select_events(&self.events_by_source, from_unix_ms, to_unix_ms);
        let todos = select_todos(&self.todos, from_unix_ms, to_unix_ms);
        let busy_dates = collect_dates(&events, &todos, dates);
        Ok(ActivityRange { from_unix_ms, to_unix_ms, events, todos, busy_dates })
    }

    /// The events and tasks in a range. Events without a date are dated by this
    /// machine's calendar.
    pub fn query_range(&self, from_unix_ms: i64, to_unix_ms: i64) -> (range: Result<
        ActivityRange,
        RangeError,
    >)
        ensures
            match range {
                Ok(range) => range_error(from_unix_ms as int, to_unix_ms as int) is None && exists|
                    dates: Seq<LocalDateModel>,
                |
                    {
                        &&& times_of(dates) == undated_starts(
                            range_events(
                                self.deep_view().events_by_source,
                                from_unix_ms,
                                to_unix_ms,
                            ),
                        )
                        &&& dates_show(dates)
                        &&& #[trigger] answers_query(
                            range.deep_view(),
                            self.deep_view().events_by_source,
                            self.deep_view().todos,
                            from_unix_ms,
                            to_unix_ms,
                            dates,
                        )
                    },
                Err(error) => range_error(from_unix_ms as int, to_unix_ms as int) == Some(error),
            },
    {
        let events = select_events(&self.events_by_source, from_unix_ms, to_unix_ms);
        let dates = local_dates(&events);
        self.query_range_in(from_unix_ms, to_unix_ms, &dates)
    }
}

/// A range holds the events that overlap it and no others, each as often as the
/// sources have it, in the order of their starts.
pub proof fn range_holds_overlapping_events(
    entries: Seq<SourceEventsModel>,
    from: i64,
    to: i64,
)
    ensures
        range_events(entries, from, to).to_multiset() == all_events(entries).filter(
            |event: ActivityEventModel| overlaps(event, from as int, to as int),
        ).to_multiset(),
        forall|i: int, j: int|
            0 <= i < j < range_events(entries, from, to).len() ==> (#[trigger] range_events(
                entries,
                from,
                to,
            )[i]).start_unix_ms <= (#[trigger] range_events(entries, from, to)[j]).start_unix_ms,
        forall|i: int|
            0 <= i < range_events(entries, from, to).len() ==> overlaps(
                #[trigger] range_events(entries, from, to)[i],
                from as int,
                to as int,
            ),
{
    broadcast use vstd::seq_lib::group_to_multiset_ensures;

    let wanted = |event: ActivityEventModel| overlaps(event, from as int, to as int);
    let picked = all_events(entries).filter(wanted);
    let result = range_events(entries, from, to);
    sorting_orders_and_keeps_items::<ActivityEvent, EventOrder>(picked);
    assert forall|i: int, j: int| 0 <= i < j < result.len() implies (
    #[trigger] result[i]).start_unix_ms <= (#[trigger] result[j]).start_unix_ms by {
        assert(!EventOrder::before(result[j], result[i]));
    }
    assert forall|i: int| 0 <= i < result.len() implies overlaps(
        #[trigger] result[i],
        from as int,
        to as int,
    ) by {
        assert(result.to_multiset().count(result[i]) > 0);
        assert(picked.contains(result[i]));
        all_events(entries).lemma_filter_pred(wanted, picked.index_of(result[i]));
    }
}

proof fn lemma_ascending_prefix(list: Seq<Seq<char>>)
    requires
        ascending(list),
        list.len() > 0,
    ensures
        ascending(list.drop_last()),
        forall|date: Seq<char>| #[trigger]
            list.drop_last().contains(date) <==> list.contains(date) && date != list.last(),
{
    let shorter = list.drop_last();
    assert forall|i: int, j: int| 0 <= i < j < shorter.len() implies text_lt(
        #[trigger] shorter[i],
        #[trigger] shorter[j],
    ) by {
        assert(text_lt(list[i], list[j]));
    }
    assert forall|date: Seq<char>| #[trigger] shorter.contains(date) <==> list.contains(date)
        && date != list.last() by {
        if shorter.contains(date) {
            let k = choose|k: int| 0 <= k < shorter.len() && shorter[k] == date;
            assert(list[k] == date);
            assert(text_lt(list[k], list[list.len() - 1]));
            text_lt_asymmetric(date, date);
        }
        if list.contains(date) && date != list.last() {
            let k = choose|k: int| 0 <= k < list.len() && list[k] == date;
            assert(shorter[k] == date);
        }
    }
}

/// Two lists that hold the same dates, each once and in order, are the same.
pub proof fn busy_dates_are_determined(a: Seq<Seq<char>>, b: Seq<Seq<char>>)
    requires
        ascending(a),
        ascending(b),
        forall|date: Seq<char>| #[trigger] a.contains(date) <==> b.contains(date),
    ensures
        a == b,
    decreases a.len(),
{
    if a.len() == 0 {
        if b.len() > 0 {
            assert(b.contains(b[0]));
            assert(a.contains(b[0]));
        }
        assert(a =~= b);
    } else {
        assert(a.contains(a.last()));
        assert(b.contains(a.last()));
        assert(b.contains(b.last()));
        assert(a.contains(b.last()));
        let i = choose|i: int| 0 <= i < b.len() && b[i] == a.last();
        let j = choose|j: int| 0 <= j < a.len() && a[j] == b.last();
        if a.last() != b.last() {
            assert(text_lt(b[i], b[b.len() - 1]));
            assert(text_lt(a[j], a[a.len() - 1]));
            text_lt_asymmetric(a.last(), b.last());
        }
        lemma_ascending_prefix(a);
        lemma_ascending_prefix(b);
        assert forall|date: Seq<char>| #[trigger] a.drop_last().contains(date)
            <==> b.drop_last().contains(date) by {
            assert(a.contains(date) <==> b.contains(date));
        }
        busy_dates_are_determined(a.drop_last(), b.drop_last());
        assert(a =~= a.drop_last().push(a.last()));
        assert(b =~= b.drop_last().push(b.last()));
    }
}

// Laws

proof fn lemma_filter_counts<T>(items: Seq<T>, wanted: spec_fn(T) -> bool, item: T)
    ensures
        items.filter(wanted).to_multiset().count(item) == if wanted(item) {
            items.to_multiset().count(item)
        } else {
            0
        },
    decreases items.len(),
{
    broadcast use vstd::seq_lib::group_to_multiset_ensures;

    reveal(Seq::filter);
    if items.len() > 0 {
        lemma_filter_counts(items.drop_last(), wanted, item);
        assert(items =~= items.drop_last().push(items.last()));
    }
}

/// A task with a due time is among the tasks of a range if and only if it falls
/// due in the range, its start counted and its end not, as often as the store
/// has it. One with a due date alone is there if and only if the date is not
/// before the day on which the range starts and is before the day on which it
/// ends, both in UTC. One that is not due at all is always there.
pub proof fn range_holds_tasks_that_fall_due(
    todos: Seq<TodoItemModel>,
    from: i64,
    to: i64,
    todo: TodoItemModel,
)
    ensures
        ({
            let held = range_todos(todos, from, to).to_multiset().count(todo);
            let stored = todos.to_multiset().count(todo);
            &&& todo.due_unix_ms matches Some(due) ==> held == if from <= due && due < to {
                stored
            } else {
                0
            }
            &&& todo.due_unix_ms is None && todo.due_date is None ==> held == stored
            &&& todo.due_unix_ms is None && todo.due_date is Some ==> {
                let date = todo.due_date->0;
                let early = utc_date_text(from) is Some && text_lt(date, utc_date_text(from)->0);
                let late = utc_date_text(to) is Some && !text_lt(date, utc_date_text(to)->0);
                held == if early || late {
                    0
                } else {
                    stored
                }
            }
        }),
{
    let wanted = |todo: TodoItemModel| due_in(todo, from, to);
    sorting_orders_and_keeps_items::<TodoItem, TodoOrder>(todos.filter(wanted));
    lemma_filter_counts(todos, wanted, todo);
}

/// The tasks of a range come in this order: those to be done before those that
/// are done; among these those due earlier, and those without a due time last;
/// among these those of higher priority; among these those made earlier.
pub proof fn range_tasks_come_by_urgency(todos: Seq<TodoItemModel>, from: i64, to: i64, i: int, j: int)
    requires
        0 <= i < j < range_todos(todos, from, to).len(),
    ensures
        ({
            let a = range_todos(todos, from, to)[i];
            let b = range_todos(todos, from, to)[j];
            &&& a.completed ==> b.completed
            &&& a.completed == b.completed && b.due_unix_ms is Some && b.due_unix_ms->0 < i64::MAX
                ==> a.due_unix_ms is Some && a.due_unix_ms->0 <= b.due_unix_ms->0
            &&& a.completed == b.completed && a.due_unix_ms == b.due_unix_ms ==> a.priority
                >= b.priority
            &&& a.completed == b.completed && a.due_unix_ms == b.due_unix_ms && a.priority
                == b.priority ==> a.created_unix_ms <= b.created_unix_ms
        }),
{
    let wanted = |todo: TodoItemModel| due_in(todo, from, to);
    sorting_orders_and_keeps_items::<TodoItem, TodoOrder>(todos.filter(wanted));
    let held = range_todos(todos, from, to);
    assert(!TodoOrder::before(held[j], held[i]));
}

proof fn lemma_all_events(entries: Seq<SourceEventsModel>, event: ActivityEventModel)
    ensures
        all_events(entries).contains(event) <==> exists|k: int|
            0 <= k < entries.len() && (#[trigger] entries[k]).events.contains(event),
    decreases entries.len(),
{
    if entries.len() > 0 {
        let shorter = entries.drop_last();
        lemma_all_events(shorter, event);
        let last = entries.last().events;
        let all = all_events(entries);
        let before = all_events(shorter);
        assert(all == before + last);
        if all.contains(event) {
            let m = choose|m: int| 0 <= m < all.len() && all[m] == event;
            if m < before.len() {
                assert(before[m] == event);
                let k = choose|k: int|
                    0 <= k < shorter.len() && (#[trigger] shorter[k]).events.contains(event);
                assert(entries[k] == shorter[k]);
            } else {
                assert(last[m - before.len()] == event);
                assert(entries[entries.len() - 1].events.contains(event));
            }
        }
        if exists|k: int| 0 <= k < entries.len() && (#[trigger] entries[k]).events.contains(event) {
            let k = choose|k: int|
                0 <= k < entries.len() && (#[trigger] entries[k]).events.contains(event);
            if k < entries.len() - 1 {
                assert(shorter[k] == entries[k]);
                let m = choose|m: int| 0 <= m < before.len() && before[m] == event;
                assert(all[m] == event);
            } else {
                let m = choose|m: int| 0 <= m < last.len() && last[m] == event;
                assert(all[before.len() + m] == event);
            }
        }
    }
}

/// An event is among those of a range if and only if some source has it, it ends
/// after the start of the range and starts before its end. The events come by
/// their starts, then by their ends, then by their ids.
pub proof fn range_holds_events_of_all_sources(
    entries: Seq<SourceEventsModel>,
    from: i64,
    to: i64,
    event: ActivityEventModel,
)
    ensures
        range_events(entries, from, to).contains(event) <==> event.end_unix_ms > from
            && event.start_unix_ms < to && exists|k: int|
            0 <= k < entries.len() && (#[trigger] entries[k]).events.contains(event),
        forall|i: int, j: int|
            0 <= i < j < range_events(entries, from, to).len() ==> {
                let a = #[trigger] range_events(entries, from, to)[i];
                let b = #[trigger] range_events(entries, from, to)[j];
                &&& a.start_unix_ms <= b.start_unix_ms
                &&& a.start_unix_ms == b.start_unix_ms ==> a.end_unix_ms <= b.end_unix_ms
                &&& a.start_unix_ms == b.start_unix_ms && a.end_unix_ms == b.end_unix_ms
                    ==> !text_lt(b.id, a.id)
            },
{
    broadcast use vstd::seq_lib::group_to_multiset_ensures;

    let wanted = |event: ActivityEventModel| overlaps(event, from as int, to as int);
    let all = all_events(entries);
    let held = range_events(entries, from, to);
    sorting_orders_and_keeps_items::<ActivityEvent, EventOrder>(all.filter(wanted));
    lemma_filter_counts(all, wanted, event);
    lemma_all_events(entries, event);
    assert(held.contains(event) <==> held.to_multiset().count(event) > 0);
    assert(all.contains(event) <==> all.to_multiset().count(event) > 0);
    assert forall|i: int, j: int| 0 <= i < j < held.len() implies {
        let a = #[trigger] held[i];
        let b = #[trigger] held[j];
        &&& a.start_unix_ms <= b.start_unix_ms
        &&& a.start_unix_ms == b.start_unix_ms ==> a.end_unix_ms <= b.end_unix_ms
        &&& a.start_unix_ms == b.start_unix_ms && a.end_unix_ms == b.end_unix_ms ==> !text_lt(
            b.id,
            a.id,
        )
    } by {
        assert(!EventOrder::before(held[j], held[i]));
    }
}

/// A range is refused if and only if it does not end after its start, or spans
/// more than 370 days.
pub proof fn ranges_span_a_year_at_most(from: int, to: int)
    ensures
        range_error(from, to) is None <==> from < to && to - from <= 370 * 24 * 60 * 60 * 1000,
        to <= from ==> range_error(from, to) == Some(RangeError::Inverted),
        to - from > 370 * 24 * 60 * 60 * 1000 ==> range_error(from, to) == Some(
            RangeError::TooLong,
        ),
{
}

/// The busy dates of a range are each there once, the earlier ones first: the
/// dates that its events carry, or on which those without a date start here, and
/// the dates on which its tasks are due.
pub proof fn busy_dates_have_something_on(
    range: ActivityRangeModel,
    entries: Seq<SourceEventsModel>,
    todos: Seq<TodoItemModel>,
    from: i64,
    to: i64,
    dates: Seq<LocalDateModel>,
    date: Seq<char>,
)
    requires
        answers_query(range, entries, todos, from, to, dates),
    ensures
        range.from_unix_ms == from && range.to_unix_ms == to,
        forall|i: int|
            0 <= i < range.events.len() && (#[trigger] range.events[i]).start_date == Some(date)
                ==> range.busy_dates.contains(date),
        forall|i: int|
            0 <= i < range.events.len() && (#[trigger] range.events[i]).start_date is None
                && local_date(dates, range.events[i].start_unix_ms) == Some(date)
                ==> range.busy_dates.contains(date),
        forall|i: int|
            0 <= i < range.todos.len() && (#[trigger] range.todos[i]).due_date == Some(date)
                ==> range.busy_dates.contains(date),
        range.busy_dates.contains(date) ==> (exists|i: int|
            0 <= i < range.todos.len() && (#[trigger] range.todos[i]).due_date == Some(date)) || (
        exists|i: int|
            0 <= i < range.events.len() && ((#[trigger] range.events[i]).start_date == Some(date) || (
            range.events[i].start_date is None && local_date(dates, range.events[i].start_unix_ms)
                == Some(date)))),
        forall|i: int, j: int|
            0 <= i < j < range.busy_dates.len() ==> text_lt(
                #[trigger] range.busy_dates[i],
                #[trigger] range.busy_dates[j],
            ),
{
    assert forall|i: int|
        0 <= i < range.events.len() && ((#[trigger] range.events[i]).start_date == Some(date) || (
        range.events[i].start_date is None && local_date(dates, range.events[i].start_unix_ms)
            == Some(date))) implies range.busy_dates.contains(date) by {
        assert(event_date(range.events[i], dates) == Some(date));
    }
    if range.busy_dates.contains(date) && exists|i: int|
        0 <= i < range.events.len() && event_date(#[trigger] range.events[i], dates) == Some(date) {
        let k = choose|i: int|
            0 <= i < range.events.len() && event_date(#[trigger] range.events[i], dates) == Some(
                date,
            );
        assert(range.events[k].start_date == Some(date) || range.events[k].start_date is None);
    }
}

/// The date that a time has here is the one it was first given, where it was
/// given one.
pub proof fn local_dates_are_looked_up(dates: Seq<LocalDateModel>, at: int)
    requires
        0 <= at < dates.len(),
        forall|i: int| 0 <= i < at ==> (#[trigger] dates[i]).unix_ms != dates[at].unix_ms,
    ensures
        local_date(dates, dates[at].unix_ms) == dates[at].date,
    decreases dates.len(),
{
    if at > 0 {
        assert(dates[0].unix_ms != dates[at].unix_ms);
        let rest = dates.skip(1);
        assert forall|i: int| 0 <= i < at - 1 implies (#[trigger] rest[i]).unix_ms != rest[at
            - 1].unix_ms by {
            assert(rest[i] == dates[i + 1]);
        }
        local_dates_are_looked_up(rest, at - 1);
    }
}

/// The starts whose dates have to be found are those of the events without a date,
/// in order.
pub proof fn dates_are_found_for_events_without(
    events: Seq<ActivityEventModel>,
    event: ActivityEventModel,
)
    ensures
        undated_starts(Seq::empty()).len() == 0,
        event.start_date is None ==> undated_starts(events.push(event)) == undated_starts(
            events,
        ).push(event.start_unix_ms),
        event.start_date is Some ==> undated_starts(events.push(event)) == undated_starts(events),
{
    assert(events.push(event).drop_last() =~= events);
}

/// A range that is refused is told why.
pub proof fn refused_ranges_are_told_why(from: int, to: int)
    ensures
        to <= from ==> range_error(from, to)->0.text()
            == "to_unix_ms must be greater than from_unix_ms"@,
        to - from > MAX_RANGE_MS ==> range_error(from, to)->0.text()
            == "activity range cannot exceed 370 days"@,
{
}

} // verus!
