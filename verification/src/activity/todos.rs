//! The list of local tasks.

use vstd::prelude::*;

use crate::activity::calendar::{parse_date, parsed_date};
use crate::activity::model::{TodoItem, TodoItemModel};
use crate::record::Record;
use crate::text::{
    decimal, decimal_text, decimal_text_round_trip, integer_text, is_digit, is_empty, joined, joined3, same_text, signed_decimal,
    trim, trimmed,
};

verus! {

/// The highest priority of a task.
pub const MAX_PRIORITY: u8 = 9;

/// Why a change to the list of tasks is refused.
#[derive(Debug, PartialEq, Eq)]
pub enum TodoError {
    EmptyTitle,
    InvalidPriority,
    InvalidDueDate(String),
    NotFound(String),
}

/// What a [`TodoError`] says.
pub enum TodoErrorModel {
    EmptyTitle,
    InvalidPriority,
    InvalidDueDate(Seq<char>),
    NotFound(Seq<char>),
}

impl DeepView for TodoError {
    type V = TodoErrorModel;

    open spec fn deep_view(&self) -> TodoErrorModel {
        match self {
            TodoError::EmptyTitle => TodoErrorModel::EmptyTitle,
            TodoError::InvalidPriority => TodoErrorModel::InvalidPriority,
            TodoError::InvalidDueDate(date) => TodoErrorModel::InvalidDueDate(date@),
            TodoError::NotFound(id) => TodoErrorModel::NotFound(id@),
        }
    }
}

impl TodoErrorModel {
    /// The sentence that reports the error.
    pub open spec fn message(self) -> Seq<char> {
        match self {
            TodoErrorModel::EmptyTitle => "todo title cannot be empty"@,
            TodoErrorModel::InvalidPriority => "todo priority must be between 0 and 9"@,
            TodoErrorModel::InvalidDueDate(date) => "parse todo due date "@ + date,
            TodoErrorModel::NotFound(id) => "todo "@ + id + " was not found"@,
        }
    }
}

impl TodoError {
    /// The sentence that reports the error.
    pub fn message(&self) -> (message: String)
        ensures
            message@ == self.deep_view().message(),
    {
        match self {
            TodoError::EmptyTitle => "todo title cannot be empty".to_string(),
            TodoError::InvalidPriority => "todo priority must be between 0 and 9".to_string(),
            TodoError::InvalidDueDate(date) => joined("parse todo due date ", date.as_str()),
            TodoError::NotFound(id) => joined3("todo ", id.as_str(), " was not found"),
        }
    }
}

/// What a user says of a task to be added.
#[derive(Debug, PartialEq, Eq)]
pub struct TodoDraft {
    pub title: String,
    pub due_unix_ms: Option<i64>,
    pub due_date: Option<String>,
    pub priority: u8,
}

/// What a [`TodoDraft`] holds.
#[verifier::ext_equal]
pub struct TodoDraftModel {
    pub title: Seq<char>,
    pub due_unix_ms: Option<i64>,
    pub due_date: Option<Seq<char>>,
    pub priority: u8,
}

impl DeepView for TodoDraft {
    type V = TodoDraftModel;

    open spec fn deep_view(&self) -> TodoDraftModel {
        TodoDraftModel {
            title: self.title.deep_view(),
            due_unix_ms: self.due_unix_ms.deep_view(),
            due_date: self.due_date.deep_view(),
            priority: self.priority.deep_view(),
        }
    }
}

impl Record for TodoDraft {
    fn same(&self, other: &Self) -> (same: bool) {
        self.title.same(&other.title)
            && self.due_unix_ms.same(&other.due_unix_ms)
            && self.due_date.same(&other.due_date)
            && self.priority.same(&other.priority)
    }

    fn copy(&self) -> (copy: Self) {
        TodoDraft {
            title: self.title.copy(),
            due_unix_ms: self.due_unix_ms.copy(),
            due_date: self.due_date.copy(),
            priority: self.priority.copy(),
        }
    }
}

impl Clone for TodoDraft {
    fn clone(&self) -> (copy: Self)
        ensures
            copy.deep_view() == self.deep_view(),
    {
        self.copy()
    }
}

impl TodoDraftModel {
    /// What a default [`TodoDraft`] holds.
    pub open spec fn initial() -> TodoDraftModel {
        TodoDraftModel {
            title: Seq::empty(),
            due_unix_ms: None,
            due_date: None,
            priority: 0,
        }
    }
}

impl Default for TodoDraft {
    fn default() -> (value: TodoDraft)
        ensures
            value.deep_view() == TodoDraftModel::initial(),
    {
        let value = TodoDraft {
            title: String::new(),
            due_unix_ms: None,
            due_date: None,
            priority: 0,
        };
        assert(value.deep_view() =~= TodoDraftModel::initial());
        value
    }
}

/// What is wrong with a task to be added.
pub open spec fn draft_error(draft: TodoDraftModel) -> Option<TodoErrorModel> {
    if trimmed(draft.title).len() == 0 {
        Some(TodoErrorModel::EmptyTitle)
    } else if draft.priority > MAX_PRIORITY {
        Some(TodoErrorModel::InvalidPriority)
    } else {
        match draft.due_date {
            Some(date) => if parsed_date(date, "%Y-%m-%d"@) is None {
                Some(TodoErrorModel::InvalidDueDate(date))
            } else {
                None
            },
            None => None,
        }
    }
}

/// The task that a draft describes, made at a time with a sequence number.
pub open spec fn drafted_todo(draft: TodoDraftModel, now: i64, sequence: u64) -> TodoItemModel {
    TodoItemModel {
        id: "local-"@ + integer_text(now as int) + ("-"@ + decimal_text(sequence as nat)),
        source_id: "local"@,
        title: trimmed(draft.title),
        completed: false,
        priority: draft.priority,
        due_unix_ms: draft.due_unix_ms,
        due_date: draft.due_date,
        created_unix_ms: now,
        completed_unix_ms: None,
    }
}

/// Adds a task behind the others. Gives the new list and the task.
pub fn create_todo(todos: &Vec<TodoItem>, draft: TodoDraft, now: i64, sequence: u64) -> (result:
    Result<(Vec<TodoItem>, TodoItem), TodoError>)
    ensures
        match result {
            Ok((list, todo)) => {
                &&& draft_error(draft.deep_view()) is None
                &&& todo.deep_view() == drafted_todo(draft.deep_view(), now, sequence)
                &&& list.deep_view() == todos.deep_view().push(todo.deep_view())
            },
            Err(error) => draft_error(draft.deep_view()) == Some(error.deep_view()),
        },
{
    let title = trim(draft.title.as_str());
    if is_empty(title.as_str()) {
        return Err(TodoError::EmptyTitle);
    }
    if draft.priority > MAX_PRIORITY {
        return Err(TodoError::InvalidPriority);
    }
    if let Some(date) = &draft.due_date {
        if parse_date(date.as_str(), "%Y-%m-%d").is_none() {
            return Err(TodoError::InvalidDueDate(date.clone()));
        }
    }
    let tail = joined("-", decimal(sequence).as_str());
    let todo = TodoItem {
        id: joined3("local-", signed_decimal(now).as_str(), tail.as_str()),
        source_id: "local".to_string(),
        title,
        completed: false,
        priority: draft.priority,
        due_unix_ms: draft.due_unix_ms,
        due_date: draft.due_date,
        created_unix_ms: now,
        completed_unix_ms: None,
    };
    let mut list = todos.copy();
    list.push(todo.copy());
    assert(list.deep_view() =~= todos.deep_view().push(todo.deep_view()));
    Ok((list, todo))
}

/// The place of the first task with an id, or the length of the list.
pub open spec fn todo_position(todos: Seq<TodoItemModel>, id: Seq<char>) -> nat
    decreases todos.len(),
{
    if todos.len() == 0 || todos[0].id == id {
        0
    } else {
        1 + todo_position(todos.skip(1), id)
    }
}

/// A task that was marked as done, or as not done, at a time.
pub open spec fn marked_todo(todo: TodoItemModel, completed: bool, now: i64) -> TodoItemModel {
    TodoItemModel {
        completed,
        completed_unix_ms: if completed {
            Some(now)
        } else {
            None
        },
        ..todo
    }
}

fn find_todo(todos: &Vec<TodoItem>, id: &str) -> (at: usize)
    ensures
        at == todo_position(todos.deep_view(), id@),
        at <= todos@.len(),
{
    let ghost all = todos.deep_view();
    let mut at: usize = 0;
    assert(all.skip(0) =~= all);
    while at < todos.len()
        invariant
            at <= todos@.len(),
            all == todos.deep_view(),
            todo_position(all, id@) == at + todo_position(all.skip(at as int), id@),
        decreases todos@.len() - at,
    {
        assert(all.skip(at as int)[0] == todos@[at as int].deep_view());
        if same_text(todos[at].id.as_str(), id) {
            return at;
        }
        assert(all.skip(at as int).skip(1) =~= all.skip(at + 1));
        at = at + 1;
    }
    at
}

/// Marks the first task with an id as done or as not done. Gives the new list
/// and the task.
pub fn complete_todo(todos: &Vec<TodoItem>, id: &str, completed: bool, now: i64) -> (result: Result<
    (Vec<TodoItem>, TodoItem),
    TodoError,
>)
    ensures
        ({
            let all = todos.deep_view();
            let at = todo_position(all, id@) as int;
            match result {
                Ok((list, todo)) => {
                    &&& at < all.len()
                    &&& todo.deep_view() == marked_todo(all[at], completed, now)
                    &&& list.deep_view() == all.update(at, todo.deep_view())
                },
                Err(error) => at >= all.len() && error.deep_view() == TodoErrorModel::NotFound(id@),
            }
        }),
{
    let at: usize = find_todo(todos, id);
    if at >= todos.len() {
        return Err(TodoError::NotFound(id.to_string()));
    }
    let mut todo = todos[at].copy();
    todo.completed = completed;
    todo.completed_unix_ms = if completed {
        Some(now)
    } else {
        None
    };
    let mut list = todos.copy();
    list.set(at, todo.copy());
    assert(todos.deep_view()[at as int] == todos@[at as int].deep_view());
    assert(list.deep_view() =~= todos.deep_view().update(at as int, todo.deep_view()));
    Ok((list, todo))
}

/// The tasks that do not have an id.
pub open spec fn without_todo(todos: Seq<TodoItemModel>, id: Seq<char>) -> Seq<TodoItemModel> {
    todos.filter(|todo: TodoItemModel| todo.id != id)
}

/// Takes every task with an id off the list.
pub fn delete_todo(todos: &Vec<TodoItem>, id: &str) -> (result: Result<Vec<TodoItem>, TodoError>)
    ensures
        ({
            let found = exists|i: int|
                0 <= i < todos@.len() && (#[trigger] todos.deep_view()[i]).id == id@;
            match result {
                Ok(list) => found && list.deep_view() == without_todo(todos.deep_view(), id@),
                Err(error) => !found && error.deep_view() == TodoErrorModel::NotFound(id@),
            }
        }),
{
    reveal(Seq::filter);
    let ghost all = todos.deep_view();
    let mut list: Vec<TodoItem> = Vec::new();
    let mut found = false;
    let mut i: usize = 0;
    assert(all.take(0) =~= Seq::<TodoItemModel>::empty());
    assert(list.deep_view() =~= without_todo(all.take(0), id@));
    while i < todos.len()
        invariant
            i <= todos@.len(),
            all == todos.deep_view(),
            list.deep_view() == without_todo(all.take(i as int), id@),
            found <==> exists|k: int| 0 <= k < i && (#[trigger] all[k]).id == id@,
        decreases todos@.len() - i,
    {
        reveal(Seq::filter);
        assert(all[i as int] == todos@[i as int].deep_view());
        assert(all.take(i + 1).drop_last() =~= all.take(i as int));
        assert(all.take(i + 1).last() == all[i as int]);
        let ghost before = list.deep_view();
        if same_text(todos[i].id.as_str(), id) {
            found = true;
        } else {
            let todo = todos[i].copy();
            list.push(todo);
            assert(list.deep_view() =~= before.push(all[i as int]));
        }
        i = i + 1;
    }
    assert(all.take(i as int) =~= all);
    if found {
        Ok(list)
    } else {
        Err(TodoError::NotFound(id.to_string()))
    }
}

/// A task that was added can be found, marked, and deleted again, and deleting
/// it leaves the list as it was before, where no task had its id.
pub proof fn deleting_undoes_creating(todos: Seq<TodoItemModel>, todo: TodoItemModel)
    requires
        forall|i: int| 0 <= i < todos.len() ==> (#[trigger] todos[i]).id != todo.id,
    ensures
        todo_position(todos.push(todo), todo.id) == todos.len(),
        without_todo(todos.push(todo), todo.id) == todos,
    decreases todos.len(),
{
    reveal(Seq::filter);
    assert(todos.push(todo).drop_last() =~= todos);
    lemma_without_absent(todos, todo.id);
    if todos.len() > 0 {
        let rest = todos.skip(1);
        assert forall|i: int| 0 <= i < rest.len() implies (#[trigger] rest[i]).id != todo.id by {
            assert(rest[i] == todos[i + 1]);
        }
        deleting_undoes_creating(rest, todo);
        assert(todos.push(todo).skip(1) =~= rest.push(todo));
        assert(todos.push(todo)[0] == todos[0]);
    }
}

proof fn lemma_without_absent(todos: Seq<TodoItemModel>, id: Seq<char>)
    requires
        forall|i: int| 0 <= i < todos.len() ==> (#[trigger] todos[i]).id != id,
    ensures
        without_todo(todos, id) == todos,
    decreases todos.len(),
{
    reveal(Seq::filter);
    if todos.len() > 0 {
        let shorter = todos.drop_last();
        assert forall|i: int| 0 <= i < shorter.len() implies (#[trigger] shorter[i]).id != id by {
            assert(shorter[i] == todos[i]);
        }
        lemma_without_absent(shorter, id);
        assert(shorter.push(todos.last()) =~= todos);
        assert(todos[todos.len() - 1].id != id);
    }
}

// Laws

/// A draft is accepted if and only if it has a title that is more than white
/// space, a priority from 0 to 9, and a due date that is a date where it has
/// one.
pub proof fn drafts_are_accepted_that_make_sense(draft: TodoDraftModel)
    ensures
        draft_error(draft) is None <==> trimmed(draft.title).len() > 0 && draft.priority <= 9 && (
        draft.due_date is None || parsed_date(draft.due_date->0, "%Y-%m-%d"@) is Some),
        trimmed(draft.title).len() == 0 ==> draft_error(draft) == Some(TodoErrorModel::EmptyTitle),
        trimmed(draft.title).len() > 0 && draft.priority > 9 ==> draft_error(draft) == Some(
            TodoErrorModel::InvalidPriority,
        ),
{
}

/// A new task is to be done, has what the draft says, and an id that no task made
/// at another time or under another number has.
pub proof fn new_tasks_have_what_drafts_say(
    draft: TodoDraftModel,
    now: i64,
    sequence: u64,
    other: TodoDraftModel,
    later: i64,
    next: u64,
)
    requires
        now >= 0,
        later >= 0,
    ensures
        ({
            let todo = drafted_todo(draft, now, sequence);
            &&& todo.title == trimmed(draft.title)
            &&& todo.due_unix_ms == draft.due_unix_ms
            &&& todo.due_date == draft.due_date
            &&& todo.priority == draft.priority
            &&& !todo.completed
            &&& todo.completed_unix_ms is None
            &&& todo.created_unix_ms == now
            &&& todo.source_id == "local"@
            &&& todo.id == drafted_todo(other, later, next).id ==> now == later && sequence == next
        }),
{
    reveal_strlit("local-");
    reveal_strlit("-");
    assert("local-"@.len() == 6 && "-"@.len() == 1 && "-"@[0] == '-');
    let a = decimal_text(now as nat);
    let b = decimal_text(sequence as nat);
    let c = decimal_text(later as nat);
    let d = decimal_text(next as nat);
    decimal_text_round_trip(now as nat);
    decimal_text_round_trip(sequence as nat);
    decimal_text_round_trip(later as nat);
    decimal_text_round_trip(next as nat);
    let x = drafted_todo(draft, now, sequence).id;
    let y = drafted_todo(other, later, next).id;
    assert(x == "local-"@ + a + ("-"@ + b));
    assert(y == "local-"@ + c + ("-"@ + d));
    if x == y {
        if a.len() < c.len() {
            assert(x[6 + a.len() as int] == '-');
            assert(y[6 + a.len() as int] == c[a.len() as int]);
            assert(is_digit(c[a.len() as int]));
        }
        if c.len() < a.len() {
            assert(y[6 + c.len() as int] == '-');
            assert(x[6 + c.len() as int] == a[c.len() as int]);
            assert(is_digit(a[c.len() as int]));
        }
        assert(a.len() == c.len());
        assert forall|i: int| 0 <= i < a.len() implies a[i] == c[i] by {
            assert(x[6 + i] == a[i]);
            assert(y[6 + i] == c[i]);
        }
        assert(a =~= c);
        assert(b.len() == d.len());
        assert forall|i: int| 0 <= i < b.len() implies b[i] == d[i] by {
            assert(x[7 + a.len() + i] == b[i]);
            assert(y[7 + a.len() + i] == d[i]);
        }
        assert(b =~= d);
    }
}

/// Marking a task changes whether and when it was done, and nothing else of it; a
/// task that is to be done again was done at no time.
pub proof fn marking_changes_completion_only(todo: TodoItemModel, completed: bool, now: i64)
    ensures
        ({
            let after = marked_todo(todo, completed, now);
            &&& after.completed == completed
            &&& completed ==> after.completed_unix_ms == Some(now)
            &&& !completed ==> after.completed_unix_ms is None
            &&& after.id == todo.id && after.source_id == todo.source_id && after.title
                == todo.title && after.priority == todo.priority
            &&& after.due_unix_ms == todo.due_unix_ms && after.due_date == todo.due_date
                && after.created_unix_ms == todo.created_unix_ms
        }),
{
}

/// A task is found by its id, the first of those that share it.
pub proof fn tasks_are_found_by_id(todos: Seq<TodoItemModel>, id: Seq<char>)
    ensures
        ({
            let at = todo_position(todos, id) as int;
            &&& at <= todos.len()
            &&& at < todos.len() ==> todos[at].id == id
            &&& forall|i: int| 0 <= i < at ==> (#[trigger] todos[i]).id != id
        }),
    decreases todos.len(),
{
    if todos.len() > 0 && todos[0].id != id {
        let rest = todos.skip(1);
        tasks_are_found_by_id(rest, id);
        assert forall|i: int| 0 <= i < todo_position(todos, id) implies (#[trigger] todos[i]).id
            != id by {
            if i > 0 {
                assert(rest[i - 1] == todos[i]);
            }
        }
    }
}

/// Deleting takes out every task with the id and leaves all others, in order.
pub proof fn deleting_leaves_other_tasks(
    todos: Seq<TodoItemModel>,
    id: Seq<char>,
    todo: TodoItemModel,
)
    ensures
        without_todo(todos, id).contains(todo) <==> todos.contains(todo) && todo.id != id,
        without_todo(todos.push(todo), id) == if todo.id == id {
            without_todo(todos, id)
        } else {
            without_todo(todos, id).push(todo)
        },
{
    reveal(Seq::filter);
    let wanted = |todo: TodoItemModel| todo.id != id;
    let kept = todos.filter(wanted);
    assert(todos.push(todo).drop_last() =~= todos);
    if kept.contains(todo) {
        let k = choose|k: int| 0 <= k < kept.len() && kept[k] == todo;
        todos.lemma_filter_pred(wanted, k);
        todos.lemma_filter_contains_rev(wanted, todo);
    }
    if todos.contains(todo) && todo.id != id {
        let k = choose|k: int| 0 <= k < todos.len() && todos[k] == todo;
        todos.lemma_filter_contains(wanted, k);
    }
}

/// What is wrong with a request is told, with what it was about.
pub proof fn todo_errors_say_what_is_wrong(text: Seq<char>)
    ensures
        TodoErrorModel::EmptyTitle.message() == "todo title cannot be empty"@,
        TodoErrorModel::InvalidPriority.message() == "todo priority must be between 0 and 9"@,
        TodoErrorModel::InvalidDueDate(text).message() == "parse todo due date "@ + text,
        TodoErrorModel::NotFound(text).message() == "todo "@ + text + " was not found"@,
{
}

} // verus!
