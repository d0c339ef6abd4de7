//! The notifications of the session: what becomes of them, and what is to be
//! stored and signalled.

use vstd::prelude::*;
use vstd::utf8::encode_utf8;

use crate::activity::notifications::close_reason::{DISMISSED, EXPIRED, UNDEFINED};
use crate::activity::notifications::model::{
    activated, time_sum, ActiveNotification, ActiveNotificationModel, IncomingNotification,
    IncomingNotificationModel, NotificationSignal, NotificationSignalModel, DEFAULT_TIMEOUT_MS,
};
use crate::activity::notifications::policy::{NotificationPolicy, PolicyError};
use crate::activity::notifications::table::{
    contains_id, find_place, has_id, is_table, item_of, lemma_place, lemma_some_place, lemma_unique,
    place_of, put_item, putting_in_changes_one, some_place, take_item, taking_out_changes_one,
    with_item, without_id,
};
use crate::activity::service::{bounded_count, count_u32};
use crate::model::{
    NotificationActiveState, NotificationActiveStateModel, NotificationState,
    NotificationStateModel,
};
use crate::record::Record;
use crate::text::{decimal, decimal_text, is_empty, joined3, same_text};

verus! {

/// Something that the history has to remember.
#[derive(Debug, PartialEq, Eq)]
pub enum PersistenceCommand {
    Save(ActiveNotification),
    Close { id: u32, closed_unix_ms: u64, reason: u32 },
    Clear { closed_unix_ms: u64, reason: u32 },
    SetDnd { enabled: bool, until_unix_ms: Option<u64> },
}

/// What a [`PersistenceCommand`] says.
pub enum PersistenceCommandModel {
    Save(ActiveNotificationModel),
    Close { id: u32, closed_unix_ms: u64, reason: u32 },
    Clear { closed_unix_ms: u64, reason: u32 },
    SetDnd { enabled: bool, until_unix_ms: Option<u64> },
}

impl DeepView for PersistenceCommand {
    type V = PersistenceCommandModel;

    open spec fn deep_view(&self) -> PersistenceCommandModel {
        match self {
            PersistenceCommand::Save(item) => PersistenceCommandModel::Save(item.deep_view()),
            PersistenceCommand::Close { id, closed_unix_ms, reason } =>
                PersistenceCommandModel::Close {
                    id: *id,
                    closed_unix_ms: *closed_unix_ms,
                    reason: *reason,
                },
            PersistenceCommand::Clear { closed_unix_ms, reason } =>
                PersistenceCommandModel::Clear { closed_unix_ms: *closed_unix_ms, reason: *reason },
            PersistenceCommand::SetDnd { enabled, until_unix_ms } =>
                PersistenceCommandModel::SetDnd {
                    enabled: *enabled,
                    until_unix_ms: *until_unix_ms,
                },
        }
    }
}

/// What is left to do after a change: what to store, what to signal, and
/// whether to publish and to look for the next expiry.
#[derive(Debug, PartialEq, Eq)]
pub struct EngineEffects {
    pub commands: Vec<PersistenceCommand>,
    pub signals: Vec<NotificationSignal>,
    pub changed: bool,
}

/// What [`EngineEffects`] hold.
#[verifier::ext_equal]
pub struct EffectsModel {
    pub commands: Seq<PersistenceCommandModel>,
    pub signals: Seq<NotificationSignalModel>,
    pub changed: bool,
}

impl DeepView for EngineEffects {
    type V = EffectsModel;

    open spec fn deep_view(&self) -> EffectsModel {
        EffectsModel {
            commands: self.commands.deep_view(),
            signals: self.signals.deep_view(),
            changed: self.changed,
        }
    }
}

impl EffectsModel {
    /// Nothing to do.
    pub open spec fn none() -> EffectsModel {
        EffectsModel { commands: Seq::empty(), signals: Seq::empty(), changed: false }
    }

    /// One thing to do behind the other.
    pub open spec fn followed_by(self, next: EffectsModel) -> EffectsModel {
        EffectsModel {
            commands: self.commands + next.commands,
            signals: self.signals + next.signals,
            changed: self.changed || next.changed,
        }
    }
}

impl EngineEffects {
    fn none() -> (effects: EngineEffects)
        ensures
            effects.deep_view() == EffectsModel::none(),
    {
        let effects = EngineEffects { commands: Vec::new(), signals: Vec::new(), changed: false };
        assert(effects.deep_view() =~= EffectsModel::none());
        effects
    }

    fn command(&mut self, command: PersistenceCommand)
        ensures
            final(self).deep_view() == (EffectsModel {
                commands: old(self).deep_view().commands.push(command.deep_view()),
                ..old(self).deep_view()
            }),
    {
        self.commands.push(command);
        assert(self.commands.deep_view() =~= old(self).commands.deep_view().push(
            command.deep_view(),
        ));
    }

    fn signal(&mut self, signal: NotificationSignal)
        ensures
            final(self).deep_view() == (EffectsModel {
                signals: old(self).deep_view().signals.push(signal.deep_view()),
                ..old(self).deep_view()
            }),
    {
        self.signals.push(signal);
        assert(self.signals.deep_view() =~= old(self).signals.deep_view().push(signal.deep_view()));
    }

    fn append(&mut self, next: EngineEffects)
        ensures
            final(self).deep_view() == old(self).deep_view().followed_by(next.deep_view()),
    {
        let EngineEffects { mut commands, mut signals, changed } = next;
        let ghost added_commands = commands.deep_view();
        let ghost added_signals = signals.deep_view();
        self.commands.append(&mut commands);
        self.signals.append(&mut signals);
        self.changed = self.changed || changed;
        assert(self.commands.deep_view() =~= old(self).commands.deep_view() + added_commands);
        assert(self.signals.deep_view() =~= old(self).signals.deep_view() + added_signals);
    }
}

/// The state of the engine.
#[verifier::ext_equal]
pub struct EngineModel {
    /// Notifications that have not been closed, in ascending order of id.
    pub active: Seq<ActiveNotificationModel>,
    pub dnd: bool,
    pub dnd_until_unix_ms: Option<u64>,
    pub history_revision: u64,
    /// The id that was given out last.
    pub next_id: u32,
}

/// The notifications of the session.
pub struct NotificationEngine {
    active: Vec<ActiveNotification>,
    dnd: bool,
    dnd_until_unix_ms: Option<u64>,
    history_revision: u64,
    next_id: u32,
    policy: NotificationPolicy,
}

impl View for NotificationEngine {
    type V = EngineModel;

    closed spec fn view(&self) -> EngineModel {
        EngineModel {
            active: self.active.deep_view(),
            dnd: self.dnd,
            dnd_until_unix_ms: self.dnd_until_unix_ms,
            history_revision: self.history_revision,
            next_id: self.next_id,
        }
    }
}

impl NotificationEngine {
    /// Whether no id stands twice.
    pub open spec fn wf(&self) -> bool {
        is_table(self@.active)
    }

    /// The limits that the engine keeps.
    pub closed spec fn limits(&self) -> NotificationPolicy {
        self.policy
    }
}

/// The revision behind a revision.
pub open spec fn next_revision(revision: u64) -> u64 {
    if revision == u64::MAX {
        0
    } else {
        (revision + 1) as u64
    }
}

/// The counter behind a counter of ids.
pub open spec fn next_counter(counter: u32) -> u32 {
    if counter == u32::MAX {
        0
    } else {
        (counter + 1) as u32
    }
}

/// The id that a counter gives: never zero.
pub open spec fn counter_id(counter: u32) -> u32 {
    if counter == 0 {
        1
    } else {
        counter
    }
}

/// The first free id behind a counter, and the counter then, in so many tries.
pub open spec fn allocated(active: Seq<ActiveNotificationModel>, counter: u32, tries: nat) -> (
    Option<u32>,
    u32,
)
    decreases tries,
{
    if tries == 0 {
        (None, counter)
    } else {
        let next = next_counter(counter);
        let id = counter_id(next);
        if has_id(active, id) {
            allocated(active, next, (tries - 1) as nat)
        } else {
            (Some(id), next)
        }
    }
}

/// The notification that was made first; of those, the one with the least id.
pub open spec fn oldest(items: Seq<ActiveNotificationModel>) -> ActiveNotificationModel
    decreases items.len(),
{
    if items.len() <= 1 {
        items[0]
    } else {
        let first = oldest(items.drop_last());
        let last = items.last();
        if last.created_unix_ms < first.created_unix_ms {
            last
        } else {
            first
        }
    }
}

/// Why a notification is not taken in.
#[derive(Clone, Copy, Debug, PartialEq, Eq, Structural)]
pub enum NotifyError {
    /// It breaks a limit.
    Policy(PolicyError),
    /// All ids are taken.
    Exhausted,
}

impl NotifyError {
    /// The sentence that reports the error.
    pub open spec fn text(self) -> Seq<char> {
        match self {
            NotifyError::Policy(error) => error.text(),
            NotifyError::Exhausted => "notification ID space is exhausted"@,
        }
    }

    /// The sentence that reports the error.
    pub fn message(&self) -> (message: &'static str)
        ensures
            message@ == self.text(),
    {
        match self {
            NotifyError::Policy(error) => error.message(),
            NotifyError::Exhausted => "notification ID space is exhausted",
        }
    }
}

/// What taking in a notification gives.
pub enum NotifyOutcome {
    Accepted { id: u32, effects: EffectsModel },
    Refused(NotifyError),
}

/// The engine once a notification took the place of one with the same id.
pub open spec fn replaced(
    engine: EngineModel,
    id: u32,
    incoming: IncomingNotificationModel,
    monitor: Seq<char>,
    now: u64,
) -> (EngineModel, NotifyOutcome) {
    let stored = ActiveNotificationModel {
        created_unix_ms: item_of(engine.active, id)->0.created_unix_ms,
        source_monitor: monitor,
        ..activated(id, incoming, now)
    };
    (
        EngineModel {
            active: with_item(engine.active, stored),
            history_revision: next_revision(engine.history_revision),
            ..engine
        },
        NotifyOutcome::Accepted {
            id,
            effects: EffectsModel {
                commands: seq![PersistenceCommandModel::Save(stored)],
                signals: Seq::empty(),
                changed: true,
            },
        },
    )
}

/// The engine once a notification with a new id was added. Where there are as
/// many as there may be, the oldest has to go.
pub open spec fn added(
    engine: EngineModel,
    policy: NotificationPolicy,
    id: u32,
    incoming: IncomingNotificationModel,
    monitor: Seq<char>,
    now: u64,
) -> (EngineModel, NotifyOutcome) {
    let stored = ActiveNotificationModel { source_monitor: monitor, ..activated(id, incoming, now) };
    let full = engine.active.len() >= policy.maximum_active && engine.active.len() > 0;
    let gone = oldest(engine.active).id;
    let kept = if full {
        without_id(engine.active, gone)
    } else {
        engine.active
    };
    (
        EngineModel {
            active: with_item(kept, stored),
            history_revision: next_revision(engine.history_revision),
            ..engine
        },
        NotifyOutcome::Accepted {
            id,
            effects: EffectsModel {
                commands: if full {
                    seq![
                        PersistenceCommandModel::Save(stored),
                        PersistenceCommandModel::Close {
                            id: gone,
                            closed_unix_ms: now,
                            reason: UNDEFINED,
                        },
                    ]
                } else {
                    seq![PersistenceCommandModel::Save(stored)]
                },
                signals: if full {
                    seq![NotificationSignalModel::Closed { id: gone, reason: UNDEFINED }]
                } else {
                    Seq::empty()
                },
                changed: true,
            },
        },
    )
}

/// The engine once a notification came in.
pub open spec fn notified(
    engine: EngineModel,
    policy: NotificationPolicy,
    replaces_id: u32,
    incoming: IncomingNotificationModel,
    monitor: Seq<char>,
    now: u64,
) -> (EngineModel, NotifyOutcome) {
    if policy.error(incoming) is Some {
        (engine, NotifyOutcome::Refused(NotifyError::Policy(policy.error(incoming)->0)))
    } else if replaces_id != 0 && has_id(engine.active, replaces_id) {
        replaced(engine, replaces_id, incoming, monitor, now)
    } else {
        let (id, counter) = allocated(engine.active, engine.next_id, u32::MAX as nat);
        let counted = EngineModel { next_id: counter, ..engine };
        match id {
            Some(id) => added(counted, policy, id, incoming, monitor, now),
            None => (counted, NotifyOutcome::Refused(NotifyError::Exhausted)),
        }
    }
}

fn find_oldest(items: &Vec<ActiveNotification>) -> (id: u32)
    requires
        items@.len() > 0,
    ensures
        id == oldest(items.deep_view()).id,
{
    let ghost all = items.deep_view();
    let mut best: usize = 0;
    let mut i: usize = 1;
    assert(all.take(1).len() == 1);
    while i < items.len()
        invariant
            1 <= i <= items@.len(),
            best < i,
            all == items.deep_view(),
            oldest(all.take(i as int)) == items@[best as int].deep_view(),
        decreases items@.len() - i,
    {
        assert(all.take(i + 1).drop_last() =~= all.take(i as int));
        assert(all.take(i + 1).last() == items@[i as int].deep_view());
        if items[i].created_unix_ms < items[best].created_unix_ms {
            best = i;
        }
        i = i + 1;
    }
    assert(all.take(i as int) =~= all);
    items[best].id
}

impl NotificationEngine {
    fn allocate_id(&mut self) -> (id: Option<u32>)
        requires
            old(self).wf(),
        ensures
            id == allocated(old(self)@.active, old(self)@.next_id, u32::MAX as nat).0,
            final(self)@ == (EngineModel {
                next_id: allocated(old(self)@.active, old(self)@.next_id, u32::MAX as nat).1,
                ..old(self)@
            }),
            final(self).limits() == old(self).limits(),
    {
        let mut tries: u32 = u32::MAX;
        while tries > 0
            invariant
                self.wf(),
                self@ == (EngineModel { next_id: self.next_id, ..old(self)@ }),
                self.policy == old(self).policy,
                allocated(old(self)@.active, old(self)@.next_id, u32::MAX as nat) == allocated(
                    old(self)@.active,
                    self.next_id,
                    tries as nat,
                ),
            decreases tries,
        {
            self.next_id = self.next_id.wrapping_add(1);
            let id: u32 = if self.next_id == 0 {
                1
            } else {
                self.next_id
            };
            if !contains_id(&self.active, id) {
                return Some(id);
            }
            tries = tries - 1;
        }
        None
    }
}

proof fn lemma_allocated_is_free(active: Seq<ActiveNotificationModel>, counter: u32, tries: nat)
    ensures
        allocated(active, counter, tries).0 matches Some(id) ==> id != 0 && !has_id(active, id),
    decreases tries,
{
    if tries > 0 {
        lemma_allocated_is_free(active, next_counter(counter), (tries - 1) as nat);
    }
}

/// The engine once the notification with an id was closed.
pub open spec fn closed(engine: EngineModel, id: u32, reason: u32, now: u64) -> (
    EngineModel,
    EffectsModel,
) {
    if has_id(engine.active, id) {
        (
            EngineModel {
                active: without_id(engine.active, id),
                history_revision: next_revision(engine.history_revision),
                ..engine
            },
            EffectsModel {
                commands: seq![PersistenceCommandModel::Close { id, closed_unix_ms: now, reason }],
                signals: seq![NotificationSignalModel::Closed { id, reason }],
                changed: true,
            },
        )
    } else {
        (engine, EffectsModel::none())
    }
}

/// The engine once the notifications with some ids were closed, one after the other.
pub open spec fn closed_all(engine: EngineModel, ids: Seq<u32>, reason: u32, now: u64) -> (
    EngineModel,
    EffectsModel,
)
    decreases ids.len(),
{
    if ids.len() == 0 {
        (engine, EffectsModel::none())
    } else {
        let before = closed_all(engine, ids.drop_last(), reason, now);
        let after = closed(before.0, ids.last(), reason, now);
        (after.0, before.1.followed_by(after.1))
    }
}

/// The ids of notifications.
pub open spec fn ids_of(items: Seq<ActiveNotificationModel>) -> Seq<u32> {
    items.map_values(|item: ActiveNotificationModel| item.id)
}

/// The engine once all notifications were dismissed.
pub open spec fn cleared(engine: EngineModel, now: u64) -> (EngineModel, EffectsModel) {
    if engine.active.len() == 0 {
        (engine, EffectsModel::none())
    } else {
        (
            EngineModel {
                active: Seq::empty(),
                history_revision: next_revision(engine.history_revision),
                ..engine
            },
            EffectsModel {
                commands: seq![
                    PersistenceCommandModel::Clear { closed_unix_ms: now, reason: DISMISSED },
                ],
                signals: ids_of(engine.active).map_values(
                    |id: u32| NotificationSignalModel::Closed { id, reason: DISMISSED },
                ),
                changed: true,
            },
        )
    }
}

/// The engine once it was told whether to disturb. A time until when counts
/// only while it is not to disturb.
pub open spec fn with_dnd(engine: EngineModel, enabled: bool, until: Option<u64>) -> (
    EngineModel,
    EffectsModel,
) {
    let until = if enabled {
        until
    } else {
        None
    };
    (
        EngineModel { dnd: enabled, dnd_until_unix_ms: until, ..engine },
        if engine.dnd != enabled || engine.dnd_until_unix_ms != until {
            EffectsModel {
                commands: seq![PersistenceCommandModel::SetDnd { enabled, until_unix_ms: until }],
                signals: Seq::empty(),
                changed: true,
            }
        } else {
            EffectsModel::none()
        },
    )
}

/// A notification that was put off until a time. One that would have expired
/// expires some time after that.
pub open spec fn snoozed_item(item: ActiveNotificationModel, until: u64, now: u64)
    -> ActiveNotificationModel {
    ActiveNotificationModel {
        snoozed_until_unix_ms: Some(until),
        updated_unix_ms: now,
        expires_unix_ms: if item.expires_unix_ms is Some {
            Some(time_sum(until, DEFAULT_TIMEOUT_MS))
        } else {
            None
        },
        ..item
    }
}

/// The engine once a notification was put off until a later time.
pub open spec fn snoozed(engine: EngineModel, id: u32, until: u64, now: u64) -> (
    EngineModel,
    EffectsModel,
) {
    if until > now && has_id(engine.active, id) {
        let stored = snoozed_item(item_of(engine.active, id)->0, until, now);
        (
            EngineModel {
                active: with_item(engine.active, stored),
                history_revision: next_revision(engine.history_revision),
                ..engine
            },
            EffectsModel {
                commands: seq![PersistenceCommandModel::Save(stored)],
                signals: Seq::empty(),
                changed: true,
            },
        )
    } else {
        (engine, EffectsModel::none())
    }
}

impl NotificationEngine {
    /// Takes in a notification that comes from the focused monitor.
    pub fn notify(
        &mut self,
        replaces_id: u32,
        notification: IncomingNotification,
        source_monitor: String,
        now: u64,
    ) -> (result: Result<(u32, EngineEffects), NotifyError>)
        requires
            old(self).wf(),
        ensures
            final(self).wf(),
            final(self).limits() == old(self).limits(),
            ({
                let (engine, outcome) = notified(
                    old(self)@,
                    old(self).limits(),
                    replaces_id,
                    notification.deep_view(),
                    source_monitor@,
                    now,
                );
                &&& final(self)@ == engine
                &&& match result {
                    Ok((id, effects)) => outcome == (NotifyOutcome::Accepted {
                        id,
                        effects: effects.deep_view(),
                    }),
                    Err(error) => outcome == NotifyOutcome::Refused(error),
                }
            }),
    {
        if let Err(error) = self.policy.validate(&notification) {
            return Err(NotifyError::Policy(error));
        }
        let mut effects = EngineEffects::none();
        effects.changed = true;
        if replaces_id != 0 && contains_id(&self.active, replaces_id) {
            let at: usize = find_place(&self.active, replaces_id);
            proof {
                let all = self.active.deep_view();
                lemma_place(
                    all,
                    ActiveNotificationModel {
                        id: replaces_id,
                        ..ActiveNotificationModel::initial()
                    },
                    at as int,
                );
                assert(all[at as int] == self.active@[at as int].deep_view());
            }
            let mut stored = self.active[at].copy();
            stored.replace_from(notification, now);
            stored.source_monitor = source_monitor;
            put_item(&mut self.active, stored.copy());
            self.history_revision = self.history_revision.wrapping_add(1);
            effects.command(PersistenceCommand::Save(stored));
            assert(effects.deep_view().commands =~= seq![
                PersistenceCommandModel::Save(stored.deep_view()),
            ]);
            return Ok((replaces_id, effects));
        }
        let id = match self.allocate_id() {
            Some(id) => id,
            None => return Err(NotifyError::Exhausted),
        };
        proof {
            lemma_allocated_is_free(old(self)@.active, old(self)@.next_id, u32::MAX as nat);
        }
        let mut stored = ActiveNotification::from_incoming(id, notification, now);
        stored.source_monitor = source_monitor;
        effects.command(PersistenceCommand::Save(stored.copy()));
        let ghost item = stored.deep_view();
        if self.active.len() >= self.policy.maximum_active && self.active.len() > 0 {
            let gone: u32 = find_oldest(&self.active);
            let _ = take_item(&mut self.active, gone);
            effects.signal(NotificationSignal::Closed { id: gone, reason: UNDEFINED });
            effects.command(
                PersistenceCommand::Close { id: gone, closed_unix_ms: now, reason: UNDEFINED },
            );
            assert(effects.deep_view().commands =~= seq![
                PersistenceCommandModel::Save(item),
                PersistenceCommandModel::Close {
                    id: gone,
                    closed_unix_ms: now,
                    reason: UNDEFINED,
                },
            ]);
            assert(effects.deep_view().signals =~= seq![
                NotificationSignalModel::Closed { id: gone, reason: UNDEFINED },
            ]);
        } else {
            assert(effects.deep_view().commands =~= seq![PersistenceCommandModel::Save(item)]);
        }
        put_item(&mut self.active, stored);
        self.history_revision = self.history_revision.wrapping_add(1);
        Ok((id, effects))
    }

    /// Closes the notification with an id, where there is one.
    pub fn close(&mut self, id: u32, reason: u32, now: u64) -> (result: (bool, EngineEffects))
        requires
            old(self).wf(),
        ensures
            final(self).wf(),
            final(self).limits() == old(self).limits(),
            result.0 == has_id(old(self)@.active, id),
            (final(self)@, result.1.deep_view()) == closed(old(self)@, id, reason, now),
    {
        let mut effects = EngineEffects::none();
        let removed = take_item(&mut self.active, id);
        proof {
            lemma_take_absent(old(self)@.active, id);
        }
        if removed {
            self.history_revision = self.history_revision.wrapping_add(1);
            effects.command(PersistenceCommand::Close { id, closed_unix_ms: now, reason });
            effects.signal(NotificationSignal::Closed { id, reason });
            effects.changed = true;
            assert(effects.deep_view() =~= closed(old(self)@, id, reason, now).1);
        }
        assert(self@ =~= closed(old(self)@, id, reason, now).0);
        (removed, effects)
    }

    /// Closes the notification with an id because the user dismissed it.
    pub fn dismiss(&mut self, id: u32, now: u64) -> (result: (bool, EngineEffects))
        requires
            old(self).wf(),
        ensures
            final(self).wf(),
            final(self).limits() == old(self).limits(),
            result.0 == has_id(old(self)@.active, id),
            (final(self)@, result.1.deep_view()) == closed(old(self)@, id, DISMISSED, now),
    {
        self.close(id, DISMISSED, now)
    }

    fn close_each(&mut self, ids: &Vec<u32>, reason: u32, now: u64) -> (effects: EngineEffects)
        requires
            old(self).wf(),
        ensures
            final(self).wf(),
            final(self).limits() == old(self).limits(),
            (final(self)@, effects.deep_view()) == closed_all(old(self)@, ids@, reason, now),
    {
        let mut effects = EngineEffects::none();
        let mut i: usize = 0;
        assert(ids@.take(0) =~= Seq::<u32>::empty());
        while i < ids.len()
            invariant
                i <= ids@.len(),
                self.wf(),
                self.limits() == old(self).limits(),
                (self@, effects.deep_view()) == closed_all(
                    old(self)@,
                    ids@.take(i as int),
                    reason,
                    now,
                ),
            decreases ids@.len() - i,
        {
            assert(ids@.take(i + 1).drop_last() =~= ids@.take(i as int));
            let (_, next) = self.close(ids[i], reason, now);
            effects.append(next);
            i = i + 1;
        }
        assert(ids@.take(i as int) =~= ids@);
        effects
    }

    /// Dismisses all notifications. Gives how many there were.
    pub fn clear(&mut self, now: u64) -> (result: (usize, EngineEffects))
        requires
            old(self).wf(),
        ensures
            final(self).wf(),
            final(self).limits() == old(self).limits(),
            result.0 == old(self)@.active.len(),
            (final(self)@, result.1.deep_view()) == cleared(old(self)@, now),
    {
        let count: usize = self.active.len();
        let mut effects = EngineEffects::none();
        if count == 0 {
            return (0, effects);
        }
        let ghost wanted = ids_of(self@.active).map_values(
            |id: u32| NotificationSignalModel::Closed { id, reason: DISMISSED },
        );
        effects.command(PersistenceCommand::Clear { closed_unix_ms: now, reason: DISMISSED });
        assert(effects.deep_view().commands =~= seq![
            PersistenceCommandModel::Clear { closed_unix_ms: now, reason: DISMISSED },
        ]);
        let mut i: usize = 0;
        assert(effects.deep_view().signals =~= wanted.take(0));
        while i < count
            invariant
                i <= count == self.active@.len(),
                *self == *old(self),
                wanted == ids_of(self@.active).map_values(
                    |id: u32| NotificationSignalModel::Closed { id, reason: DISMISSED },
                ),
                effects.deep_view().signals == wanted.take(i as int),
                effects.deep_view().commands == seq![
                    PersistenceCommandModel::Clear { closed_unix_ms: now, reason: DISMISSED },
                ],
            decreases count - i,
        {
            let id: u32 = self.active[i].id;
            effects.signal(NotificationSignal::Closed { id, reason: DISMISSED });
            assert(wanted.take(i + 1) =~= wanted.take(i as int).push(wanted[i as int]));
            i = i + 1;
        }
        assert(wanted.take(i as int) =~= wanted);
        self.active = Vec::new();
        assert(self.active.deep_view() =~= Seq::<ActiveNotificationModel>::empty());
        self.history_revision = self.history_revision.wrapping_add(1);
        effects.changed = true;
        (count, effects)
    }

    /// Sets whether not to disturb the user, and until when.
    pub fn set_dnd(&mut self, enabled: bool, until_unix_ms: Option<u64>) -> (effects: EngineEffects)
        requires
            old(self).wf(),
        ensures
            final(self).wf(),
            final(self).limits() == old(self).limits(),
            (final(self)@, effects.deep_view()) == with_dnd(old(self)@, enabled, until_unix_ms),
    {
        let until = if enabled {
            until_unix_ms
        } else {
            None
        };
        let mut effects = EngineEffects::none();
        if self.dnd != enabled || !self.dnd_until_unix_ms.same(&until) {
            effects.command(PersistenceCommand::SetDnd { enabled, until_unix_ms: until });
            effects.changed = true;
            assert(effects.deep_view() =~= with_dnd(old(self)@, enabled, until_unix_ms).1);
        }
        proof {
            lemma_times(self.dnd_until_unix_ms);
            lemma_times(until);
        }
        self.dnd = enabled;
        self.dnd_until_unix_ms = until;
        effects
    }

    /// Sets whether not to disturb the user to what it is not. Gives what it then is.
    pub fn toggle_dnd(&mut self) -> (result: (bool, EngineEffects))
        requires
            old(self).wf(),
        ensures
            final(self).wf(),
            final(self).limits() == old(self).limits(),
            result.0 == !old(self)@.dnd,
            (final(self)@, result.1.deep_view()) == with_dnd(old(self)@, !old(self)@.dnd, None),
    {
        let enabled = !self.dnd;
        let effects = self.set_dnd(enabled, None);
        (enabled, effects)
    }

    /// Puts a notification off until a later time. Tells whether it could.
    pub fn snooze(&mut self, id: u32, until_unix_ms: u64, now: u64) -> (result: (
        bool,
        EngineEffects,
    ))
        requires
            old(self).wf(),
        ensures
            final(self).wf(),
            final(self).limits() == old(self).limits(),
            result.0 == (until_unix_ms > now && has_id(old(self)@.active, id)),
            (final(self)@, result.1.deep_view()) == snoozed(old(self)@, id, until_unix_ms, now),
    {
        let mut effects = EngineEffects::none();
        if until_unix_ms <= now || !contains_id(&self.active, id) {
            return (false, effects);
        }
        let at: usize = find_place(&self.active, id);
        proof {
            let all = self.active.deep_view();
            lemma_place(
                all,
                ActiveNotificationModel { id, ..ActiveNotificationModel::initial() },
                at as int,
            );
            assert(all[at as int] == self.active@[at as int].deep_view());
        }
        let mut stored = self.active[at].copy();
        stored.snoozed_until_unix_ms = Some(until_unix_ms);
        stored.updated_unix_ms = now;
        if stored.expires_unix_ms.is_some() {
            stored.expires_unix_ms = Some(until_unix_ms.saturating_add(DEFAULT_TIMEOUT_MS));
        }
        put_item(&mut self.active, stored.copy());
        self.history_revision = self.history_revision.wrapping_add(1);
        effects.command(PersistenceCommand::Save(stored));
        effects.changed = true;
        assert(effects.deep_view() =~= snoozed(old(self)@, id, until_unix_ms, now).1);
        (true, effects)
    }
}

proof fn lemma_times(time: Option<u64>)
    ensures
        time.deep_view() == time,
{
}

proof fn lemma_take_absent(items: Seq<ActiveNotificationModel>, id: u32)
    requires
        is_table(items),
    ensures
        !has_id(items, id) ==> without_id(items, id) == items,
{
    let at = some_place(items, id);
    lemma_some_place(items, id);
    lemma_place(
        items,
        ActiveNotificationModel { id, ..ActiveNotificationModel::initial() },
        at,
    );
}

// Start

/// The greatest id of notifications, zero where there are none.
pub open spec fn greatest_id(items: Seq<ActiveNotificationModel>) -> u32
    decreases items.len(),
{
    if items.len() == 0 {
        0
    } else {
        let rest = greatest_id(items.drop_last());
        if items.last().id > rest {
            items.last().id
        } else {
            rest
        }
    }
}

/// Notifications by id. Of those that share one, the last counts.
pub open spec fn table_of(items: Seq<ActiveNotificationModel>) -> Seq<ActiveNotificationModel>
    decreases items.len(),
{
    if items.len() == 0 {
        Seq::empty()
    } else {
        with_item(table_of(items.drop_last()), items.last())
    }
}

/// Whether a time has come.
pub open spec fn is_over(time: Option<u64>, now: u64) -> bool {
    time matches Some(until) && until <= now
}

/// The engine as it starts from what was stored.
pub open spec fn started(
    active: Seq<ActiveNotificationModel>,
    dnd: bool,
    until: Option<u64>,
    now: u64,
) -> (EngineModel, EffectsModel) {
    let over = is_over(until, now);
    (
        EngineModel {
            active: table_of(active),
            dnd: dnd && !over,
            dnd_until_unix_ms: if over {
                None
            } else {
                until
            },
            history_revision: 0,
            next_id: greatest_id(active),
        },
        EffectsModel {
            commands: if over {
                seq![PersistenceCommandModel::SetDnd { enabled: false, until_unix_ms: None }]
            } else {
                Seq::empty()
            },
            signals: Seq::empty(),
            changed: true,
        },
    )
}

impl NotificationEngine {
    /// An engine that goes on from what was stored.
    pub fn build(
        active: Vec<ActiveNotification>,
        dnd: bool,
        dnd_until_unix_ms: Option<u64>,
        now: u64,
    ) -> (result: (NotificationEngine, EngineEffects))
        ensures
            result.0.wf(),
            result.0.limits().maximum_active == 200,
            result.0.limits().maximum_summary_bytes == 4096,
            result.0.limits().maximum_body_bytes == 65536,
            result.0.limits().maximum_actions == 64,
            (result.0@, result.1.deep_view()) == started(
                active.deep_view(),
                dnd,
                dnd_until_unix_ms,
                now,
            ),
    {
        let ghost all = active.deep_view();
        let mut table: Vec<ActiveNotification> = Vec::new();
        let mut next_id: u32 = 0;
        let mut i: usize = 0;
        assert(all.take(0) =~= Seq::<ActiveNotificationModel>::empty());
        assert(table.deep_view() =~= Seq::<ActiveNotificationModel>::empty());
        while i < active.len()
            invariant
                i <= active@.len(),
                all == active.deep_view(),
                is_table(table.deep_view()),
                table.deep_view() == table_of(all.take(i as int)),
                next_id == greatest_id(all.take(i as int)),
            decreases active@.len() - i,
        {
            assert(all.take(i + 1).drop_last() =~= all.take(i as int));
            assert(all.take(i + 1).last() == active@[i as int].deep_view());
            if active[i].id > next_id {
                next_id = active[i].id;
            }
            put_item(&mut table, active[i].copy());
            i = i + 1;
        }
        assert(all.take(i as int) =~= all);
        let over = match dnd_until_unix_ms {
            Some(until) => until <= now,
            None => false,
        };
        let mut effects = EngineEffects::none();
        effects.changed = true;
        if over {
            effects.command(PersistenceCommand::SetDnd { enabled: false, until_unix_ms: None });
        }
        assert(effects.deep_view() =~= started(all, dnd, dnd_until_unix_ms, now).1);
        let engine = NotificationEngine {
            active: table,
            dnd: dnd && !over,
            dnd_until_unix_ms: if over {
                None
            } else {
                dnd_until_unix_ms
            },
            history_revision: 0,
            next_id,
            policy: NotificationPolicy::default(),
        };
        (engine, effects)
    }

    /// An engine without notifications.
    pub fn new() -> (engine: NotificationEngine)
        ensures
            engine.wf(),
            engine@ == (EngineModel {
                active: Seq::empty(),
                dnd: false,
                dnd_until_unix_ms: None,
                history_revision: 0,
                next_id: 0,
            }),
            engine.limits().maximum_active == 200,
            engine.limits().maximum_summary_bytes == 4096,
            engine.limits().maximum_body_bytes == 65536,
            engine.limits().maximum_actions == 64,
    {
        let none: Vec<ActiveNotification> = Vec::new();
        assert(none.deep_view() =~= Seq::<ActiveNotificationModel>::empty());
        let (engine, _) = NotificationEngine::build(none, false, None, 0);
        engine
    }

    /// All notifications that have not been closed, in ascending order of id.
    pub fn active(&self) -> (items: Vec<ActiveNotification>)
        ensures
            items.deep_view() == self@.active,
    {
        self.active.copy()
    }
}

// Groups, replies, and actions

/// The ids of the notifications of a group, ascending.
pub open spec fn group_ids(items: Seq<ActiveNotificationModel>, group: Seq<char>) -> Seq<u32> {
    ids_of(items.filter(|item: ActiveNotificationModel| item.group_key == group))
}

/// Whether a notification offers an action.
pub open spec fn offers(item: ActiveNotificationModel, key: Seq<char>) -> bool {
    exists|i: int| 0 <= i < item.actions.len() && (#[trigger] item.actions[i]).key == key
}

/// The signals that say that an action was chosen.
pub open spec fn action_signals(id: u32, key: Seq<char>, token: Option<Seq<char>>) -> Seq<
    NotificationSignalModel,
> {
    let chosen = NotificationSignalModel::ActionInvoked { id, action_key: key };
    match token {
        Some(token) => seq![NotificationSignalModel::ActivationToken { id, token }, chosen],
        None => seq![chosen],
    }
}

/// The engine once an action was chosen: a notification that does not want to
/// stay is dismissed.
pub open spec fn acted(
    engine: EngineModel,
    id: u32,
    key: Seq<char>,
    token: Option<Seq<char>>,
    now: u64,
) -> (EngineModel, EffectsModel) {
    match item_of(engine.active, id) {
        Some(item) => if offers(item, key) {
            let signalled = EffectsModel {
                commands: Seq::empty(),
                signals: action_signals(id, key, token),
                changed: false,
            };
            if item.hints.resident {
                (engine, signalled)
            } else {
                let (after, effects) = closed(engine, id, DISMISSED, now);
                (after, signalled.followed_by(effects))
            }
        } else {
            (engine, EffectsModel::none())
        },
        None => (engine, EffectsModel::none()),
    }
}

/// Whether an action can be chosen.
pub open spec fn can_act(engine: EngineModel, id: u32, key: Seq<char>) -> bool {
    item_of(engine.active, id) matches Some(item) && offers(item, key)
}

fn finds_action(item: &ActiveNotification, key: &str) -> (found: bool)
    ensures
        found == offers(item.deep_view(), key@),
{
    let ghost actions = item.deep_view().actions;
    let mut i: usize = 0;
    while i < item.actions.len()
        invariant
            i <= item.actions@.len(),
            actions == item.deep_view().actions,
            forall|k: int| 0 <= k < i ==> (#[trigger] actions[k]).key != key@,
        decreases item.actions@.len() - i,
    {
        assert(actions[i as int] == item.actions@[i as int].deep_view());
        if same_text(item.actions[i].key.as_str(), key) {
            return true;
        }
        i = i + 1;
    }
    false
}

impl NotificationEngine {
    /// Dismisses the notifications of a group. Gives how many there were.
    pub fn clear_group(&mut self, group_key: &str, now: u64) -> (result: (usize, EngineEffects))
        requires
            old(self).wf(),
        ensures
            final(self).wf(),
            final(self).limits() == old(self).limits(),
            result.0 == group_ids(old(self)@.active, group_key@).len(),
            (final(self)@, result.1.deep_view()) == closed_all(
                old(self)@,
                group_ids(old(self)@.active, group_key@),
                DISMISSED,
                now,
            ),
    {
        let ghost all = self.active.deep_view();
        let ghost wanted = |item: ActiveNotificationModel| item.group_key == group_key@;
        let mut ids: Vec<u32> = Vec::new();
        let mut i: usize = 0;
        proof {
            reveal(Seq::filter);
            assert(ids@ =~= ids_of(all.take(0).filter(wanted)));
        }
        while i < self.active.len()
            invariant
                i <= self.active@.len(),
                *self == *old(self),
                all == self.active.deep_view(),
                wanted == (|item: ActiveNotificationModel| item.group_key == group_key@),
                ids@ == ids_of(all.take(i as int).filter(wanted)),
            decreases self.active@.len() - i,
        {
            reveal(Seq::filter);
            assert(all.take(i + 1).drop_last() =~= all.take(i as int));
            assert(all.take(i + 1).last() == self.active@[i as int].deep_view());
            if same_text(self.active[i].group_key.as_str(), group_key) {
                ids.push(self.active[i].id);
                assert(ids@ =~= ids_of(all.take(i + 1).filter(wanted)));
            }
            i = i + 1;
        }
        assert(all.take(i as int) =~= all);
        let effects = self.close_each(&ids, DISMISSED, now);
        (ids.len(), effects)
    }

    /// Tells whether a reply can be sent, and signals it.
    pub fn reply(&self, id: u32, text: &str) -> (result: (bool, EngineEffects))
        requires
            self.wf(),
        ensures
            result.0 == (text@.len() > 0 && has_id(self@.active, id)),
            result.1.deep_view() == if result.0 {
                EffectsModel {
                    commands: Seq::empty(),
                    signals: seq![NotificationSignalModel::Replied { id, text: text@ }],
                    changed: false,
                }
            } else {
                EffectsModel::none()
            },
    {
        let mut effects = EngineEffects::none();
        if is_empty(text) || !contains_id(&self.active, id) {
            return (false, effects);
        }
        effects.signal(NotificationSignal::Replied { id, text: text.to_string() });
        assert(effects.deep_view().signals =~= seq![
            NotificationSignalModel::Replied { id, text: text@ },
        ]);
        (true, effects)
    }

    /// Lets the user choose an action. Tells whether there is one with this key.
    pub fn invoke_action(&mut self, id: u32, action_key: &str, token: Option<String>, now: u64) -> (result:
        (bool, EngineEffects))
        requires
            old(self).wf(),
        ensures
            final(self).wf(),
            final(self).limits() == old(self).limits(),
            result.0 == can_act(old(self)@, id, action_key@),
            (final(self)@, result.1.deep_view()) == acted(
                old(self)@,
                id,
                action_key@,
                token.deep_view(),
                now,
            ),
    {
        let mut effects = EngineEffects::none();
        if !contains_id(&self.active, id) {
            return (false, effects);
        }
        let at: usize = find_place(&self.active, id);
        proof {
            let all = self.active.deep_view();
            lemma_place(
                all,
                ActiveNotificationModel { id, ..ActiveNotificationModel::initial() },
                at as int,
            );
            assert(all[at as int] == self.active@[at as int].deep_view());
        }
        if !finds_action(&self.active[at], action_key) {
            return (false, effects);
        }
        let resident = self.active[at].hints.resident;
        let ghost given = token.deep_view();
        if let Some(token) = token {
            effects.signal(NotificationSignal::ActivationToken { id, token });
        }
        effects.signal(
            NotificationSignal::ActionInvoked { id, action_key: action_key.to_string() },
        );
        assert(effects.deep_view().signals =~= action_signals(id, action_key@, given));
        if !resident {
            let (_, next) = self.dismiss(id, now);
            effects.append(next);
        }
        (true, effects)
    }
}

// Expiry

/// When a notification next wants attention: when it is no longer put off, else when it expires.
pub open spec fn wakeup_of(item: ActiveNotificationModel) -> Option<u64> {
    match item.snoozed_until_unix_ms {
        Some(until) => Some(until),
        None => item.expires_unix_ms,
    }
}

/// The earlier of two times, where there are any.
pub open spec fn earlier(a: Option<u64>, b: Option<u64>) -> Option<u64> {
    match (a, b) {
        (Some(x), Some(y)) => Some(
            if y < x {
                y
            } else {
                x
            },
        ),
        (Some(x), None) => Some(x),
        (None, other) => other,
    }
}

/// When the first of the notifications wants attention.
pub open spec fn first_wakeup(items: Seq<ActiveNotificationModel>) -> Option<u64>
    decreases items.len(),
{
    if items.len() == 0 {
        None
    } else {
        earlier(first_wakeup(items.drop_last()), wakeup_of(items.last()))
    }
}

/// How long to wait until something is due, in milliseconds.
pub open spec fn expiry_delay(engine: EngineModel, now: u64) -> Option<u64> {
    match earlier(first_wakeup(engine.active), engine.dnd_until_unix_ms) {
        Some(next) => Some(
            if next > now {
                (next - now) as u64
            } else {
                0
            },
        ),
        None => None,
    }
}

/// A notification that is no longer put off once its time has come.
pub open spec fn awakened(item: ActiveNotificationModel, now: u64) -> ActiveNotificationModel {
    if is_over(item.snoozed_until_unix_ms, now) {
        ActiveNotificationModel { snoozed_until_unix_ms: None, ..item }
    } else {
        item
    }
}

/// Notifications of which none is put off past its time.
pub open spec fn awakened_all(items: Seq<ActiveNotificationModel>, now: u64) -> Seq<
    ActiveNotificationModel,
> {
    items.map_values(|item: ActiveNotificationModel| awakened(item, now))
}

/// What to store of the notifications that are no longer put off.
pub open spec fn awakened_saves(items: Seq<ActiveNotificationModel>, now: u64) -> Seq<
    PersistenceCommandModel,
>
    decreases items.len(),
{
    if items.len() == 0 {
        Seq::empty()
    } else {
        let saves = awakened_saves(items.drop_last(), now);
        if is_over(items.last().snoozed_until_unix_ms, now) {
            saves.push(PersistenceCommandModel::Save(awakened(items.last(), now)))
        } else {
            saves
        }
    }
}

/// Whether a notification has expired.
pub open spec fn is_due(item: ActiveNotificationModel, now: u64) -> bool {
    item.snoozed_until_unix_ms is None && is_over(item.expires_unix_ms, now)
}

/// The engine once everything that was due has happened.
pub open spec fn expired(engine: EngineModel, now: u64) -> (EngineModel, EffectsModel) {
    let active = awakened_all(engine.active, now);
    let saves = awakened_saves(engine.active, now);
    let dnd_over = engine.dnd && is_over(engine.dnd_until_unix_ms, now);
    let awake = EngineModel {
        active,
        dnd: engine.dnd && !dnd_over,
        dnd_until_unix_ms: if dnd_over {
            None
        } else {
            engine.dnd_until_unix_ms
        },
        history_revision: if saves.len() > 0 || dnd_over {
            next_revision(engine.history_revision)
        } else {
            engine.history_revision
        },
        next_id: engine.next_id,
    };
    let first = EffectsModel {
        commands: if dnd_over {
            saves.push(PersistenceCommandModel::SetDnd { enabled: false, until_unix_ms: None })
        } else {
            saves
        },
        signals: Seq::empty(),
        changed: true,
    };
    let due = ids_of(active.filter(|item: ActiveNotificationModel| is_due(item, now)));
    let (after, closing) = closed_all(awake, due, EXPIRED, now);
    (after, first.followed_by(closing))
}

proof fn lemma_awakened_table(items: Seq<ActiveNotificationModel>, now: u64)
    requires
        is_table(items),
    ensures
        is_table(awakened_all(items, now)),
{
    let after = awakened_all(items, now);
    assert forall|i: int, j: int| 0 <= i < j < after.len() implies #[trigger] after[i].id
        < #[trigger] after[j].id by {
        assert(items[i].id < items[j].id);
    }
}

impl NotificationEngine {
    /// How long to wait until something is due, in milliseconds.
    pub fn next_expiry_delay(&self, now: u64) -> (delay: Option<u64>)
        ensures
            delay == expiry_delay(self@, now),
    {
        let ghost all = self.active.deep_view();
        let mut next: Option<u64> = None;
        let mut i: usize = 0;
        assert(all.take(0) =~= Seq::<ActiveNotificationModel>::empty());
        while i < self.active.len()
            invariant
                i <= self.active@.len(),
                all == self.active.deep_view(),
                next == first_wakeup(all.take(i as int)),
            decreases self.active@.len() - i,
        {
            assert(all.take(i + 1).drop_last() =~= all.take(i as int));
            assert(all.take(i + 1).last() == self.active@[i as int].deep_view());
            let wakeup = match self.active[i].snoozed_until_unix_ms {
                Some(until) => Some(until),
                None => self.active[i].expires_unix_ms,
            };
            next = earlier_time(next, wakeup);
            i = i + 1;
        }
        assert(all.take(i as int) =~= all);
        match earlier_time(next, self.dnd_until_unix_ms) {
            Some(next) => Some(next.saturating_sub(now)),
            None => None,
        }
    }

    fn awaken(&mut self, now: u64) -> (commands: Vec<PersistenceCommand>)
        requires
            old(self).wf(),
        ensures
            commands.deep_view() == awakened_saves(old(self)@.active, now),
            final(self)@ == (EngineModel {
                active: awakened_all(old(self)@.active, now),
                ..old(self)@
            }),
            final(self).limits() == old(self).limits(),
    {
        let ghost all = self.active.deep_view();
        let mut commands: Vec<PersistenceCommand> = Vec::new();
        let mut i: usize = 0;
        assert(all.take(0) =~= Seq::<ActiveNotificationModel>::empty());
        assert(commands.deep_view() =~= Seq::<PersistenceCommandModel>::empty());
        while i < self.active.len()
            invariant
                i <= self.active@.len(),
                self.active@.len() == all.len(),
                all == old(self)@.active,
                self@ == (EngineModel { active: self.active.deep_view(), ..old(self)@ }),
                self.policy == old(self).policy,
                forall|k: int|
                    0 <= k < i ==> (#[trigger] self.active@[k]).deep_view() == awakened(
                        all[k],
                        now,
                    ),
                forall|k: int|
                    i <= k < all.len() ==> (#[trigger] self.active@[k]).deep_view() == all[k],
                commands.deep_view() == awakened_saves(all.take(i as int), now),
            decreases all.len() - i,
        {
            assert(all.take(i + 1).drop_last() =~= all.take(i as int));
            assert(all.take(i + 1).last() == self.active@[i as int].deep_view());
            let ghost before = commands.deep_view();
            let over = match self.active[i].snoozed_until_unix_ms {
                Some(until) => until <= now,
                None => false,
            };
            if over {
                let mut item = self.active[i].copy();
                item.snoozed_until_unix_ms = None;
                commands.push(PersistenceCommand::Save(item.copy()));
                assert(commands.deep_view() =~= before.push(
                    PersistenceCommandModel::Save(item.deep_view()),
                ));
                self.active.set(i, item);
            }
            i = i + 1;
        }
        assert(all.take(i as int) =~= all);
        assert(self.active.deep_view() =~= awakened_all(all, now));
        commands
    }

    fn due_ids(&self, now: u64) -> (ids: Vec<u32>)
        ensures
            ids@ == ids_of(
                self@.active.filter(|item: ActiveNotificationModel| is_due(item, now)),
            ),
    {
        let ghost all = self.active.deep_view();
        let ghost wanted = |item: ActiveNotificationModel| is_due(item, now);
        let mut ids: Vec<u32> = Vec::new();
        let mut i: usize = 0;
        proof {
            reveal(Seq::filter);
            assert(ids@ =~= ids_of(all.take(0).filter(wanted)));
        }
        while i < self.active.len()
            invariant
                i <= self.active@.len(),
                all == self.active.deep_view(),
                wanted == (|item: ActiveNotificationModel| is_due(item, now)),
                ids@ == ids_of(all.take(i as int).filter(wanted)),
            decreases self.active@.len() - i,
        {
            reveal(Seq::filter);
            assert(all.take(i + 1).drop_last() =~= all.take(i as int));
            assert(all.take(i + 1).last() == self.active@[i as int].deep_view());
            let over = match self.active[i].expires_unix_ms {
                Some(expiry) => expiry <= now,
                None => false,
            };
            if self.active[i].snoozed_until_unix_ms.is_none() && over {
                ids.push(self.active[i].id);
                assert(ids@ =~= ids_of(all.take(i + 1).filter(wanted)));
            }
            i = i + 1;
        }
        assert(all.take(i as int) =~= all);
        ids
    }

    /// Lets everything happen that is due: notifications that were put off come
    /// back, others expire, and the user may be disturbed again.
    pub fn expire_due(&mut self, now: u64) -> (effects: EngineEffects)
        requires
            old(self).wf(),
        ensures
            final(self).wf(),
            final(self).limits() == old(self).limits(),
            (final(self)@, effects.deep_view()) == expired(old(self)@, now),
    {
        let commands = self.awaken(now);
        proof {
            lemma_awakened_table(old(self)@.active, now);
        }
        let awake = commands.len() > 0;
        assert(awake == (awakened_saves(old(self)@.active, now).len() > 0));
        let dnd_over = self.dnd && match self.dnd_until_unix_ms {
            Some(until) => until <= now,
            None => false,
        };
        if dnd_over {
            self.dnd = false;
            self.dnd_until_unix_ms = None;
        }
        if awake || dnd_over {
            self.history_revision = self.history_revision.wrapping_add(1);
        }
        let mut effects = EngineEffects { commands, signals: Vec::new(), changed: true };
        assert(effects.deep_view().signals =~= Seq::<NotificationSignalModel>::empty());
        if dnd_over {
            effects.command(PersistenceCommand::SetDnd { enabled: false, until_unix_ms: None });
        }
        let ids = self.due_ids(now);
        let closing = self.close_each(&ids, EXPIRED, now);
        effects.append(closing);
        effects
    }
}

fn earlier_time(a: Option<u64>, b: Option<u64>) -> (time: Option<u64>)
    ensures
        time == earlier(a, b),
{
    match (a, b) {
        (Some(x), Some(y)) => if y < x {
            Some(y)
        } else {
            Some(x)
        },
        (Some(x), None) => Some(x),
        (None, other) => other,
    }
}

// Summary

/// Notifications that are not put off.
pub open spec fn visible(items: Seq<ActiveNotificationModel>) -> Seq<ActiveNotificationModel> {
    items.filter(|item: ActiveNotificationModel| item.snoozed_until_unix_ms is None)
}

/// The summary to publish.
pub open spec fn summary_of(engine: EngineModel) -> NotificationStateModel {
    let count = count_u32(visible(engine.active).len());
    let class_name = if engine.dnd {
        "dnd-notification"@
    } else {
        "notification"@
    };
    NotificationStateModel {
        available: true,
        count,
        dnd: engine.dnd,
        dnd_until_unix_ms: engine.dnd_until_unix_ms,
        inhibited: false,
        text: decimal_text(count as nat),
        tooltip: decimal_text(count as nat) + " "@ + if count == 1 {
            "Notification"@
        } else {
            "Notifications"@
        },
        alt: class_name,
        class_name,
        backend: "native"@,
        history_revision: engine.history_revision,
        error: None,
    }
}

/// The notifications to publish.
pub open spec fn active_state_of(engine: EngineModel) -> NotificationActiveStateModel {
    NotificationActiveStateModel {
        available: true,
        revision: engine.history_revision,
        notifications: visible(engine.active),
        error: None,
    }
}

impl NotificationEngine {
    fn visible(&self) -> (items: Vec<ActiveNotification>)
        ensures
            items.deep_view() == visible(self@.active),
    {
        let ghost all = self.active.deep_view();
        let ghost wanted = |item: ActiveNotificationModel| item.snoozed_until_unix_ms is None;
        let mut items: Vec<ActiveNotification> = Vec::new();
        let mut i: usize = 0;
        proof {
            reveal(Seq::filter);
            assert(items.deep_view() =~= all.take(0).filter(wanted));
        }
        while i < self.active.len()
            invariant
                i <= self.active@.len(),
                all == self.active.deep_view(),
                wanted == (|item: ActiveNotificationModel| item.snoozed_until_unix_ms is None),
                items.deep_view() == all.take(i as int).filter(wanted),
            decreases self.active@.len() - i,
        {
            reveal(Seq::filter);
            assert(all.take(i + 1).drop_last() =~= all.take(i as int));
            assert(all.take(i + 1).last() == self.active@[i as int].deep_view());
            let ghost before = items.deep_view();
            if self.active[i].snoozed_until_unix_ms.is_none() {
                items.push(self.active[i].copy());
                assert(items.deep_view() =~= before.push(all[i as int]));
            }
            i = i + 1;
        }
        assert(all.take(i as int) =~= all);
        items
    }

    /// The summary and the notifications to publish.
    pub fn publish(&self) -> (states: (NotificationState, NotificationActiveState))
        ensures
            states.0.deep_view() == summary_of(self@),
            states.1.deep_view() == active_state_of(self@),
    {
        let notifications = self.visible();
        assert(notifications.deep_view().len() == notifications@.len());
        let count: u32 = bounded_count(notifications.len());
        let noun = if count == 1 {
            "Notification"
        } else {
            "Notifications"
        };
        let class_name = if self.dnd {
            "dnd-notification"
        } else {
            "notification"
        };
        let text = decimal(count as u64);
        let summary = NotificationState {
            available: true,
            count,
            dnd: self.dnd,
            dnd_until_unix_ms: self.dnd_until_unix_ms,
            inhibited: false,
            tooltip: joined3(text.as_str(), " ", noun),
            text,
            alt: class_name.to_string(),
            class_name: class_name.to_string(),
            backend: "native".to_string(),
            history_revision: self.history_revision,
            error: None,
        };
        let active = NotificationActiveState {
            available: true,
            revision: self.history_revision,
            notifications,
            error: None,
        };
        (summary, active)
    }
}

// Laws

/// A notification that is accepted is active under the id that is answered, with
/// the name, icon, texts, actions and hints that came in. One that replaces
/// another keeps its id and the time at which it was made. Any other gets an id
/// that is not zero and that no notification has.
pub proof fn accepted_notification_is_active(
    engine: EngineModel,
    policy: NotificationPolicy,
    replaces_id: u32,
    incoming: IncomingNotificationModel,
    monitor: Seq<char>,
    now: u64,
)
    requires
        is_table(engine.active),
    ensures
        is_table(notified(engine, policy, replaces_id, incoming, monitor, now).0.active),
        notified(engine, policy, replaces_id, incoming, monitor, now).1 matches NotifyOutcome::Accepted {
            id,
            ..
        } ==> {
            let after = notified(engine, policy, replaces_id, incoming, monitor, now).0;
            let stored = item_of(after.active, id);
            &&& stored is Some
            &&& stored->0.id == id
            &&& stored->0.app_name == incoming.app_name
            &&& stored->0.app_icon == incoming.app_icon
            &&& stored->0.summary == incoming.summary
            &&& stored->0.body == incoming.body
            &&& stored->0.actions == incoming.actions
            &&& stored->0.hints == incoming.hints
            &&& stored->0.source_monitor == monitor
            &&& stored->0.updated_unix_ms == now
            &&& stored->0.snoozed_until_unix_ms is None
            &&& replaces_id != 0 && has_id(engine.active, replaces_id) ==> id == replaces_id
                && stored->0.created_unix_ms == item_of(engine.active, id)->0.created_unix_ms
            &&& replaces_id == 0 || !has_id(engine.active, replaces_id) ==> id != 0 && !has_id(
                engine.active,
                id,
            ) && stored->0.created_unix_ms == now
        },
{
    if policy.error(incoming) is None {
        if replaces_id != 0 && has_id(engine.active, replaces_id) {
            let stored = ActiveNotificationModel {
                created_unix_ms: item_of(engine.active, replaces_id)->0.created_unix_ms,
                source_monitor: monitor,
                ..activated(replaces_id, incoming, now)
            };
            putting_in_changes_one(engine.active, stored, replaces_id);
        } else {
            lemma_allocated_is_free(engine.active, engine.next_id, u32::MAX as nat);
            let (id, counter) = allocated(engine.active, engine.next_id, u32::MAX as nat);
            if id is Some {
                let stored = ActiveNotificationModel {
                    source_monitor: monitor,
                    ..activated(id->0, incoming, now)
                };
                let gone = oldest(engine.active).id;
                taking_out_changes_one(engine.active, gone, id->0);
                putting_in_changes_one(engine.active, stored, id->0);
                putting_in_changes_one(without_id(engine.active, gone), stored, id->0);
            }
        }
    }
}

proof fn lemma_oldest_is_active(items: Seq<ActiveNotificationModel>)
    requires
        items.len() > 0,
    ensures
        has_id(items, oldest(items).id),
    decreases items.len(),
{
    if items.len() == 1 {
        assert(items[0].id == oldest(items).id);
    } else {
        lemma_oldest_is_active(items.drop_last());
        let k = place_of(items.drop_last(), oldest(items.drop_last()).id);
        assert(items[k].id == oldest(items.drop_last()).id);
        assert(items[items.len() - 1] == items.last());
    }
}

/// However many notifications come in, there are never more at a time than
/// there may be, nor than there were.
pub proof fn active_notifications_stay_bounded(
    engine: EngineModel,
    policy: NotificationPolicy,
    replaces_id: u32,
    incoming: IncomingNotificationModel,
    monitor: Seq<char>,
    now: u64,
)
    requires
        is_table(engine.active),
        policy.maximum_active > 0,
    ensures
        notified(engine, policy, replaces_id, incoming, monitor, now).0.active.len()
            <= if engine.active.len() > policy.maximum_active {
            engine.active.len()
        } else {
            policy.maximum_active as nat
        },
{
    if policy.error(incoming) is None {
        if replaces_id != 0 && has_id(engine.active, replaces_id) {
            let stored = ActiveNotificationModel {
                created_unix_ms: item_of(engine.active, replaces_id)->0.created_unix_ms,
                source_monitor: monitor,
                ..activated(replaces_id, incoming, now)
            };
            putting_in_changes_one(engine.active, stored, replaces_id);
        } else {
            lemma_allocated_is_free(engine.active, engine.next_id, u32::MAX as nat);
            let (id, counter) = allocated(engine.active, engine.next_id, u32::MAX as nat);
            if id is Some {
                let stored = ActiveNotificationModel {
                    source_monitor: monitor,
                    ..activated(id->0, incoming, now)
                };
                putting_in_changes_one(engine.active, stored, id->0);
                if engine.active.len() > 0 {
                    lemma_oldest_is_active(engine.active);
                    let gone = oldest(engine.active).id;
                    taking_out_changes_one(engine.active, gone, id->0);
                    putting_in_changes_one(without_id(engine.active, gone), stored, id->0);
                }
            }
        }
    }
}

/// Closing the notifications with some ids takes out these and leaves all others.
pub proof fn closing_takes_out_only_named(
    engine: EngineModel,
    ids: Seq<u32>,
    reason: u32,
    now: u64,
    id: u32,
)
    requires
        is_table(engine.active),
    ensures
        is_table(closed_all(engine, ids, reason, now).0.active),
        item_of(closed_all(engine, ids, reason, now).0.active, id) == if ids.contains(id) {
            None
        } else {
            item_of(engine.active, id)
        },
    decreases ids.len(),
{
    if ids.len() > 0 {
        let shorter = ids.drop_last();
        closing_takes_out_only_named(engine, shorter, reason, now, id);
        let before = closed_all(engine, shorter, reason, now).0;
        taking_out_changes_one(before.active, ids.last(), id);
        lemma_take_absent(before.active, ids.last());
        if shorter.contains(id) {
            let k = choose|k: int| 0 <= k < shorter.len() && shorter[k] == id;
            assert(ids[k] == id);
        }
        if ids.contains(id) && id != ids.last() {
            let k = choose|k: int| 0 <= k < ids.len() && ids[k] == id;
            assert(shorter[k] == id);
        }
        if id == ids.last() {
            assert(ids[ids.len() - 1] == id);
        }
    }
}

/// Once everything that was due has happened, no notification is due and none
/// is put off past its time.
pub proof fn nothing_due_remains(engine: EngineModel, now: u64)
    requires
        is_table(engine.active),
    ensures
        forall|i: int|
            0 <= i < expired(engine, now).0.active.len() ==> {
                let item = #[trigger] expired(engine, now).0.active[i];
                !is_due(item, now) && !is_over(item.snoozed_until_unix_ms, now)
            },
{
    let awake = awakened_all(engine.active, now);
    let wanted = |item: ActiveNotificationModel| is_due(item, now);
    let picked = awake.filter(wanted);
    let due = ids_of(picked);
    let after = expired(engine, now).0.active;
    lemma_awakened_table(engine.active, now);
    let middle = EngineModel {
        active: awake,
        dnd: engine.dnd && !(engine.dnd && is_over(engine.dnd_until_unix_ms, now)),
        dnd_until_unix_ms: if engine.dnd && is_over(engine.dnd_until_unix_ms, now) {
            None
        } else {
            engine.dnd_until_unix_ms
        },
        history_revision: if awakened_saves(engine.active, now).len() > 0 || (engine.dnd && is_over(
            engine.dnd_until_unix_ms,
            now,
        )) {
            next_revision(engine.history_revision)
        } else {
            engine.history_revision
        },
        next_id: engine.next_id,
    };
    assert(after == closed_all(middle, due, EXPIRED, now).0.active);
    assert forall|i: int| 0 <= i < after.len() implies {
        let item = #[trigger] after[i];
        !is_due(item, now) && !is_over(item.snoozed_until_unix_ms, now)
    } by {
        let item = after[i];
        closing_takes_out_only_named(middle, due, EXPIRED, now, item.id);
        lemma_unique(after, item.id, i);
        let k = place_of(awake, item.id);
        assert(awake[k] == item);
        assert(item == awakened(engine.active[k], now));
        if is_due(item, now) {
            awake.lemma_filter_contains(wanted, k);
            assert(picked.contains(item));
            let m = choose|m: int| 0 <= m < picked.len() && picked[m] == item;
            assert(due[m] == item.id);
            assert(due.contains(item.id));
        }
    }
}

/// When everything that was due happens, a notification that is due is closed,
/// and any other stays, no longer put off if its time has come.
pub proof fn expiry_closes_only_what_is_due(engine: EngineModel, now: u64, id: u32)
    requires
        is_table(engine.active),
    ensures
        is_table(expired(engine, now).0.active),
        item_of(expired(engine, now).0.active, id) == match item_of(engine.active, id) {
            Some(item) => if is_due(awakened(item, now), now) {
                None
            } else {
                Some(awakened(item, now))
            },
            None => None,
        },
{
    let awake = awakened_all(engine.active, now);
    let wanted = |item: ActiveNotificationModel| is_due(item, now);
    let picked = awake.filter(wanted);
    let due = ids_of(picked);
    lemma_awakened_table(engine.active, now);
    let dnd_over = engine.dnd && is_over(engine.dnd_until_unix_ms, now);
    let middle = EngineModel {
        active: awake,
        dnd: engine.dnd && !dnd_over,
        dnd_until_unix_ms: if dnd_over {
            None
        } else {
            engine.dnd_until_unix_ms
        },
        history_revision: if awakened_saves(engine.active, now).len() > 0 || dnd_over {
            next_revision(engine.history_revision)
        } else {
            engine.history_revision
        },
        next_id: engine.next_id,
    };
    assert(expired(engine, now).0 == closed_all(middle, due, EXPIRED, now).0);
    closing_takes_out_only_named(middle, due, EXPIRED, now, id);
    if has_id(engine.active, id) {
        let k = place_of(engine.active, id);
        assert(engine.active[k].id == id);
        assert(awake[k] == awakened(engine.active[k], now));
        assert(awake[k].id == id);
        assert(has_id(awake, id));
        lemma_unique(awake, id, k);
        if is_due(awake[k], now) {
            awake.lemma_filter_contains(wanted, k);
            let m = choose|m: int| 0 <= m < picked.len() && picked[m] == awake[k];
            assert(due[m] == id);
        }
        if due.contains(id) {
            let m = choose|m: int| 0 <= m < due.len() && due[m] == id;
            assert(picked[m].id == id);
            awake.lemma_filter_pred(wanted, m);
            awake.lemma_filter_contains_rev(wanted, picked[m]);
            let n = choose|n: int| 0 <= n < awake.len() && awake[n] == picked[m];
            lemma_unique(awake, id, n);
        }
    } else if has_id(awake, id) {
        let k = place_of(awake, id);
        assert(awake[k] == awakened(engine.active[k], now));
        assert(engine.active[k].id == id);
    }
}

proof fn lemma_visible(items: Seq<ActiveNotificationModel>, id: u32)
    requires
        is_table(items),
    ensures
        has_id(visible(items), id) <==> (item_of(items, id) matches Some(item)
            && item.snoozed_until_unix_ms is None),
{
    let wanted = |item: ActiveNotificationModel| item.snoozed_until_unix_ms is None;
    let shown = items.filter(wanted);
    if has_id(shown, id) {
        let m = place_of(shown, id);
        assert(shown[m].id == id);
        items.lemma_filter_pred(wanted, m);
        items.lemma_filter_contains_rev(wanted, shown[m]);
        let n = choose|n: int| 0 <= n < items.len() && items[n] == shown[m];
        assert(items[n].id == id);
        lemma_unique(items, id, n);
    }
    if has_id(items, id) {
        let k = place_of(items, id);
        if items[k].snoozed_until_unix_ms is None {
            items.lemma_filter_contains(wanted, k);
            let m = choose|m: int| 0 <= m < shown.len() && shown[m] == items[k];
            assert(shown[m].id == id);
        }
    }
}

/// A notification that is put off is not shown. Whatever falls due before its
/// time leaves it as it is; once its time has come, short of the last time there
/// is, it is shown again for as long as any notification is at least.
pub proof fn snoozed_notification_comes_back(
    engine: EngineModel,
    id: u32,
    until: u64,
    now: u64,
    later: u64,
)
    requires
        is_table(engine.active),
        has_id(engine.active, id),
        until > now,
    ensures
        ({
            let after = snoozed(engine, id, until, now).0;
            &&& is_table(after.active)
            &&& has_id(after.active, id) && !has_id(visible(after.active), id)
            &&& later < until ==> item_of(expired(after, later).0.active, id) == item_of(
                after.active,
                id,
            )
            &&& until <= later < u64::MAX && later - until < DEFAULT_TIMEOUT_MS ==> has_id(
                visible(expired(after, later).0.active),
                id,
            )
        }),
{
    let item = item_of(engine.active, id)->0;
    let k = place_of(engine.active, id);
    assert(engine.active[k].id == id);
    let stored = snoozed_item(item, until, now);
    assert(stored.id == id);
    let after = snoozed(engine, id, until, now).0;
    putting_in_changes_one(engine.active, stored, id);
    lemma_visible(after.active, id);
    expiry_closes_only_what_is_due(after, later, id);
    lemma_visible(expired(after, later).0.active, id);
}

proof fn lemma_failed_tries(active: Seq<ActiveNotificationModel>, counter: u32, tries: nat, k: nat)
    requires
        allocated(active, counter, tries).0 is None,
        k < tries,
    ensures
        has_id(active, counter_id(((counter + 1 + k) % 0x1_0000_0000) as u32)),
    decreases k,
{
    let next = next_counter(counter);
    if k > 0 {
        lemma_failed_tries(active, next, (tries - 1) as nat, (k - 1) as nat);
        assert((next + 1 + (k - 1)) % 0x1_0000_0000 == (counter + 1 + k) % 0x1_0000_0000);
    } else {
        assert((counter + 1) % 0x1_0000_0000 == next);
    }
}

proof fn lemma_covered_range(items: Seq<ActiveNotificationModel>, first: int, last: int)
    requires
        is_table(items),
        0 <= first <= last <= u32::MAX,
        forall|id: u32| first <= id <= last ==> #[trigger] has_id(items, id),
    ensures
        place_of(items, last as u32) >= last - first,
        items.len() > last - first,
    decreases last - first,
{
    assert(has_id(items, last as u32));
    let at = place_of(items, last as u32);
    assert(items[at].id == last);
    if first < last {
        lemma_covered_range(items, first, last - 1);
        assert(has_id(items, (last - 1) as u32));
        let before = place_of(items, (last - 1) as u32);
        assert(items[before].id == last - 1);
        if at <= before {
            if at < before {
                assert(items[at].id < items[before].id);
            }
        }
    }
}

/// While fewer than two thousand million notifications are active there is an
/// id for another one.
pub proof fn ids_do_not_run_out(engine: EngineModel)
    requires
        is_table(engine.active),
        engine.active.len() < 2_000_000_000,
    ensures
        allocated(engine.active, engine.next_id, u32::MAX as nat).0 is Some,
{
    let counter = engine.next_id;
    let active = engine.active;
    if allocated(active, counter, u32::MAX as nat).0 is None {
        if counter >= 0x8000_0000 {
            assert forall|id: u32| 1 <= id <= counter - 1 implies #[trigger] has_id(active, id) by {
                let k = (id + 0x1_0000_0000 - counter - 1) as nat;
                lemma_failed_tries(active, counter, u32::MAX as nat, k);
                assert((counter + 1 + k) % 0x1_0000_0000 == id);
            }
            lemma_covered_range(active, 1, counter - 1);
        } else {
            assert forall|id: u32| counter + 1 <= id <= u32::MAX implies #[trigger] has_id(
                active,
                id,
            ) by {
                let k = (id - counter - 1) as nat;
                lemma_failed_tries(active, counter, u32::MAX as nat, k);
                assert((counter + 1 + k) % 0x1_0000_0000 == id);
            }
            lemma_covered_range(active, counter + 1, u32::MAX as int);
        }
    }
}

/// How long a notification stays: for ever where it asks for no end; as many
/// milliseconds as it asks for; and where it leaves that open, five seconds, or
/// for ever if it is critical. It belongs to the group of its desktop entry, else
/// of its program.
pub proof fn notification_ends_when_it_asks(
    engine: EngineModel,
    policy: NotificationPolicy,
    replaces_id: u32,
    incoming: IncomingNotificationModel,
    monitor: Seq<char>,
    now: u64,
)
    requires
        is_table(engine.active),
        now <= u64::MAX - 0x1_0000_0000,
    ensures
        notified(engine, policy, replaces_id, incoming, monitor, now).1 matches NotifyOutcome::Accepted {
            id,
            effects,
        } ==> {
            let stored = item_of(
                notified(engine, policy, replaces_id, incoming, monitor, now).0.active,
                id,
            );
            &&& stored is Some
            &&& incoming.expire_timeout == 0 ==> stored->0.expires_unix_ms is None
            &&& incoming.expire_timeout > 0 ==> (stored->0.expires_unix_ms matches Some(end) && end
                == now + incoming.expire_timeout)
            &&& incoming.expire_timeout < 0 && incoming.hints.urgency >= 2
                ==> stored->0.expires_unix_ms is None
            &&& incoming.expire_timeout < 0 && incoming.hints.urgency < 2 ==> (
            stored->0.expires_unix_ms matches Some(end) && end == now + 5_000)
            &&& incoming.hints.desktop_entry.len() > 0 ==> stored->0.group_key
                == incoming.hints.desktop_entry
            &&& incoming.hints.desktop_entry.len() == 0 && incoming.app_name.len() > 0
                ==> stored->0.group_key == incoming.app_name
            &&& incoming.hints.desktop_entry.len() == 0 && incoming.app_name.len() == 0
                ==> stored->0.group_key == "unknown"@
            &&& effects.changed
            &&& effects.commands.len() > 0 && effects.commands[0] == PersistenceCommandModel::Save(
                stored->0,
            )
        },
{
    accepted_notification_is_active(engine, policy, replaces_id, incoming, monitor, now);
    if policy.error(incoming) is None {
        if replaces_id != 0 && has_id(engine.active, replaces_id) {
            let stored = ActiveNotificationModel {
                created_unix_ms: item_of(engine.active, replaces_id)->0.created_unix_ms,
                source_monitor: monitor,
                ..activated(replaces_id, incoming, now)
            };
            putting_in_changes_one(engine.active, stored, replaces_id);
        } else {
            lemma_allocated_is_free(engine.active, engine.next_id, u32::MAX as nat);
            let (id, counter) = allocated(engine.active, engine.next_id, u32::MAX as nat);
            if id is Some {
                let stored = ActiveNotificationModel {
                    source_monitor: monitor,
                    ..activated(id->0, incoming, now)
                };
                let gone = oldest(engine.active).id;
                taking_out_changes_one(engine.active, gone, id->0);
                putting_in_changes_one(engine.active, stored, id->0);
                putting_in_changes_one(without_id(engine.active, gone), stored, id->0);
            }
        }
    }
}

proof fn lemma_oldest(items: Seq<ActiveNotificationModel>)
    requires
        items.len() > 0,
    ensures
        items.contains(oldest(items)),
        forall|i: int|
            0 <= i < items.len() ==> oldest(items).created_unix_ms <= (
            #[trigger] items[i]).created_unix_ms,
    decreases items.len(),
{
    if items.len() > 1 {
        let shorter = items.drop_last();
        lemma_oldest(shorter);
        let k = choose|k: int| 0 <= k < shorter.len() && shorter[k] == oldest(shorter);
        assert(items[k] == oldest(shorter));
        assert(items[items.len() - 1] == items.last());
        assert forall|i: int| 0 <= i < items.len() implies oldest(items).created_unix_ms <= (
        #[trigger] items[i]).created_unix_ms by {
            if i < items.len() - 1 {
                assert(shorter[i] == items[i]);
            }
        }
    } else {
        assert(items[0] == oldest(items));
    }
}

/// A new notification leaves the others alone while there is room. Where there is
/// none, one goes: none of those that were active was made before it, its closing
/// is signalled and stored, and all others stay. One that replaces another
/// takes no room.
pub proof fn new_notification_displaces_only_the_oldest(
    engine: EngineModel,
    policy: NotificationPolicy,
    replaces_id: u32,
    incoming: IncomingNotificationModel,
    monitor: Seq<char>,
    now: u64,
    other: u32,
)
    requires
        is_table(engine.active),
        notified(engine, policy, replaces_id, incoming, monitor, now).1 is Accepted,
    ensures
        ({
            let (after, outcome) = notified(engine, policy, replaces_id, incoming, monitor, now);
            let id = outcome->Accepted_id;
            let effects = outcome->Accepted_effects;
            let replaces = replaces_id != 0 && has_id(engine.active, replaces_id);
            &&& after.dnd == engine.dnd && after.dnd_until_unix_ms == engine.dnd_until_unix_ms
            &&& after.history_revision != engine.history_revision
            &&& other != id && (replaces || engine.active.len() < policy.maximum_active) ==> item_of(
                after.active,
                other,
            ) == item_of(engine.active, other) && effects.signals.len() == 0
            &&& !replaces && engine.active.len() >= policy.maximum_active && engine.active.len() > 0
                ==> exists|gone: u32|
                {
                    &&& #[trigger] has_id(engine.active, gone)
                    &&& other != id ==> item_of(after.active, other) == if other == gone {
                        None
                    } else {
                        item_of(engine.active, other)
                    }
                    &&& effects.signals == seq![
                        NotificationSignalModel::Closed { id: gone, reason: 4 },
                    ]
                    &&& effects.commands.contains(
                        PersistenceCommandModel::Close {
                            id: gone,
                            closed_unix_ms: now,
                            reason: 4,
                        },
                    )
                    &&& forall|i: int|
                        0 <= i < engine.active.len() ==> item_of(
                            engine.active,
                            gone,
                        )->0.created_unix_ms <= (#[trigger] engine.active[i]).created_unix_ms
                }
        }),
{
    if replaces_id != 0 && has_id(engine.active, replaces_id) {
        let stored = ActiveNotificationModel {
            created_unix_ms: item_of(engine.active, replaces_id)->0.created_unix_ms,
            source_monitor: monitor,
            ..activated(replaces_id, incoming, now)
        };
        putting_in_changes_one(engine.active, stored, other);
    } else {
        lemma_allocated_is_free(engine.active, engine.next_id, u32::MAX as nat);
        let (id, counter) = allocated(engine.active, engine.next_id, u32::MAX as nat);
        let stored = ActiveNotificationModel {
            source_monitor: monitor,
            ..activated(id->0, incoming, now)
        };
        putting_in_changes_one(engine.active, stored, other);
        if engine.active.len() > 0 {
            lemma_oldest(engine.active);
            lemma_oldest_is_active(engine.active);
            let gone = oldest(engine.active).id;
            let k = choose|k: int|
                0 <= k < engine.active.len() && engine.active[k] == oldest(engine.active);
            lemma_unique(engine.active, gone, k);
            taking_out_changes_one(engine.active, gone, other);
            putting_in_changes_one(without_id(engine.active, gone), stored, other);
            let effects = notified(
                engine,
                policy,
                replaces_id,
                incoming,
                monitor,
                now,
            ).1->Accepted_effects;
            if engine.active.len() >= policy.maximum_active {
                assert(effects.commands[1] == PersistenceCommandModel::Close {
                    id: gone,
                    closed_unix_ms: now,
                    reason: 4,
                });
                assert(has_id(engine.active, gone));
            }
        }
    }
}

/// A notification that breaks a limit changes nothing, and the limit that it
/// breaks is told.
pub proof fn limits_decide_on_notifications(
    engine: EngineModel,
    policy: NotificationPolicy,
    replaces_id: u32,
    incoming: IncomingNotificationModel,
    monitor: Seq<char>,
    now: u64,
)
    requires
        is_table(engine.active),
        engine.active.len() < 2_000_000_000,
    ensures
        ({
            let (after, outcome) = notified(engine, policy, replaces_id, incoming, monitor, now);
            let unnamed = exists|i: int|
                0 <= i < incoming.actions.len() && (#[trigger] incoming.actions[i]).key.len() == 0;
            let summary_long = encode_utf8(incoming.summary).len() > policy.maximum_summary_bytes;
            let body_long = encode_utf8(incoming.body).len() > policy.maximum_body_bytes;
            let too_many = incoming.actions.len() > policy.maximum_actions;
            &&& outcome is Accepted <==> !summary_long && !body_long && !too_many && !unnamed
            &&& outcome is Refused ==> after == engine
            &&& summary_long ==> outcome == NotifyOutcome::Refused(
                NotifyError::Policy(PolicyError::SummaryTooLong),
            )
            &&& !summary_long && body_long ==> outcome == NotifyOutcome::Refused(
                NotifyError::Policy(PolicyError::BodyTooLong),
            )
            &&& !summary_long && !body_long && too_many ==> outcome == NotifyOutcome::Refused(
                NotifyError::Policy(PolicyError::TooManyActions),
            )
            &&& !summary_long && !body_long && !too_many && unnamed ==> outcome
                == NotifyOutcome::Refused(NotifyError::Policy(PolicyError::EmptyActionKey))
        }),
{
    ids_do_not_run_out(engine);
}

/// Closing a notification takes out that one and no other; that it is closed, and
/// why, is signalled and stored. Where there is none with the id nothing
/// happens at all.
pub proof fn closing_is_signalled(engine: EngineModel, id: u32, reason: u32, now: u64, other: u32)
    requires
        is_table(engine.active),
    ensures
        ({
            let (after, effects) = closed(engine, id, reason, now);
            &&& item_of(after.active, id) is None
            &&& other != id ==> item_of(after.active, other) == item_of(engine.active, other)
            &&& after.dnd == engine.dnd && after.dnd_until_unix_ms == engine.dnd_until_unix_ms
            &&& after.next_id == engine.next_id
            &&& item_of(engine.active, id) is None ==> after == engine && effects.commands.len()
                == 0 && effects.signals.len() == 0 && !effects.changed
            &&& item_of(engine.active, id) is Some ==> {
                &&& after.history_revision != engine.history_revision
                &&& effects.changed
                &&& effects.signals == seq![NotificationSignalModel::Closed { id, reason }]
                &&& effects.commands == seq![
                    PersistenceCommandModel::Close { id, closed_unix_ms: now, reason },
                ]
            }
        }),
{
    taking_out_changes_one(engine.active, id, id);
    taking_out_changes_one(engine.active, id, other);
}

/// Clearing takes out every notification, and signals of each that the user
/// dismissed it. That notifications are not disturbed stays as it was.
pub proof fn clearing_dismisses_all(engine: EngineModel, now: u64, id: u32)
    requires
        is_table(engine.active),
    ensures
        ({
            let (after, effects) = cleared(engine, now);
            &&& item_of(after.active, id) is None
            &&& after.active.len() == 0
            &&& after.dnd == engine.dnd && after.dnd_until_unix_ms == engine.dnd_until_unix_ms
            &&& effects.signals.len() == engine.active.len()
            &&& item_of(engine.active, id) is Some <==> effects.signals.contains(
                NotificationSignalModel::Closed { id, reason: 2 },
            )
            &&& engine.active.len() > 0 ==> effects.changed && effects.commands == seq![
                PersistenceCommandModel::Clear { closed_unix_ms: now, reason: 2 },
            ]
            &&& engine.active.len() == 0 ==> after == engine && !effects.changed
        }),
{
    let signals = cleared(engine, now).1.signals;
    let wanted = NotificationSignalModel::Closed { id, reason: 2 };
    if has_id(engine.active, id) {
        let k = place_of(engine.active, id);
        assert(ids_of(engine.active)[k] == id);
        assert(signals[k] == wanted);
    }
    if signals.contains(wanted) {
        let k = choose|k: int| 0 <= k < signals.len() && signals[k] == wanted;
        assert(signals[k] == NotificationSignalModel::Closed {
            id: ids_of(engine.active)[k],
            reason: 2,
        });
        assert(engine.active[k].id == id);
    }
}

/// Clearing a group dismisses the notifications of that group and leaves all
/// others.
pub proof fn clearing_a_group_leaves_others(
    engine: EngineModel,
    group: Seq<char>,
    now: u64,
    id: u32,
)
    requires
        is_table(engine.active),
    ensures
        item_of(
            closed_all(engine, group_ids(engine.active, group), DISMISSED, now).0.active,
            id,
        ) == match item_of(engine.active, id) {
            Some(item) => if item.group_key == group {
                None
            } else {
                Some(item)
            },
            None => None,
        },
{
    let wanted = |item: ActiveNotificationModel| item.group_key == group;
    let picked = engine.active.filter(wanted);
    let ids = group_ids(engine.active, group);
    closing_takes_out_only_named(engine, ids, DISMISSED, now, id);
    if ids.contains(id) {
        let m = choose|m: int| 0 <= m < ids.len() && ids[m] == id;
        assert(picked[m].id == id);
        engine.active.lemma_filter_pred(wanted, m);
        engine.active.lemma_filter_contains_rev(wanted, picked[m]);
        let n = choose|n: int| 0 <= n < engine.active.len() && engine.active[n] == picked[m];
        assert(engine.active[n].id == id);
        lemma_unique(engine.active, id, n);
    }
    if has_id(engine.active, id) {
        let k = place_of(engine.active, id);
        if engine.active[k].group_key == group {
            engine.active.lemma_filter_contains(wanted, k);
            let m = choose|m: int| 0 <= m < picked.len() && picked[m] == engine.active[k];
            assert(ids[m] == id);
        }
    }
}

/// Asking not to be disturbed is remembered, with the time at which it ends; being
/// disturbed again has no end. Notifications stay, and what was so before is
/// neither stored nor published again.
pub proof fn dnd_is_as_asked(engine: EngineModel, enabled: bool, until: Option<u64>)
    ensures
        ({
            let (after, effects) = with_dnd(engine, enabled, until);
            &&& after.dnd == enabled
            &&& enabled ==> after.dnd_until_unix_ms == until
            &&& !enabled ==> after.dnd_until_unix_ms is None
            &&& after.active == engine.active
            &&& after.history_revision == engine.history_revision
            &&& effects.changed <==> engine.dnd != after.dnd || engine.dnd_until_unix_ms
                != after.dnd_until_unix_ms
            &&& effects.signals.len() == 0
            &&& effects.changed ==> effects.commands == seq![
                PersistenceCommandModel::SetDnd {
                    enabled: after.dnd,
                    until_unix_ms: after.dnd_until_unix_ms,
                },
            ]
            &&& !effects.changed ==> effects.commands.len() == 0
            &&& with_dnd(after, enabled, until) == (after, EffectsModel::none())
        }),
{
}

/// Putting a notification off changes when it is shown and when it ends, and
/// nothing else of it, nor any other; and only to a time to come.
pub proof fn snoozing_changes_times_only(
    engine: EngineModel,
    id: u32,
    until: u64,
    now: u64,
    other: u32,
)
    requires
        is_table(engine.active),
        until <= u64::MAX - 5_000,
    ensures
        ({
            let (after, effects) = snoozed(engine, id, until, now);
            &&& until <= now || item_of(engine.active, id) is None ==> after == engine
                && !effects.changed && effects.commands.len() == 0
            &&& other != id ==> item_of(after.active, other) == item_of(engine.active, other)
            &&& until > now && item_of(engine.active, id) is Some ==> {
                let before = item_of(engine.active, id)->0;
                let item = item_of(after.active, id)->0;
                &&& item_of(after.active, id) is Some
                &&& item.snoozed_until_unix_ms == Some(until)
                &&& item.updated_unix_ms == now
                &&& before.expires_unix_ms is None ==> item.expires_unix_ms is None
                &&& before.expires_unix_ms is Some ==> item.expires_unix_ms == Some(
                    (until + 5_000) as u64,
                )
                &&& item.id == before.id && item.summary == before.summary && item.body
                    == before.body && item.actions == before.actions && item.hints == before.hints
                &&& item.app_name == before.app_name && item.app_icon == before.app_icon
                    && item.group_key == before.group_key && item.created_unix_ms
                    == before.created_unix_ms && item.source_monitor == before.source_monitor
                &&& effects.commands == seq![PersistenceCommandModel::Save(item)]
                &&& effects.changed
            }
        }),
{
    if until > now && has_id(engine.active, id) {
        let item = item_of(engine.active, id)->0;
        let k = place_of(engine.active, id);
        assert(engine.active[k].id == id);
        let stored = snoozed_item(item, until, now);
        putting_in_changes_one(engine.active, stored, id);
        putting_in_changes_one(engine.active, stored, other);
    }
}

/// An action that a notification offers is signalled, after the token for it where
/// there is one; the notification is then dismissed unless it is resident. An
/// action that none offers does nothing.
pub proof fn offered_actions_are_signalled(
    engine: EngineModel,
    id: u32,
    key: Seq<char>,
    token: Option<Seq<char>>,
    now: u64,
    other: u32,
)
    requires
        is_table(engine.active),
    ensures
        ({
            let (after, effects) = acted(engine, id, key, token, now);
            let chosen = NotificationSignalModel::ActionInvoked { id, action_key: key };
            let item = item_of(engine.active, id);
            let offered = item is Some && exists|i: int|
                0 <= i < item->0.actions.len() && (#[trigger] item->0.actions[i]).key == key;
            let at: int = if token is Some { 1 } else { 0 };
            &&& can_act(engine, id, key) <==> offered
            &&& !offered ==> after == engine && effects.signals.len() == 0
                && effects.commands.len() == 0 && !effects.changed
            &&& offered ==> {
                &&& effects.signals.len() > at && effects.signals[at] == chosen
                &&& token matches Some(given) ==> effects.signals[0]
                    == NotificationSignalModel::ActivationToken { id, token: given }
                &&& item->0.hints.resident ==> after == engine && effects.signals.len() == at + 1
                &&& !item->0.hints.resident ==> item_of(after.active, id) is None
                    && effects.signals.len() == at + 2 && effects.signals[at + 1]
                    == NotificationSignalModel::Closed { id, reason: 2 }
                &&& other != id ==> item_of(after.active, other) == item_of(engine.active, other)
            }
        }),
{
    taking_out_changes_one(engine.active, id, id);
    taking_out_changes_one(engine.active, id, other);
}

/// When time has passed: a notification whose end has come is closed; one without
/// an end, or whose end is to come, stays as it is; one put off to a time to
/// come stays whatever its end; one put off until now or before is put off no
/// longer.
pub proof fn notifications_end_in_time(engine: EngineModel, now: u64, id: u32)
    requires
        is_table(engine.active),
        item_of(engine.active, id) is Some,
    ensures
        ({
            let item = item_of(engine.active, id)->0;
            let after = item_of(expired(engine, now).0.active, id);
            let ended = item.expires_unix_ms is Some && item.expires_unix_ms->0 <= now;
            &&& item.snoozed_until_unix_ms is None && ended ==> after is None
            &&& item.snoozed_until_unix_ms is None && !ended ==> after == Some(item)
            &&& item.snoozed_until_unix_ms is Some && item.snoozed_until_unix_ms->0 > now
                ==> after == Some(item)
            &&& item.snoozed_until_unix_ms is Some && item.snoozed_until_unix_ms->0 <= now && ended
                ==> after is None
            &&& item.snoozed_until_unix_ms is Some && item.snoozed_until_unix_ms->0 <= now && !ended
                ==> after == Some(ActiveNotificationModel { snoozed_until_unix_ms: None, ..item })
        }),
        engine.dnd_until_unix_ms is None ==> expired(engine, now).0.dnd == engine.dnd,
        expired(engine, now).1.changed,
        engine.dnd_until_unix_ms is Some && engine.dnd_until_unix_ms->0 > now ==> expired(
            engine,
            now,
        ).0.dnd == engine.dnd && expired(engine, now).0.dnd_until_unix_ms
            == engine.dnd_until_unix_ms,
        engine.dnd_until_unix_ms is Some && engine.dnd_until_unix_ms->0 <= now ==> !expired(
            engine,
            now,
        ).0.dnd,
{
    expiry_closes_only_what_is_due(engine, now, id);
    let due = ids_of(
        awakened_all(engine.active, now).filter(
            |item: ActiveNotificationModel| is_due(item, now),
        ),
    );
    let dnd_over = engine.dnd && is_over(engine.dnd_until_unix_ms, now);
    let middle = EngineModel {
        active: awakened_all(engine.active, now),
        dnd: engine.dnd && !dnd_over,
        dnd_until_unix_ms: if dnd_over {
            None
        } else {
            engine.dnd_until_unix_ms
        },
        history_revision: if awakened_saves(engine.active, now).len() > 0 || dnd_over {
            next_revision(engine.history_revision)
        } else {
            engine.history_revision
        },
        next_id: engine.next_id,
    };
    lemma_closing_keeps_dnd(middle, due, EXPIRED, now);
}

proof fn lemma_closing_keeps_dnd(engine: EngineModel, ids: Seq<u32>, reason: u32, now: u64)
    ensures
        closed_all(engine, ids, reason, now).0.dnd == engine.dnd,
        closed_all(engine, ids, reason, now).0.dnd_until_unix_ms == engine.dnd_until_unix_ms,
    decreases ids.len(),
{
    if ids.len() > 0 {
        lemma_closing_keeps_dnd(engine, ids.drop_last(), reason, now);
    }
}

/// Each notification that is closed is signalled with its id and the reason, in
/// the order of the ids, and nothing else is.
pub proof fn each_closing_is_signalled(
    engine: EngineModel,
    ids: Seq<u32>,
    reason: u32,
    now: u64,
    id: u32,
)
    requires
        is_table(engine.active),
    ensures
        ({
            let effects = closed_all(engine, ids, reason, now).1;
            let stored = effects.commands.contains(
                PersistenceCommandModel::Close { id, closed_unix_ms: now, reason },
            );
            &&& effects.signals.contains(NotificationSignalModel::Closed { id, reason })
                <==> ids.contains(id) && item_of(engine.active, id) is Some
            &&& stored <==> ids.contains(id) && item_of(engine.active, id) is Some
            &&& effects.changed <== ids.contains(id) && item_of(engine.active, id) is Some
        }),
    decreases ids.len(),
{
    let signal = NotificationSignalModel::Closed { id, reason };
    let command = PersistenceCommandModel::Close { id, closed_unix_ms: now, reason };
    if ids.len() > 0 {
        let shorter = ids.drop_last();
        each_closing_is_signalled(engine, shorter, reason, now, id);
        closing_takes_out_only_named(engine, shorter, reason, now, id);
        let before = closed_all(engine, shorter, reason, now);
        let last = closed(before.0, ids.last(), reason, now);
        let effects = closed_all(engine, ids, reason, now).1;
        assert(effects.signals == before.1.signals + last.1.signals);
        assert(effects.commands == before.1.commands + last.1.commands);
        assert(ids =~= shorter.push(ids.last()));
        if ids.contains(id) && id != ids.last() {
            let k = choose|k: int| 0 <= k < ids.len() && ids[k] == id;
            assert(shorter[k] == id);
        }
        if shorter.contains(id) {
            let k = choose|k: int| 0 <= k < shorter.len() && shorter[k] == id;
            assert(ids[k] == id);
        }
        if id == ids.last() {
            assert(ids[ids.len() - 1] == id);
        }
        if before.1.signals.contains(signal) {
            let k = choose|k: int| 0 <= k < before.1.signals.len() && before.1.signals[k] == signal;
            assert(effects.signals[k] == signal);
        }
        if before.1.commands.contains(command) {
            let k = choose|k: int|
                0 <= k < before.1.commands.len() && before.1.commands[k] == command;
            assert(effects.commands[k] == command);
        }
        if last.1.signals.len() > 0 {
            assert(effects.signals[before.1.signals.len() as int] == last.1.signals[0]);
            assert(effects.commands[before.1.commands.len() as int] == last.1.commands[0]);
        }
        if effects.signals.contains(signal) {
            let k = choose|k: int| 0 <= k < effects.signals.len() && effects.signals[k] == signal;
            if k < before.1.signals.len() {
                assert(before.1.signals[k] == signal);
            }
        }
        if effects.commands.contains(command) {
            let k = choose|k: int|
                0 <= k < effects.commands.len() && effects.commands[k] == command;
            if k < before.1.commands.len() {
                assert(before.1.commands[k] == command);
            }
        }
    }
}

proof fn lemma_first_wakeup(items: Seq<ActiveNotificationModel>, i: int)
    requires
        0 <= i < items.len(),
    ensures
        items[i].snoozed_until_unix_ms is Some ==> first_wakeup(items) is Some && first_wakeup(
            items,
        )->0 <= items[i].snoozed_until_unix_ms->0,
        items[i].snoozed_until_unix_ms is None && items[i].expires_unix_ms is Some
            ==> first_wakeup(items) is Some && first_wakeup(items)->0
            <= items[i].expires_unix_ms->0,
    decreases items.len(),
{
    if i < items.len() - 1 {
        lemma_first_wakeup(items.drop_last(), i);
    }
}

proof fn lemma_some_wakeup(items: Seq<ActiveNotificationModel>)
    ensures
        first_wakeup(items) is Some ==> exists|i: int|
            0 <= i < items.len() && wakes_at(#[trigger] items[i], first_wakeup(items)->0),
    decreases items.len(),
{
    if items.len() > 0 {
        let shorter = items.drop_last();
        lemma_some_wakeup(shorter);
        if first_wakeup(shorter) is Some {
            let k = choose|i: int|
                0 <= i < shorter.len() && wakes_at(#[trigger] shorter[i], first_wakeup(shorter)->0);
            assert(items[k] == shorter[k]);
        }
        assert(items[items.len() - 1] == items.last());
    }
}

/// Whether something happens to a notification at a time: it is shown again, or
/// it ends.
pub open spec fn wakes_at(item: ActiveNotificationModel, time: u64) -> bool {
    ||| item.snoozed_until_unix_ms == Some(time)
    ||| item.snoozed_until_unix_ms is None && item.expires_unix_ms == Some(time)
}

/// The wait until something falls due is never past the time of any notification,
/// nor past the end of not being disturbed; and where there is a wait,
/// something falls due right at its end.
pub proof fn wait_ends_when_something_is_due(engine: EngineModel, now: u64, i: int, time: u64)
    requires
        0 <= i < engine.active.len(),
    ensures
        wakes_at(engine.active[i], time) ==> (expiry_delay(engine, now) matches Some(delay) && (if time > now {
            delay <= time - now
        } else {
            delay == 0
        })),
        engine.dnd_until_unix_ms == Some(time) ==> (expiry_delay(engine, now) matches Some(delay) && (if time > now {
            delay <= time - now
        } else {
            delay == 0
        })),
        expiry_delay(engine, now) matches Some(delay) ==> delay == 0 || engine.dnd_until_unix_ms
            == Some((now + delay) as u64) || exists|k: int|
            0 <= k < engine.active.len() && wakes_at(
                #[trigger] engine.active[k],
                (now + delay) as u64,
            ),
{
    lemma_first_wakeup(engine.active, i);
    lemma_some_wakeup(engine.active);
}

/// What is published is every notification that is not put off, in the order of
/// the ids, with their number and whether the user is not to be disturbed.
pub proof fn published_notifications_are_those_not_put_off(engine: EngineModel, id: u32)
    requires
        is_table(engine.active),
        engine.active.len() <= u32::MAX,
    ensures
        ({
            let summary = summary_of(engine);
            let shown = active_state_of(engine);
            &&& item_of(engine.active, id) is None ==> !has_id(shown.notifications, id)
            &&& item_of(engine.active, id) matches Some(item) ==> (has_id(shown.notifications, id)
                <==> item.snoozed_until_unix_ms is None)
            &&& forall|i: int|
                0 <= i < shown.notifications.len() ==> engine.active.contains(
                    #[trigger] shown.notifications[i],
                )
            &&& summary.count == shown.notifications.len()
            &&& summary.dnd == engine.dnd
            &&& summary.dnd_until_unix_ms == engine.dnd_until_unix_ms
            &&& summary.history_revision == engine.history_revision && shown.revision
                == engine.history_revision
            &&& summary.available && shown.available
            &&& summary.backend == "native"@ && !summary.inhibited
            &&& summary.text == decimal_text(shown.notifications.len())
            &&& shown.notifications.len() == 1 ==> summary.tooltip == summary.text + " "@
                + "Notification"@
            &&& shown.notifications.len() != 1 ==> summary.tooltip == summary.text + " "@
                + "Notifications"@
            &&& summary.alt == summary.class_name
            &&& summary.error is None && shown.error is None
            &&& engine.dnd ==> summary.class_name == "dnd-notification"@
            &&& !engine.dnd ==> summary.class_name == "notification"@
        }),
{
    lemma_visible(engine.active, id);
    let wanted = |item: ActiveNotificationModel| item.snoozed_until_unix_ms is None;
    let shown = engine.active.filter(wanted);
    engine.active.lemma_filter_len(wanted);
    assert forall|i: int| 0 <= i < shown.len() implies engine.active.contains(
        #[trigger] shown[i],
    ) by {
        engine.active.lemma_filter_pred(wanted, i);
        engine.active.lemma_filter_contains_rev(wanted, shown[i]);
    }
}

/// A restart keeps the notifications that were stored, the last of those that
/// share an id, and the wish not to be disturbed unless its end has come;
/// new ids come after those in use.
pub proof fn restart_keeps_notifications(
    stored: Seq<ActiveNotificationModel>,
    dnd: bool,
    until: Option<u64>,
    now: u64,
    at: int,
)
    requires
        0 <= at < stored.len(),
        forall|i: int| at < i < stored.len() ==> (#[trigger] stored[i]).id != stored[at].id,
    ensures
        is_table(started(stored, dnd, until, now).0.active),
        item_of(started(stored, dnd, until, now).0.active, stored[at].id) == Some(stored[at]),
        started(stored, dnd, until, now).0.next_id >= stored[at].id,
        until is None ==> started(stored, dnd, until, now).0.dnd == dnd,
        until is Some && until->0 > now ==> started(stored, dnd, until, now).0.dnd == dnd
            && started(stored, dnd, until, now).0.dnd_until_unix_ms == until,
        until is Some && until->0 <= now ==> !started(stored, dnd, until, now).0.dnd && started(
            stored,
            dnd,
            until,
            now,
        ).0.dnd_until_unix_ms is None,
{
    lemma_restored(stored, at);
    lemma_greatest(stored, at);
}

proof fn lemma_restored(stored: Seq<ActiveNotificationModel>, at: int)
    requires
        0 <= at < stored.len(),
        forall|i: int| at < i < stored.len() ==> (#[trigger] stored[i]).id != stored[at].id,
    ensures
        is_table(table_of(stored)),
        item_of(table_of(stored), stored[at].id) == Some(stored[at]),
    decreases stored.len(),
{
    let shorter = stored.drop_last();
    lemma_restored_table(shorter);
    putting_in_changes_one(table_of(shorter), stored.last(), stored[at].id);
    if at < stored.len() - 1 {
        assert(stored[stored.len() - 1].id != stored[at].id);
        assert forall|i: int| at < i < shorter.len() implies (#[trigger] shorter[i]).id
            != shorter[at].id by {
            assert(stored[i].id != stored[at].id);
        }
        lemma_restored(shorter, at);
    }
}

proof fn lemma_restored_table(stored: Seq<ActiveNotificationModel>)
    ensures
        is_table(table_of(stored)),
    decreases stored.len(),
{
    if stored.len() > 0 {
        lemma_restored_table(stored.drop_last());
        putting_in_changes_one(table_of(stored.drop_last()), stored.last(), stored.last().id);
    }
}

proof fn lemma_greatest(stored: Seq<ActiveNotificationModel>, at: int)
    requires
        0 <= at < stored.len(),
    ensures
        greatest_id(stored) >= stored[at].id,
    decreases stored.len(),
{
    if at < stored.len() - 1 {
        lemma_greatest(stored.drop_last(), at);
    }
}

/// The history counts on by one with each change of it, and from its greatest
/// number to the start; so do the ids that are tried, which are never zero.
pub proof fn counting_goes_on_by_one(revision: u64, counter: u32)
    ensures
        revision < u64::MAX ==> next_revision(revision) == revision + 1,
        next_revision(u64::MAX) == 0,
        counter < u32::MAX ==> next_counter(counter) == counter + 1,
        next_counter(u32::MAX) == 0,
        counter_id(counter) != 0,
        counter != 0 ==> counter_id(counter) == counter,
        counter_id(0) == 1,
{
}

/// A new notification gets the id behind the last one that was given, where that
/// is free.
pub proof fn ids_are_given_in_turn(engine: EngineModel)
    requires
        engine.next_id < u32::MAX,
        !has_id(engine.active, (engine.next_id + 1) as u32),
    ensures
        allocated(engine.active, engine.next_id, u32::MAX as nat) == (
            Some((engine.next_id + 1) as u32),
            (engine.next_id + 1) as u32,
        ),
{
}

/// After a restart ids go on behind the greatest in use; where none is, from the
/// start.
pub proof fn ids_go_on_after_restart(
    stored: Seq<ActiveNotificationModel>,
    dnd: bool,
    until: Option<u64>,
    now: u64,
)
    ensures
        stored.len() == 0 ==> started(stored, dnd, until, now).0.next_id == 0,
        stored.len() == 0 ==> started(stored, dnd, until, now).0.active.len() == 0,
        started(stored, dnd, until, now).0.next_id != 0 ==> exists|i: int|
            0 <= i < stored.len() && (#[trigger] stored[i]).id == started(
                stored,
                dnd,
                until,
                now,
            ).0.next_id,
{
    lemma_greatest_is_used(stored);
}

proof fn lemma_greatest_is_used(stored: Seq<ActiveNotificationModel>)
    ensures
        greatest_id(stored) != 0 ==> exists|i: int|
            0 <= i < stored.len() && (#[trigger] stored[i]).id == greatest_id(stored),
    decreases stored.len(),
{
    if stored.len() > 0 {
        let shorter = stored.drop_last();
        lemma_greatest_is_used(shorter);
        if greatest_id(shorter) != 0 {
            let k = choose|i: int|
                0 <= i < shorter.len() && (#[trigger] shorter[i]).id == greatest_id(shorter);
            assert(stored[k] == shorter[k]);
        }
        assert(stored[stored.len() - 1] == stored.last());
    }
}

proof fn lemma_awakened_are_saved(items: Seq<ActiveNotificationModel>, now: u64, i: int)
    requires
        0 <= i < items.len(),
        items[i].snoozed_until_unix_ms is Some,
        items[i].snoozed_until_unix_ms->0 <= now,
    ensures
        awakened_saves(items, now).contains(
            PersistenceCommandModel::Save(
                ActiveNotificationModel { snoozed_until_unix_ms: None, ..items[i] },
            ),
        ),
    decreases items.len(),
{
    let saved = PersistenceCommandModel::Save(
        ActiveNotificationModel { snoozed_until_unix_ms: None, ..items[i] },
    );
    let all = awakened_saves(items, now);
    if i < items.len() - 1 {
        let shorter = items.drop_last();
        lemma_awakened_are_saved(shorter, now, i);
        let before = awakened_saves(shorter, now);
        let k = choose|k: int| 0 <= k < before.len() && before[k] == saved;
        assert(all[k] == saved);
    } else {
        assert(all[all.len() - 1] == saved);
    }
}

proof fn lemma_saves_are_awakened(items: Seq<ActiveNotificationModel>, now: u64)
    ensures
        (forall|i: int|
            0 <= i < items.len() ==> (#[trigger] items[i]).snoozed_until_unix_ms is None
                || items[i].snoozed_until_unix_ms->0 > now) ==> awakened_saves(items, now).len()
            == 0,
    decreases items.len(),
{
    if items.len() > 0 && forall|i: int|
        0 <= i < items.len() ==> (#[trigger] items[i]).snoozed_until_unix_ms is None
            || items[i].snoozed_until_unix_ms->0 > now {
        let shorter = items.drop_last();
        assert forall|i: int| 0 <= i < shorter.len() implies (
        #[trigger] shorter[i]).snoozed_until_unix_ms is None || shorter[i].snoozed_until_unix_ms->0
            > now by {
            assert(items[i] == shorter[i]);
        }
        lemma_saves_are_awakened(shorter, now);
        assert(items[items.len() - 1] == items.last());
    }
}

/// What happens as time passes is stored and signalled: a notification that ends is
/// closed as expired, one that is shown again is stored so, and the wish not to be
/// disturbed is stored as over. Where nothing comes back, nothing is stored of it.
pub proof fn endings_are_stored_and_signalled(engine: EngineModel, now: u64, id: u32)
    requires
        is_table(engine.active),
        item_of(engine.active, id) is Some,
    ensures
        ({
            let item = item_of(engine.active, id)->0;
            let effects = expired(engine, now).1;
            let ended = item.expires_unix_ms is Some && item.expires_unix_ms->0 <= now;
            let back = item.snoozed_until_unix_ms is Some && item.snoozed_until_unix_ms->0 <= now;
            &&& ended && item.snoozed_until_unix_ms is None ==> effects.signals.contains(
                NotificationSignalModel::Closed { id, reason: 1 },
            ) && effects.commands.contains(
                PersistenceCommandModel::Close { id, closed_unix_ms: now, reason: 1 },
            )
            &&& !ended ==> !effects.signals.contains(
                NotificationSignalModel::Closed { id, reason: 1 },
            )
            &&& back ==> effects.commands.contains(
                PersistenceCommandModel::Save(
                    ActiveNotificationModel { snoozed_until_unix_ms: None, ..item },
                ),
            )
            &&& engine.dnd && engine.dnd_until_unix_ms is Some && engine.dnd_until_unix_ms->0 <= now
                ==> effects.commands.contains(
                PersistenceCommandModel::SetDnd { enabled: false, until_unix_ms: None },
            )
        }),
        (forall|i: int|
            0 <= i < engine.active.len() ==> (
            #[trigger] engine.active[i]).snoozed_until_unix_ms is None
                || engine.active[i].snoozed_until_unix_ms->0 > now) ==> awakened_saves(
            engine.active,
            now,
        ).len() == 0,
{
    let item = item_of(engine.active, id)->0;
    let k = place_of(engine.active, id);
    assert(engine.active[k].id == id);
    let awake = awakened_all(engine.active, now);
    let wanted = |item: ActiveNotificationModel| is_due(item, now);
    let picked = awake.filter(wanted);
    let due = ids_of(picked);
    lemma_awakened_table(engine.active, now);
    let saves = awakened_saves(engine.active, now);
    let dnd_over = engine.dnd && is_over(engine.dnd_until_unix_ms, now);
    let middle = EngineModel {
        active: awake,
        dnd: engine.dnd && !dnd_over,
        dnd_until_unix_ms: if dnd_over {
            None
        } else {
            engine.dnd_until_unix_ms
        },
        history_revision: if saves.len() > 0 || dnd_over {
            next_revision(engine.history_revision)
        } else {
            engine.history_revision
        },
        next_id: engine.next_id,
    };
    let over = PersistenceCommandModel::SetDnd { enabled: false, until_unix_ms: None };
    let first = if dnd_over {
        saves.push(over)
    } else {
        saves
    };
    let closing = closed_all(middle, due, EXPIRED, now).1;
    let effects = expired(engine, now).1;
    assert(effects.commands == first + closing.commands);
    assert(effects.signals =~= closing.signals);
    each_closing_is_signalled(middle, due, EXPIRED, now, id);
    assert(awake[k] == awakened(engine.active[k], now));
    assert(awake[k].id == id);
    assert(has_id(awake, id));
    lemma_unique(awake, id, k);
    if is_due(awake[k], now) {
        awake.lemma_filter_contains(wanted, k);
        let m = choose|m: int| 0 <= m < picked.len() && picked[m] == awake[k];
        assert(due[m] == id);
        let close = PersistenceCommandModel::Close { id, closed_unix_ms: now, reason: 1 };
        let n = choose|n: int| 0 <= n < closing.commands.len() && closing.commands[n] == close;
        assert(effects.commands[first.len() + n] == close);
    }
    if due.contains(id) {
        let m = choose|m: int| 0 <= m < due.len() && due[m] == id;
        assert(picked[m].id == id);
        awake.lemma_filter_pred(wanted, m);
        awake.lemma_filter_contains_rev(wanted, picked[m]);
        let n = choose|n: int| 0 <= n < awake.len() && awake[n] == picked[m];
        lemma_unique(awake, id, n);
    }
    if item.snoozed_until_unix_ms is Some && item.snoozed_until_unix_ms->0 <= now {
        lemma_awakened_are_saved(engine.active, now, k);
        let saved = PersistenceCommandModel::Save(
            ActiveNotificationModel { snoozed_until_unix_ms: None, ..item },
        );
        let n = choose|n: int| 0 <= n < saves.len() && saves[n] == saved;
        assert(effects.commands[n] == saved);
    }
    if dnd_over {
        assert(effects.commands[saves.len() as int] == over);
    }
    lemma_saves_are_awakened(engine.active, now);
}

} // verus!
