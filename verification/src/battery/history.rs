//! The course of the battery over the last days.

use vstd::prelude::*;

use crate::activity::notifications::model::time_sum;
use crate::model::{
    BatteryHistoryPoint, BatteryHistoryPointModel, BatteryHistoryState, BatteryHistoryStateModel,
    BatteryState, BatteryStateModel,
};
use crate::record::Record;
use crate::text::is_empty;

verus! {

/// The version of the file that is written.
pub const FILE_VERSION: u8 = 2;

/// How many days the history reaches back.
pub const RETENTION_DAYS: u8 = 7;

/// How far the history reaches back, in milliseconds.
pub const RETENTION_MILLISECONDS: u64 = 604_800_000;

/// How often the battery is written down, in milliseconds.
pub const BUCKET_MILLISECONDS: u64 = 900_000;

/// The longest time between two looks at the battery in which it counts as
/// watched, in milliseconds. The battery is looked at twice a minute; a longer
/// gap means that the laptop slept, was off, or that the daemon did not run.
pub const MAX_OBSERVATION_GAP_MILLISECONDS: u64 = 120_000;

/// The longest time between two points of an old file in which the battery
/// counts as watched, in milliseconds.
pub const LEGACY_POINT_GAP_MILLISECONDS: u64 = 1_020_000;

/// The history as it is stored.
#[derive(Debug, PartialEq, Eq)]
pub struct HistoryFile {
    pub version: u8,
    pub last_charge_timestamp_ms: u64,
    pub points: Vec<BatteryHistoryPoint>,
}

/// What a [`HistoryFile`] holds.
#[verifier::ext_equal]
pub struct HistoryFileModel {
    pub version: u8,
    pub last_charge_timestamp_ms: u64,
    pub points: Seq<BatteryHistoryPointModel>,
}

impl DeepView for HistoryFile {
    type V = HistoryFileModel;

    open spec fn deep_view(&self) -> HistoryFileModel {
        HistoryFileModel {
            version: self.version.deep_view(),
            last_charge_timestamp_ms: self.last_charge_timestamp_ms.deep_view(),
            points: self.points.deep_view(),
        }
    }
}

impl Record for HistoryFile {
    fn same(&self, other: &Self) -> (same: bool) {
        self.version.same(&other.version)
            && self.last_charge_timestamp_ms.same(&other.last_charge_timestamp_ms)
            && self.points.same(&other.points)
    }

    fn copy(&self) -> (copy: Self) {
        HistoryFile {
            version: self.version.copy(),
            last_charge_timestamp_ms: self.last_charge_timestamp_ms.copy(),
            points: self.points.copy(),
        }
    }
}

impl Clone for HistoryFile {
    fn clone(&self) -> (copy: Self)
        ensures
            copy.deep_view() == self.deep_view(),
    {
        self.copy()
    }
}

impl HistoryFileModel {
    /// What a default [`HistoryFile`] holds.
    pub open spec fn initial() -> HistoryFileModel {
        HistoryFileModel {
            version: 0,
            last_charge_timestamp_ms: 0,
            points: Seq::empty(),
        }
    }
}

impl Default for HistoryFile {
    fn default() -> (value: HistoryFile)
        ensures
            value.deep_view() == HistoryFileModel::initial(),
    {
        let value = HistoryFile {
            version: 0,
            last_charge_timestamp_ms: 0,
            points: Vec::new(),
        };
        assert(value.deep_view() =~= HistoryFileModel::initial());
        value
    }
}

/// The history, with the time during which the battery was watched.
#[derive(Debug, PartialEq, Eq)]
pub struct HistoryStore {
    pub last_charge_timestamp_ms: u64,
    pub points: Vec<BatteryHistoryPoint>,
    pub active_time_ms: u64,
    pub last_observation_timestamp_ms: Option<u64>,
}

/// What a [`HistoryStore`] holds.
#[verifier::ext_equal]
pub struct HistoryStoreModel {
    pub last_charge_timestamp_ms: u64,
    pub points: Seq<BatteryHistoryPointModel>,
    pub active_time_ms: u64,
    pub last_observation_timestamp_ms: Option<u64>,
}

impl DeepView for HistoryStore {
    type V = HistoryStoreModel;

    open spec fn deep_view(&self) -> HistoryStoreModel {
        HistoryStoreModel {
            last_charge_timestamp_ms: self.last_charge_timestamp_ms.deep_view(),
            points: self.points.deep_view(),
            active_time_ms: self.active_time_ms.deep_view(),
            last_observation_timestamp_ms: self.last_observation_timestamp_ms.deep_view(),
        }
    }
}

impl Record for HistoryStore {
    fn same(&self, other: &Self) -> (same: bool) {
        self.last_charge_timestamp_ms.same(&other.last_charge_timestamp_ms)
            && self.points.same(&other.points)
            && self.active_time_ms.same(&other.active_time_ms)
            && self.last_observation_timestamp_ms.same(&other.last_observation_timestamp_ms)
    }

    fn copy(&self) -> (copy: Self) {
        HistoryStore {
            last_charge_timestamp_ms: self.last_charge_timestamp_ms.copy(),
            points: self.points.copy(),
            active_time_ms: self.active_time_ms.copy(),
            last_observation_timestamp_ms: self.last_observation_timestamp_ms.copy(),
        }
    }
}

impl Clone for HistoryStore {
    fn clone(&self) -> (copy: Self)
        ensures
            copy.deep_view() == self.deep_view(),
    {
        self.copy()
    }
}

impl HistoryStoreModel {
    /// What a default [`HistoryStore`] holds.
    pub open spec fn initial() -> HistoryStoreModel {
        HistoryStoreModel {
            last_charge_timestamp_ms: 0,
            points: Seq::empty(),
            active_time_ms: 0,
            last_observation_timestamp_ms: None,
        }
    }
}

impl Default for HistoryStore {
    fn default() -> (value: HistoryStore)
        ensures
            value.deep_view() == HistoryStoreModel::initial(),
    {
        let value = HistoryStore {
            last_charge_timestamp_ms: 0,
            points: Vec::new(),
            active_time_ms: 0,
            last_observation_timestamp_ms: None,
        };
        assert(value.deep_view() =~= HistoryStoreModel::initial());
        value
    }
}

/// What the battery is doing.
pub open spec fn mode_text(charging: bool, plugged: bool) -> Seq<char> {
    if charging {
        "charging"@
    } else if plugged {
        "holding"@
    } else {
        "discharging"@
    }
}

fn mode(charging: bool, plugged: bool) -> (text: &'static str)
    ensures
        text@ == mode_text(charging, plugged),
{
    if charging {
        "charging"
    } else if plugged {
        "holding"
    } else {
        "discharging"
    }
}

/// Microwatts as hundredths of a watt, rounded.
pub open spec fn centiwatts_of(microwatts: u64) -> u64 {
    ((microwatts + 5_000) / 10_000) as u64
}

fn centiwatts(microwatts: u64) -> (centiwatts: u64)
    ensures
        centiwatts == centiwatts_of(microwatts),
{
    if microwatts % 10_000 >= 5_000 {
        microwatts / 10_000 + 1
    } else {
        microwatts / 10_000
    }
}

/// The time between two times, where it is no longer than a gap.
pub open spec fn watched_since(previous: Option<u64>, now: u64, gap: u64) -> Option<u64> {
    match previous {
        Some(before) => if before <= now && now - before <= gap {
            Some((now - before) as u64)
        } else {
            None
        },
        None => None,
    }
}

fn watched_time(previous: Option<u64>, now: u64, gap: u64) -> (time: Option<u64>)
    ensures
        time == watched_since(previous, now, gap),
{
    match previous {
        Some(before) => if before <= now && now - before <= gap {
            Some(now - before)
        } else {
            None
        },
        None => None,
    }
}

/// Zero where there is no time.
pub open spec fn time_or_zero(time: Option<u64>) -> u64 {
    match time {
        Some(time) => time,
        None => 0,
    }
}

fn or_zero(time: Option<u64>) -> (result: u64)
    ensures
        result == time_or_zero(time),
{
    match time {
        Some(time) => time,
        None => 0,
    }
}

// Pruning

/// Points without those at the front that are older than a time.
pub open spec fn since(points: Seq<BatteryHistoryPointModel>, cutoff: u64) -> Seq<
    BatteryHistoryPointModel,
>
    decreases points.len(),
{
    if points.len() > 0 && points[0].timestamp_ms < cutoff {
        since(points.skip(1), cutoff)
    } else {
        points
    }
}

/// The time that the history reaches back to.
pub open spec fn cutoff_at(now: u64) -> u64 {
    if now > RETENTION_MILLISECONDS {
        (now - RETENTION_MILLISECONDS) as u64
    } else {
        0
    }
}

/// The history without what is too old.
pub open spec fn pruned(store: HistoryStoreModel, now: u64) -> HistoryStoreModel {
    HistoryStoreModel { points: since(store.points, cutoff_at(now)), ..store }
}

/// The first point of a history that was pruned is not too old, and what is
/// left of it is the end of what it was.
pub proof fn pruning_keeps_recent_end(points: Seq<BatteryHistoryPointModel>, cutoff: u64)
    ensures
        since(points, cutoff).len() <= points.len(),
        since(points, cutoff) == points.skip(points.len() - since(points, cutoff).len()),
        since(points, cutoff).len() > 0 ==> since(points, cutoff)[0].timestamp_ms >= cutoff,
    decreases points.len(),
{
    if points.len() > 0 && points[0].timestamp_ms < cutoff {
        pruning_keeps_recent_end(points.skip(1), cutoff);
        let rest = since(points.skip(1), cutoff);
        assert(points.skip(1).skip(points.skip(1).len() - rest.len()) =~= points.skip(
            points.len() - rest.len(),
        ));
    } else {
        assert(points.skip(0) =~= points);
    }
}

impl HistoryStore {
    /// Forgets what is too old.
    pub fn prune(&mut self, now_ms: u64)
        ensures
            final(self).deep_view() == pruned(old(self).deep_view(), now_ms),
    {
        let cutoff: u64 = now_ms.saturating_sub(RETENTION_MILLISECONDS);
        assert(cutoff == cutoff_at(now_ms));
        let ghost all = self.points.deep_view();
        assert(all.skip(0) =~= all);
        while self.points.len() > 0 && self.points[0].timestamp_ms < cutoff
            invariant
                all == old(self).points.deep_view(),
                self.last_charge_timestamp_ms == old(self).last_charge_timestamp_ms,
                self.active_time_ms == old(self).active_time_ms,
                self.last_observation_timestamp_ms == old(self).last_observation_timestamp_ms,
                since(all, cutoff) == since(self.points.deep_view(), cutoff),
            decreases self.points@.len(),
        {
            let ghost before = self.points.deep_view();
            assert(before[0] == self.points@[0].deep_view());
            let _ = self.points.remove(0);
            assert(self.points.deep_view() =~= before.skip(1));
        }
        proof {
            if self.points@.len() > 0 {
                assert(self.points.deep_view()[0] == self.points@[0].deep_view());
            }
        }
    }
}

// Recording

/// The bucket that a time falls into.
pub open spec fn bucket_of(time: u64) -> int {
    time - time % BUCKET_MILLISECONDS
}

/// The history once the battery was looked at, and whether there is something new to store.
pub open spec fn recorded(store: HistoryStoreModel, state: BatteryStateModel, now: u64) -> (
    HistoryStoreModel,
    bool,
) {
    if !state.available {
        (HistoryStoreModel { last_observation_timestamp_ms: None, ..store }, false)
    } else {
        let recent = pruned(store, now);
        let watched = watched_since(
            recent.last_observation_timestamp_ms,
            now,
            MAX_OBSERVATION_GAP_MILLISECONDS,
        );
        let active = time_sum(recent.active_time_ms, time_or_zero(watched));
        let has_previous = recent.points.len() > 0;
        let previous = recent.points.last();
        let transition = has_previous && (previous.plugged != state.plugged || previous.charging
            != state.charging);
        let unplugged_now = !state.plugged && (recent.last_charge_timestamp_ms == 0 || (has_previous
            && previous.plugged));
        let looked = HistoryStoreModel {
            last_charge_timestamp_ms: if unplugged_now {
                now
            } else {
                recent.last_charge_timestamp_ms
            },
            active_time_ms: active,
            last_observation_timestamp_ms: Some(now),
            points: recent.points,
        };
        let new_bucket = !has_previous || bucket_of(previous.timestamp_ms) != bucket_of(now);
        if watched is Some && !new_bucket && !transition {
            (looked, false)
        } else {
            let point = BatteryHistoryPointModel {
                timestamp_ms: now,
                active_time_ms: active,
                continuous: watched is Some && has_previous,
                mode: mode_text(state.charging, state.plugged),
                percentage: state.percentage,
                power_centiwatts: centiwatts_of(state.power_uw),
                time_to_full_seconds: if state.charging && state.time_to_full_seconds > 0 {
                    Some(state.time_to_full_seconds)
                } else {
                    None
                },
                charging: state.charging,
                plugged: state.plugged,
            };
            (
                pruned(HistoryStoreModel { points: looked.points.push(point), ..looked }, now),
                true,
            )
        }
    }
}

impl HistoryStore {
    /// Looks at the battery. Tells whether there is something new to store.
    pub fn record(&mut self, state: &BatteryState, now_ms: u64) -> (new: bool)
        ensures
            (final(self).deep_view(), new) == recorded(old(self).deep_view(), state.deep_view(), now_ms),
    {
        if !state.available {
            self.last_observation_timestamp_ms = None;
            return false;
        }
        self.prune(now_ms);
        let ghost recent = self.deep_view();
        let watched = watched_time(
            self.last_observation_timestamp_ms,
            now_ms,
            MAX_OBSERVATION_GAP_MILLISECONDS,
        );
        self.active_time_ms = self.active_time_ms.saturating_add(or_zero(watched));
        let count: usize = self.points.len();
        let mut transition = false;
        let mut was_plugged = false;
        let mut new_bucket = true;
        let current_bucket: u64 = now_ms - now_ms % BUCKET_MILLISECONDS;
        if count > 0 {
            let previous = &self.points[count - 1];
            assert(recent.points.last() == self.points@[count - 1].deep_view());
            transition = previous.plugged != state.plugged || previous.charging != state.charging;
            was_plugged = previous.plugged;
            new_bucket = previous.timestamp_ms - previous.timestamp_ms % BUCKET_MILLISECONDS
                != current_bucket;
        }
        if !state.plugged && (self.last_charge_timestamp_ms == 0 || was_plugged) {
            self.last_charge_timestamp_ms = now_ms;
        }
        self.last_observation_timestamp_ms = Some(now_ms);
        if watched.is_some() && !new_bucket && !transition {
            return false;
        }
        let point = BatteryHistoryPoint {
            timestamp_ms: now_ms,
            active_time_ms: self.active_time_ms,
            continuous: watched.is_some() && count > 0,
            mode: mode(state.charging, state.plugged).to_string(),
            percentage: state.percentage,
            power_centiwatts: centiwatts(state.power_uw),
            time_to_full_seconds: if state.charging && state.time_to_full_seconds > 0 {
                Some(state.time_to_full_seconds)
            } else {
                None
            },
            charging: state.charging,
            plugged: state.plugged,
        };
        let ghost before = self.points.deep_view();
        self.points.push(point);
        assert(self.points.deep_view() =~= before.push(point.deep_view()));
        self.prune(now_ms);
        true
    }
}

/// A look at the battery adds no more to the watched time than a gap may be
/// long: time in which nobody looked does not count.
pub proof fn unwatched_time_does_not_count(
    store: HistoryStoreModel,
    state: BatteryStateModel,
    now: u64,
)
    ensures
        recorded(store, state, now).0.active_time_ms <= store.active_time_ms
            + MAX_OBSERVATION_GAP_MILLISECONDS,
        recorded(store, state, now).0.active_time_ms >= store.active_time_ms,
        store.last_observation_timestamp_ms is None ==> recorded(store, state, now).0.active_time_ms
            == store.active_time_ms,
{
}

// Showing

/// A time behind another, zero where it is not.
pub open spec fn time_behind(time: u64, start: u64) -> u64 {
    if time > start {
        (time - start) as u64
    } else {
        0
    }
}

/// When the battery was watched first.
pub open spec fn first_active(store: HistoryStoreModel) -> u64 {
    if store.points.len() > 0 {
        store.points[0].active_time_ms
    } else {
        store.active_time_ms
    }
}

/// Points with the watched time counted from the first, which continues nothing.
pub open spec fn shown_points(store: HistoryStoreModel) -> Seq<BatteryHistoryPointModel> {
    Seq::new(
        store.points.len(),
        |i: int|
            BatteryHistoryPointModel {
                active_time_ms: time_behind(store.points[i].active_time_ms, first_active(store)),
                continuous: i != 0 && store.points[i].continuous,
                ..store.points[i]
            },
    )
}

/// The history as it is shown.
pub open spec fn shown(store: HistoryStoreModel, include_points: bool) -> BatteryHistoryStateModel {
    let has_points = store.points.len() > 0;
    BatteryHistoryStateModel {
        retention_days: RETENTION_DAYS,
        last_charge_timestamp_ms: store.last_charge_timestamp_ms,
        latest_timestamp_ms: if has_points {
            store.points.last().timestamp_ms
        } else {
            0
        },
        active_duration_ms: if has_points {
            time_behind(store.points.last().active_time_ms, first_active(store))
        } else {
            0
        },
        points: if include_points {
            shown_points(store)
        } else {
            Seq::empty()
        },
    }
}

impl HistoryStore {
    fn points_to_show(&self, first_active_time_ms: u64) -> (points: Vec<BatteryHistoryPoint>)
        requires
            first_active_time_ms == first_active(self.deep_view()),
        ensures
            points.deep_view() == shown_points(self.deep_view()),
    {
        let mut points: Vec<BatteryHistoryPoint> = Vec::new();
        let mut i: usize = 0;
        while i < self.points.len()
            invariant
                i <= self.points@.len(),
                points@.len() == i,
                first_active_time_ms == first_active(self.deep_view()),
                forall|k: int|
                    0 <= k < i ==> (#[trigger] points@[k]).deep_view() == shown_points(
                        self.deep_view(),
                    )[k],
            decreases self.points@.len() - i,
        {
            let mut point = self.points[i].copy();
            point.active_time_ms = point.active_time_ms.saturating_sub(first_active_time_ms);
            if i == 0 {
                point.continuous = false;
            }
            assert(self.deep_view().points[i as int] == self.points@[i as int].deep_view());
            points.push(point);
            i = i + 1;
        }
        assert(points.deep_view() =~= shown_points(self.deep_view()));
        points
    }

    /// The history as it is shown on request, with its points. What is too old
    /// is forgotten first.
    pub fn snapshot(&mut self, now_ms: u64) -> (state: BatteryHistoryState)
        ensures
            final(self).deep_view() == pruned(old(self).deep_view(), now_ms),
            state.deep_view() == shown(pruned(old(self).deep_view(), now_ms), true),
    {
        self.prune(now_ms);
        self.state(true)
    }

    /// The history as it is shown, with or without its points.
    pub fn state(&self, include_points: bool) -> (state: BatteryHistoryState)
        ensures
            state.deep_view() == shown(self.deep_view(), include_points),
    {
        let count: usize = self.points.len();
        proof {
            if count > 0 {
                assert(self.deep_view().points[0] == self.points@[0].deep_view());
                assert(self.deep_view().points.last() == self.points@[count - 1].deep_view());
            }
        }
        let first: u64 = if count > 0 {
            self.points[0].active_time_ms
        } else {
            self.active_time_ms
        };
        let points = if include_points {
            self.points_to_show(first)
        } else {
            Vec::new()
        };
        let state = BatteryHistoryState {
            retention_days: RETENTION_DAYS,
            last_charge_timestamp_ms: self.last_charge_timestamp_ms,
            latest_timestamp_ms: if count > 0 {
                self.points[count - 1].timestamp_ms
            } else {
                0
            },
            active_duration_ms: if count > 0 {
                self.points[count - 1].active_time_ms.saturating_sub(first)
            } else {
                0
            },
            points,
        };
        assert(state.deep_view() =~= shown(self.deep_view(), include_points));
        state
    }
}

// Files

/// Points of an old file, with the time during which the battery was watched
/// told from when they were written down.
pub open spec fn migrated(points: Seq<BatteryHistoryPointModel>) -> Seq<BatteryHistoryPointModel>
    decreases points.len(),
{
    if points.len() == 0 {
        points
    } else {
        let before = migrated(points.drop_last());
        let previous = if before.len() > 0 {
            Some(before.last().timestamp_ms)
        } else {
            None
        };
        let active = if before.len() > 0 {
            before.last().active_time_ms
        } else {
            0
        };
        let watched = watched_since(
            previous,
            points.last().timestamp_ms,
            LEGACY_POINT_GAP_MILLISECONDS,
        );
        before.push(
            BatteryHistoryPointModel {
                continuous: watched is Some,
                active_time_ms: time_sum(active, time_or_zero(watched)),
                ..points.last()
            },
        )
    }
}

/// Points of which each says what the battery was doing.
pub open spec fn with_modes(points: Seq<BatteryHistoryPointModel>) -> Seq<
    BatteryHistoryPointModel,
> {
    points.map_values(
        |point: BatteryHistoryPointModel|
            if point.mode.len() == 0 {
                BatteryHistoryPointModel {
                    mode: mode_text(point.charging, point.plugged),
                    ..point
                }
            } else {
                point
            },
    )
}

/// The history that a file holds. One of an unknown version, like one that is
/// not there, holds nothing.
pub open spec fn loaded(file: Option<HistoryFileModel>, now: u64) -> HistoryStoreModel {
    let known = match file {
        Some(file) => if 1 <= file.version <= FILE_VERSION {
            file
        } else {
            HistoryFileModel::initial()
        },
        None => HistoryFileModel::initial(),
    };
    let current = if known.version < FILE_VERSION {
        migrated(known.points)
    } else {
        known.points
    };
    let points = with_modes(current);
    pruned(
        HistoryStoreModel {
            last_charge_timestamp_ms: known.last_charge_timestamp_ms,
            points,
            active_time_ms: if points.len() > 0 {
                points.last().active_time_ms
            } else {
                0
            },
            last_observation_timestamp_ms: None,
        },
        now,
    )
}

fn migrate_legacy_points(points: &Vec<BatteryHistoryPoint>) -> (result: Vec<BatteryHistoryPoint>)
    ensures
        result.deep_view() == migrated(points.deep_view()),
{
    let ghost all = points.deep_view();
    let mut result: Vec<BatteryHistoryPoint> = Vec::new();
    let mut active_time_ms: u64 = 0;
    let mut previous: Option<u64> = None;
    let mut i: usize = 0;
    assert(all.take(0) =~= Seq::<BatteryHistoryPointModel>::empty());
    assert(result.deep_view() =~= Seq::<BatteryHistoryPointModel>::empty());
    while i < points.len()
        invariant
            i <= points@.len(),
            all == points.deep_view(),
            result@.len() == i,
            result.deep_view() == migrated(all.take(i as int)),
            i == 0 ==> previous is None && active_time_ms == 0,
            i > 0 ==> previous == Some(result.deep_view().last().timestamp_ms) && active_time_ms
                == result.deep_view().last().active_time_ms,
        decreases points@.len() - i,
    {
        assert(all.take(i + 1).drop_last() =~= all.take(i as int));
        assert(all.take(i + 1).last() == points@[i as int].deep_view());
        let ghost before = result.deep_view();
        let mut point = points[i].copy();
        let watched = watched_time(previous, point.timestamp_ms, LEGACY_POINT_GAP_MILLISECONDS);
        point.continuous = watched.is_some();
        active_time_ms = active_time_ms.saturating_add(or_zero(watched));
        point.active_time_ms = active_time_ms;
        previous = Some(point.timestamp_ms);
        result.push(point);
        assert(result.deep_view() =~= before.push(point.deep_view()));
        i = i + 1;
    }
    assert(all.take(i as int) =~= all);
    result
}

fn normalize_modes(points: &Vec<BatteryHistoryPoint>) -> (result: Vec<BatteryHistoryPoint>)
    ensures
        result.deep_view() == with_modes(points.deep_view()),
{
    let mut result: Vec<BatteryHistoryPoint> = Vec::new();
    let mut i: usize = 0;
    while i < points.len()
        invariant
            i <= points@.len(),
            result@.len() == i,
            forall|k: int|
                0 <= k < i ==> (#[trigger] result@[k]).deep_view() == with_modes(
                    points.deep_view(),
                )[k],
        decreases points@.len() - i,
    {
        let mut point = points[i].copy();
        if is_empty(point.mode.as_str()) {
            point.mode = mode(point.charging, point.plugged).to_string();
        }
        assert(points.deep_view()[i as int] == points@[i as int].deep_view());
        result.push(point);
        i = i + 1;
    }
    assert(result.deep_view() =~= with_modes(points.deep_view()));
    result
}

impl HistoryStore {
    /// The history that a file holds, where there is one. A start of the daemon
    /// always breaks the history: nobody watched the battery before it.
    pub fn load(file: Option<HistoryFile>, now_ms: u64) -> (store: HistoryStore)
        ensures
            store.deep_view() == loaded(file.deep_view(), now_ms),
    {
        let known = match file {
            Some(file) => if 1 <= file.version && file.version <= FILE_VERSION {
                file
            } else {
                HistoryFile::default()
            },
            None => HistoryFile::default(),
        };
        let points = if known.version < FILE_VERSION {
            normalize_modes(&migrate_legacy_points(&known.points))
        } else {
            normalize_modes(&known.points)
        };
        let count: usize = points.len();
        assert(points.deep_view().len() == count);
        proof {
            if count > 0 {
                assert(points.deep_view().last() == points@[count - 1].deep_view());
            }
        }
        let active_time_ms: u64 = if count > 0 {
            points[count - 1].active_time_ms
        } else {
            0
        };
        let mut store = HistoryStore {
            last_charge_timestamp_ms: known.last_charge_timestamp_ms,
            points,
            active_time_ms,
            last_observation_timestamp_ms: None,
        };
        store.prune(now_ms);
        store
    }

    /// The history to be stored.
    pub fn file(&self) -> (file: HistoryFile)
        ensures
            file.deep_view() == (HistoryFileModel {
                version: FILE_VERSION,
                last_charge_timestamp_ms: self.last_charge_timestamp_ms,
                points: self.deep_view().points,
            }),
    {
        HistoryFile {
            version: FILE_VERSION,
            last_charge_timestamp_ms: self.last_charge_timestamp_ms,
            points: self.points.copy(),
        }
    }
}

/// What is stored comes back: the points, where each says what the battery was
/// doing and none is too old, and when it was last unplugged.
pub proof fn stored_history_comes_back(store: HistoryStoreModel, now: u64)
    requires
        forall|i: int| 0 <= i < store.points.len() ==> (#[trigger] store.points[i]).mode.len() > 0,
        store.points.len() > 0 ==> store.points[0].timestamp_ms >= cutoff_at(now),
    ensures
        ({
            let file = HistoryFileModel {
                version: FILE_VERSION,
                last_charge_timestamp_ms: store.last_charge_timestamp_ms,
                points: store.points,
            };
            &&& loaded(Some(file), now).points == store.points
            &&& loaded(Some(file), now).last_charge_timestamp_ms == store.last_charge_timestamp_ms
        }),
{
    assert(with_modes(store.points) =~= store.points);
}

// Laws

/// A point is added to the history when the battery is looked at and was not
/// watched just before, at the first look in a quarter of an hour, and when it
/// begins or ends to charge or to have external power. It holds what was seen.
pub proof fn points_hold_what_was_seen(store: HistoryStoreModel, state: BatteryStateModel, now: u64)
    requires
        forall|i: int|
            0 <= i < store.points.len() ==> (#[trigger] store.points[i]).timestamp_ms <= now,
        now >= 604_800_000,
        store.points.len() > 0 ==> store.points[0].timestamp_ms >= now - 604_800_000,
        state.power_uw <= u64::MAX - 5_000,
    ensures
        ({
            let (after, added) = recorded(store, state, now);
            let last = store.points.last();
            let watched = store.last_observation_timestamp_ms matches Some(before) && before <= now
                && now - before <= 120_000;
            let changed = store.points.len() > 0 && (last.plugged != state.plugged || last.charging
                != state.charging);
            let fresh = store.points.len() == 0 || last.timestamp_ms / 900_000 != now / 900_000;
            &&& added <==> state.available && (!watched || changed || fresh)
            &&& !added ==> after.points == store.points
            &&& added ==> {
                let point = after.points.last();
                &&& after.points == store.points.push(point)
                &&& point.timestamp_ms == now
                &&& point.percentage == state.percentage
                &&& point.charging == state.charging
                &&& point.plugged == state.plugged
                &&& point.continuous <==> watched && store.points.len() > 0
                &&& point.power_centiwatts == (state.power_uw + 5_000) / 10_000
                &&& state.charging ==> point.mode == "charging"@
                &&& !state.charging && state.plugged ==> point.mode == "holding"@
                &&& !state.charging && !state.plugged ==> point.mode == "discharging"@
                &&& point.time_to_full_seconds == if state.charging && state.time_to_full_seconds
                    > 0 {
                    Some(state.time_to_full_seconds)
                } else {
                    None
                }
                &&& point.active_time_ms == after.active_time_ms
            }
            &&& state.available ==> after.last_observation_timestamp_ms == Some(now)
            &&& !state.available ==> after.last_observation_timestamp_ms is None
            &&& state.available && watched && store.active_time_ms <= u64::MAX - 120_000
                ==> after.active_time_ms == store.active_time_ms + (now
                - store.last_observation_timestamp_ms->0)
            &&& state.available && !watched ==> after.active_time_ms == store.active_time_ms
            &&& state.available && !state.plugged && (store.last_charge_timestamp_ms == 0 || (
            store.points.len() > 0 && last.plugged)) ==> after.last_charge_timestamp_ms == now
            &&& state.available && (state.plugged || (store.last_charge_timestamp_ms != 0 && (
            store.points.len() == 0 || !last.plugged))) ==> after.last_charge_timestamp_ms
                == store.last_charge_timestamp_ms
        }),
{
    let recent = since(store.points, cutoff_at(now));
    assert(recent == store.points);
    if store.points.len() > 0 {
        let t = store.points.last().timestamp_ms;
        assert(store.points[store.points.len() - 1].timestamp_ms <= now);
        assert((t - t % 900_000 == now - now % 900_000) <==> t / 900_000 == now / 900_000);
    }
    let (after, added) = recorded(store, state, now);
    if added {
        let whole = store.points.push(after.points.last());
        if store.points.len() > 0 {
            assert(whole[0] == store.points[0]);
        }
    }
}

/// Points of the last seven days are kept, whatever is forgotten.
pub proof fn a_week_is_kept(store: HistoryStoreModel, now: u64, i: int)
    requires
        0 <= i < store.points.len(),
        store.points[i].timestamp_ms + 7 * 24 * 60 * 60 * 1000 >= now,
    ensures
        pruned(store, now).points.contains(store.points[i]),
        pruned(store, now).active_time_ms == store.active_time_ms,
        pruned(store, now).last_charge_timestamp_ms == store.last_charge_timestamp_ms,
        pruned(store, now).points.len() > 0 ==> pruned(store, now).points[0].timestamp_ms
            + 7 * 24 * 60 * 60 * 1000 >= now,
{
    lemma_since_keeps(store.points, cutoff_at(now), i);
    pruning_keeps_recent_end(store.points, cutoff_at(now));
}

proof fn lemma_since_keeps(points: Seq<BatteryHistoryPointModel>, cutoff: u64, i: int)
    requires
        0 <= i < points.len(),
        points[i].timestamp_ms >= cutoff,
    ensures
        since(points, cutoff).contains(points[i]),
    decreases points.len(),
{
    if points[0].timestamp_ms < cutoff {
        assert(points.skip(1)[i - 1] == points[i]);
        lemma_since_keeps(points.skip(1), cutoff, i - 1);
    } else {
        assert(points[i] == since(points, cutoff)[i]);
    }
}

/// What is shown of the history counts the time that the battery was watched from
/// the first point on, which continues nothing. All else of a point is shown as
/// it is; and no point is shown where none is wanted.
pub proof fn history_is_shown_from_its_start(store: HistoryStoreModel, i: int)
    requires
        0 <= i < store.points.len(),
        store.points[0].active_time_ms <= store.points[i].active_time_ms,
        store.points[0].active_time_ms <= store.points.last().active_time_ms,
    ensures
        ({
            let all = shown(store, true);
            let point = store.points[i];
            &&& all.retention_days == 7
            &&& all.last_charge_timestamp_ms == store.last_charge_timestamp_ms
            &&& all.latest_timestamp_ms == store.points.last().timestamp_ms
            &&& all.active_duration_ms == store.points.last().active_time_ms
                - store.points[0].active_time_ms
            &&& all.points.len() == store.points.len()
            &&& all.points[i].active_time_ms == point.active_time_ms
                - store.points[0].active_time_ms
            &&& all.points[i].continuous <==> i > 0 && point.continuous
            &&& all.points[i].timestamp_ms == point.timestamp_ms
            &&& all.points[i].percentage == point.percentage
            &&& all.points[i].mode == point.mode
            &&& all.points[i].power_centiwatts == point.power_centiwatts
            &&& all.points[i].time_to_full_seconds == point.time_to_full_seconds
            &&& all.points[i].charging == point.charging
            &&& all.points[i].plugged == point.plugged
            &&& shown(store, false).points.len() == 0
            &&& shown(store, false).active_duration_ms == all.active_duration_ms
            &&& shown(store, false).latest_timestamp_ms == all.latest_timestamp_ms
        }),
{
}

/// A point of an old file continues the one before it where that is at most
/// seventeen minutes older; the time between them then counts as watched, and
/// else none does. All else of it stays.
pub proof fn old_points_continue_close_ones(
    points: Seq<BatteryHistoryPointModel>,
    point: BatteryHistoryPointModel,
)
    requires
        points.len() > 0 ==> migrated(points).last().active_time_ms <= u64::MAX - 1_020_000,
    ensures
        ({
            let before = migrated(points);
            let after = migrated(points.push(point));
            let last = before.last();
            &&& after.len() == before.len() + 1
            &&& after.drop_last() == before
            &&& before.len() == points.len()
            &&& after.last().timestamp_ms == point.timestamp_ms
            &&& after.last().percentage == point.percentage
            &&& after.last().charging == point.charging
            &&& after.last().plugged == point.plugged
            &&& points.len() == 0 ==> !after.last().continuous && after.last().active_time_ms == 0
            &&& points.len() > 0 ==> {
                let close = last.timestamp_ms <= point.timestamp_ms && point.timestamp_ms
                    - last.timestamp_ms <= 17 * 60 * 1000;
                &&& after.last().continuous <==> close
                &&& close ==> after.last().active_time_ms == last.active_time_ms + (
                point.timestamp_ms - last.timestamp_ms)
                &&& !close ==> after.last().active_time_ms == last.active_time_ms
            }
        }),
{
    assert(points.push(point).drop_last() =~= points);
    lemma_migrated_length(points);
    let before = migrated(points);
    let after = migrated(points.push(point));
    assert(after.drop_last() =~= before);
}

proof fn lemma_migrated_length(points: Seq<BatteryHistoryPointModel>)
    ensures
        migrated(points).len() == points.len(),
    decreases points.len(),
{
    if points.len() > 0 {
        lemma_migrated_length(points.drop_last());
    }
}

/// Where there is no file, or one that this version does not know, the history
/// starts anew.
pub proof fn unknown_history_starts_anew(file: Option<HistoryFileModel>, now: u64)
    requires
        file matches Some(file) ==> file.version < 1 || file.version > 2,
    ensures
        loaded(file, now).points.len() == 0,
        loaded(file, now).active_time_ms == 0,
        loaded(file, now).last_charge_timestamp_ms == 0,
        loaded(file, now).last_observation_timestamp_ms is None,
{
    let none = HistoryFileModel::initial();
    assert(migrated(none.points).len() == 0) by {
        lemma_migrated_length(none.points);
    }
    assert(with_modes(migrated(none.points)).len() == 0);
}

/// A point without a mode gets the one that it was in, and keeps the one it has.
pub proof fn modes_are_filled_in(points: Seq<BatteryHistoryPointModel>, i: int)
    requires
        0 <= i < points.len(),
    ensures
        with_modes(points).len() == points.len(),
        points[i].mode.len() > 0 ==> with_modes(points)[i] == points[i],
        points[i].mode.len() == 0 ==> {
            let after = with_modes(points)[i];
            &&& points[i].charging ==> after.mode == "charging"@
            &&& !points[i].charging && points[i].plugged ==> after.mode == "holding"@
            &&& !points[i].charging && !points[i].plugged ==> after.mode == "discharging"@
            &&& after.percentage == points[i].percentage && after.timestamp_ms
                == points[i].timestamp_ms
        },
{
}

/// A history without points shows none, and no time that was watched.
pub proof fn empty_history_shows_nothing(store: HistoryStoreModel, include_points: bool)
    requires
        store.points.len() == 0,
    ensures
        shown(store, include_points).points.len() == 0,
        shown(store, include_points).latest_timestamp_ms == 0,
        shown(store, include_points).active_duration_ms == 0,
        shown(store, include_points).last_charge_timestamp_ms == store.last_charge_timestamp_ms,
{
}

} // verus!
