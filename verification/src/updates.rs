//! System updates that are ready to be applied.

use vstd::prelude::*;

use crate::model::{UpdateLane, UpdateLaneModel, UpdateState, UpdateStateModel};
use crate::record::Record;
use crate::text::{chars_of, is_empty, parse_unsigned, trim, trimmed, unsigned_value};

verus! {

/// Where updates are kept, unless told otherwise.
pub const DEFAULT_STATE_DIR: &'static str = "/var/lib/nixos-delayed-updates-v2";

/// The directory that is watched, which a setting can name.
pub fn state_dir(setting: Option<String>) -> (directory: String)
    ensures
        directory@ == match setting {
            Some(directory) => directory@,
            None => DEFAULT_STATE_DIR@,
        },
{
    match setting {
        Some(directory) => directory,
        None => DEFAULT_STATE_DIR.to_string(),
    }
}

/// What stands in the directory of a stream of updates: whether files and
/// links are there, and the contents of those that can be read.
#[derive(Debug, PartialEq, Eq)]
pub struct LaneFiles {
    pub has_lock: bool,
    pub has_revision: bool,
    pub has_base_hash: bool,
    pub has_system_link: bool,
    pub revision: Option<String>,
    pub base_hash: Option<String>,
    pub created_at: Option<String>,
    pub auto_apply: bool,
    pub system: Option<String>,
}

/// What a [`LaneFiles`] holds.
#[verifier::ext_equal]
pub struct LaneFilesModel {
    pub has_lock: bool,
    pub has_revision: bool,
    pub has_base_hash: bool,
    pub has_system_link: bool,
    pub revision: Option<Seq<char>>,
    pub base_hash: Option<Seq<char>>,
    pub created_at: Option<Seq<char>>,
    pub auto_apply: bool,
    pub system: Option<Seq<char>>,
}

impl DeepView for LaneFiles {
    type V = LaneFilesModel;

    open spec fn deep_view(&self) -> LaneFilesModel {
        LaneFilesModel {
            has_lock: self.has_lock.deep_view(),
            has_revision: self.has_revision.deep_view(),
            has_base_hash: self.has_base_hash.deep_view(),
            has_system_link: self.has_system_link.deep_view(),
            revision: self.revision.deep_view(),
            base_hash: self.base_hash.deep_view(),
            created_at: self.created_at.deep_view(),
            auto_apply: self.auto_apply.deep_view(),
            system: self.system.deep_view(),
        }
    }
}

impl Record for LaneFiles {
    fn same(&self, other: &Self) -> (same: bool) {
        self.has_lock.same(&other.has_lock)
            && self.has_revision.same(&other.has_revision)
            && self.has_base_hash.same(&other.has_base_hash)
            && self.has_system_link.same(&other.has_system_link)
            && self.revision.same(&other.revision)
            && self.base_hash.same(&other.base_hash)
            && self.created_at.same(&other.created_at)
            && self.auto_apply.same(&other.auto_apply)
            && self.system.same(&other.system)
    }

    fn copy(&self) -> (copy: Self) {
        LaneFiles {
            has_lock: self.has_lock.copy(),
            has_revision: self.has_revision.copy(),
            has_base_hash: self.has_base_hash.copy(),
            has_system_link: self.has_system_link.copy(),
            revision: self.revision.copy(),
            base_hash: self.base_hash.copy(),
            created_at: self.created_at.copy(),
            auto_apply: self.auto_apply.copy(),
            system: self.system.copy(),
        }
    }
}

impl Clone for LaneFiles {
    fn clone(&self) -> (copy: Self)
        ensures
            copy.deep_view() == self.deep_view(),
    {
        self.copy()
    }
}

impl LaneFilesModel {
    /// What a default [`LaneFiles`] holds.
    pub open spec fn initial() -> LaneFilesModel {
        LaneFilesModel {
            has_lock: false,
            has_revision: false,
            has_base_hash: false,
            has_system_link: false,
            revision: None,
            base_hash: None,
            created_at: None,
            auto_apply: false,
            system: None,
        }
    }
}

impl Default for LaneFiles {
    fn default() -> (value: LaneFiles)
        ensures
            value.deep_view() == LaneFilesModel::initial(),
    {
        let value = LaneFiles {
            has_lock: false,
            has_revision: false,
            has_base_hash: false,
            has_system_link: false,
            revision: None,
            base_hash: None,
            created_at: None,
            auto_apply: false,
            system: None,
        };
        assert(value.deep_view() =~= LaneFilesModel::initial());
        value
    }
}

/// The contents of a file without the white space at both ends, where that leaves anything.
pub open spec fn trimmed_contents(contents: Option<Seq<char>>) -> Option<Seq<char>> {
    match contents {
        Some(contents) => if trimmed(contents).len() == 0 {
            None
        } else {
            Some(trimmed(contents))
        },
        None => None,
    }
}

fn read_trimmed(contents: &Option<String>) -> (result: Option<String>)
    ensures
        result.deep_view() == trimmed_contents(contents.deep_view()),
{
    match contents {
        Some(contents) => {
            let part = trim(contents.as_str());
            if is_empty(part.as_str()) {
                None
            } else {
                Some(part)
            }
        },
        None => None,
    }
}

/// A stream of updates. An update is ready when all of it is there.
pub open spec fn lane_of(name: Seq<char>, files: LaneFilesModel) -> UpdateLaneModel {
    UpdateLaneModel {
        name,
        ready: files.has_lock && files.has_revision && files.has_base_hash
            && files.has_system_link,
        revision: trimmed_contents(files.revision),
        base_hash: trimmed_contents(files.base_hash),
        created_at: match trimmed_contents(files.created_at) {
            Some(text) => match unsigned_value(text, u64::MAX as nat) {
                Some(time) => Some(time as u64),
                None => None,
            },
            None => None,
        },
        auto_apply: files.auto_apply,
        system: files.system,
    }
}

/// Reads a stream of updates.
pub fn read_lane(name: &str, files: LaneFiles) -> (lane: UpdateLane)
    ensures
        lane.deep_view() == lane_of(name@, files.deep_view()),
{
    let created_at = match read_trimmed(&files.created_at) {
        Some(text) => parse_unsigned(&chars_of(text.as_str()), u64::MAX),
        None => None,
    };
    UpdateLane {
        name: name.to_string(),
        ready: files.has_lock && files.has_revision && files.has_base_hash
            && files.has_system_link,
        revision: read_trimmed(&files.revision),
        base_hash: read_trimmed(&files.base_hash),
        created_at,
        auto_apply: files.auto_apply,
        system: files.system,
    }
}

/// The state of all streams of updates.
pub open spec fn state_of(directory: Seq<char>, fast: LaneFilesModel, delayed: LaneFilesModel)
    -> UpdateStateModel {
    let fast = lane_of("fast"@, fast);
    let delayed = lane_of("delayed"@, delayed);
    UpdateStateModel {
        available: true,
        ready: fast.ready || delayed.ready,
        lanes: seq![fast, delayed],
        state_directory: directory,
        error: None,
    }
}

/// The state of all streams of updates in a directory.
pub fn read_state(directory: &str, fast: LaneFiles, delayed: LaneFiles) -> (state: UpdateState)
    ensures
        state.deep_view() == state_of(directory@, fast.deep_view(), delayed.deep_view()),
{
    let fast = read_lane("fast", fast);
    let delayed = read_lane("delayed", delayed);
    let ready = fast.ready || delayed.ready;
    let mut lanes: Vec<UpdateLane> = Vec::new();
    lanes.push(fast);
    lanes.push(delayed);
    assert(lanes.deep_view() =~= seq![fast.deep_view(), delayed.deep_view()]);
    UpdateState {
        available: true,
        ready,
        lanes,
        state_directory: directory.to_string(),
        error: None,
    }
}

/// The state where there is no directory, which is no error.
pub fn absent_state(directory: &str) -> (state: UpdateState)
    ensures
        state.deep_view() == (UpdateStateModel {
            state_directory: directory@,
            ..UpdateStateModel::initial()
        }),
{
    UpdateState { state_directory: directory.to_string(), ..UpdateState::default() }
}

/// The state where the directory cannot be read.
pub fn failed_state(directory: &str, error: String) -> (state: UpdateState)
    ensures
        state.deep_view() == (UpdateStateModel {
            state_directory: directory@,
            error: Some(error@),
            ..UpdateStateModel::initial()
        }),
{
    UpdateState {
        state_directory: directory.to_string(),
        error: Some(error),
        ..UpdateState::default()
    }
}

// Laws

/// A lane is ready if and only if all four of its files are there; updates are
/// ready if and only if a lane is. What is shown of a lane is what its files
/// hold, without the white space around it.
pub proof fn ready_lanes_have_all_files(
    directory: Seq<char>,
    fast: LaneFilesModel,
    delayed: LaneFilesModel,
)
    ensures
        ({
            let state = state_of(directory, fast, delayed);
            let all = |files: LaneFilesModel|
                files.has_lock && files.has_revision && files.has_base_hash
                    && files.has_system_link;
            &&& state.available && state.error is None
            &&& state.state_directory == directory
            &&& state.lanes.len() == 2
            &&& state.lanes[0].name == "fast"@ && state.lanes[1].name == "delayed"@
            &&& state.lanes[0].ready == all(fast) && state.lanes[1].ready == all(delayed)
            &&& state.ready <==> all(fast) || all(delayed)
            &&& state.lanes[0].auto_apply == fast.auto_apply && state.lanes[1].auto_apply
                == delayed.auto_apply
            &&& state.lanes[0].system == fast.system && state.lanes[1].system == delayed.system
        }),
{
}

/// What a lane shows of a file is its text without white space around it, and
/// nothing where nothing is left; the time is the number that is written.
pub proof fn lanes_show_what_files_hold(name: Seq<char>, files: LaneFilesModel)
    ensures
        ({
            let lane = lane_of(name, files);
            &&& lane.name == name
            &&& files.revision is None ==> lane.revision is None
            &&& files.revision matches Some(text) ==> (lane.revision is None <==> trimmed(text).len()
                == 0) && (lane.revision is Some ==> lane.revision->0 == trimmed(text))
            &&& files.base_hash is None ==> lane.base_hash is None
            &&& files.base_hash matches Some(text) ==> (lane.base_hash is None <==> trimmed(
                text,
            ).len() == 0) && (lane.base_hash is Some ==> lane.base_hash->0 == trimmed(text))
            &&& files.created_at matches Some(text) ==> {
                &&& trimmed(text).len() > 0 ==> (lane.created_at is Some <==> unsigned_value(
                    trimmed(text),
                    u64::MAX as nat,
                ) is Some)
                &&& trimmed(text).len() == 0 ==> lane.created_at is None
                &&& lane.created_at matches Some(time) ==> unsigned_value(
                    trimmed(text),
                    u64::MAX as nat,
                ) == Some(time as nat)
            }
            &&& files.created_at is None ==> lane.created_at is None
        }),
{
}

} // verus!
