//! Configuration of calendar sources and world clocks.

use vstd::prelude::*;

use crate::activity::calendar::{is_timezone, known_timezone};
use crate::record::Record;
use crate::text::{is_blank, is_empty, joined, joined3, trimmed};

verus! {

/// Calendar sources and world clocks that the user asked for.
#[derive(Debug, PartialEq, Eq)]
pub struct ActivityConfig {
    pub calendar_sources: Vec<CalendarSourceConfig>,
    pub world_clocks: Vec<WorldClockConfig>,
}

/// What a [`ActivityConfig`] holds.
#[verifier::ext_equal]
pub struct ActivityConfigModel {
    pub calendar_sources: Seq<CalendarSourceConfigModel>,
    pub world_clocks: Seq<WorldClockConfigModel>,
}

impl DeepView for ActivityConfig {
    type V = ActivityConfigModel;

    open spec fn deep_view(&self) -> ActivityConfigModel {
        ActivityConfigModel {
            calendar_sources: self.calendar_sources.deep_view(),
            world_clocks: self.world_clocks.deep_view(),
        }
    }
}

impl Record for ActivityConfig {
    fn same(&self, other: &Self) -> (same: bool) {
        self.calendar_sources.same(&other.calendar_sources)
            && self.world_clocks.same(&other.world_clocks)
    }

    fn copy(&self) -> (copy: Self) {
        ActivityConfig {
            calendar_sources: self.calendar_sources.copy(),
            world_clocks: self.world_clocks.copy(),
        }
    }
}

impl Clone for ActivityConfig {
    fn clone(&self) -> (copy: Self)
        ensures
            copy.deep_view() == self.deep_view(),
    {
        self.copy()
    }
}

impl ActivityConfigModel {
    /// What a default [`ActivityConfig`] holds.
    pub open spec fn initial() -> ActivityConfigModel {
        ActivityConfigModel {
            calendar_sources: Seq::empty(),
            world_clocks: Seq::empty(),
        }
    }
}

impl Default for ActivityConfig {
    fn default() -> (value: ActivityConfig)
        ensures
            value.deep_view() == ActivityConfigModel::initial(),
    {
        let value = ActivityConfig {
            calendar_sources: Vec::new(),
            world_clocks: Vec::new(),
        };
        assert(value.deep_view() =~= ActivityConfigModel::initial());
        value
    }
}

/// One calendar source.
#[derive(Debug, PartialEq, Eq)]
pub struct CalendarSourceConfig {
    pub id: String,
    pub name: String,
    pub kind: String,
    pub path: String,
    pub color: String,
}

/// What a [`CalendarSourceConfig`] holds.
#[verifier::ext_equal]
pub struct CalendarSourceConfigModel {
    pub id: Seq<char>,
    pub name: Seq<char>,
    pub kind: Seq<char>,
    pub path: Seq<char>,
    pub color: Seq<char>,
}

impl DeepView for CalendarSourceConfig {
    type V = CalendarSourceConfigModel;

    open spec fn deep_view(&self) -> CalendarSourceConfigModel {
        CalendarSourceConfigModel {
            id: self.id.deep_view(),
            name: self.name.deep_view(),
            kind: self.kind.deep_view(),
            path: self.path.deep_view(),
            color: self.color.deep_view(),
        }
    }
}

impl Record for CalendarSourceConfig {
    fn same(&self, other: &Self) -> (same: bool) {
        self.id.same(&other.id)
            && self.name.same(&other.name)
            && self.kind.same(&other.kind)
            && self.path.same(&other.path)
            && self.color.same(&other.color)
    }

    fn copy(&self) -> (copy: Self) {
        CalendarSourceConfig {
            id: self.id.copy(),
            name: self.name.copy(),
            kind: self.kind.copy(),
            path: self.path.copy(),
            color: self.color.copy(),
        }
    }
}

impl Clone for CalendarSourceConfig {
    fn clone(&self) -> (copy: Self)
        ensures
            copy.deep_view() == self.deep_view(),
    {
        self.copy()
    }
}

impl CalendarSourceConfigModel {
    /// What a default [`CalendarSourceConfig`] holds.
    pub open spec fn initial() -> CalendarSourceConfigModel {
        CalendarSourceConfigModel {
            id: Seq::empty(),
            name: Seq::empty(),
            kind: "ics-directory"@,
            path: Seq::empty(),
            color: "#7aa2f7"@,
        }
    }
}

impl Default for CalendarSourceConfig {
    fn default() -> (value: CalendarSourceConfig)
        ensures
            value.deep_view() == CalendarSourceConfigModel::initial(),
    {
        let value = CalendarSourceConfig {
            id: String::new(),
            name: String::new(),
            kind: "ics-directory".to_string(),
            path: String::new(),
            color: "#7aa2f7".to_string(),
        };
        assert(value.deep_view() =~= CalendarSourceConfigModel::initial());
        value
    }
}

/// One world clock.
#[derive(Debug, PartialEq, Eq)]
pub struct WorldClockConfig {
    pub timezone: String,
    pub label: String,
}

/// What a [`WorldClockConfig`] holds.
#[verifier::ext_equal]
pub struct WorldClockConfigModel {
    pub timezone: Seq<char>,
    pub label: Seq<char>,
}

impl DeepView for WorldClockConfig {
    type V = WorldClockConfigModel;

    open spec fn deep_view(&self) -> WorldClockConfigModel {
        WorldClockConfigModel {
            timezone: self.timezone.deep_view(),
            label: self.label.deep_view(),
        }
    }
}

impl Record for WorldClockConfig {
    fn same(&self, other: &Self) -> (same: bool) {
        self.timezone.same(&other.timezone)
            && self.label.same(&other.label)
    }

    fn copy(&self) -> (copy: Self) {
        WorldClockConfig {
            timezone: self.timezone.copy(),
            label: self.label.copy(),
        }
    }
}

impl Clone for WorldClockConfig {
    fn clone(&self) -> (copy: Self)
        ensures
            copy.deep_view() == self.deep_view(),
    {
        self.copy()
    }
}

impl WorldClockConfigModel {
    /// What a default [`WorldClockConfig`] holds.
    pub open spec fn initial() -> WorldClockConfigModel {
        WorldClockConfigModel {
            timezone: Seq::empty(),
            label: Seq::empty(),
        }
    }
}

impl Default for WorldClockConfig {
    fn default() -> (value: WorldClockConfig)
        ensures
            value.deep_view() == WorldClockConfigModel::initial(),
    {
        let value = WorldClockConfig {
            timezone: String::new(),
            label: String::new(),
        };
        assert(value.deep_view() =~= WorldClockConfigModel::initial());
        value
    }
}

/// Why a configuration is refused. Each variant but the first names its culprit.
#[derive(Debug, PartialEq, Eq)]
pub enum ConfigError {
    EmptySourceId,
    DuplicateSourceId(String),
    EmptySourcePath(String),
    EmptySourceKind(String),
    UnknownTimezone(String),
}

/// What a [`ConfigError`] says.
pub enum ConfigErrorModel {
    EmptySourceId,
    DuplicateSourceId(Seq<char>),
    EmptySourcePath(Seq<char>),
    EmptySourceKind(Seq<char>),
    UnknownTimezone(Seq<char>),
}

impl DeepView for ConfigError {
    type V = ConfigErrorModel;

    open spec fn deep_view(&self) -> ConfigErrorModel {
        match self {
            ConfigError::EmptySourceId => ConfigErrorModel::EmptySourceId,
            ConfigError::DuplicateSourceId(id) => ConfigErrorModel::DuplicateSourceId(id@),
            ConfigError::EmptySourcePath(id) => ConfigErrorModel::EmptySourcePath(id@),
            ConfigError::EmptySourceKind(id) => ConfigErrorModel::EmptySourceKind(id@),
            ConfigError::UnknownTimezone(name) => ConfigErrorModel::UnknownTimezone(name@),
        }
    }
}

impl ConfigErrorModel {
    /// The sentence that reports the error.
    pub open spec fn message(self) -> Seq<char> {
        match self {
            ConfigErrorModel::EmptySourceId => "calendar source id cannot be empty"@,
            ConfigErrorModel::DuplicateSourceId(id) => "duplicate calendar source id "@ + id,
            ConfigErrorModel::EmptySourcePath(id) => "calendar source "@ + id
                + " path cannot be empty"@,
            ConfigErrorModel::EmptySourceKind(id) => "calendar source "@ + id
                + " kind cannot be empty"@,
            ConfigErrorModel::UnknownTimezone(name) => "parse world-clock timezone "@ + name,
        }
    }
}

impl ConfigError {
    /// The sentence that reports the error.
    pub fn message(&self) -> (message: String)
        ensures
            message@ == self.deep_view().message(),
    {
        match self {
            ConfigError::EmptySourceId => "calendar source id cannot be empty".to_string(),
            ConfigError::DuplicateSourceId(id) => joined("duplicate calendar source id ", id.as_str()),
            ConfigError::EmptySourcePath(id) => joined3(
                "calendar source ",
                id.as_str(),
                " path cannot be empty",
            ),
            ConfigError::EmptySourceKind(id) => joined3(
                "calendar source ",
                id.as_str(),
                " kind cannot be empty",
            ),
            ConfigError::UnknownTimezone(name) => joined(
                "parse world-clock timezone ",
                name.as_str(),
            ),
        }
    }
}

/// What is wrong with the source at an index, given those in front of it.
pub open spec fn source_error(
    sources: Seq<CalendarSourceConfigModel>,
    i: int,
) -> Option<ConfigErrorModel> {
    let source = sources[i];
    if trimmed(source.id).len() == 0 {
        Some(ConfigErrorModel::EmptySourceId)
    } else if exists|j: int| 0 <= j < i && #[trigger] sources[j].id == source.id {
        Some(ConfigErrorModel::DuplicateSourceId(source.id))
    } else if source.path.len() == 0 {
        Some(ConfigErrorModel::EmptySourcePath(source.id))
    } else if trimmed(source.kind).len() == 0 {
        Some(ConfigErrorModel::EmptySourceKind(source.id))
    } else {
        None
    }
}

/// What is wrong with the first faulty source at or behind an index.
pub open spec fn sources_error(
    sources: Seq<CalendarSourceConfigModel>,
    from: int,
) -> Option<ConfigErrorModel>
    decreases sources.len() - from,
{
    if from >= sources.len() {
        None
    } else if source_error(sources, from) is Some {
        source_error(sources, from)
    } else {
        sources_error(sources, from + 1)
    }
}

/// What is wrong with the first faulty clock at or behind an index.
pub open spec fn clocks_error(clocks: Seq<WorldClockConfigModel>, from: int) -> Option<
    ConfigErrorModel,
>
    decreases clocks.len() - from,
{
    if from >= clocks.len() {
        None
    } else if !is_timezone(clocks[from].timezone) {
        Some(ConfigErrorModel::UnknownTimezone(clocks[from].timezone))
    } else {
        clocks_error(clocks, from + 1)
    }
}

/// The first thing wrong with a configuration.
pub open spec fn config_error(config: ActivityConfigModel) -> Option<ConfigErrorModel> {
    if sources_error(config.calendar_sources, 0) is Some {
        sources_error(config.calendar_sources, 0)
    } else {
        clocks_error(config.world_clocks, 0)
    }
}

fn check_source(sources: &Vec<CalendarSourceConfig>, i: usize) -> (error: Option<ConfigError>)
    requires
        i < sources@.len(),
    ensures
        error.deep_view() == source_error(sources.deep_view(), i as int),
{
    let source = &sources[i];
    assert(sources.deep_view()[i as int] == source.deep_view());
    if is_blank(source.id.as_str()) {
        return Some(ConfigError::EmptySourceId);
    }
    let mut j: usize = 0;
    while j < i
        invariant
            j <= i < sources@.len(),
            sources.deep_view()[i as int] == source.deep_view(),
            trimmed(source.id@).len() != 0,
            forall|k: int| 0 <= k < j ==> #[trigger] sources.deep_view()[k].id != source.id@,
        decreases i - j,
    {
        assert(sources.deep_view()[j as int] == sources@[j as int].deep_view());
        if sources[j].id == source.id {
            assert(sources.deep_view()[j as int].id == source.id@);
            return Some(ConfigError::DuplicateSourceId(source.id.clone()));
        }
        j = j + 1;
    }
    if is_empty(source.path.as_str()) {
        return Some(ConfigError::EmptySourcePath(source.id.clone()));
    }
    if is_blank(source.kind.as_str()) {
        return Some(ConfigError::EmptySourceKind(source.id.clone()));
    }
    None
}

fn check_sources(sources: &Vec<CalendarSourceConfig>) -> (error: Option<ConfigError>)
    ensures
        error.deep_view() == sources_error(sources.deep_view(), 0),
{
    let mut i: usize = 0;
    while i < sources.len()
        invariant
            i <= sources@.len(),
            sources.deep_view().len() == sources@.len(),
            sources_error(sources.deep_view(), 0) == sources_error(sources.deep_view(), i as int),
        decreases sources@.len() - i,
    {
        let error = check_source(sources, i);
        if error.is_some() {
            return error;
        }
        i = i + 1;
    }
    None
}

fn check_clocks(clocks: &Vec<WorldClockConfig>) -> (error: Option<ConfigError>)
    ensures
        error.deep_view() == clocks_error(clocks.deep_view(), 0),
{
    let mut i: usize = 0;
    while i < clocks.len()
        invariant
            i <= clocks@.len(),
            clocks.deep_view().len() == clocks@.len(),
            clocks_error(clocks.deep_view(), 0) == clocks_error(clocks.deep_view(), i as int),
        decreases clocks@.len() - i,
    {
        assert(clocks.deep_view()[i as int] == clocks@[i as int].deep_view());
        if !known_timezone(clocks[i].timezone.as_str()) {
            return Some(ConfigError::UnknownTimezone(clocks[i].timezone.clone()));
        }
        i = i + 1;
    }
    None
}

/// Refuses sources without an id, a path, or a kind, sources that share an id,
/// and clocks in unknown time zones.
pub fn validate(config: &ActivityConfig) -> (result: Result<(), ConfigError>)
    ensures
        match result {
            Ok(()) => config_error(config.deep_view()) is None,
            Err(error) => config_error(config.deep_view()) == Some(error.deep_view()),
        },
{
    if let Some(error) = check_sources(&config.calendar_sources) {
        return Err(error);
    }
    if let Some(error) = check_clocks(&config.world_clocks) {
        return Err(error);
    }
    Ok(())
}

/// An accepted configuration gives every source an id, a path, and a kind,
/// never the same id twice, and every clock a known time zone.
pub proof fn accepted_config_is_sound(config: ActivityConfigModel)
    requires
        config_error(config) is None,
    ensures
        forall|i: int|
            0 <= i < config.calendar_sources.len() ==> {
                let source = #[trigger] config.calendar_sources[i];
                &&& trimmed(source.id).len() > 0
                &&& source.path.len() > 0
                &&& trimmed(source.kind).len() > 0
            },
        forall|i: int, j: int|
            0 <= i < j < config.calendar_sources.len() ==> #[trigger] config.calendar_sources[i].id
                != #[trigger] config.calendar_sources[j].id,
        forall|i: int|
            0 <= i < config.world_clocks.len() ==> is_timezone(
                (#[trigger] config.world_clocks[i]).timezone,
            ),
{
    lemma_no_sources_error(config.calendar_sources, 0);
    lemma_no_clocks_error(config.world_clocks, 0);
    assert forall|i: int| 0 <= i < config.calendar_sources.len() implies {
        let source = #[trigger] config.calendar_sources[i];
        &&& trimmed(source.id).len() > 0
        &&& source.path.len() > 0
        &&& trimmed(source.kind).len() > 0
    } by {
        assert(source_error(config.calendar_sources, i) is None);
    }
    assert forall|i: int, j: int| 0 <= i < j < config.calendar_sources.len() implies
        #[trigger] config.calendar_sources[i].id != #[trigger] config.calendar_sources[j].id by {
        assert(source_error(config.calendar_sources, j) is None);
    }
}

proof fn lemma_no_sources_error(sources: Seq<CalendarSourceConfigModel>, from: int)
    requires
        0 <= from,
        sources_error(sources, from) is None,
    ensures
        forall|i: int| from <= i < sources.len() ==> #[trigger] source_error(sources, i) is None,
    decreases sources.len() - from,
{
    if from < sources.len() {
        lemma_no_sources_error(sources, from + 1);
    }
}

proof fn lemma_no_clocks_error(clocks: Seq<WorldClockConfigModel>, from: int)
    requires
        0 <= from,
        clocks_error(clocks, from) is None,
    ensures
        forall|i: int| from <= i < clocks.len() ==> is_timezone((#[trigger] clocks[i]).timezone),
    decreases clocks.len() - from,
{
    if from < clocks.len() {
        lemma_no_clocks_error(clocks, from + 1);
    }
}

// Laws

/// Settings are refused only for what is wrong with them: they are accepted where
/// every source has an id of its own, a path and a kind, and every clock a zone
/// that is known.
pub proof fn sound_config_is_accepted(config: ActivityConfigModel)
    requires
        forall|i: int|
            0 <= i < config.calendar_sources.len() ==> {
                let source = #[trigger] config.calendar_sources[i];
                &&& trimmed(source.id).len() > 0
                &&& source.path.len() > 0
                &&& trimmed(source.kind).len() > 0
            },
        forall|i: int, j: int|
            0 <= i < j < config.calendar_sources.len() ==> #[trigger] config.calendar_sources[i].id
                != #[trigger] config.calendar_sources[j].id,
        forall|i: int|
            0 <= i < config.world_clocks.len() ==> is_timezone(
                (#[trigger] config.world_clocks[i]).timezone,
            ),
    ensures
        config_error(config) is None,
{
    assert forall|i: int| 0 <= i < config.calendar_sources.len() implies #[trigger] source_error(
        config.calendar_sources,
        i,
    ) is None by {
        let source = config.calendar_sources[i];
        assert(trimmed(source.id).len() > 0);
    }
    lemma_sound_sources(config.calendar_sources, 0);
    lemma_sound_clocks(config.world_clocks, 0);
}

proof fn lemma_sound_sources(sources: Seq<CalendarSourceConfigModel>, from: int)
    requires
        0 <= from,
        forall|i: int| 0 <= i < sources.len() ==> #[trigger] source_error(sources, i) is None,
    ensures
        sources_error(sources, from) is None,
    decreases sources.len() - from,
{
    if from < sources.len() {
        assert(source_error(sources, from) is None);
        lemma_sound_sources(sources, from + 1);
    }
}

proof fn lemma_sound_clocks(clocks: Seq<WorldClockConfigModel>, from: int)
    requires
        0 <= from,
        forall|i: int| 0 <= i < clocks.len() ==> is_timezone((#[trigger] clocks[i]).timezone),
    ensures
        clocks_error(clocks, from) is None,
    decreases clocks.len() - from,
{
    if from < clocks.len() {
        assert(is_timezone(clocks[from].timezone));
        lemma_sound_clocks(clocks, from + 1);
    }
}

/// What is wrong with settings is told, with the source or zone that it is about.
pub proof fn config_errors_say_what_is_wrong(text: Seq<char>)
    ensures
        ConfigErrorModel::EmptySourceId.message() == "calendar source id cannot be empty"@,
        ConfigErrorModel::DuplicateSourceId(text).message() == "duplicate calendar source id "@
            + text,
        ConfigErrorModel::EmptySourcePath(text).message() == "calendar source "@ + text
            + " path cannot be empty"@,
        ConfigErrorModel::EmptySourceKind(text).message() == "calendar source "@ + text
            + " kind cannot be empty"@,
        ConfigErrorModel::UnknownTimezone(text).message() == "parse world-clock timezone "@ + text,
{
}

} // verus!
