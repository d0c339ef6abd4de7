//! Calendar, to-do, clock, and weather values.

use vstd::prelude::*;

use crate::record::Record;

verus! {

/// A physical quantity, held as the bits of an IEEE 754 double.
#[derive(Clone, Copy, Debug, PartialEq, Eq, Structural)]
pub struct Measure {
    pub bits: u64,
}

impl DeepView for Measure {
    type V = Measure;

    open spec fn deep_view(&self) -> Measure {
        *self
    }
}

impl Record for Measure {
    fn same(&self, other: &Self) -> (same: bool) {
        *self == *other
    }

    fn copy(&self) -> (copy: Self) {
        *self
    }
}

impl Measure {
    /// The quantity zero.
    pub open spec fn initial() -> Measure {
        Measure { bits: 0 }
    }
}

impl Default for Measure {
    fn default() -> (value: Measure)
        ensures
            value == Measure::initial(),
    {
        Measure { bits: 0 }
    }
}

/// Summary of calendars, tasks, clocks, and weather that the bar shows.
#[derive(Debug, PartialEq, Eq)]
pub struct ActivityState {
    pub available: bool,
    pub syncing: bool,
    pub event_count: u32,
    pub incomplete_todo_count: u32,
    pub next_event: Option<ActivityEvent>,
    pub sources: Vec<ActivitySourceState>,
    pub world_clocks: Vec<WorldClockState>,
    pub weather: WeatherState,
    pub weather_locations: Vec<WeatherState>,
    pub error: Option<String>,
}

/// What a [`ActivityState`] holds.
#[verifier::ext_equal]
pub struct ActivityStateModel {
    pub available: bool,
    pub syncing: bool,
    pub event_count: u32,
    pub incomplete_todo_count: u32,
    pub next_event: Option<ActivityEventModel>,
    pub sources: Seq<ActivitySourceStateModel>,
    pub world_clocks: Seq<WorldClockStateModel>,
    pub weather: WeatherStateModel,
    pub weather_locations: Seq<WeatherStateModel>,
    pub error: Option<Seq<char>>,
}

impl DeepView for ActivityState {
    type V = ActivityStateModel;

    open spec fn deep_view(&self) -> ActivityStateModel {
        ActivityStateModel {
            available: self.available.deep_view(),
            syncing: self.syncing.deep_view(),
            event_count: self.event_count.deep_view(),
            incomplete_todo_count: self.incomplete_todo_count.deep_view(),
            next_event: self.next_event.deep_view(),
            sources: self.sources.deep_view(),
            world_clocks: self.world_clocks.deep_view(),
            weather: self.weather.deep_view(),
            weather_locations: self.weather_locations.deep_view(),
            error: self.error.deep_view(),
        }
    }
}

impl Record for ActivityState {
    fn same(&self, other: &Self) -> (same: bool) {
        self.available.same(&other.available)
            && self.syncing.same(&other.syncing)
            && self.event_count.same(&other.event_count)
            && self.incomplete_todo_count.same(&other.incomplete_todo_count)
            && self.next_event.same(&other.next_event)
            && self.sources.same(&other.sources)
            && self.world_clocks.same(&other.world_clocks)
            && self.weather.same(&other.weather)
            && self.weather_locations.same(&other.weather_locations)
            && self.error.same(&other.error)
    }

    fn copy(&self) -> (copy: Self) {
        ActivityState {
            available: self.available.copy(),
            syncing: self.syncing.copy(),
            event_count: self.event_count.copy(),
            incomplete_todo_count: self.incomplete_todo_count.copy(),
            next_event: self.next_event.copy(),
            sources: self.sources.copy(),
            world_clocks: self.world_clocks.copy(),
            weather: self.weather.copy(),
            weather_locations: self.weather_locations.copy(),
            error: self.error.copy(),
        }
    }
}

impl Clone for ActivityState {
    fn clone(&self) -> (copy: Self)
        ensures
            copy.deep_view() == self.deep_view(),
    {
        self.copy()
    }
}

impl ActivityStateModel {
    /// What a default [`ActivityState`] holds.
    pub open spec fn initial() -> ActivityStateModel {
        ActivityStateModel {
            available: false,
            syncing: false,
            event_count: 0,
            incomplete_todo_count: 0,
            next_event: None,
            sources: Seq::empty(),
            world_clocks: Seq::empty(),
            weather: WeatherStateModel::initial(),
            weather_locations: Seq::empty(),
            error: None,
        }
    }
}

impl Default for ActivityState {
    fn default() -> (value: ActivityState)
        ensures
            value.deep_view() == ActivityStateModel::initial(),
    {
        let value = ActivityState {
            available: false,
            syncing: false,
            event_count: 0,
            incomplete_todo_count: 0,
            next_event: None,
            sources: Vec::new(),
            world_clocks: Vec::new(),
            weather: WeatherState::default(),
            weather_locations: Vec::new(),
            error: None,
        };
        assert(value.deep_view() =~= ActivityStateModel::initial());
        value
    }
}

/// Outcome of the last load of one calendar source.
#[derive(Debug, PartialEq, Eq)]
pub struct ActivitySourceState {
    pub id: String,
    pub name: String,
    pub kind: String,
    pub available: bool,
    pub item_count: u32,
    pub error: Option<String>,
}

/// What a [`ActivitySourceState`] holds.
#[verifier::ext_equal]
pub struct ActivitySourceStateModel {
    pub id: Seq<char>,
    pub name: Seq<char>,
    pub kind: Seq<char>,
    pub available: bool,
    pub item_count: u32,
    pub error: Option<Seq<char>>,
}

impl DeepView for ActivitySourceState {
    type V = ActivitySourceStateModel;

    open spec fn deep_view(&self) -> ActivitySourceStateModel {
        ActivitySourceStateModel {
            id: self.id.deep_view(),
            name: self.name.deep_view(),
            kind: self.kind.deep_view(),
            available: self.available.deep_view(),
            item_count: self.item_count.deep_view(),
            error: self.error.deep_view(),
        }
    }
}

impl Record for ActivitySourceState {
    fn same(&self, other: &Self) -> (same: bool) {
        self.id.same(&other.id)
            && self.name.same(&other.name)
            && self.kind.same(&other.kind)
            && self.available.same(&other.available)
            && self.item_count.same(&other.item_count)
            && self.error.same(&other.error)
    }

    fn copy(&self) -> (copy: Self) {
        ActivitySourceState {
            id: self.id.copy(),
            name: self.name.copy(),
            kind: self.kind.copy(),
            available: self.available.copy(),
            item_count: self.item_count.copy(),
            error: self.error.copy(),
        }
    }
}

impl Clone for ActivitySourceState {
    fn clone(&self) -> (copy: Self)
        ensures
            copy.deep_view() == self.deep_view(),
    {
        self.copy()
    }
}

impl ActivitySourceStateModel {
    /// What a default [`ActivitySourceState`] holds.
    pub open spec fn initial() -> ActivitySourceStateModel {
        ActivitySourceStateModel {
            id: Seq::empty(),
            name: Seq::empty(),
            kind: Seq::empty(),
            available: false,
            item_count: 0,
            error: None,
        }
    }
}

impl Default for ActivitySourceState {
    fn default() -> (value: ActivitySourceState)
        ensures
            value.deep_view() == ActivitySourceStateModel::initial(),
    {
        let value = ActivitySourceState {
            id: String::new(),
            name: String::new(),
            kind: String::new(),
            available: false,
            item_count: 0,
            error: None,
        };
        assert(value.deep_view() =~= ActivitySourceStateModel::initial());
        value
    }
}

/// One occurrence of a calendar event.
#[derive(Debug, PartialEq, Eq)]
pub struct ActivityEvent {
    pub id: String,
    pub source_id: String,
    pub calendar_name: String,
    pub color: String,
    pub title: String,
    pub start_unix_ms: i64,
    pub end_unix_ms: i64,
    pub all_day: bool,
    pub start_date: Option<String>,
    pub end_date: Option<String>,
    pub timezone: Option<String>,
    pub location: String,
    pub url: String,
}

/// What a [`ActivityEvent`] holds.
#[verifier::ext_equal]
pub struct ActivityEventModel {
    pub id: Seq<char>,
    pub source_id: Seq<char>,
    pub calendar_name: Seq<char>,
    pub color: Seq<char>,
    pub title: Seq<char>,
    pub start_unix_ms: i64,
    pub end_unix_ms: i64,
    pub all_day: bool,
    pub start_date: Option<Seq<char>>,
    pub end_date: Option<Seq<char>>,
    pub timezone: Option<Seq<char>>,
    pub location: Seq<char>,
    pub url: Seq<char>,
}

impl DeepView for ActivityEvent {
    type V = ActivityEventModel;

    open spec fn deep_view(&self) -> ActivityEventModel {
        ActivityEventModel {
            id: self.id.deep_view(),
            source_id: self.source_id.deep_view(),
            calendar_name: self.calendar_name.deep_view(),
            color: self.color.deep_view(),
            title: self.title.deep_view(),
            start_unix_ms: self.start_unix_ms.deep_view(),
            end_unix_ms: self.end_unix_ms.deep_view(),
            all_day: self.all_day.deep_view(),
            start_date: self.start_date.deep_view(),
            end_date: self.end_date.deep_view(),
            timezone: self.timezone.deep_view(),
            location: self.location.deep_view(),
            url: self.url.deep_view(),
        }
    }
}

impl Record for ActivityEvent {
    fn same(&self, other: &Self) -> (same: bool) {
        self.id.same(&other.id)
            && self.source_id.same(&other.source_id)
            && self.calendar_name.same(&other.calendar_name)
            && self.color.same(&other.color)
            && self.title.same(&other.title)
            && self.start_unix_ms.same(&other.start_unix_ms)
            && self.end_unix_ms.same(&other.end_unix_ms)
            && self.all_day.same(&other.all_day)
            && self.start_date.same(&other.start_date)
            && self.end_date.same(&other.end_date)
            && self.timezone.same(&other.timezone)
            && self.location.same(&other.location)
            && self.url.same(&other.url)
    }

    fn copy(&self) -> (copy: Self) {
        ActivityEvent {
            id: self.id.copy(),
            source_id: self.source_id.copy(),
            calendar_name: self.calendar_name.copy(),
            color: self.color.copy(),
            title: self.title.copy(),
            start_unix_ms: self.start_unix_ms.copy(),
            end_unix_ms: self.end_unix_ms.copy(),
            all_day: self.all_day.copy(),
            start_date: self.start_date.copy(),
            end_date: self.end_date.copy(),
            timezone: self.timezone.copy(),
            location: self.location.copy(),
            url: self.url.copy(),
        }
    }
}

impl Clone for ActivityEvent {
    fn clone(&self) -> (copy: Self)
        ensures
            copy.deep_view() == self.deep_view(),
    {
        self.copy()
    }
}

impl ActivityEventModel {
    /// What a default [`ActivityEvent`] holds.
    pub open spec fn initial() -> ActivityEventModel {
        ActivityEventModel {
            id: Seq::empty(),
            source_id: Seq::empty(),
            calendar_name: Seq::empty(),
            color: Seq::empty(),
            title: Seq::empty(),
            start_unix_ms: 0,
            end_unix_ms: 0,
            all_day: false,
            start_date: None,
            end_date: None,
            timezone: None,
            location: Seq::empty(),
            url: Seq::empty(),
        }
    }
}

impl Default for ActivityEvent {
    fn default() -> (value: ActivityEvent)
        ensures
            value.deep_view() == ActivityEventModel::initial(),
    {
        let value = ActivityEvent {
            id: String::new(),
            source_id: String::new(),
            calendar_name: String::new(),
            color: String::new(),
            title: String::new(),
            start_unix_ms: 0,
            end_unix_ms: 0,
            all_day: false,
            start_date: None,
            end_date: None,
            timezone: None,
            location: String::new(),
            url: String::new(),
        };
        assert(value.deep_view() =~= ActivityEventModel::initial());
        value
    }
}

/// One task.
#[derive(Debug, PartialEq, Eq)]
pub struct TodoItem {
    pub id: String,
    pub source_id: String,
    pub title: String,
    pub completed: bool,
    pub priority: u8,
    pub due_unix_ms: Option<i64>,
    pub due_date: Option<String>,
    pub created_unix_ms: i64,
    pub completed_unix_ms: Option<i64>,
}

/// What a [`TodoItem`] holds.
#[verifier::ext_equal]
pub struct TodoItemModel {
    pub id: Seq<char>,
    pub source_id: Seq<char>,
    pub title: Seq<char>,
    pub completed: bool,
    pub priority: u8,
    pub due_unix_ms: Option<i64>,
    pub due_date: Option<Seq<char>>,
    pub created_unix_ms: i64,
    pub completed_unix_ms: Option<i64>,
}

impl DeepView for TodoItem {
    type V = TodoItemModel;

    open spec fn deep_view(&self) -> TodoItemModel {
        TodoItemModel {
            id: self.id.deep_view(),
            source_id: self.source_id.deep_view(),
            title: self.title.deep_view(),
            completed: self.completed.deep_view(),
            priority: self.priority.deep_view(),
            due_unix_ms: self.due_unix_ms.deep_view(),
            due_date: self.due_date.deep_view(),
            created_unix_ms: self.created_unix_ms.deep_view(),
            completed_unix_ms: self.completed_unix_ms.deep_view(),
        }
    }
}

impl Record for TodoItem {
    fn same(&self, other: &Self) -> (same: bool) {
        self.id.same(&other.id)
            && self.source_id.same(&other.source_id)
            && self.title.same(&other.title)
            && self.completed.same(&other.completed)
            && self.priority.same(&other.priority)
            && self.due_unix_ms.same(&other.due_unix_ms)
            && self.due_date.same(&other.due_date)
            && self.created_unix_ms.same(&other.created_unix_ms)
            && self.completed_unix_ms.same(&other.completed_unix_ms)
    }

    fn copy(&self) -> (copy: Self) {
        TodoItem {
            id: self.id.copy(),
            source_id: self.source_id.copy(),
            title: self.title.copy(),
            completed: self.completed.copy(),
            priority: self.priority.copy(),
            due_unix_ms: self.due_unix_ms.copy(),
            due_date: self.due_date.copy(),
            created_unix_ms: self.created_unix_ms.copy(),
            completed_unix_ms: self.completed_unix_ms.copy(),
        }
    }
}

impl Clone for TodoItem {
    fn clone(&self) -> (copy: Self)
        ensures
            copy.deep_view() == self.deep_view(),
    {
        self.copy()
    }
}

impl TodoItemModel {
    /// What a default [`TodoItem`] holds.
    pub open spec fn initial() -> TodoItemModel {
        TodoItemModel {
            id: Seq::empty(),
            source_id: Seq::empty(),
            title: Seq::empty(),
            completed: false,
            priority: 0,
            due_unix_ms: None,
            due_date: None,
            created_unix_ms: 0,
            completed_unix_ms: None,
        }
    }
}

impl Default for TodoItem {
    fn default() -> (value: TodoItem)
        ensures
            value.deep_view() == TodoItemModel::initial(),
    {
        let value = TodoItem {
            id: String::new(),
            source_id: String::new(),
            title: String::new(),
            completed: false,
            priority: 0,
            due_unix_ms: None,
            due_date: None,
            created_unix_ms: 0,
            completed_unix_ms: None,
        };
        assert(value.deep_view() =~= TodoItemModel::initial());
        value
    }
}

/// A clock in another time zone.
#[derive(Debug, PartialEq, Eq)]
pub struct WorldClockState {
    pub timezone: String,
    pub label: String,
    pub city: String,
    pub abbreviation: String,
    pub utc_offset_seconds: i32,
}

/// What a [`WorldClockState`] holds.
#[verifier::ext_equal]
pub struct WorldClockStateModel {
    pub timezone: Seq<char>,
    pub label: Seq<char>,
    pub city: Seq<char>,
    pub abbreviation: Seq<char>,
    pub utc_offset_seconds: i32,
}

impl DeepView for WorldClockState {
    type V = WorldClockStateModel;

    open spec fn deep_view(&self) -> WorldClockStateModel {
        WorldClockStateModel {
            timezone: self.timezone.deep_view(),
            label: self.label.deep_view(),
            city: self.city.deep_view(),
            abbreviation: self.abbreviation.deep_view(),
            utc_offset_seconds: self.utc_offset_seconds.deep_view(),
        }
    }
}

impl Record for WorldClockState {
    fn same(&self, other: &Self) -> (same: bool) {
        self.timezone.same(&other.timezone)
            && self.label.same(&other.label)
            && self.city.same(&other.city)
            && self.abbreviation.same(&other.abbreviation)
            && self.utc_offset_seconds.same(&other.utc_offset_seconds)
    }

    fn copy(&self) -> (copy: Self) {
        WorldClockState {
            timezone: self.timezone.copy(),
            label: self.label.copy(),
            city: self.city.copy(),
            abbreviation: self.abbreviation.copy(),
            utc_offset_seconds: self.utc_offset_seconds.copy(),
        }
    }
}

impl Clone for WorldClockState {
    fn clone(&self) -> (copy: Self)
        ensures
            copy.deep_view() == self.deep_view(),
    {
        self.copy()
    }
}

impl WorldClockStateModel {
    /// What a default [`WorldClockState`] holds.
    pub open spec fn initial() -> WorldClockStateModel {
        WorldClockStateModel {
            timezone: Seq::empty(),
            label: Seq::empty(),
            city: Seq::empty(),
            abbreviation: Seq::empty(),
            utc_offset_seconds: 0,
        }
    }
}

impl Default for WorldClockState {
    fn default() -> (value: WorldClockState)
        ensures
            value.deep_view() == WorldClockStateModel::initial(),
    {
        let value = WorldClockState {
            timezone: String::new(),
            label: String::new(),
            city: String::new(),
            abbreviation: String::new(),
            utc_offset_seconds: 0,
        };
        assert(value.deep_view() =~= WorldClockStateModel::initial());
        value
    }
}

/// Weather at one location.
#[derive(Debug, PartialEq, Eq)]
pub struct WeatherState {
    pub available: bool,
    pub id: String,
    pub location: String,
    pub home: bool,
    pub timezone: String,
    pub utc_offset_seconds: i32,
    pub condition: String,
    pub condition_code: u16,
    pub is_day: bool,
    pub temperature_c: Measure,
    pub apparent_temperature_c: Measure,
    pub high_c: Measure,
    pub low_c: Measure,
    pub precipitation_probability: u8,
    pub precipitation_mm: Measure,
    pub wind_speed_kmh: Measure,
    pub wind_direction_degrees: u16,
    pub wind_gust_kmh: Measure,
    pub humidity_percent: u8,
    pub sunrise_unix_ms: i64,
    pub sunset_unix_ms: i64,
    pub updated_unix_ms: i64,
    pub hourly: Vec<WeatherHour>,
    pub daily: Vec<WeatherDay>,
    pub error: Option<String>,
}

/// What a [`WeatherState`] holds.
#[verifier::ext_equal]
pub struct WeatherStateModel {
    pub available: bool,
    pub id: Seq<char>,
    pub location: Seq<char>,
    pub home: bool,
    pub timezone: Seq<char>,
    pub utc_offset_seconds: i32,
    pub condition: Seq<char>,
    pub condition_code: u16,
    pub is_day: bool,
    pub temperature_c: Measure,
    pub apparent_temperature_c: Measure,
    pub high_c: Measure,
    pub low_c: Measure,
    pub precipitation_probability: u8,
    pub precipitation_mm: Measure,
    pub wind_speed_kmh: Measure,
    pub wind_direction_degrees: u16,
    pub wind_gust_kmh: Measure,
    pub humidity_percent: u8,
    pub sunrise_unix_ms: i64,
    pub sunset_unix_ms: i64,
    pub updated_unix_ms: i64,
    pub hourly: Seq<WeatherHourModel>,
    pub daily: Seq<WeatherDayModel>,
    pub error: Option<Seq<char>>,
}

impl DeepView for WeatherState {
    type V = WeatherStateModel;

    open spec fn deep_view(&self) -> WeatherStateModel {
        WeatherStateModel {
            available: self.available.deep_view(),
            id: self.id.deep_view(),
            location: self.location.deep_view(),
            home: self.home.deep_view(),
            timezone: self.timezone.deep_view(),
            utc_offset_seconds: self.utc_offset_seconds.deep_view(),
            condition: self.condition.deep_view(),
            condition_code: self.condition_code.deep_view(),
            is_day: self.is_day.deep_view(),
            temperature_c: self.temperature_c.deep_view(),
            apparent_temperature_c: self.apparent_temperature_c.deep_view(),
            high_c: self.high_c.deep_view(),
            low_c: self.low_c.deep_view(),
            precipitation_probability: self.precipitation_probability.deep_view(),
            precipitation_mm: self.precipitation_mm.deep_view(),
            wind_speed_kmh: self.wind_speed_kmh.deep_view(),
            wind_direction_degrees: self.wind_direction_degrees.deep_view(),
            wind_gust_kmh: self.wind_gust_kmh.deep_view(),
            humidity_percent: self.humidity_percent.deep_view(),
            sunrise_unix_ms: self.sunrise_unix_ms.deep_view(),
            sunset_unix_ms: self.sunset_unix_ms.deep_view(),
            updated_unix_ms: self.updated_unix_ms.deep_view(),
            hourly: self.hourly.deep_view(),
            daily: self.daily.deep_view(),
            error: self.error.deep_view(),
        }
    }
}

impl Record for WeatherState {
    fn same(&self, other: &Self) -> (same: bool) {
        self.available.same(&other.available)
            && self.id.same(&other.id)
            && self.location.same(&other.location)
            && self.home.same(&other.home)
            && self.timezone.same(&other.timezone)
            && self.utc_offset_seconds.same(&other.utc_offset_seconds)
            && self.condition.same(&other.condition)
            && self.condition_code.same(&other.condition_code)
            && self.is_day.same(&other.is_day)
            && self.temperature_c.same(&other.temperature_c)
            && self.apparent_temperature_c.same(&other.apparent_temperature_c)
            && self.high_c.same(&other.high_c)
            && self.low_c.same(&other.low_c)
            && self.precipitation_probability.same(&other.precipitation_probability)
            && self.precipitation_mm.same(&other.precipitation_mm)
            && self.wind_speed_kmh.same(&other.wind_speed_kmh)
            && self.wind_direction_degrees.same(&other.wind_direction_degrees)
            && self.wind_gust_kmh.same(&other.wind_gust_kmh)
            && self.humidity_percent.same(&other.humidity_percent)
            && self.sunrise_unix_ms.same(&other.sunrise_unix_ms)
            && self.sunset_unix_ms.same(&other.sunset_unix_ms)
            && self.updated_unix_ms.same(&other.updated_unix_ms)
            && self.hourly.same(&other.hourly)
            && self.daily.same(&other.daily)
            && self.error.same(&other.error)
    }

    fn copy(&self) -> (copy: Self) {
        WeatherState {
            available: self.available.copy(),
            id: self.id.copy(),
            location: self.location.copy(),
            home: self.home.copy(),
            timezone: self.timezone.copy(),
            utc_offset_seconds: self.utc_offset_seconds.copy(),
            condition: self.condition.copy(),
            condition_code: self.condition_code.copy(),
            is_day: self.is_day.copy(),
            temperature_c: self.temperature_c.copy(),
            apparent_temperature_c: self.apparent_temperature_c.copy(),
            high_c: self.high_c.copy(),
            low_c: self.low_c.copy(),
            precipitation_probability: self.precipitation_probability.copy(),
            precipitation_mm: self.precipitation_mm.copy(),
            wind_speed_kmh: self.wind_speed_kmh.copy(),
            wind_direction_degrees: self.wind_direction_degrees.copy(),
            wind_gust_kmh: self.wind_gust_kmh.copy(),
            humidity_percent: self.humidity_percent.copy(),
            sunrise_unix_ms: self.sunrise_unix_ms.copy(),
            sunset_unix_ms: self.sunset_unix_ms.copy(),
            updated_unix_ms: self.updated_unix_ms.copy(),
            hourly: self.hourly.copy(),
            daily: self.daily.copy(),
            error: self.error.copy(),
        }
    }
}

impl Clone for WeatherState {
    fn clone(&self) -> (copy: Self)
        ensures
            copy.deep_view() == self.deep_view(),
    {
        self.copy()
    }
}

impl WeatherStateModel {
    /// What a default [`WeatherState`] holds.
    pub open spec fn initial() -> WeatherStateModel {
        WeatherStateModel {
            available: false,
            id: Seq::empty(),
            location: Seq::empty(),
            home: false,
            timezone: Seq::empty(),
            utc_offset_seconds: 0,
            condition: Seq::empty(),
            condition_code: 0,
            is_day: false,
            temperature_c: Measure::initial(),
            apparent_temperature_c: Measure::initial(),
            high_c: Measure::initial(),
            low_c: Measure::initial(),
            precipitation_probability: 0,
            precipitation_mm: Measure::initial(),
            wind_speed_kmh: Measure::initial(),
            wind_direction_degrees: 0,
            wind_gust_kmh: Measure::initial(),
            humidity_percent: 0,
            sunrise_unix_ms: 0,
            sunset_unix_ms: 0,
            updated_unix_ms: 0,
            hourly: Seq::empty(),
            daily: Seq::empty(),
            error: None,
        }
    }
}

impl Default for WeatherState {
    fn default() -> (value: WeatherState)
        ensures
            value.deep_view() == WeatherStateModel::initial(),
    {
        let value = WeatherState {
            available: false,
            id: String::new(),
            location: String::new(),
            home: false,
            timezone: String::new(),
            utc_offset_seconds: 0,
            condition: String::new(),
            condition_code: 0,
            is_day: false,
            temperature_c: Measure::default(),
            apparent_temperature_c: Measure::default(),
            high_c: Measure::default(),
            low_c: Measure::default(),
            precipitation_probability: 0,
            precipitation_mm: Measure::default(),
            wind_speed_kmh: Measure::default(),
            wind_direction_degrees: 0,
            wind_gust_kmh: Measure::default(),
            humidity_percent: 0,
            sunrise_unix_ms: 0,
            sunset_unix_ms: 0,
            updated_unix_ms: 0,
            hourly: Vec::new(),
            daily: Vec::new(),
            error: None,
        };
        assert(value.deep_view() =~= WeatherStateModel::initial());
        value
    }
}

/// Forecast for one hour.
#[derive(Debug, PartialEq, Eq)]
pub struct WeatherHour {
    pub time_unix_ms: i64,
    pub temperature_c: Measure,
    pub precipitation_probability: u8,
    pub precipitation_mm: Measure,
    pub wind_speed_kmh: Measure,
    pub wind_direction_degrees: u16,
    pub condition: String,
    pub condition_code: u16,
    pub is_day: bool,
}

/// What a [`WeatherHour`] holds.
#[verifier::ext_equal]
pub struct WeatherHourModel {
    pub time_unix_ms: i64,
    pub temperature_c: Measure,
    pub precipitation_probability: u8,
    pub precipitation_mm: Measure,
    pub wind_speed_kmh: Measure,
    pub wind_direction_degrees: u16,
    pub condition: Seq<char>,
    pub condition_code: u16,
    pub is_day: bool,
}

impl DeepView for WeatherHour {
    type V = WeatherHourModel;

    open spec fn deep_view(&self) -> WeatherHourModel {
        WeatherHourModel {
            time_unix_ms: self.time_unix_ms.deep_view(),
            temperature_c: self.temperature_c.deep_view(),
            precipitation_probability: self.precipitation_probability.deep_view(),
            precipitation_mm: self.precipitation_mm.deep_view(),
            wind_speed_kmh: self.wind_speed_kmh.deep_view(),
            wind_direction_degrees: self.wind_direction_degrees.deep_view(),
            condition: self.condition.deep_view(),
            condition_code: self.condition_code.deep_view(),
            is_day: self.is_day.deep_view(),
        }
    }
}

impl Record for WeatherHour {
    fn same(&self, other: &Self) -> (same: bool) {
        self.time_unix_ms.same(&other.time_unix_ms)
            && self.temperature_c.same(&other.temperature_c)
            && self.precipitation_probability.same(&other.precipitation_probability)
            && self.precipitation_mm.same(&other.precipitation_mm)
            && self.wind_speed_kmh.same(&other.wind_speed_kmh)
            && self.wind_direction_degrees.same(&other.wind_direction_degrees)
            && self.condition.same(&other.condition)
            && self.condition_code.same(&other.condition_code)
            && self.is_day.same(&other.is_day)
    }

    fn copy(&self) -> (copy: Self) {
        WeatherHour {
            time_unix_ms: self.time_unix_ms.copy(),
            temperature_c: self.temperature_c.copy(),
            precipitation_probability: self.precipitation_probability.copy(),
            precipitation_mm: self.precipitation_mm.copy(),
            wind_speed_kmh: self.wind_speed_kmh.copy(),
            wind_direction_degrees: self.wind_direction_degrees.copy(),
            condition: self.condition.copy(),
            condition_code: self.condition_code.copy(),
            is_day: self.is_day.copy(),
        }
    }
}

impl Clone for WeatherHour {
    fn clone(&self) -> (copy: Self)
        ensures
            copy.deep_view() == self.deep_view(),
    {
        self.copy()
    }
}

impl WeatherHourModel {
    /// What a default [`WeatherHour`] holds.
    pub open spec fn initial() -> WeatherHourModel {
        WeatherHourModel {
            time_unix_ms: 0,
            temperature_c: Measure::initial(),
            precipitation_probability: 0,
            precipitation_mm: Measure::initial(),
            wind_speed_kmh: Measure::initial(),
            wind_direction_degrees: 0,
            condition: Seq::empty(),
            condition_code: 0,
            is_day: false,
        }
    }
}

impl Default for WeatherHour {
    fn default() -> (value: WeatherHour)
        ensures
            value.deep_view() == WeatherHourModel::initial(),
    {
        let value = WeatherHour {
            time_unix_ms: 0,
            temperature_c: Measure::default(),
            precipitation_probability: 0,
            precipitation_mm: Measure::default(),
            wind_speed_kmh: Measure::default(),
            wind_direction_degrees: 0,
            condition: String::new(),
            condition_code: 0,
            is_day: false,
        };
        assert(value.deep_view() =~= WeatherHourModel::initial());
        value
    }
}

/// Forecast for one day.
#[derive(Debug, PartialEq, Eq)]
pub struct WeatherDay {
    pub date_unix_ms: i64,
    pub high_c: Measure,
    pub low_c: Measure,
    pub precipitation_probability: u8,
    pub condition: String,
    pub condition_code: u16,
    pub sunrise_unix_ms: i64,
    pub sunset_unix_ms: i64,
}

/// What a [`WeatherDay`] holds.
#[verifier::ext_equal]
pub struct WeatherDayModel {
    pub date_unix_ms: i64,
    pub high_c: Measure,
    pub low_c: Measure,
    pub precipitation_probability: u8,
    pub condition: Seq<char>,
    pub condition_code: u16,
    pub sunrise_unix_ms: i64,
    pub sunset_unix_ms: i64,
}

impl DeepView for WeatherDay {
    type V = WeatherDayModel;

    open spec fn deep_view(&self) -> WeatherDayModel {
        WeatherDayModel {
            date_unix_ms: self.date_unix_ms.deep_view(),
            high_c: self.high_c.deep_view(),
            low_c: self.low_c.deep_view(),
            precipitation_probability: self.precipitation_probability.deep_view(),
            condition: self.condition.deep_view(),
            condition_code: self.condition_code.deep_view(),
            sunrise_unix_ms: self.sunrise_unix_ms.deep_view(),
            sunset_unix_ms: self.sunset_unix_ms.deep_view(),
        }
    }
}

impl Record for WeatherDay {
    fn same(&self, other: &Self) -> (same: bool) {
        self.date_unix_ms.same(&other.date_unix_ms)
            && self.high_c.same(&other.high_c)
            && self.low_c.same(&other.low_c)
            && self.precipitation_probability.same(&other.precipitation_probability)
            && self.condition.same(&other.condition)
            && self.condition_code.same(&other.condition_code)
            && self.sunrise_unix_ms.same(&other.sunrise_unix_ms)
            && self.sunset_unix_ms.same(&other.sunset_unix_ms)
    }

    fn copy(&self) -> (copy: Self) {
        WeatherDay {
            date_unix_ms: self.date_unix_ms.copy(),
            high_c: self.high_c.copy(),
            low_c: self.low_c.copy(),
            precipitation_probability: self.precipitation_probability.copy(),
            condition: self.condition.copy(),
            condition_code: self.condition_code.copy(),
            sunrise_unix_ms: self.sunrise_unix_ms.copy(),
            sunset_unix_ms: self.sunset_unix_ms.copy(),
        }
    }
}

impl Clone for WeatherDay {
    fn clone(&self) -> (copy: Self)
        ensures
            copy.deep_view() == self.deep_view(),
    {
        self.copy()
    }
}

impl WeatherDayModel {
    /// What a default [`WeatherDay`] holds.
    pub open spec fn initial() -> WeatherDayModel {
        WeatherDayModel {
            date_unix_ms: 0,
            high_c: Measure::initial(),
            low_c: Measure::initial(),
            precipitation_probability: 0,
            condition: Seq::empty(),
            condition_code: 0,
            sunrise_unix_ms: 0,
            sunset_unix_ms: 0,
        }
    }
}

impl Default for WeatherDay {
    fn default() -> (value: WeatherDay)
        ensures
            value.deep_view() == WeatherDayModel::initial(),
    {
        let value = WeatherDay {
            date_unix_ms: 0,
            high_c: Measure::default(),
            low_c: Measure::default(),
            precipitation_probability: 0,
            condition: String::new(),
            condition_code: 0,
            sunrise_unix_ms: 0,
            sunset_unix_ms: 0,
        };
        assert(value.deep_view() =~= WeatherDayModel::initial());
        value
    }
}

/// Events, tasks, and busy days in a stretch of time.
#[derive(Debug, PartialEq, Eq)]
pub struct ActivityRange {
    pub from_unix_ms: i64,
    pub to_unix_ms: i64,
    pub events: Vec<ActivityEvent>,
    pub todos: Vec<TodoItem>,
    pub busy_dates: Vec<String>,
}

/// What a [`ActivityRange`] holds.
#[verifier::ext_equal]
pub struct ActivityRangeModel {
    pub from_unix_ms: i64,
    pub to_unix_ms: i64,
    pub events: Seq<ActivityEventModel>,
    pub todos: Seq<TodoItemModel>,
    pub busy_dates: Seq<Seq<char>>,
}

impl DeepView for ActivityRange {
    type V = ActivityRangeModel;

    open spec fn deep_view(&self) -> ActivityRangeModel {
        ActivityRangeModel {
            from_unix_ms: self.from_unix_ms.deep_view(),
            to_unix_ms: self.to_unix_ms.deep_view(),
            events: self.events.deep_view(),
            todos: self.todos.deep_view(),
            busy_dates: self.busy_dates.deep_view(),
        }
    }
}

impl Record for ActivityRange {
    fn same(&self, other: &Self) -> (same: bool) {
        self.from_unix_ms.same(&other.from_unix_ms)
            && self.to_unix_ms.same(&other.to_unix_ms)
            && self.events.same(&other.events)
            && self.todos.same(&other.todos)
            && self.busy_dates.same(&other.busy_dates)
    }

    fn copy(&self) -> (copy: Self) {
        ActivityRange {
            from_unix_ms: self.from_unix_ms.copy(),
            to_unix_ms: self.to_unix_ms.copy(),
            events: self.events.copy(),
            todos: self.todos.copy(),
            busy_dates: self.busy_dates.copy(),
        }
    }
}

impl Clone for ActivityRange {
    fn clone(&self) -> (copy: Self)
        ensures
            copy.deep_view() == self.deep_view(),
    {
        self.copy()
    }
}

impl ActivityRangeModel {
    /// What a default [`ActivityRange`] holds.
    pub open spec fn initial() -> ActivityRangeModel {
        ActivityRangeModel {
            from_unix_ms: 0,
            to_unix_ms: 0,
            events: Seq::empty(),
            todos: Seq::empty(),
            busy_dates: Seq::empty(),
        }
    }
}

impl Default for ActivityRange {
    fn default() -> (value: ActivityRange)
        ensures
            value.deep_view() == ActivityRangeModel::initial(),
    {
        let value = ActivityRange {
            from_unix_ms: 0,
            to_unix_ms: 0,
            events: Vec::new(),
            todos: Vec::new(),
            busy_dates: Vec::new(),
        };
        assert(value.deep_view() =~= ActivityRangeModel::initial());
        value
    }
}

} // verus!
