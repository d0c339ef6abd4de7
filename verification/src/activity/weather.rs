//! Weather out of an hourly and daily forecast.

use vstd::prelude::*;

use crate::activity::model::{
    Measure, WeatherDay, WeatherDayModel, WeatherHour, WeatherHourModel, WeatherState,
    WeatherStateModel,
};
use crate::record::Record;

verus! {

/// The most hours that a forecast shows.
pub const MAX_HOURS: usize = 12;

/// The most days that a forecast shows.
pub const MAX_DAYS: usize = 7;

/// How long an hour stays in the forecast after it began, in milliseconds.
pub const HOUR_GRACE_MS: i64 = 1_800_000;

/// Where a forecast is for.
#[derive(Debug, PartialEq, Eq)]
pub struct WeatherLocation {
    pub id: String,
    pub location: String,
    pub home: bool,
}

/// What a [`WeatherLocation`] holds.
#[verifier::ext_equal]
pub struct WeatherLocationModel {
    pub id: Seq<char>,
    pub location: Seq<char>,
    pub home: bool,
}

impl DeepView for WeatherLocation {
    type V = WeatherLocationModel;

    open spec fn deep_view(&self) -> WeatherLocationModel {
        WeatherLocationModel {
            id: self.id.deep_view(),
            location: self.location.deep_view(),
            home: self.home.deep_view(),
        }
    }
}

impl Record for WeatherLocation {
    fn same(&self, other: &Self) -> (same: bool) {
        self.id.same(&other.id)
            && self.location.same(&other.location)
            && self.home.same(&other.home)
    }

    fn copy(&self) -> (copy: Self) {
        WeatherLocation {
            id: self.id.copy(),
            location: self.location.copy(),
            home: self.home.copy(),
        }
    }
}

impl Clone for WeatherLocation {
    fn clone(&self) -> (copy: Self)
        ensures
            copy.deep_view() == self.deep_view(),
    {
        self.copy()
    }
}

impl WeatherLocationModel {
    /// What a default [`WeatherLocation`] holds.
    pub open spec fn initial() -> WeatherLocationModel {
        WeatherLocationModel {
            id: Seq::empty(),
            location: Seq::empty(),
            home: false,
        }
    }
}

impl Default for WeatherLocation {
    fn default() -> (value: WeatherLocation)
        ensures
            value.deep_view() == WeatherLocationModel::initial(),
    {
        let value = WeatherLocation {
            id: String::new(),
            location: String::new(),
            home: false,
        };
        assert(value.deep_view() =~= WeatherLocationModel::initial());
        value
    }
}

/// A forecast as the weather service gives it, with times in Unix seconds.
#[derive(Debug, PartialEq, Eq)]
pub struct ForecastResponse {
    pub timezone: String,
    pub utc_offset_seconds: i32,
    pub current: CurrentWeather,
    pub hourly: HourlyWeather,
    pub daily: DailyWeather,
}

/// What a [`ForecastResponse`] holds.
#[verifier::ext_equal]
pub struct ForecastResponseModel {
    pub timezone: Seq<char>,
    pub utc_offset_seconds: i32,
    pub current: CurrentWeatherModel,
    pub hourly: HourlyWeatherModel,
    pub daily: DailyWeatherModel,
}

impl DeepView for ForecastResponse {
    type V = ForecastResponseModel;

    open spec fn deep_view(&self) -> ForecastResponseModel {
        ForecastResponseModel {
            timezone: self.timezone.deep_view(),
            utc_offset_seconds: self.utc_offset_seconds.deep_view(),
            current: self.current.deep_view(),
            hourly: self.hourly.deep_view(),
            daily: self.daily.deep_view(),
        }
    }
}

impl Record for ForecastResponse {
    fn same(&self, other: &Self) -> (same: bool) {
        self.timezone.same(&other.timezone)
            && self.utc_offset_seconds.same(&other.utc_offset_seconds)
            && self.current.same(&other.current)
            && self.hourly.same(&other.hourly)
            && self.daily.same(&other.daily)
    }

    fn copy(&self) -> (copy: Self) {
        ForecastResponse {
            timezone: self.timezone.copy(),
            utc_offset_seconds: self.utc_offset_seconds.copy(),
            current: self.current.copy(),
            hourly: self.hourly.copy(),
            daily: self.daily.copy(),
        }
    }
}

impl Clone for ForecastResponse {
    fn clone(&self) -> (copy: Self)
        ensures
            copy.deep_view() == self.deep_view(),
    {
        self.copy()
    }
}

impl ForecastResponseModel {
    /// What a default [`ForecastResponse`] holds.
    pub open spec fn initial() -> ForecastResponseModel {
        ForecastResponseModel {
            timezone: Seq::empty(),
            utc_offset_seconds: 0,
            current: CurrentWeatherModel::initial(),
            hourly: HourlyWeatherModel::initial(),
            daily: DailyWeatherModel::initial(),
        }
    }
}

impl Default for ForecastResponse {
    fn default() -> (value: ForecastResponse)
        ensures
            value.deep_view() == ForecastResponseModel::initial(),
    {
        let value = ForecastResponse {
            timezone: String::new(),
            utc_offset_seconds: 0,
            current: CurrentWeather::default(),
            hourly: HourlyWeather::default(),
            daily: DailyWeather::default(),
        };
        assert(value.deep_view() =~= ForecastResponseModel::initial());
        value
    }
}

/// The weather now.
#[derive(Debug, PartialEq, Eq)]
pub struct CurrentWeather {
    pub temperature_2m: Measure,
    pub apparent_temperature: Measure,
    pub relative_humidity_2m: u8,
    pub precipitation: Measure,
    pub weather_code: u16,
    pub is_day: u8,
    pub wind_speed_10m: Measure,
    pub wind_direction_10m: u16,
    pub wind_gusts_10m: Measure,
}

/// What a [`CurrentWeather`] holds.
#[verifier::ext_equal]
pub struct CurrentWeatherModel {
    pub temperature_2m: Measure,
    pub apparent_temperature: Measure,
    pub relative_humidity_2m: u8,
    pub precipitation: Measure,
    pub weather_code: u16,
    pub is_day: u8,
    pub wind_speed_10m: Measure,
    pub wind_direction_10m: u16,
    pub wind_gusts_10m: Measure,
}

impl DeepView for CurrentWeather {
    type V = CurrentWeatherModel;

    open spec fn deep_view(&self) -> CurrentWeatherModel {
        CurrentWeatherModel {
            temperature_2m: self.temperature_2m.deep_view(),
            apparent_temperature: self.apparent_temperature.deep_view(),
            relative_humidity_2m: self.relative_humidity_2m.deep_view(),
            precipitation: self.precipitation.deep_view(),
            weather_code: self.weather_code.deep_view(),
            is_day: self.is_day.deep_view(),
            wind_speed_10m: self.wind_speed_10m.deep_view(),
            wind_direction_10m: self.wind_direction_10m.deep_view(),
            wind_gusts_10m: self.wind_gusts_10m.deep_view(),
        }
    }
}

impl Record for CurrentWeather {
    fn same(&self, other: &Self) -> (same: bool) {
        self.temperature_2m.same(&other.temperature_2m)
            && self.apparent_temperature.same(&other.apparent_temperature)
            && self.relative_humidity_2m.same(&other.relative_humidity_2m)
            && self.precipitation.same(&other.precipitation)
            && self.weather_code.same(&other.weather_code)
            && self.is_day.same(&other.is_day)
            && self.wind_speed_10m.same(&other.wind_speed_10m)
            && self.wind_direction_10m.same(&other.wind_direction_10m)
            && self.wind_gusts_10m.same(&other.wind_gusts_10m)
    }

    fn copy(&self) -> (copy: Self) {
        CurrentWeather {
            temperature_2m: self.temperature_2m.copy(),
            apparent_temperature: self.apparent_temperature.copy(),
            relative_humidity_2m: self.relative_humidity_2m.copy(),
            precipitation: self.precipitation.copy(),
            weather_code: self.weather_code.copy(),
            is_day: self.is_day.copy(),
            wind_speed_10m: self.wind_speed_10m.copy(),
            wind_direction_10m: self.wind_direction_10m.copy(),
            wind_gusts_10m: self.wind_gusts_10m.copy(),
        }
    }
}

impl Clone for CurrentWeather {
    fn clone(&self) -> (copy: Self)
        ensures
            copy.deep_view() == self.deep_view(),
    {
        self.copy()
    }
}

impl CurrentWeatherModel {
    /// What a default [`CurrentWeather`] holds.
    pub open spec fn initial() -> CurrentWeatherModel {
        CurrentWeatherModel {
            temperature_2m: Measure::initial(),
            apparent_temperature: Measure::initial(),
            relative_humidity_2m: 0,
            precipitation: Measure::initial(),
            weather_code: 0,
            is_day: 0,
            wind_speed_10m: Measure::initial(),
            wind_direction_10m: 0,
            wind_gusts_10m: Measure::initial(),
        }
    }
}

impl Default for CurrentWeather {
    fn default() -> (value: CurrentWeather)
        ensures
            value.deep_view() == CurrentWeatherModel::initial(),
    {
        let value = CurrentWeather {
            temperature_2m: Measure::default(),
            apparent_temperature: Measure::default(),
            relative_humidity_2m: 0,
            precipitation: Measure::default(),
            weather_code: 0,
            is_day: 0,
            wind_speed_10m: Measure::default(),
            wind_direction_10m: 0,
            wind_gusts_10m: Measure::default(),
        };
        assert(value.deep_view() =~= CurrentWeatherModel::initial());
        value
    }
}

/// The weather hour by hour, one list for each quantity.
#[derive(Debug, PartialEq, Eq)]
pub struct HourlyWeather {
    pub time: Vec<i64>,
    pub temperature_2m: Vec<Measure>,
    pub precipitation_probability: Vec<u8>,
    pub precipitation: Vec<Measure>,
    pub wind_speed_10m: Vec<Measure>,
    pub wind_direction_10m: Vec<u16>,
    pub weather_code: Vec<u16>,
    pub is_day: Vec<u8>,
}

/// What a [`HourlyWeather`] holds.
#[verifier::ext_equal]
pub struct HourlyWeatherModel {
    pub time: Seq<i64>,
    pub temperature_2m: Seq<Measure>,
    pub precipitation_probability: Seq<u8>,
    pub precipitation: Seq<Measure>,
    pub wind_speed_10m: Seq<Measure>,
    pub wind_direction_10m: Seq<u16>,
    pub weather_code: Seq<u16>,
    pub is_day: Seq<u8>,
}

impl DeepView for HourlyWeather {
    type V = HourlyWeatherModel;

    open spec fn deep_view(&self) -> HourlyWeatherModel {
        HourlyWeatherModel {
            time: self.time.deep_view(),
            temperature_2m: self.temperature_2m.deep_view(),
            precipitation_probability: self.precipitation_probability.deep_view(),
            precipitation: self.precipitation.deep_view(),
            wind_speed_10m: self.wind_speed_10m.deep_view(),
            wind_direction_10m: self.wind_direction_10m.deep_view(),
            weather_code: self.weather_code.deep_view(),
            is_day: self.is_day.deep_view(),
        }
    }
}

impl Record for HourlyWeather {
    fn same(&self, other: &Self) -> (same: bool) {
        self.time.same(&other.time)
            && self.temperature_2m.same(&other.temperature_2m)
            && self.precipitation_probability.same(&other.precipitation_probability)
            && self.precipitation.same(&other.precipitation)
            && self.wind_speed_10m.same(&other.wind_speed_10m)
            && self.wind_direction_10m.same(&other.wind_direction_10m)
            && self.weather_code.same(&other.weather_code)
            && self.is_day.same(&other.is_day)
    }

    fn copy(&self) -> (copy: Self) {
        HourlyWeather {
            time: self.time.copy(),
            temperature_2m: self.temperature_2m.copy(),
            precipitation_probability: self.precipitation_probability.copy(),
            precipitation: self.precipitation.copy(),
            wind_speed_10m: self.wind_speed_10m.copy(),
            wind_direction_10m: self.wind_direction_10m.copy(),
            weather_code: self.weather_code.copy(),
            is_day: self.is_day.copy(),
        }
    }
}

impl Clone for HourlyWeather {
    fn clone(&self) -> (copy: Self)
        ensures
            copy.deep_view() == self.deep_view(),
    {
        self.copy()
    }
}

impl HourlyWeatherModel {
    /// What a default [`HourlyWeather`] holds.
    pub open spec fn initial() -> HourlyWeatherModel {
        HourlyWeatherModel {
            time: Seq::empty(),
            temperature_2m: Seq::empty(),
            precipitation_probability: Seq::empty(),
            precipitation: Seq::empty(),
            wind_speed_10m: Seq::empty(),
            wind_direction_10m: Seq::empty(),
            weather_code: Seq::empty(),
            is_day: Seq::empty(),
        }
    }
}

impl Default for HourlyWeather {
    fn default() -> (value: HourlyWeather)
        ensures
            value.deep_view() == HourlyWeatherModel::initial(),
    {
        let value = HourlyWeather {
            time: Vec::new(),
            temperature_2m: Vec::new(),
            precipitation_probability: Vec::new(),
            precipitation: Vec::new(),
            wind_speed_10m: Vec::new(),
            wind_direction_10m: Vec::new(),
            weather_code: Vec::new(),
            is_day: Vec::new(),
        };
        assert(value.deep_view() =~= HourlyWeatherModel::initial());
        value
    }
}

/// The weather day by day, one list for each quantity.
#[derive(Debug, PartialEq, Eq)]
pub struct DailyWeather {
    pub time: Vec<i64>,
    pub weather_code: Vec<u16>,
    pub temperature_2m_max: Vec<Measure>,
    pub temperature_2m_min: Vec<Measure>,
    pub precipitation_probability_max: Vec<u8>,
    pub sunrise: Vec<i64>,
    pub sunset: Vec<i64>,
}

/// What a [`DailyWeather`] holds.
#[verifier::ext_equal]
pub struct DailyWeatherModel {
    pub time: Seq<i64>,
    pub weather_code: Seq<u16>,
    pub temperature_2m_max: Seq<Measure>,
    pub temperature_2m_min: Seq<Measure>,
    pub precipitation_probability_max: Seq<u8>,
    pub sunrise: Seq<i64>,
    pub sunset: Seq<i64>,
}

impl DeepView for DailyWeather {
    type V = DailyWeatherModel;

    open spec fn deep_view(&self) -> DailyWeatherModel {
        DailyWeatherModel {
            time: self.time.deep_view(),
            weather_code: self.weather_code.deep_view(),
            temperature_2m_max: self.temperature_2m_max.deep_view(),
            temperature_2m_min: self.temperature_2m_min.deep_view(),
            precipitation_probability_max: self.precipitation_probability_max.deep_view(),
            sunrise: self.sunrise.deep_view(),
            sunset: self.sunset.deep_view(),
        }
    }
}

impl Record for DailyWeather {
    fn same(&self, other: &Self) -> (same: bool) {
        self.time.same(&other.time)
            && self.weather_code.same(&other.weather_code)
            && self.temperature_2m_max.same(&other.temperature_2m_max)
            && self.temperature_2m_min.same(&other.temperature_2m_min)
            && self.precipitation_probability_max.same(&other.precipitation_probability_max)
            && self.sunrise.same(&other.sunrise)
            && self.sunset.same(&other.sunset)
    }

    fn copy(&self) -> (copy: Self) {
        DailyWeather {
            time: self.time.copy(),
            weather_code: self.weather_code.copy(),
            temperature_2m_max: self.temperature_2m_max.copy(),
            temperature_2m_min: self.temperature_2m_min.copy(),
            precipitation_probability_max: self.precipitation_probability_max.copy(),
            sunrise: self.sunrise.copy(),
            sunset: self.sunset.copy(),
        }
    }
}

impl Clone for DailyWeather {
    fn clone(&self) -> (copy: Self)
        ensures
            copy.deep_view() == self.deep_view(),
    {
        self.copy()
    }
}

impl DailyWeatherModel {
    /// What a default [`DailyWeather`] holds.
    pub open spec fn initial() -> DailyWeatherModel {
        DailyWeatherModel {
            time: Seq::empty(),
            weather_code: Seq::empty(),
            temperature_2m_max: Seq::empty(),
            temperature_2m_min: Seq::empty(),
            precipitation_probability_max: Seq::empty(),
            sunrise: Seq::empty(),
            sunset: Seq::empty(),
        }
    }
}

impl Default for DailyWeather {
    fn default() -> (value: DailyWeather)
        ensures
            value.deep_view() == DailyWeatherModel::initial(),
    {
        let value = DailyWeather {
            time: Vec::new(),
            weather_code: Vec::new(),
            temperature_2m_max: Vec::new(),
            temperature_2m_min: Vec::new(),
            precipitation_probability_max: Vec::new(),
            sunrise: Vec::new(),
            sunset: Vec::new(),
        };
        assert(value.deep_view() =~= DailyWeatherModel::initial());
        value
    }
}

/// The words for a weather code of the World Meteorological Organization.
pub open spec fn condition_text(code: u16) -> Seq<char> {
    if code == 0 {
        "Clear"@
    } else if code == 1 {
        "Mostly clear"@
    } else if code == 2 {
        "Partly cloudy"@
    } else if code == 3 {
        "Overcast"@
    } else if code == 45 || code == 48 {
        "Fog"@
    } else if code == 51 || code == 53 || code == 55 || code == 56 || code == 57 {
        "Drizzle"@
    } else if code == 61 || code == 63 || code == 65 || code == 66 || code == 67 {
        "Rain"@
    } else if code == 71 || code == 73 || code == 75 || code == 77 {
        "Snow"@
    } else if 80 <= code <= 82 {
        "Rain showers"@
    } else if code == 85 || code == 86 {
        "Snow showers"@
    } else if 95 <= code <= 99 {
        "Thunderstorm"@
    } else {
        "Unknown"@
    }
}

/// The words for a weather code.
pub fn condition(code: u16) -> (text: &'static str)
    ensures
        text@ == condition_text(code),
{
    match code {
        0 => "Clear",
        1 => "Mostly clear",
        2 => "Partly cloudy",
        3 => "Overcast",
        45 | 48 => "Fog",
        51 | 53 | 55 | 56 | 57 => "Drizzle",
        61 | 63 | 65 | 66 | 67 => "Rain",
        71 | 73 | 75 | 77 => "Snow",
        80..=82 => "Rain showers",
        85 | 86 => "Snow showers",
        95..=99 => "Thunderstorm",
        _ => "Unknown",
    }
}

/// The value at an index, or another where the list is too short.
pub open spec fn value_or<T>(values: Seq<T>, index: int, otherwise: T) -> T {
    if 0 <= index < values.len() {
        values[index]
    } else {
        otherwise
    }
}

/// The value at an index, or the default where the list is too short.
pub fn value<T: Copy>(values: &Vec<T>, index: usize, otherwise: T) -> (value: T)
    ensures
        value == value_or(values@, index as int, otherwise),
{
    if index < values.len() {
        values[index]
    } else {
        otherwise
    }
}

/// Whether a time in seconds can be told in milliseconds.
pub open spec fn time_fits(time: i64) -> bool {
    i64::MIN <= time * 1000 <= i64::MAX
}

/// Whether the times of the hours that are looked at can be told in
/// milliseconds. No more are looked at once there are as many as are wanted.
pub open spec fn hours_fit(times: Seq<i64>, now_ms: int, from: int, wanted: nat) -> bool
    decreases times.len() - from,
{
    from >= times.len() || wanted == 0 || (time_fits(times[from]) && hours_fit(
        times,
        now_ms,
        from + 1,
        if times[from] * 1000 >= now_ms - HOUR_GRACE_MS {
            (wanted - 1) as nat
        } else {
            wanted
        },
    ))
}

/// Whether the times of a day can be told in milliseconds.
pub open spec fn day_fits(daily: DailyWeatherModel, i: int) -> bool {
    &&& time_fits(daily.time[i])
    &&& time_fits(value_or(daily.sunrise, i, 0))
    &&& time_fits(value_or(daily.sunset, i, 0))
}

/// Whether the times of the days ahead can be told in milliseconds.
pub open spec fn days_fit(daily: DailyWeatherModel) -> bool {
    forall|i: int| 0 <= i < daily.time.len() && i < MAX_DAYS ==> #[trigger] day_fits(daily, i)
}

/// Whether all times of a forecast that come to be shown can be told in milliseconds.
pub open spec fn forecast_fits(response: ForecastResponseModel, now_ms: i64) -> bool {
    &&& hours_fit(response.hourly.time, now_ms as int, 0, MAX_HOURS as nat)
    &&& days_fit(response.daily)
}

proof fn lemma_plain(values: Vec<i64>)
    ensures
        values.deep_view() == values@,
{
    assert(values.deep_view() =~= values@);
}

fn is_time(time: i64) -> (fits: bool)
    ensures
        fits == time_fits(time),
{
    -9_223_372_036_854_775 <= time && time <= 9_223_372_036_854_775
}

fn are_hours(times: &Vec<i64>, now_ms: i64) -> (fit: bool)
    requires
        now_ms >= i64::MIN + HOUR_GRACE_MS,
    ensures
        fit == hours_fit(times@, now_ms as int, 0, MAX_HOURS as nat),
{
    let mut i: usize = 0;
    let mut wanted: usize = MAX_HOURS;
    while i < times.len() && wanted > 0
        invariant
            i <= times@.len(),
            now_ms >= i64::MIN + HOUR_GRACE_MS,
            hours_fit(times@, now_ms as int, 0, MAX_HOURS as nat) == hours_fit(
                times@,
                now_ms as int,
                i as int,
                wanted as nat,
            ),
        decreases times@.len() - i,
    {
        if !is_time(times[i]) {
            return false;
        }
        if times[i] * 1000 >= now_ms - HOUR_GRACE_MS {
            wanted = wanted - 1;
        }
        i = i + 1;
    }
    true
}

fn are_days(daily: &DailyWeather) -> (fit: bool)
    ensures
        fit == days_fit(daily.deep_view()),
{
    let ghost model = daily.deep_view();
    proof {
        lemma_plain(daily.time);
        lemma_plain(daily.sunrise);
        lemma_plain(daily.sunset);
    }
    let mut i: usize = 0;
    while i < daily.time.len() && i < MAX_DAYS
        invariant
            i <= daily.time@.len(),
            model == daily.deep_view(),
            model.time == daily.time@,
            model.sunrise == daily.sunrise@,
            model.sunset == daily.sunset@,
            forall|k: int| 0 <= k < i ==> #[trigger] day_fits(model, k),
        decreases daily.time@.len() - i,
    {
        let sunrise: i64 = value(&daily.sunrise, i, 0);
        let sunset: i64 = value(&daily.sunset, i, 0);
        if !is_time(daily.time[i]) || !is_time(sunrise) || !is_time(sunset) {
            assert(!day_fits(model, i as int));
            return false;
        }
        i = i + 1;
    }
    true
}

/// Tests whether all times of a forecast that come to be shown can be told in milliseconds.
pub fn is_convertible(response: &ForecastResponse, now_ms: i64) -> (fits: bool)
    requires
        now_ms >= i64::MIN + HOUR_GRACE_MS,
    ensures
        fits == forecast_fits(response.deep_view(), now_ms),
{
    proof {
        lemma_plain(response.hourly.time);
    }
    are_hours(&response.hourly.time, now_ms) && are_days(&response.daily)
}

/// The forecast for the hour at an index.
pub open spec fn hour_at(hourly: HourlyWeatherModel, i: int) -> WeatherHourModel {
    let code = value_or(hourly.weather_code, i, 0);
    WeatherHourModel {
        time_unix_ms: (hourly.time[i] * 1000) as i64,
        temperature_c: value_or(hourly.temperature_2m, i, Measure::initial()),
        precipitation_probability: value_or(hourly.precipitation_probability, i, 0),
        precipitation_mm: value_or(hourly.precipitation, i, Measure::initial()),
        wind_speed_kmh: value_or(hourly.wind_speed_10m, i, Measure::initial()),
        wind_direction_degrees: value_or(hourly.wind_direction_10m, i, 0),
        condition: condition_text(code),
        condition_code: code,
        is_day: value_or(hourly.is_day, i, 0) != 0,
    }
}

/// The hours at and behind an index that have not long begun, as many as are still wanted.
pub open spec fn hours_from(
    hourly: HourlyWeatherModel,
    now_ms: int,
    from: int,
    wanted: nat,
) -> Seq<WeatherHourModel>
    decreases hourly.time.len() - from,
{
    if from >= hourly.time.len() || wanted == 0 {
        Seq::empty()
    } else if hourly.time[from] * 1000 >= now_ms - HOUR_GRACE_MS {
        seq![hour_at(hourly, from)] + hours_from(hourly, now_ms, from + 1, (wanted - 1) as nat)
    } else {
        hours_from(hourly, now_ms, from + 1, wanted)
    }
}

/// The forecast for the day at an index.
pub open spec fn day_at(daily: DailyWeatherModel, i: int) -> WeatherDayModel {
    let code = value_or(daily.weather_code, i, 0);
    WeatherDayModel {
        date_unix_ms: (daily.time[i] * 1000) as i64,
        high_c: value_or(daily.temperature_2m_max, i, Measure::initial()),
        low_c: value_or(daily.temperature_2m_min, i, Measure::initial()),
        precipitation_probability: value_or(daily.precipitation_probability_max, i, 0),
        condition: condition_text(code),
        condition_code: code,
        sunrise_unix_ms: (value_or(daily.sunrise, i, 0) * 1000) as i64,
        sunset_unix_ms: (value_or(daily.sunset, i, 0) * 1000) as i64,
    }
}

/// The first days of a forecast.
pub open spec fn days_of(daily: DailyWeatherModel) -> Seq<WeatherDayModel> {
    Seq::new(
        if daily.time.len() < MAX_DAYS {
            daily.time.len()
        } else {
            MAX_DAYS as nat
        },
        |i: int| day_at(daily, i),
    )
}

/// The weather at a location, given a forecast and the time now.
pub open spec fn weather_of(
    location: WeatherLocationModel,
    response: ForecastResponseModel,
    now_ms: i64,
) -> WeatherStateModel {
    let daily = days_of(response.daily);
    let today = if daily.len() > 0 {
        daily[0]
    } else {
        WeatherDayModel::initial()
    };
    WeatherStateModel {
        available: true,
        id: location.id,
        location: location.location,
        home: location.home,
        timezone: response.timezone,
        utc_offset_seconds: response.utc_offset_seconds,
        condition: condition_text(response.current.weather_code),
        condition_code: response.current.weather_code,
        is_day: response.current.is_day != 0,
        temperature_c: response.current.temperature_2m,
        apparent_temperature_c: response.current.apparent_temperature,
        high_c: today.high_c,
        low_c: today.low_c,
        precipitation_probability: today.precipitation_probability,
        precipitation_mm: response.current.precipitation,
        wind_speed_kmh: response.current.wind_speed_10m,
        wind_direction_degrees: response.current.wind_direction_10m,
        wind_gust_kmh: response.current.wind_gusts_10m,
        humidity_percent: response.current.relative_humidity_2m,
        sunrise_unix_ms: today.sunrise_unix_ms,
        sunset_unix_ms: today.sunset_unix_ms,
        updated_unix_ms: now_ms,
        hourly: hours_from(response.hourly, now_ms as int, 0, MAX_HOURS as nat),
        daily,
        error: None,
    }
}

fn read_hour(hourly: &HourlyWeather, i: usize) -> (hour: WeatherHour)
    requires
        i < hourly.time@.len(),
        time_fits(hourly.time@[i as int]),
    ensures
        hour.deep_view() == hour_at(hourly.deep_view(), i as int),
{
    let zero = Measure { bits: 0 };
    let code: u16 = value(&hourly.weather_code, i, 0);
    WeatherHour {
        time_unix_ms: hourly.time[i] * 1000,
        temperature_c: value(&hourly.temperature_2m, i, zero),
        precipitation_probability: value(&hourly.precipitation_probability, i, 0),
        precipitation_mm: value(&hourly.precipitation, i, zero),
        wind_speed_kmh: value(&hourly.wind_speed_10m, i, zero),
        wind_direction_degrees: value(&hourly.wind_direction_10m, i, 0),
        condition: condition(code).to_string(),
        condition_code: code,
        is_day: value(&hourly.is_day, i, 0) != 0,
    }
}

fn read_hours(hourly: &HourlyWeather, now_ms: i64) -> (hours: Vec<WeatherHour>)
    requires
        hours_fit(hourly.time@, now_ms as int, 0, MAX_HOURS as nat),
        now_ms >= i64::MIN + HOUR_GRACE_MS,
    ensures
        hours.deep_view() == hours_from(hourly.deep_view(), now_ms as int, 0, MAX_HOURS as nat),
{
    let ghost model = hourly.deep_view();
    let ghost all = hours_from(model, now_ms as int, 0, MAX_HOURS as nat);
    let mut hours: Vec<WeatherHour> = Vec::new();
    let mut i: usize = 0;
    assert(hours.deep_view() + all =~= all);
    while i < hourly.time.len() && hours.len() < MAX_HOURS
        invariant
            i <= hourly.time@.len(),
            hours@.len() <= MAX_HOURS,
            model == hourly.deep_view(),
            hours_fit(
                hourly.time@,
                now_ms as int,
                i as int,
                (MAX_HOURS - hours@.len()) as nat,
            ),
            now_ms >= i64::MIN + HOUR_GRACE_MS,
            all == hours.deep_view() + hours_from(
                model,
                now_ms as int,
                i as int,
                (MAX_HOURS - hours@.len()) as nat,
            ),
        decreases hourly.time@.len() - i,
    {
        assert(model.time[i as int] == hourly.time@[i as int]);
        if hourly.time[i] * 1000 >= now_ms - HOUR_GRACE_MS {
            let ghost before = hours.deep_view();
            let hour = read_hour(hourly, i);
            hours.push(hour);
            assert(hours.deep_view() =~= before.push(hour_at(model, i as int)));
            assert(all =~= hours.deep_view() + hours_from(
                model,
                now_ms as int,
                i + 1,
                (MAX_HOURS - hours@.len()) as nat,
            ));
        }
        i = i + 1;
    }
    assert(hours.deep_view() + Seq::<WeatherHourModel>::empty() =~= hours.deep_view());
    hours
}

fn read_day(daily: &DailyWeather, i: usize) -> (day: WeatherDay)
    requires
        i < daily.time@.len(),
        day_fits(daily.deep_view(), i as int),
    ensures
        day.deep_view() == day_at(daily.deep_view(), i as int),
{
    proof {
        lemma_plain(daily.time);
        lemma_plain(daily.sunrise);
        lemma_plain(daily.sunset);
    }
    let zero = Measure { bits: 0 };
    let code: u16 = value(&daily.weather_code, i, 0);
    let sunrise: i64 = value(&daily.sunrise, i, 0);
    let sunset: i64 = value(&daily.sunset, i, 0);
    WeatherDay {
        date_unix_ms: daily.time[i] * 1000,
        high_c: value(&daily.temperature_2m_max, i, zero),
        low_c: value(&daily.temperature_2m_min, i, zero),
        precipitation_probability: value(&daily.precipitation_probability_max, i, 0),
        condition: condition(code).to_string(),
        condition_code: code,
        sunrise_unix_ms: sunrise * 1000,
        sunset_unix_ms: sunset * 1000,
    }
}

fn read_days(daily: &DailyWeather) -> (days: Vec<WeatherDay>)
    requires
        days_fit(daily.deep_view()),
    ensures
        days.deep_view() == days_of(daily.deep_view()),
{
    let mut days: Vec<WeatherDay> = Vec::new();
    let mut i: usize = 0;
    while i < daily.time.len() && i < MAX_DAYS
        invariant
            i <= daily.time@.len(),
            i <= MAX_DAYS,
            days@.len() == i,
            daily.deep_view().time.len() == daily.time@.len(),
            days_fit(daily.deep_view()),
            forall|k: int|
                0 <= k < i ==> (#[trigger] days@[k]).deep_view() == day_at(daily.deep_view(), k),
        decreases daily.time@.len() - i,
    {
        assert(day_fits(daily.deep_view(), i as int));
        days.push(read_day(daily, i));
        i = i + 1;
    }
    assert(days.deep_view() =~= days_of(daily.deep_view()));
    days
}

/// The weather at a location: what it is now, the hours that have not long
/// begun, and the days ahead.
pub fn weather_state(location: &WeatherLocation, response: &ForecastResponse, now_ms: i64) -> (state:
    WeatherState)
    requires
        forecast_fits(response.deep_view(), now_ms),
        now_ms >= i64::MIN + HOUR_GRACE_MS,
    ensures
        state.deep_view() == weather_of(location.deep_view(), response.deep_view(), now_ms),
{
    proof {
        lemma_plain(response.hourly.time);
    }
    let hourly = read_hours(&response.hourly, now_ms);
    let daily = read_days(&response.daily);
    let today = if daily.len() > 0 {
        assert(daily.deep_view()[0] == daily@[0].deep_view());
        daily[0].copy()
    } else {
        WeatherDay::default()
    };
    let current = &response.current;
    let state = WeatherState {
        available: true,
        id: location.id.clone(),
        location: location.location.clone(),
        home: location.home,
        timezone: response.timezone.clone(),
        utc_offset_seconds: response.utc_offset_seconds,
        condition: condition(current.weather_code).to_string(),
        condition_code: current.weather_code,
        is_day: current.is_day != 0,
        temperature_c: current.temperature_2m,
        apparent_temperature_c: current.apparent_temperature,
        high_c: today.high_c,
        low_c: today.low_c,
        precipitation_probability: today.precipitation_probability,
        precipitation_mm: current.precipitation,
        wind_speed_kmh: current.wind_speed_10m,
        wind_direction_degrees: current.wind_direction_10m,
        wind_gust_kmh: current.wind_gusts_10m,
        humidity_percent: current.relative_humidity_2m,
        sunrise_unix_ms: today.sunrise_unix_ms,
        sunset_unix_ms: today.sunset_unix_ms,
        updated_unix_ms: now_ms,
        hourly,
        daily,
        error: None,
    };
    assert(state.deep_view() =~= weather_of(location.deep_view(), response.deep_view(), now_ms));
    state
}

/// A forecast shows at most as many hours as are wanted, none of which began more than half an
/// hour ago.
pub proof fn forecast_hours_are_current(
    hourly: HourlyWeatherModel,
    now_ms: int,
    from: int,
    wanted: nat,
)
    requires
        0 <= from,
        hours_fit(hourly.time, now_ms, from, wanted),
    ensures
        hours_from(hourly, now_ms, from, wanted).len() <= wanted,
        forall|i: int|
            0 <= i < hours_from(hourly, now_ms, from, wanted).len() ==> (#[trigger] hours_from(
                hourly,
                now_ms,
                from,
                wanted,
            )[i]).time_unix_ms >= now_ms - HOUR_GRACE_MS,
    decreases hourly.time.len() - from,
{
    if from < hourly.time.len() && wanted > 0 {
        if hourly.time[from] * 1000 >= now_ms - HOUR_GRACE_MS {
            forecast_hours_are_current(hourly, now_ms, from + 1, (wanted - 1) as nat);
        } else {
            forecast_hours_are_current(hourly, now_ms, from + 1, wanted);
        }
    }
}

// Laws

/// What is shown of the weather now is what was told, each under its own name, and
/// for the place that was asked about; highs, lows, rain and the sun are those
/// of the first day.
pub proof fn weather_shows_what_was_told(
    location: WeatherLocationModel,
    response: ForecastResponseModel,
    now_ms: i64,
)
    ensures
        ({
            let state = weather_of(location, response, now_ms);
            let current = response.current;
            let daily = response.daily;
            &&& state.available && state.error is None
            &&& state.id == location.id && state.location == location.location && state.home
                == location.home
            &&& state.timezone == response.timezone && state.utc_offset_seconds
                == response.utc_offset_seconds
            &&& state.condition == condition_text(current.weather_code)
            &&& state.condition_code == current.weather_code
            &&& state.is_day <==> current.is_day != 0
            &&& state.temperature_c == current.temperature_2m
            &&& state.apparent_temperature_c == current.apparent_temperature
            &&& state.precipitation_mm == current.precipitation
            &&& state.wind_speed_kmh == current.wind_speed_10m
            &&& state.wind_direction_degrees == current.wind_direction_10m
            &&& state.wind_gust_kmh == current.wind_gusts_10m
            &&& state.humidity_percent == current.relative_humidity_2m
            &&& state.updated_unix_ms == now_ms
            &&& daily.time.len() == 0 ==> state.high_c == Measure::initial() && state.low_c
                == Measure::initial() && state.precipitation_probability == 0
                && state.sunrise_unix_ms == 0 && state.sunset_unix_ms == 0
            &&& daily.time.len() > 0 && daily.temperature_2m_max.len() > 0 ==> state.high_c
                == daily.temperature_2m_max[0]
            &&& daily.time.len() > 0 && daily.temperature_2m_min.len() > 0 ==> state.low_c
                == daily.temperature_2m_min[0]
            &&& daily.time.len() > 0 && daily.precipitation_probability_max.len() > 0
                ==> state.precipitation_probability == daily.precipitation_probability_max[0]
            &&& daily.time.len() > 0 && daily.sunrise.len() > 0 && time_fits(daily.sunrise[0])
                ==> state.sunrise_unix_ms == daily.sunrise[0] * 1000
            &&& daily.time.len() > 0 && daily.sunset.len() > 0 && time_fits(daily.sunset[0])
                ==> state.sunset_unix_ms == daily.sunset[0] * 1000
        }),
{
}

/// The days of a forecast are the first seven that it holds, in order, each with
/// its own values, and nothing for those that are missing.
pub proof fn days_are_those_told(
    location: WeatherLocationModel,
    response: ForecastResponseModel,
    now_ms: i64,
    i: int,
)
    requires
        0 <= i < response.daily.time.len(),
        i < 7,
        day_fits(response.daily, i),
    ensures
        ({
            let daily = response.daily;
            let days = weather_of(location, response, now_ms).daily;
            &&& i < days.len() <= 7
            &&& days.len() <= daily.time.len()
            &&& days[i].date_unix_ms == daily.time[i] * 1000
            &&& i < daily.weather_code.len() ==> days[i].condition_code == daily.weather_code[i]
            &&& i < daily.temperature_2m_max.len() ==> days[i].high_c == daily.temperature_2m_max[i]
            &&& i < daily.temperature_2m_min.len() ==> days[i].low_c == daily.temperature_2m_min[i]
            &&& i < daily.precipitation_probability_max.len()
                ==> days[i].precipitation_probability == daily.precipitation_probability_max[i]
            &&& i < daily.sunrise.len() ==> days[i].sunrise_unix_ms == daily.sunrise[i] * 1000
            &&& i < daily.sunset.len() ==> days[i].sunset_unix_ms == daily.sunset[i] * 1000
            &&& days[i].condition == condition_text(days[i].condition_code)
            &&& i >= daily.weather_code.len() ==> days[i].condition_code == 0
            &&& i >= daily.precipitation_probability_max.len() ==> days[i].precipitation_probability
                == 0
            &&& i >= daily.sunrise.len() ==> days[i].sunrise_unix_ms == 0
            &&& i >= daily.sunset.len() ==> days[i].sunset_unix_ms == 0
            &&& i >= daily.temperature_2m_max.len() ==> days[i].high_c == Measure::initial()
            &&& i >= daily.temperature_2m_min.len() ==> days[i].low_c == Measure::initial()
        }),
{
}

/// How many of some hours began half an hour ago at most.
pub open spec fn current_hours(times: Seq<i64>, now_ms: int, from: int, to: int) -> nat
    decreases to - from,
{
    if from >= to {
        0
    } else {
        current_hours(times, now_ms, from + 1, to) + if times[from] * 1000 >= now_ms - 1_800_000 {
            1nat
        } else {
            0nat
        }
    }
}

proof fn lemma_hours(hourly: HourlyWeatherModel, now_ms: int, from: int, wanted: nat, i: int)
    requires
        0 <= from <= i < hourly.time.len(),
        hourly.time[i] * 1000 >= now_ms - 1_800_000,
        current_hours(hourly.time, now_ms, from, i) < wanted,
    ensures
        ({
            let at = current_hours(hourly.time, now_ms, from, i) as int;
            let hours = hours_from(hourly, now_ms, from, wanted);
            &&& at < hours.len()
            &&& hours[at] == hour_at(hourly, i)
        }),
    decreases i - from,
{
    if from < i {
        if hourly.time[from] * 1000 >= now_ms - 1_800_000 {
            lemma_hours(hourly, now_ms, from + 1, (wanted - 1) as nat, i);
        } else {
            lemma_hours(hourly, now_ms, from + 1, wanted, i);
        }
    }
}

/// The hours of a forecast are the first twelve that did not begin more than half
/// an hour ago, in order, each with its own values, and nothing for those that are
/// missing.
pub proof fn hours_are_those_told(
    location: WeatherLocationModel,
    response: ForecastResponseModel,
    now_ms: i64,
    i: int,
)
    requires
        0 <= i < response.hourly.time.len(),
        time_fits(response.hourly.time[i]),
        response.hourly.time[i] * 1000 >= now_ms - 1_800_000,
        current_hours(response.hourly.time, now_ms as int, 0, i) < 12,
    ensures
        ({
            let hourly = response.hourly;
            let hours = weather_of(location, response, now_ms).hourly;
            let at = current_hours(hourly.time, now_ms as int, 0, i) as int;
            &&& at < hours.len()
            &&& hours[at].time_unix_ms == hourly.time[i] * 1000
            &&& i < hourly.temperature_2m.len() ==> hours[at].temperature_c
                == hourly.temperature_2m[i]
            &&& i < hourly.precipitation_probability.len() ==> hours[at].precipitation_probability
                == hourly.precipitation_probability[i]
            &&& i < hourly.precipitation.len() ==> hours[at].precipitation_mm
                == hourly.precipitation[i]
            &&& i < hourly.wind_speed_10m.len() ==> hours[at].wind_speed_kmh
                == hourly.wind_speed_10m[i]
            &&& i < hourly.wind_direction_10m.len() ==> hours[at].wind_direction_degrees
                == hourly.wind_direction_10m[i]
            &&& i < hourly.weather_code.len() ==> hours[at].condition_code == hourly.weather_code[i]
            &&& i < hourly.is_day.len() ==> (hours[at].is_day <==> hourly.is_day[i] != 0)
            &&& hours[at].condition == condition_text(hours[at].condition_code)
            &&& i >= hourly.weather_code.len() ==> hours[at].condition_code == 0
            &&& i >= hourly.precipitation_probability.len() ==> hours[at].precipitation_probability
                == 0
            &&& i >= hourly.wind_direction_10m.len() ==> hours[at].wind_direction_degrees == 0
            &&& i >= hourly.is_day.len() ==> !hours[at].is_day
            &&& i >= hourly.temperature_2m.len() ==> hours[at].temperature_c == Measure::initial()
            &&& i >= hourly.precipitation.len() ==> hours[at].precipitation_mm == Measure::initial()
            &&& i >= hourly.wind_speed_10m.len() ==> hours[at].wind_speed_kmh == Measure::initial()
        }),
{
    lemma_hours(response.hourly, now_ms as int, 0, 12, i);
}

/// Codes of the weather stand for these conditions.
pub proof fn codes_stand_for_conditions(code: u16)
    ensures
        code == 0 ==> condition_text(code) == "Clear"@,
        code == 1 ==> condition_text(code) == "Mostly clear"@,
        code == 2 ==> condition_text(code) == "Partly cloudy"@,
        code == 3 ==> condition_text(code) == "Overcast"@,
        code == 45 || code == 48 ==> condition_text(code) == "Fog"@,
        51 <= code <= 57 && code != 52 && code != 54 ==> condition_text(code) == "Drizzle"@,
        61 <= code <= 67 && code != 62 && code != 64 ==> condition_text(code) == "Rain"@,
        code == 71 || code == 73 || code == 75 || code == 77 ==> condition_text(code) == "Snow"@,
        code == 80 || code == 81 || code == 82 ==> condition_text(code) == "Rain showers"@,
        code == 85 || code == 86 ==> condition_text(code) == "Snow showers"@,
        95 <= code <= 99 ==> condition_text(code) == "Thunderstorm"@,
        4 <= code < 45 || 86 < code < 95 || code > 99 ==> condition_text(code) == "Unknown"@,
{
}

/// A forecast for times within a hundred thousand years is one that can be shown.
pub proof fn ordinary_forecasts_can_be_shown(response: ForecastResponseModel, now_ms: i64)
    requires
        forall|i: int|
            0 <= i < response.hourly.time.len() ==> is_ordinary(#[trigger] response.hourly.time[i]),
        forall|i: int|
            0 <= i < response.daily.time.len() ==> is_ordinary(#[trigger] response.daily.time[i]),
        forall|i: int|
            0 <= i < response.daily.sunrise.len() ==> is_ordinary(
                #[trigger] response.daily.sunrise[i],
            ),
        forall|i: int|
            0 <= i < response.daily.sunset.len() ==> is_ordinary(
                #[trigger] response.daily.sunset[i],
            ),
    ensures
        forecast_fits(response, now_ms),
{
    lemma_hours_fit(response.hourly.time, now_ms as int, 0, MAX_HOURS as nat);
    let daily = response.daily;
    assert forall|i: int| 0 <= i < daily.time.len() && i < MAX_DAYS implies #[trigger] day_fits(
        daily,
        i,
    ) by {
        assert(is_ordinary(daily.time[i]));
    }
}

/// Whether a time, in seconds, is within a hundred thousand years.
pub open spec fn is_ordinary(time: i64) -> bool {
    -3_000_000_000_000 <= time <= 3_000_000_000_000
}

proof fn lemma_hours_fit(times: Seq<i64>, now_ms: int, from: int, wanted: nat)
    requires
        0 <= from,
        forall|i: int| 0 <= i < times.len() ==> is_ordinary(#[trigger] times[i]),
    ensures
        hours_fit(times, now_ms, from, wanted),
    decreases times.len() - from,
{
    if from < times.len() && wanted > 0 {
        assert(is_ordinary(times[from]));
        lemma_hours_fit(times, now_ms, from + 1, (wanted - 1) as nat);
        lemma_hours_fit(times, now_ms, from + 1, wanted);
    }
}

} // verus!
