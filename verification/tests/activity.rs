use bar_daemon::activity::config::{
    validate, ActivityConfig, CalendarSourceConfig, ConfigError, WorldClockConfig,
};
use bar_daemon::activity::ics::{
    decode_text, document_local_times, finish_event, is_calendar_extension, load_source,
    load_source_in, parse_calendar, parse_calendar_in, parse_time, plan_time, resolve_time,
    source_files, unfold_lines, CalendarError, Document, EventBuilder, LocalTime, ParsedTime,
    SourceFiles, TimeError, TimePlan,
};
use bar_daemon::activity::model::{ActivityEvent, ActivityState, Measure, TodoItem, WeatherState};
use bar_daemon::activity::provider::ProviderRegistry;
use bar_daemon::activity::range::{local_dates, LocalDate, RangeError};
use bar_daemon::activity::service::{begin_refresh, ActivityData, SourceEvents, SourceResult};
use bar_daemon::activity::summary::{city_of, clock_at, world_clock, world_clock_at, world_clocks};
use bar_daemon::activity::todos::{
    complete_todo, create_todo, delete_todo, TodoDraft, TodoError,
};
use bar_daemon::activity::weather::{
    condition, is_convertible, value, weather_state, CurrentWeather, DailyWeather,
    ForecastResponse, HourlyWeather, WeatherLocation,
};

fn source() -> CalendarSourceConfig {
    CalendarSourceConfig {
        id: "work".into(),
        name: "Work".into(),
        color: "#123456".into(),
        ..CalendarSourceConfig::default()
    }
}

fn file_source(id: &str) -> CalendarSourceConfig {
    CalendarSourceConfig {
        id: id.into(),
        kind: "ics-file".into(),
        path: format!("/tmp/{id}.ics"),
        ..CalendarSourceConfig::default()
    }
}

fn measure(value: f64) -> Measure {
    Measure { bits: value.to_bits() }
}

const FIRST: &str = "BEGIN:VCALENDAR\nBEGIN:VEVENT\nUID:first\nSUMMARY:First\nDTSTART:20260115T090000Z\nDTEND:20260115T100000Z\nEND:VEVENT\nEND:VCALENDAR\n";
const SECOND: &str = "BEGIN:VCALENDAR\nBEGIN:VEVENT\nUID:second\nSUMMARY:Second\nDTSTART;VALUE=DATE:20260120\nDTEND;VALUE=DATE:20260121\nEND:VEVENT\nEND:VCALENDAR\n";

// Settings

#[test]
fn documented_example_is_valid() {
    let config = ActivityConfig {
        calendar_sources: vec![
            CalendarSourceConfig {
                id: "personal".into(),
                name: "Personal".into(),
                kind: "ics-directory".into(),
                path: "/home/user/.local/share/calendars/personal".into(),
                color: "#7aa2f7".into(),
            },
            CalendarSourceConfig {
                id: "holidays".into(),
                name: "Holidays".into(),
                kind: "ics-file".into(),
                path: "/home/user/.local/share/calendars/holidays.ics".into(),
                color: "#9ece6a".into(),
            },
        ],
        world_clocks: vec![
            WorldClockConfig { timezone: "America/New_York".into(), label: "New York".into() },
            WorldClockConfig { timezone: "Asia/Tokyo".into(), label: "Tokyo".into() },
        ],
    };
    validate(&config).unwrap();
    assert!(!config.calendar_sources.is_empty());
    assert!(!config.world_clocks.is_empty());
}

#[test]
fn parses_multiple_sources_and_world_clocks() {
    let config = ActivityConfig {
        calendar_sources: vec![
            CalendarSourceConfig {
                id: "work".into(),
                name: "Work".into(),
                kind: "ics-directory".into(),
                path: "/tmp/work".into(),
                color: "#123456".into(),
            },
            CalendarSourceConfig {
                id: "home".into(),
                name: "Home".into(),
                kind: "ics-file".into(),
                path: "/tmp/home.ics".into(),
                ..CalendarSourceConfig::default()
            },
        ],
        world_clocks: vec![WorldClockConfig {
            timezone: "Asia/Tokyo".into(),
            label: "Tokyo".into(),
        }],
    };
    assert_eq!(config.calendar_sources.len(), 2);
    assert_eq!(config.calendar_sources[1].color, "#7aa2f7");
    assert_eq!(config.world_clocks[0].timezone, "Asia/Tokyo");
    validate(&config).unwrap();
}

#[test]
fn rejects_duplicate_source_ids() {
    let config = ActivityConfig {
        calendar_sources: vec![
            CalendarSourceConfig {
                id: "same".into(),
                path: "/a".into(),
                ..CalendarSourceConfig::default()
            },
            CalendarSourceConfig {
                id: "same".into(),
                path: "/b".into(),
                ..CalendarSourceConfig::default()
            },
        ],
        world_clocks: Vec::new(),
    };
    assert!(validate(&config).is_err());
    assert_eq!(validate(&config), Err(ConfigError::DuplicateSourceId("same".into())));
}

#[test]
fn names_each_fault_of_the_settings() {
    let with = |change: fn(&mut CalendarSourceConfig)| {
        let mut source = CalendarSourceConfig {
            id: "one".into(),
            path: "/a".into(),
            ..CalendarSourceConfig::default()
        };
        change(&mut source);
        ActivityConfig { calendar_sources: vec![source], world_clocks: Vec::new() }
    };
    assert_eq!(validate(&with(|_| {})), Ok(()));
    assert_eq!(validate(&with(|s| s.id = " ".into())), Err(ConfigError::EmptySourceId));
    assert_eq!(
        validate(&with(|s| s.path = String::new())),
        Err(ConfigError::EmptySourcePath("one".into()))
    );
    assert_eq!(
        validate(&with(|s| s.kind = "  ".into())),
        Err(ConfigError::EmptySourceKind("one".into()))
    );
    let clocks = ActivityConfig {
        calendar_sources: Vec::new(),
        world_clocks: vec![WorldClockConfig {
            timezone: "Mars/Olympus".into(),
            label: String::new(),
        }],
    };
    assert_eq!(validate(&clocks), Err(ConfigError::UnknownTimezone("Mars/Olympus".into())));
}

// Calendar files

#[test]
fn parses_timed_and_all_day_events() {
    let events = parse_calendar(
        &source(),
        "test.ics",
        "BEGIN:VCALENDAR\nBEGIN:VEVENT\nUID:meeting\nSUMMARY:Planning\\, weekly\nDTSTART;TZID=Europe/Amsterdam:20260115T090000\nDTEND;TZID=Europe/Amsterdam:20260115T100000\nLOCATION:Room 1\nEND:VEVENT\nBEGIN:VEVENT\nUID:holiday\nSUMMARY:Holiday\nDTSTART;VALUE=DATE:20260120\nDTEND;VALUE=DATE:20260121\nEND:VEVENT\nEND:VCALENDAR\n",
    );
    assert_eq!(events.len(), 2);
    assert_eq!(events[0].title, "Planning, weekly");
    assert_eq!(events[0].timezone.as_deref(), Some("Europe/Amsterdam"));
    assert_eq!(events[0].location, "Room 1");
    assert!(events[1].all_day);
    assert_eq!(events[1].start_date.as_deref(), Some("2026-01-20"));
    assert_eq!(events[0].start_unix_ms, 1_768_464_000_000);
    assert_eq!(events[0].end_unix_ms, 1_768_467_600_000);
    assert_eq!(events[0].id, "work:meeting:1768464000000");
}

#[test]
fn unfolds_continuation_lines() {
    assert_eq!(
        unfold_lines("SUMMARY:Long\n title\nUID:1"),
        vec!["SUMMARY:Longtitle", "UID:1"]
    );
}

#[test]
fn unfolds_lines_that_begin_with_a_tab_and_drops_carriage_returns() {
    assert_eq!(unfold_lines("A:1\r\n\t2\r\nB:3\r\n"), vec!["A:12", "B:3"]);
}

#[test]
fn decodes_escaped_text() {
    assert_eq!(decode_text("a\\nb\\Nc\\,d\\;e\\\\f"), "a\nb\nc,d;e\\f");
}

#[test]
fn reads_times_in_each_form() {
    assert_eq!(
        parse_time("DTSTART;VALUE=DATE", "20260120").unwrap().date.as_deref(),
        Some("2026-01-20")
    );
    assert_eq!(parse_time("DTSTART", "20260115T090000Z").unwrap().unix_ms, 1_768_467_600_000);
    assert!(parse_time("DTSTART", "noon").is_err());
    assert!(parse_time("DTSTART;VALUE=DATE", "20261350").is_err());
    assert!(parse_time("DTSTART;TZID=Mars/Olympus", "20260115T090000").is_err());
}

#[test]
fn local_times_wait_for_the_zone_of_this_machine() {
    let plan = plan_time("DTSTART", "19700102T000000");
    assert_eq!(plan, TimePlan::Local { seconds: 86_400, nanos: 0 });
    let resolved: Result<ParsedTime, TimeError> = resolve_time(plan, Some(90_000_000));
    assert_eq!(resolved.unwrap().unix_ms, 90_000_000);
    assert!(resolve_time(plan_time("DTSTART", "19700102T000000"), None).is_err());
}

#[test]
fn events_without_an_end_last_an_hour_or_a_day() {
    let zone: Vec<LocalTime> = Vec::new();
    let events = parse_calendar_in(
        &source(),
        "test.ics",
        "BEGIN:VEVENT\nDTSTART:20260115T090000Z\nEND:VEVENT\nBEGIN:VEVENT\nDTSTART;VALUE=DATE:20260120\nEND:VEVENT\n",
        &zone,
    );
    assert_eq!(events[0].end_unix_ms - events[0].start_unix_ms, 3_600_000);
    assert_eq!(events[1].end_unix_ms - events[1].start_unix_ms, 86_400_000);
}

#[test]
fn any_start_to_which_a_day_can_be_added_makes_an_event() {
    let builder = |unix_ms: i64| EventBuilder {
        start: Some(ParsedTime { unix_ms, date: None, all_day: true, timezone: None }),
        ..EventBuilder::default()
    };
    for start in [i64::MIN, -1, i64::MAX - 86_400_000] {
        let event = finish_event(&source(), "test.ics", builder(start)).unwrap();
        assert_eq!(event.start_unix_ms, start);
        assert_eq!(event.end_unix_ms, start + 86_400_000);
        assert_eq!(event.title, "Untitled event");
    }
    let ended = EventBuilder {
        end: Some(ParsedTime { unix_ms: 0, date: None, all_day: true, timezone: None }),
        ..builder(i64::MAX)
    };
    assert_eq!(finish_event(&source(), "test.ics", ended).unwrap().end_unix_ms, i64::MAX);
}

#[test]
fn joined_calendars_give_their_events_one_behind_the_other() {
    let first = "BEGIN:VEVENT\nUID:a\nDTSTART:20260115T090000Z\nLOCATION:Room\n 1\nEND:VEVENT\n";
    let second = "begin:vevent\r\nUID:b\r\nDTSTART;VALUE=DATE:20260101\r\nEND:VEVENT";
    let read = |contents: &str| parse_calendar(&source(), "test.ics", contents);
    let mut expected = read(first);
    expected.extend(read(second));
    assert_eq!(expected.len(), 2);
    assert_eq!(read(&format!("{first}{second}")), expected);
    assert_eq!(expected[0].location, "Room1");
    assert_eq!(expected[1].location, "");
}

#[test]
fn cancelled_events_and_events_without_a_start_are_left_out() {
    let events = parse_calendar(
        &source(),
        "test.ics",
        "BEGIN:VEVENT\nDTSTART:20260115T090000Z\nSTATUS:CANCELLED\nEND:VEVENT\nBEGIN:VEVENT\nUID:x\nEND:VEVENT\n",
    );
    assert!(events.is_empty());
}

#[test]
fn events_never_end_before_they_begin() {
    let events = parse_calendar(
        &source(),
        "test.ics",
        "BEGIN:VEVENT\nDTSTART:20260115T090000Z\nDTEND:20260114T090000Z\nEND:VEVENT\n",
    );
    assert!(events.iter().all(|event| event.end_unix_ms >= event.start_unix_ms));
}

#[test]
fn sources_name_the_files_they_read() {
    assert_eq!(source_files(&file_source("one")), Ok(SourceFiles::File));
    assert_eq!(source_files(&source()), Ok(SourceFiles::Directory));
    let unknown = CalendarSourceConfig { kind: "caldav".into(), ..source() };
    assert_eq!(
        source_files(&unknown),
        Err(CalendarError::UnsupportedKind("caldav".into()))
    );
    let nameless = CalendarSourceConfig { id: String::new(), ..source() };
    assert_eq!(source_files(&nameless), Err(CalendarError::EmptySourceId));
    assert!(is_calendar_extension("ICS"));
    assert!(!is_calendar_extension("txt"));
}

#[test]
fn events_of_several_documents_are_in_order() {
    let documents = vec![
        Document { path: "b.ics".into(), contents: SECOND.into() },
        Document { path: "a.ics".into(), contents: FIRST.into() },
    ];
    let zone = document_local_times(&documents);
    let events = load_source_in(&source(), &documents, &zone).unwrap();
    assert_eq!(events.iter().map(|event| event.title.as_str()).collect::<Vec<_>>(), ["First", "Second"]);
    assert_eq!(load_source(&source(), &documents).unwrap(), events);
}

#[test]
fn rejects_unregistered_provider_kinds() {
    let source = CalendarSourceConfig {
        id: "remote".into(),
        kind: "unknown".into(),
        path: "/tmp/unknown".into(),
        ..CalendarSourceConfig::default()
    };
    assert!(ProviderRegistry::builtins().load(&source, &Vec::new()).is_err());
}

#[test]
fn registered_providers_load_their_kinds() {
    let documents = vec![Document { path: "a.ics".into(), contents: FIRST.into() }];
    let events = ProviderRegistry::builtins().load(&file_source("one"), &documents).unwrap();
    assert_eq!(events.len(), 1);
    assert_eq!(events[0].source_id, "one");
}

// Tasks, refreshes and ranges

#[test]
fn local_todos_round_trip_and_query() {
    let mut data = ActivityData::default();
    let draft = TodoDraft {
        title: "Write tests".into(),
        due_unix_ms: None,
        due_date: Some("2026-01-20".into()),
        priority: 3,
    };
    let (todos, todo) = create_todo(&data.todos, draft, 1_768_000_000_000, 1).unwrap();
    data.todos = todos;
    let from = 1_767_225_600_000;
    let to = 1_769_904_000_000;
    assert_eq!(data.query_range(from, to).unwrap().todos.len(), 1);
    let (todos, completed) =
        complete_todo(&data.todos, &todo.id, true, 1_768_000_000_001).unwrap();
    data.todos = todos;
    assert!(completed.completed);
    assert_eq!(completed.completed_unix_ms, Some(1_768_000_000_001));
    data.todos = delete_todo(&data.todos, &todo.id).unwrap();
    assert!(data.query_range(from, to).unwrap().todos.is_empty());
}

#[test]
fn refreshes_multiple_local_calendar_sources() {
    let config = ActivityConfig {
        calendar_sources: vec![file_source("one"), file_source("two")],
        world_clocks: Vec::new(),
    };
    let providers = ProviderRegistry::builtins();
    let load = |source: &CalendarSourceConfig, contents: &str| {
        let documents =
            vec![Document { path: source.path.clone(), contents: contents.into() }];
        SourceResult::Loaded(providers.load(source, &documents).unwrap())
    };
    let results = vec![
        load(&config.calendar_sources[0], FIRST),
        load(&config.calendar_sources[1], SECOND),
    ];
    let mut data = ActivityData::default();
    assert_eq!(data.refresh(&config, results), None);
    let snapshot = data.summary(&ActivityState::default(), Vec::new(), 0, None, false);
    assert_eq!(snapshot.event_count, 2);
    assert_eq!(snapshot.sources.len(), 2);
    assert!(snapshot.sources.iter().all(|source| source.available));
    let dates = vec![
        LocalDate { unix_ms: 1_768_467_600_000, date: Some("2026-01-15".into()) },
    ];
    let range = data.query_range(1_767_225_600_000, 1_769_904_000_000).unwrap();
    assert_eq!(range.events.len(), 2);
    assert_eq!(range.busy_dates, vec!["2026-01-15", "2026-01-20"]);
    let same = data.query_range_in(1_767_225_600_000, 1_769_904_000_000, &dates).unwrap();
    assert_eq!(same.busy_dates, vec!["2026-01-15", "2026-01-20"]);
}

#[test]
fn sources_that_are_read_again_keep_one_entry() {
    let config = ActivityConfig {
        calendar_sources: vec![file_source("one"), file_source("two")],
        world_clocks: Vec::new(),
    };
    let mut data = ActivityData::default();
    for _ in 0..2 {
        let results = vec![
            SourceResult::Loaded(Vec::new()),
            SourceResult::Failed("gone".into()),
        ];
        assert_eq!(data.refresh(&config, results).as_deref(), Some("gone"));
    }
    assert_eq!(data.events_by_source.len(), 1);
    assert_eq!(data.source_states.len(), 2);
}

#[test]
fn rejects_inverted_ranges() {
    let data = ActivityData::default();
    assert!(data.query_range(10, 10).is_err());
    assert_eq!(data.query_range(10, 10), Err(RangeError::Inverted));
}

#[test]
fn rejects_ranges_of_more_than_a_year() {
    let data = ActivityData::default();
    let limit = 370 * 86_400_000;
    assert!(data.query_range(0, limit).is_ok());
    assert_eq!(data.query_range(0, limit + 1), Err(RangeError::TooLong));
    assert_eq!(RangeError::TooLong.message(), "activity range cannot exceed 370 days");
}

#[test]
fn ranges_hold_the_events_that_overlap_them() {
    let event = |id: &str, start: i64, end: i64| ActivityEvent {
        id: id.into(),
        start_unix_ms: start,
        end_unix_ms: end,
        ..ActivityEvent::default()
    };
    let data = ActivityData {
        events_by_source: vec![SourceEvents {
            source_id: "one".into(),
            events: vec![
                event("before", 0, 100),
                event("into", 50, 150),
                event("within", 120, 130),
                event("after", 200, 300),
            ],
        }],
        ..ActivityData::default()
    };
    let range = data.query_range(100, 200).unwrap();
    assert_eq!(
        range.events.iter().map(|event| event.id.as_str()).collect::<Vec<_>>(),
        ["into", "within"]
    );
}

#[test]
fn refuses_tasks_that_are_not_sound() {
    let todos: Vec<TodoItem> = Vec::new();
    let draft = |title: &str, priority: u8, date: Option<&str>| TodoDraft {
        title: title.into(),
        due_unix_ms: None,
        due_date: date.map(str::to_string),
        priority,
    };
    assert_eq!(create_todo(&todos, draft("  ", 0, None), 0, 1), Err(TodoError::EmptyTitle));
    assert_eq!(create_todo(&todos, draft("x", 10, None), 0, 1), Err(TodoError::InvalidPriority));
    assert_eq!(
        create_todo(&todos, draft("x", 0, Some("2026-02-30")), 0, 1),
        Err(TodoError::InvalidDueDate("2026-02-30".into()))
    );
    assert_eq!(delete_todo(&todos, "no"), Err(TodoError::NotFound("no".into())));
    assert_eq!(
        complete_todo(&todos, "no", true, 0),
        Err(TodoError::NotFound("no".into()))
    );
    assert_eq!(TodoError::NotFound("no".into()).message(), "todo no was not found");
}

#[test]
fn deleting_a_new_task_brings_the_old_list_back() {
    let (before, _) = create_todo(
        &Vec::new(),
        TodoDraft { title: "a".into(), ..TodoDraft::default() },
        5,
        1,
    )
    .unwrap();
    let (after, todo) = create_todo(
        &before,
        TodoDraft { title: "b".into(), ..TodoDraft::default() },
        6,
        2,
    )
    .unwrap();
    assert_eq!(after.len(), 2);
    assert_eq!(delete_todo(&after, &todo.id).unwrap(), before);
}

#[test]
fn a_source_that_fails_keeps_what_it_had() {
    let config = ActivityConfig {
        calendar_sources: vec![file_source("one")],
        world_clocks: Vec::new(),
    };
    let events = vec![ActivityEvent { id: "e".into(), ..ActivityEvent::default() }];
    let mut data = ActivityData::default();
    data.refresh(&config, vec![SourceResult::Loaded(events)]);
    let error = data.refresh(&config, vec![SourceResult::Failed("gone".into())]);
    assert!(error.is_some());
    assert_eq!(data.events_by_source[0].events.len(), 1);
    assert!(!data.source_states[0].available);
    assert_eq!(data.source_states[0].error.as_deref(), Some("gone"));
}

#[test]
fn a_clock_shows_what_its_zone_has_at_the_time() {
    let clock = world_clock_at("Asia/Tokyo", "", 1_768_467_600_000).unwrap();
    assert_eq!((clock.label.as_str(), clock.city.as_str()), ("Tokyo", "Tokyo"));
    assert_eq!((clock.abbreviation.as_str(), clock.utc_offset_seconds), ("JST", 32_400));
    assert!(world_clock_at("Mars/Olympus", "", 0).is_none());
}

#[test]
fn local_moments_and_dates_are_less_than_a_day_from_utc() {
    let here = parse_time("DTSTART", "20260115T090000").unwrap();
    assert!((here.unix_ms - 1_768_467_600_000).abs() < 86_400_000);
    assert_eq!((here.unix_ms - 1_768_467_600_000) % 1_000, 0);
    let event = |start_unix_ms: i64| ActivityEvent { start_unix_ms, ..ActivityEvent::default() };
    let dates = local_dates(&vec![event(1_768_467_600_000), event(i64::MAX)]);
    let near = ["2026-01-14", "2026-01-15", "2026-01-16"];
    assert!(near.contains(&dates[0].date.as_deref().unwrap()));
    assert_eq!(dates[0].unix_ms, 1_768_467_600_000);
    assert_eq!(dates[1].date, None);
}

#[test]
fn a_refresh_begins_without_losing_what_is_shown() {
    let current = ActivityState { event_count: 4, ..ActivityState::default() };
    let state = begin_refresh(current);
    assert!(state.available && state.syncing);
    assert_eq!(state.event_count, 4);
}

#[test]
fn summaries_keep_the_weather() {
    let previous = ActivityState {
        weather: WeatherState { location: "Amsterdam".into(), ..WeatherState::default() },
        ..ActivityState::default()
    };
    let data = ActivityData {
        events_by_source: vec![SourceEvents {
            source_id: "one".into(),
            events: vec![
                ActivityEvent { id: "past".into(), end_unix_ms: 10, ..ActivityEvent::default() },
                ActivityEvent {
                    id: "next".into(),
                    start_unix_ms: 30,
                    end_unix_ms: 40,
                    ..ActivityEvent::default()
                },
            ],
        }],
        todos: vec![TodoItem::default()],
        ..ActivityData::default()
    };
    let state = data.summary(&previous, Vec::new(), 20, Some("late".into()), true);
    assert_eq!(state.weather.location, "Amsterdam");
    assert_eq!(state.next_event.unwrap().id, "next");
    assert_eq!(state.incomplete_todo_count, 1);
    assert_eq!(state.error.as_deref(), Some("late"));
    assert!(state.syncing);
}

#[test]
fn clocks_of_the_world_know_their_city() {
    assert_eq!(city_of("America/Argentina/Buenos_Aires"), "Buenos Aires");
    assert_eq!(city_of("UTC"), "UTC");
    let clock = clock_at("Asia/Tokyo", "", "JST".into(), 32_400);
    assert_eq!(clock.label, "Tokyo");
    assert_eq!(clock.utc_offset_seconds, 32_400);
    let tokyo = world_clock("Asia/Tokyo", "Office").unwrap();
    assert_eq!((tokyo.label.as_str(), tokyo.city.as_str()), ("Office", "Tokyo"));
    assert_eq!((tokyo.abbreviation.as_str(), tokyo.utc_offset_seconds), ("JST", 32_400));
    assert!(world_clock("Mars/Olympus", "").is_none());
    let clocks = world_clocks(&vec![
        WorldClockConfig { timezone: "Mars/Olympus".into(), label: String::new() },
        WorldClockConfig { timezone: "Asia/Tokyo".into(), label: String::new() },
    ]);
    assert_eq!(clocks.len(), 1);
}

// Weather

#[test]
fn maps_wmo_conditions() {
    assert_eq!(condition(0), "Clear");
    assert_eq!(condition(63), "Rain");
    assert_eq!(condition(95), "Thunderstorm");
}

#[test]
fn forecasts_begin_with_the_hour_that_runs() {
    let hour = 3_600;
    let response = ForecastResponse {
        timezone: "Europe/Amsterdam".into(),
        utc_offset_seconds: 3_600,
        current: CurrentWeather {
            weather_code: 63,
            is_day: 1,
            temperature_2m: measure(17.5),
            ..CurrentWeather::default()
        },
        hourly: HourlyWeather {
            time: vec![0, hour, 2 * hour, 3 * hour],
            temperature_2m: vec![measure(1.0), measure(2.0), measure(3.0)],
            ..HourlyWeather::default()
        },
        daily: DailyWeather { time: vec![0, 86_400], ..DailyWeather::default() },
    };
    let location = WeatherLocation { id: "home".into(), location: "Amsterdam".into(), home: true };
    let now = 2 * i64::from(3_600_000) + 60_000;
    assert!(is_convertible(&response, now));
    let state = weather_state(&location, &response, now);
    assert_eq!(state.condition, "Rain");
    assert!(state.is_day && state.available && state.home);
    assert_eq!(f64::from_bits(state.temperature_c.bits), 17.5);
    assert_eq!(state.hourly[0].time_unix_ms, 7_200_000);
    assert_eq!(f64::from_bits(state.hourly[0].temperature_c.bits), 3.0);
    assert_eq!(state.hourly.len(), 2);
    assert_eq!(state.daily.len(), 2);
    assert_eq!(state.updated_unix_ms, now);
}

#[test]
fn times_that_are_not_shown_may_be_any() {
    let mut hours: Vec<i64> = (0..12).map(|hour| hour * 3_600).collect();
    let mut days: Vec<i64> = (0..7).map(|day| day * 86_400).collect();
    hours.push(i64::MAX);
    days.push(i64::MIN);
    let forecast = |hours: &Vec<i64>, days: &Vec<i64>| ForecastResponse {
        hourly: HourlyWeather { time: hours.clone(), ..HourlyWeather::default() },
        daily: DailyWeather {
            time: days.clone(),
            sunset: days.clone(),
            ..DailyWeather::default()
        },
        ..ForecastResponse::default()
    };
    let response = forecast(&hours, &days);
    assert!(is_convertible(&response, 0));
    let state = weather_state(&WeatherLocation::default(), &response, 0);
    assert_eq!((state.hourly.len(), state.daily.len()), (12, 7));
    assert!(!is_convertible(&response, 3_600_000));
    days[6] = i64::MAX;
    assert!(!is_convertible(&forecast(&hours, &days), 0));
}

#[test]
fn missing_numbers_of_a_forecast_are_replaced() {
    assert_eq!(value(&vec![1, 2], 1, 9), 2);
    assert_eq!(value(&vec![1, 2], 2, 9), 9);
}
