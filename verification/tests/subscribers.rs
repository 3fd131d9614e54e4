use std::cell::RefCell;

use lunatic_log::level::filter::LevelFilter;
use lunatic_log::level::Level;
use lunatic_log::metadata::Metadata;
use lunatic_log::subscriber::data::Value;
use lunatic_log::subscriber::fmt::{decimal, insert_space, write_decimal, FmtSubscriber, Stream};
use lunatic_log::subscriber::multiple::MultipleSubscribers;
use lunatic_log::subscriber::{
    dispatch, handle_message, init_subscriber, Event, GlobalSubscriber, LoggingProcess,
    Subscriber, SubscriberMessage, SubscriberProcess,
};

fn meta(level: Level) -> Metadata {
    Metadata::new(level, "app::db".to_string(), "src/db.rs".to_string(), 120, 1, 2)
}

fn plain_event(level: Level, message: &str) -> Event {
    Event::new(message.to_string(), Vec::new(), meta(level))
}

struct Counting {
    ceiling: LevelFilter,
    seen: RefCell<Vec<String>>,
}

impl Subscriber for Counting {
    fn enabled(&self, metadata: &Metadata) -> bool {
        metadata.level() <= self.ceiling
    }

    fn event(&self, event: &Event) {
        self.seen.borrow_mut().push(event.message().to_string());
    }

    fn max_level_hint(&self) -> Option<LevelFilter> {
        Some(self.ceiling)
    }
}

struct Silent;

impl Subscriber for Silent {
    fn enabled(&self, _: &Metadata) -> bool {
        false
    }

    fn event(&self, _: &Event) {
        panic!("a disabled subscriber got an event");
    }
}

#[test]
fn builders_switch_single_columns() {
    let base = FmtSubscriber::new(LevelFilter::INFO);
    assert_eq!(base.level_filter, LevelFilter::INFO);
    assert!(!base.color && !base.file && !base.level && !base.line_number && !base.target && !base.time);
    assert_eq!(base.time_format, None);
    assert!(FmtSubscriber::new(LevelFilter::INFO).with_color(true).color);
    assert!(FmtSubscriber::new(LevelFilter::INFO).with_file(true).file);
    assert!(FmtSubscriber::new(LevelFilter::INFO).with_level(true).level);
    assert!(FmtSubscriber::new(LevelFilter::INFO).with_line_number(true).line_number);
    assert!(FmtSubscriber::new(LevelFilter::INFO).with_target(true).target);
    assert!(FmtSubscriber::new(LevelFilter::INFO).with_time(true).time);
    let pretty = FmtSubscriber::new(LevelFilter::DEBUG).pretty();
    assert!(pretty.color && pretty.file && pretty.level && pretty.line_number && pretty.target && pretty.time);
    assert_eq!(pretty.level_filter, LevelFilter::DEBUG);
    assert!(!pretty.with_color(false).color);
    let default = FmtSubscriber::default();
    assert_eq!(default.level_filter, LevelFilter::OFF);
    assert!(!default.color && !default.time);
}

#[test]
fn time_format_has_a_default() {
    let subscriber = FmtSubscriber::new(LevelFilter::INFO);
    assert_eq!(subscriber.time_format(), "%Y-%m-%dT%H:%M:%S%.6fZ");
    let subscriber = subscriber.with_time_format("%H:%M".to_string());
    assert_eq!(subscriber.time_format(), "%H:%M");
}

#[test]
fn fmt_subscriber_filters_by_level() {
    let subscriber = FmtSubscriber::new(LevelFilter::INFO);
    assert!(subscriber.enabled(&meta(Level::ERROR)));
    assert!(subscriber.enabled(&meta(Level::INFO)));
    assert!(!subscriber.enabled(&meta(Level::DEBUG)));
    assert_eq!(subscriber.max_level_hint(), Some(LevelFilter::INFO));
    assert!(!FmtSubscriber::new(LevelFilter::OFF).enabled(&meta(Level::ERROR)));
}

#[test]
fn bare_subscriber_writes_no_columns() {
    let subscriber = FmtSubscriber::new(LevelFilter::TRACE);
    assert_eq!(subscriber.begin_line(&meta(Level::INFO), "now"), "");
}

#[test]
fn plain_columns() {
    let subscriber = FmtSubscriber::new(LevelFilter::TRACE).pretty().with_color(false);
    assert_eq!(
        subscriber.begin_line(&meta(Level::INFO), "2024-01-01T00:00:00.000000Z"),
        "2024-01-01T00:00:00.000000Z  INFO app::db: src/db.rs:120:"
    );
    assert_eq!(
        subscriber.begin_line(&meta(Level::ERROR), "T"),
        "T ERROR app::db: src/db.rs:120:"
    );
    let no_time = FmtSubscriber::new(LevelFilter::TRACE).with_level(true).with_target(true);
    assert_eq!(no_time.begin_line(&meta(Level::WARN), "T"), "WARN app::db:");
    let only_line = FmtSubscriber::new(LevelFilter::TRACE).with_line_number(true);
    assert_eq!(only_line.begin_line(&meta(Level::WARN), "T"), "120:");
}

#[test]
fn coloured_columns() {
    let subscriber = FmtSubscriber::new(LevelFilter::TRACE).pretty();
    let gray = "\u{1b}[38;2;135;135;135m";
    let reset = "\u{1b}[0m";
    let expected = format!(
        "{gray}T{reset}  \u{1b}[33mWARN{reset} {gray}app::db:{reset} {gray}src/db.rs:{reset}{gray}120:{reset}"
    );
    assert_eq!(subscriber.begin_line(&meta(Level::WARN), "T"), expected);
    let levels = [
        (Level::ERROR, "\u{1b}[31mERROR\u{1b}[0m"),
        (Level::INFO, "\u{1b}[32mINFO\u{1b}[0m"),
        (Level::DEBUG, "\u{1b}[34mDEBUG\u{1b}[0m"),
        (Level::TRACE, "\u{1b}[35mTRACE\u{1b}[0m"),
    ];
    let only_level = FmtSubscriber::new(LevelFilter::TRACE).with_level(true).with_color(true);
    for (level, text) in levels.iter() {
        assert_eq!(only_level.begin_line(&meta(*level), "T"), *text);
    }
}

#[test]
fn numbers_are_written_in_decimal() {
    for n in [0u32, 1, 9, 10, 11, 99, 100, 101, 1000, 65535, 4294967295] {
        assert_eq!(decimal(n), format!("{n}"));
        let mut line = String::from("line ");
        write_decimal(&mut line, n);
        assert_eq!(line, format!("line {n}"));
    }
}

#[test]
fn line_numbers_are_decimal() {
    let only_line = FmtSubscriber::new(LevelFilter::TRACE).with_line_number(true);
    for line in [0u32, 7, 10, 99, 100, 4294967295] {
        let metadata = Metadata::new(Level::INFO, String::new(), String::new(), line, 0, 0);
        assert_eq!(only_line.begin_line(&metadata, ""), format!("{line}:"));
    }
}

#[test]
fn values_are_written_as_they_are_shown() {
    let plain = FmtSubscriber::new(LevelFilter::TRACE);
    let coloured = FmtSubscriber::new(LevelFilter::TRACE).with_color(true);
    let mut line = String::from("x");
    plain.write_null(&mut line);
    plain.write_bool(&mut line, true);
    plain.write_bool(&mut line, false);
    plain.write_number(&mut line, "10.43");
    plain.write_string(&mut line, "Hello");
    assert_eq!(line, "xnulltruefalse10.43\"Hello\"");
    let mut line = String::new();
    coloured.write_null(&mut line);
    assert_eq!(line, "\u{1b}[38;2;135;135;135mnull\u{1b}[0m");
    let mut line = String::new();
    coloured.write_bool(&mut line, true);
    coloured.write_bool(&mut line, false);
    assert_eq!(line, "\u{1b}[32mtrue\u{1b}[0m\u{1b}[31mfalse\u{1b}[0m");
    let mut line = String::new();
    plain.write_key(&mut line, "age");
    assert_eq!(line, "\u{1b}[3mage\u{1b}[0m=");
}

#[test]
fn space_only_after_something() {
    let mut line = String::new();
    insert_space(&mut line);
    assert_eq!(line, "");
    line.push('a');
    insert_space(&mut line);
    insert_space(&mut line);
    assert_eq!(line, "a  ");
}

#[test]
fn line_ends_with_the_message() {
    let subscriber = FmtSubscriber::new(LevelFilter::TRACE);
    let (line, stream) = subscriber.end_line("12:00".to_string(), &plain_event(Level::INFO, "started"));
    assert_eq!(line, "12:00 started");
    assert_eq!(stream, Stream::Stdout);
    let (line, stream) = subscriber.end_line(String::new(), &plain_event(Level::ERROR, "failed"));
    assert_eq!(line, "failed");
    assert_eq!(stream, Stream::Stderr);
    let (line, stream) = subscriber.end_line("12:00".to_string(), &plain_event(Level::WARN, ""));
    assert_eq!(line, "12:00");
    assert_eq!(stream, Stream::Stdout);
}

#[test]
fn event_keeps_message_data_and_metadata() {
    let data = vec![("age".to_string(), Value::Number("23".to_string()))];
    let event = Event::new("hello".to_string(), data, meta(Level::INFO));
    assert_eq!(event.message(), "hello");
    assert_eq!(event.data().len(), 1);
    assert_eq!(event.data()[0].0, "age");
    assert!(matches!(&event.data()[0].1, Value::Number(n) if n == "23"));
    assert!(event.metadata().same(&meta(Level::INFO)));
    assert!(event.has_data());
    assert!(!plain_event(Level::INFO, "hello").has_data());
}

#[test]
fn global_subscriber_is_initialized_once() {
    let mut global = GlobalSubscriber::new();
    assert_eq!(global.get(), None);
    let first = SubscriberProcess::new(0, 1);
    let second = SubscriberProcess::new(0, 2);
    assert_eq!(init_subscriber(&mut global, first).unwrap(), first);
    assert_eq!(global.get(), Some(first));
    let error = init_subscriber(&mut global, second).unwrap_err();
    assert_eq!(error.to_string(), "subscriber already exists");
    assert_eq!(global.get(), Some(first));
}

#[test]
fn events_go_to_the_global_subscriber_if_present() {
    let mut global = GlobalSubscriber::new();
    assert!(dispatch(&global, plain_event(Level::INFO, "lost")).is_none());
    let process = SubscriberProcess::new(0, 1);
    init_subscriber(&mut global, process).unwrap();
    match dispatch(&global, plain_event(Level::INFO, "kept")) {
        Some((to, SubscriberMessage::Event(event))) => {
            assert_eq!(to, process);
            assert_eq!(event.message(), "kept");
        }
        other => panic!("unexpected {other:?}"),
    }
}

#[test]
fn subscriber_process_filters_events_and_answers_hints() {
    let subscriber = Counting { ceiling: LevelFilter::INFO, seen: RefCell::new(Vec::new()) };
    assert_eq!(
        handle_message(&subscriber, SubscriberMessage::Event(plain_event(Level::INFO, "shown"))),
        None
    );
    assert_eq!(
        handle_message(&subscriber, SubscriberMessage::Event(plain_event(Level::DEBUG, "hidden"))),
        None
    );
    assert_eq!(*subscriber.seen.borrow(), vec!["shown".to_string()]);
    assert_eq!(
        handle_message(&subscriber, SubscriberMessage::MaxLevelHint),
        Some(Some(LevelFilter::INFO))
    );
    assert_eq!(handle_message(&Silent, SubscriberMessage::MaxLevelHint), Some(None));
    assert_eq!(
        handle_message(&Silent, SubscriberMessage::Event(plain_event(Level::ERROR, "x"))),
        None
    );
}

#[test]
fn logging_process_is_looked_up_once() {
    let process = SubscriberProcess::new(0, 9);
    let mut state = LoggingProcess::NotLookedUp;
    assert!(state.needs_lookup());
    assert_eq!(state.lookup(Some(process)), Some(process));
    assert_eq!(state, LoggingProcess::Present(process));
    assert!(!state.needs_lookup());
    assert_eq!(state.lookup(None), Some(process));

    let mut state = LoggingProcess::NotLookedUp;
    assert_eq!(state.lookup(None), None);
    assert_eq!(state, LoggingProcess::NotPresent);
    assert!(!state.needs_lookup());
    assert_eq!(state.lookup(Some(process)), None);

    let mut state = LoggingProcess::NotLookedUp;
    assert_eq!(state.init(process), process);
    assert_eq!(state.lookup(None), Some(process));
}

#[test]
fn multiple_subscribers_reach_every_child() {
    let none = MultipleSubscribers::new();
    assert!(!none.enabled(&meta(Level::ERROR)));
    assert!(none.recipients().is_empty());
    let a = SubscriberProcess::new(0, 1);
    let b = SubscriberProcess::new(0, 2);
    let both = MultipleSubscribers::new().add_subscriber(a).add_subscriber(b);
    assert!(both.enabled(&meta(Level::TRACE)));
    assert_eq!(both.recipients(), &vec![a, b]);
}

fn sample_data() -> Vec<(String, Value)> {
    vec![
        ("null".to_string(), Value::Null),
        ("bool_t".to_string(), Value::Bool(true)),
        ("bool_f".to_string(), Value::Bool(false)),
        ("number".to_string(), Value::Number("10.43".to_string())),
        ("string".to_string(), Value::Text("Hello, World!".to_string())),
        (
            "array".to_string(),
            Value::Array(vec![
                Value::Number("1".to_string()),
                Value::Number("2".to_string()),
                Value::Number("3".to_string()),
            ]),
        ),
        (
            "object".to_string(),
            Value::Object(vec![
                ("name".to_string(), Value::Text("John Doe".to_string())),
                ("age".to_string(), Value::Number("23".to_string())),
                ("tags".to_string(), Value::Array(vec![])),
            ]),
        ),
    ]
}

fn italic(name: &str) -> String {
    format!("\u{1b}[3m{name}\u{1b}[0m")
}

#[test]
fn nested_values_are_written_with_brackets_and_commas() {
    let plain = FmtSubscriber::new(LevelFilter::TRACE);
    let mut line = String::new();
    plain.write_value(&mut line, &Value::Array(vec![]));
    assert_eq!(line, "[  ]");
    let mut line = String::new();
    plain.write_value(&mut line, &Value::Object(vec![]));
    assert_eq!(line, "{  }");
    let mut line = String::from(">");
    plain.write_array(
        &mut line,
        &vec![Value::Null, Value::Array(vec![Value::Bool(true), Value::Bool(false)]), Value::Text("a".to_string())],
    );
    assert_eq!(line, ">[ null, [ true, false ], \"a\" ]");
    let mut line = String::new();
    plain.write_object(
        &mut line,
        &vec![
            ("k".to_string(), Value::Number("1".to_string())),
            ("o".to_string(), Value::Object(vec![("x".to_string(), Value::Null)])),
        ],
    );
    assert_eq!(line, "{ k: 1, o: { x: null } }");
    let coloured = FmtSubscriber::new(LevelFilter::TRACE).with_color(true);
    let mut line = String::new();
    coloured.write_value(&mut line, &Value::Array(vec![Value::Bool(true), Value::Null]));
    assert_eq!(
        line,
        "[ \u{1b}[32mtrue\u{1b}[0m, \u{1b}[38;2;135;135;135mnull\u{1b}[0m ]"
    );
}

#[test]
fn data_is_written_as_named_values() {
    let plain = FmtSubscriber::new(LevelFilter::TRACE);
    let mut line = String::new();
    plain.write_data(&mut line, &sample_data());
    let expected = format!(
        "{}=null {}=true {}=false {}=10.43 {}=\"Hello, World!\" {}=[ 1, 2, 3 ] {}={{ name: \"John Doe\", age: 23, tags: [  ] }}",
        italic("null"),
        italic("bool_t"),
        italic("bool_f"),
        italic("number"),
        italic("string"),
        italic("array"),
        italic("object"),
    );
    assert_eq!(line, expected);
    let mut line = String::from("x");
    plain.write_data(&mut line, &vec![]);
    assert_eq!(line, "x");
}

#[test]
fn whole_lines() {
    let bare = FmtSubscriber::new(LevelFilter::TRACE);
    let (line, stream) = bare.format(&plain_event(Level::INFO, "Hello, world"), "T");
    assert_eq!(line, "Hello, world");
    assert_eq!(stream, Stream::Stdout);

    let event = Event::new(
        "Additional log message.".to_string(),
        vec![("n".to_string(), Value::Number("1".to_string()))],
        meta(Level::ERROR),
    );
    let (line, stream) = bare.format(&event, "T");
    assert_eq!(line, format!("{}=1 Additional log message.", italic("n")));
    assert_eq!(stream, Stream::Stderr);

    let columns = FmtSubscriber::new(LevelFilter::TRACE).pretty().with_color(false);
    let (line, stream) = columns.format(&event, "12:00");
    assert_eq!(
        line,
        format!("12:00 ERROR app::db: src/db.rs:120: {}=1 Additional log message.", italic("n"))
    );
    assert_eq!(stream, Stream::Stderr);

    let silent = Event::new(String::new(), Vec::new(), meta(Level::DEBUG));
    let (line, stream) = columns.format(&silent, "12:00");
    assert_eq!(line, "12:00 DEBUG app::db: src/db.rs:120:");
    assert_eq!(stream, Stream::Stdout);
    let (line, _) = bare.format(&silent, "12:00");
    assert_eq!(line, "");
}

#[test]
fn subscribers_initialize_themselves_as_global() {
    let mut global = GlobalSubscriber::new();
    let first = SubscriberProcess::new(0, 1);
    let second = SubscriberProcess::new(0, 2);
    FmtSubscriber::new(LevelFilter::INFO).init(&mut global, first);
    assert_eq!(global.get(), Some(first));
    assert!(FmtSubscriber::new(LevelFilter::INFO).try_init(&mut global, second).is_err());
    assert!(MultipleSubscribers::new().try_init(&mut global, second).is_err());
    assert_eq!(global.get(), Some(first));
    let mut other = GlobalSubscriber::new();
    assert_eq!(MultipleSubscribers::new().try_init(&mut other, second).unwrap(), second);
    let mut third = GlobalSubscriber::new();
    MultipleSubscribers::new().init(&mut third, first);
    assert_eq!(third.get(), Some(first));
}

#[test]
fn lines_show_the_moment_in_the_time_format() {
    let timed = FmtSubscriber::new(LevelFilter::TRACE).with_time(true);
    let event = plain_event(Level::INFO, "up");
    let (line, stream) = timed.format_at(&event, 0, 0).unwrap();
    assert_eq!(line, "1970-01-01T00:00:00.000000Z up");
    assert_eq!(stream, Stream::Stdout);
    let (line, _) = timed.format_at(&event, 1431648000, 123456789).unwrap();
    assert_eq!(line, "2015-05-15T00:00:00.123456Z up");
    let short = FmtSubscriber::new(LevelFilter::TRACE)
        .with_time(true)
        .with_time_format("%d/%m/%Y %H:%M".to_string());
    let (line, _) = short.format_at(&event, 1491137432, 0).unwrap();
    assert_eq!(line, "02/04/2017 12:50 up");
}

#[test]
fn no_line_where_the_moment_cannot_be_written() {
    let event = plain_event(Level::INFO, "up");
    let broken = FmtSubscriber::new(LevelFilter::TRACE)
        .with_time(true)
        .with_time_format("%Q".to_string());
    assert!(broken.format_at(&event, 0, 0).is_none());
    let timed = FmtSubscriber::new(LevelFilter::TRACE).with_time(true);
    assert!(timed.format_at(&event, i64::MAX, 0).is_none());
    assert!(timed.format_at(&event, 0, 2_000_000_000).is_none());
    // a format that is never used does not matter
    let untimed = FmtSubscriber::new(LevelFilter::TRACE).with_time_format("%Q".to_string());
    let (line, _) = untimed.format_at(&event, i64::MAX, 0).unwrap();
    assert_eq!(line, "up");
}
