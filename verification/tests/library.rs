use luhlog::global::ActiveLogger;
use luhlog::timestamp::{MAX_UNIX_SECS, MIN_UNIX_SECS};
use luhlog::{
    flush, get_logger, set_logger, CompactFormatter, DefaultFormatter, GlobalLogger,
    JsonFormatter, Level, Log, LogBuilder, LogFormatter, LogRecord, Logger, Metadata, Timestamp,
};

fn at(secs: i64, nanos: u32, offset: i32) -> Timestamp {
    Timestamp::from_parts(secs, nanos, offset).unwrap()
}

#[test]
fn level_names_and_ranks() {
    let all = [Level::Trace, Level::Debug, Level::Info, Level::Warn, Level::Error];
    let names = ["trace", "debug", "info", "warn", "error"];
    for (i, level) in all.iter().enumerate() {
        assert_eq!(level.name(), names[i]);
        assert_eq!(level.to_string(), names[i]);
        assert_eq!(level.rank() as usize, i);
    }
    assert!(Level::Trace < Level::Debug && Level::Warn < Level::Error);
}

#[test]
fn enabled_follows_precedence() {
    let logger = Logger::new(Level::Warn);
    assert!(!logger.enabled(Level::Trace));
    assert!(!logger.enabled(Level::Info));
    assert!(logger.enabled(Level::Warn));
    assert!(logger.enabled(Level::Error));
    let all = Logger::new(Level::Trace);
    assert!(all.enabled(Level::Trace));
    assert_eq!(logger.level(), Level::Warn);
}

#[test]
fn timestamp_bounds() {
    assert!(Timestamp::from_parts(MIN_UNIX_SECS, 0, 0).is_some());
    assert!(Timestamp::from_parts(MIN_UNIX_SECS - 1, 0, 0).is_none());
    assert!(Timestamp::from_parts(MAX_UNIX_SECS, 999_999_999, 0).is_some());
    assert!(Timestamp::from_parts(MAX_UNIX_SECS + 1, 0, 0).is_none());
    assert!(Timestamp::from_parts(0, 2_000_000_000, 0).is_none());
    assert!(Timestamp::from_parts(59, 1_500_000_000, 0).is_some());
    assert!(Timestamp::from_parts(58, 1_500_000_000, 0).is_none());
    assert!(Timestamp::from_parts(-1, 1_000_000_000, 0).is_some());
    assert!(Timestamp::from_parts(0, 0, 86_399).is_some());
    assert!(Timestamp::from_parts(0, 0, 86_400).is_none());
    assert!(Timestamp::from_parts(0, 0, -86_400).is_none());
    let t = at(12, 34, -60);
    assert_eq!((t.secs(), t.nanos(), t.offset_secs()), (12, 34, -60));
}

#[test]
fn timestamp_extremes_format() {
    assert_eq!(at(MIN_UNIX_SECS, 0, 0).format("%Y-%m-%d %H:%M:%S").unwrap(), "-262143-01-01 00:00:00");
    assert_eq!(at(MAX_UNIX_SECS, 0, 0).format("%Y-%m-%d %H:%M:%S").unwrap(), "+262142-12-31 23:59:59");
    assert_eq!(
        at(MAX_UNIX_SECS, 999_999_999, 86_399).format("%Y-%m-%d %H:%M:%S").unwrap(),
        "+262143-01-01 23:59:58"
    );
    assert_eq!(at(MIN_UNIX_SECS, 0, -86_399).format("%H:%M:%S").unwrap(), "00:00:01");
    assert_eq!(at(59, 1_500_000_000, 0).format("%H:%M:%S").unwrap(), "00:00:60");
}

#[test]
fn timestamp_text_through_chrono() {
    assert_eq!(at(0, 0, 0).format("%H:%M:%S").unwrap(), "00:00:00");
    assert_eq!(
        at(1_700_000_000, 0, 3600).format("%Y-%m-%d %H:%M:%S").unwrap(),
        "2023-11-14 23:13:20"
    );
    assert!(at(0, 0, 0).format("%Q").is_none());
    let now = Timestamp::now();
    assert_eq!(now.format("%H:%M:%S").unwrap().len(), 8);
}

#[test]
fn default_formatter_lines() {
    let r = LogRecord::new_at(Level::Info, "hello", at(3_723, 0, 0));
    assert_eq!(DefaultFormatter.format(&r), "[01:02:03] [info] (app) hello");
    let r = r.with_target("main").with_location("src/main.rs", 42);
    assert_eq!(DefaultFormatter.format(&r), "[01:02:03] [info] (main) src/main.rs:42 -> hello");
    assert_eq!(
        DefaultFormatter.format_with_time(&r, "T"),
        "[T] [info] (main) src/main.rs:42 -> hello"
    );
    assert_eq!(DefaultFormatter.time_format(), "%H:%M:%S");
}

#[test]
fn default_formatter_line_numbers() {
    let base = LogRecord::new_at(Level::Error, "m", at(0, 0, 0));
    let zero = base.clone().with_location("f", 0);
    assert_eq!(DefaultFormatter.format_with_time(&zero, ""), "[] [error] (app) f:0 -> m");
    let big = base.with_location("f", u32::MAX);
    assert_eq!(DefaultFormatter.format_with_time(&big, ""), "[] [error] (app) f:4294967295 -> m");
}

#[test]
fn default_formatter_needs_both_file_and_line() {
    let mut r = LogRecord::new_at(Level::Warn, "m", at(0, 0, 0));
    r.file = Some("only_file.rs".to_string());
    assert_eq!(DefaultFormatter.format_with_time(&r, "t"), "[t] [warn] (app) m");
}

#[test]
fn compact_formatter_line() {
    let r = LogRecord::new_at(Level::Debug, "msg here", at(5, 0, 0)).with_target("x");
    assert_eq!(CompactFormatter.format(&r), "[debug] msg here");
    assert_eq!(CompactFormatter.time_format(), "%H:%M:%S");
}

#[test]
fn json_formatter_escapes_quotes() {
    let r = LogRecord::new_at(Level::Warn, "say \"hi\"", at(1_700_000_000, 0, 0)).with_target("net");
    assert_eq!(
        JsonFormatter.format(&r),
        "{\"timestamp\":\"2023-11-14 22:13:20\",\"level\":\"warn\",\"target\":\"net\",\"message\":\"say \\\"hi\\\"\" }"
    );
    let plain = LogRecord::new_at(Level::Info, "a\\b", at(0, 0, 0));
    assert_eq!(
        JsonFormatter.format_with_time(&plain, "T"),
        "{\"timestamp\":\"T\",\"level\":\"info\",\"target\":\"app\",\"message\":\"a\\b\" }"
    );
}

#[test]
fn metadata_read_write() {
    let mut m = Metadata::new();
    assert!(m.get("k").is_none());
    m.insert("k".to_string(), "v1".to_string());
    m.insert("j".to_string(), "w".to_string());
    m.insert("k".to_string(), "v2".to_string());
    assert_eq!(m.get("k").unwrap(), "v2");
    assert_eq!(m.get("j").unwrap(), "w");
    assert!(m.get("z").is_none());
    let copy = m.clone();
    assert_eq!(copy.get("k").unwrap(), "v2");
}

#[test]
fn record_combinators() {
    let r = LogRecord::new(Level::Error, "boom")
        .with_target("db")
        .with_location("db.rs", 7)
        .with_metadata("user", "42")
        .with_metadata("user", "43");
    assert_eq!(r.msg, "boom");
    assert_eq!(r.level, Level::Error);
    assert_eq!(r.target.as_deref(), Some("db"));
    assert_eq!(r.file.as_deref(), Some("db.rs"));
    assert_eq!(r.line, Some(7));
    assert_eq!(r.metadata.get("user").unwrap(), "43");
}

#[test]
fn builder_defaults_and_setters() {
    let r = LogBuilder::new("built").build();
    assert_eq!(r.level, Level::Info);
    assert_eq!(r.msg, "built");
    assert!(r.target.is_none() && r.file.is_none() && r.line.is_none());
    let r = LogBuilder::new("built")
        .level(Level::Trace)
        .target("t")
        .location("a.rs", 3)
        .metadata("k", "v")
        .build();
    assert_eq!(r.level, Level::Trace);
    assert_eq!(r.target.as_deref(), Some("t"));
    assert_eq!((r.file.as_deref(), r.line), (Some("a.rs"), Some(3)));
    assert_eq!(r.metadata.get("k").unwrap(), "v");
}

#[test]
fn logger_keeps_enabled_records() {
    let mut logger = Logger::new(Level::Info);
    let t = at(0, 0, 0);
    assert!(logger.log(LogRecord::new_at(Level::Debug, "dropped", t)).is_none());
    let out = logger.log(LogRecord::new_at(Level::Warn, "kept", t)).unwrap();
    assert_eq!(out.line, "[00:00:00] [warn] (app) kept");
    assert!(out.to_stdout && !out.to_file);
    let records = logger.get_records();
    assert_eq!(records.len(), 1);
    assert_eq!(records[0].msg, "kept");
    logger.clear_records();
    assert!(logger.get_records().is_empty());
}

#[test]
fn logger_sinks() {
    let t = at(0, 0, 0);
    let mut logger = Logger::new(Level::Trace).no_stdout().file();
    assert!(logger.flush());
    let out = logger.log(LogRecord::new_at(Level::Trace, "x", t)).unwrap();
    assert!(!out.to_stdout && out.to_file);
    let mut logger = logger.with_stdout();
    let out = logger.log(LogRecord::new_at(Level::Trace, "y", t)).unwrap();
    assert!(out.to_stdout && out.to_file);
    assert!(!Logger::new(Level::Info).flush());
}

#[test]
fn logger_set_formatter_and_log_formatted() {
    let mut logger = Logger::with_formatter(Level::Info, CompactFormatter);
    logger.set_formatter(CompactFormatter);
    let t = at(0, 0, 0);
    let out = logger.log_formatted(LogRecord::new_at(Level::Info, "a", t), "given".to_string()).unwrap();
    assert_eq!(out.line, "given");
    assert!(logger.log_formatted(LogRecord::new_at(Level::Trace, "b", t), "no".to_string()).is_none());
    assert_eq!(logger.get_records().len(), 1);
}

struct Counting {
    flushed: std::sync::Mutex<u32>,
}

impl Log for Counting {
    fn enabled(&self, _level: Level) -> bool {
        true
    }

    fn log(&self, _record: LogRecord) {}

    fn flush(&self) {
        *self.flushed.lock().unwrap() += 1;
    }
}

#[test]
fn global_fallback_and_install() {
    let mut global: GlobalLogger<Counting> = GlobalLogger::new();
    match get_logger(&global) {
        ActiveLogger::Fallback(l) => {
            assert_eq!(l.level(), Level::Info);
            assert!(l.get_records().is_empty());
            assert!(!l.flush());
        }
        ActiveLogger::Installed(_) => panic!("nothing was installed"),
    }
    assert!(!flush(&global));
    set_logger(&mut global, Counting { flushed: std::sync::Mutex::new(0) });
    assert!(flush(&global));
    match get_logger(&global) {
        ActiveLogger::Installed(l) => assert_eq!(*l.flushed.lock().unwrap(), 1),
        ActiveLogger::Fallback(_) => panic!("a logger was installed"),
    }
    global.clear();
    assert!(matches!(global.get(), ActiveLogger::Fallback(_)));
}

#[test]
fn colored_level_names() {
    colored::control::set_override(true);
    assert_eq!(Level::Trace.to_colored_string(), "\x1b[32mtrace\x1b[0m");
    assert_eq!(Level::Debug.to_colored_string(), "\x1b[35mdebug\x1b[0m");
    assert_eq!(Level::Info.to_colored_string(), "\x1b[34minfo\x1b[0m");
    assert_eq!(Level::Warn.to_colored_string(), "\x1b[33mwarn\x1b[0m");
    assert_eq!(Level::Error.to_colored_string(), "\x1b[1;31merror\x1b[0m");
    colored::control::set_override(false);
    assert_eq!(Level::Error.to_colored_string(), "error");
    colored::control::unset_override();
}

#[test]
fn provided_time_format() {
    assert_eq!(JsonFormatter.time_format(), "%H:%M:%S");
}

#[test]
fn logger_history_over_calls() {
    let t = at(0, 0, 0);
    let mut logger = Logger::with_formatter(Level::Info, CompactFormatter);
    let inputs = [
        (Level::Trace, "a"),
        (Level::Error, "b"),
        (Level::Debug, "c"),
        (Level::Info, "d"),
        (Level::Warn, "e"),
    ];
    let mut lines = Vec::new();
    for (level, msg) in inputs.iter() {
        if let Some(out) = logger.log(LogRecord::new_at(*level, msg, t)) {
            lines.push(out.line);
        }
    }
    let kept: Vec<String> = logger.get_records().iter().map(|r| r.msg.clone()).collect();
    assert_eq!(kept, vec!["b", "d", "e"]);
    assert_eq!(lines, vec!["[error] b", "[info] d", "[warn] e"]);
}
