use std::sync::Mutex;

use luhlog::global::ActiveLogger;
use luhlog::{
    clear_logger, flush, get_logger, set_logger, CompactFormatter, DefaultFormatter, GlobalLogger,
    JsonFormatter, Level, Log, LogBuilder, LogFormatter, LogRecord, Logger,
};

/// A shared logger for the tests: the verified core behind a lock, with the
/// lines it hands out collected instead of printed.
struct Shared<F: LogFormatter> {
    core: Mutex<Logger<F>>,
    printed: Mutex<Vec<String>>,
    filed: Mutex<Vec<String>>,
    flushes: Mutex<usize>,
}

impl<F: LogFormatter> Shared<F> {
    fn new(core: Logger<F>) -> Self {
        Shared {
            core: Mutex::new(core),
            printed: Mutex::new(Vec::new()),
            filed: Mutex::new(Vec::new()),
            flushes: Mutex::new(0),
        }
    }

    fn printed(&self) -> Vec<String> {
        self.printed.lock().unwrap().clone()
    }

    fn kept(&self) -> Vec<LogRecord> {
        self.core.lock().unwrap().get_records()
    }
}

impl<F: LogFormatter + Send + 'static> Log for Shared<F> {
    fn enabled(&self, level: Level) -> bool {
        self.core.lock().unwrap().enabled(level)
    }

    fn log(&self, record: LogRecord) {
        if let Some(out) = self.core.lock().unwrap().log(record) {
            if out.to_stdout {
                self.printed.lock().unwrap().push(out.line.clone());
            }
            if out.to_file {
                self.filed.lock().unwrap().push(out.line);
            }
        }
    }

    fn flush(&self) {
        *self.flushes.lock().unwrap() += 1;
    }
}

/// What the logging macros of the library do: build a record at a level,
/// with a target where one is given and a source location, and hand it to
/// the global logger in use where that logger handles the level.
fn emit<L: Log>(global: &GlobalLogger<L>, level: Level, target: Option<&str>, msg: &str) {
    let mut record = LogRecord::new(level, msg);
    if let Some(t) = target {
        record = record.with_target(t);
    }
    let record = record.with_location("tests/logging.rs", 1);
    match get_logger(global) {
        ActiveLogger::Installed(logger) => {
            if logger.enabled(level) {
                logger.log(record);
            }
        }
        ActiveLogger::Fallback(mut logger) => {
            let _ = logger.log(record);
        }
    }
}

/// Hands a finished record to the global logger in use.
fn emit_record<L: Log>(global: &GlobalLogger<L>, record: LogRecord) {
    match get_logger(global) {
        ActiveLogger::Installed(logger) => {
            if logger.enabled(record.level) {
                logger.log(record);
            }
        }
        ActiveLogger::Fallback(mut logger) => {
            let _ = logger.log(record);
        }
    }
}

fn default_logger_scenario() {
    let mut global: GlobalLogger<Shared<DefaultFormatter>> = GlobalLogger::new();
    clear_logger(&mut global);
    set_logger(&mut global, Shared::new(Logger::new(Level::Trace)));
    emit_record(&global, LogRecord::new(Level::Info, "hello world"));
    emit_record(&global, LogBuilder::new("bine other").level(Level::Error).build());
    emit(&global, Level::Trace, None, "other bine");
    emit(&global, Level::Info, None, &format!("Hello {}", "world"));
    emit(&global, Level::Warn, None, &format!("Warning: {}", 42));
    emit(&global, Level::Debug, None, "This won't show");
    match get_logger(&global) {
        ActiveLogger::Installed(l) => {
            let msgs: Vec<String> = l.kept().iter().map(|r| r.msg.clone()).collect();
            assert_eq!(
                msgs,
                vec!["hello world", "bine other", "other bine", "Hello world", "Warning: 42", "This won't show"]
            );
            assert_eq!(l.printed().len(), 6);
        }
        ActiveLogger::Fallback(_) => panic!("a logger was installed"),
    }
}

#[test]
fn lib_test_default_logger() {
    default_logger_scenario();
}

#[test]
fn tests_test_default_logger() {
    default_logger_scenario();
}

fn compact_formatter_scenario() {
    let mut global: GlobalLogger<Shared<CompactFormatter>> = GlobalLogger::new();
    clear_logger(&mut global);
    let logger = Logger::with_formatter(Level::Trace, CompactFormatter);
    set_logger(&mut global, Shared::new(logger));
    emit(&global, Level::Trace, None, "Trace message");
    emit(&global, Level::Debug, None, "Debug message");
    emit(&global, Level::Info, None, "Info message");
    match get_logger(&global) {
        ActiveLogger::Installed(l) => assert_eq!(
            l.printed(),
            vec!["[trace] Trace message", "[debug] Debug message", "[info] Info message"]
        ),
        ActiveLogger::Fallback(_) => panic!("a logger was installed"),
    }
}

#[test]
fn lib_test_compact_formatter() {
    compact_formatter_scenario();
}

#[test]
fn tests_test_compact_formatter() {
    compact_formatter_scenario();
}

fn json_formatter_scenario() {
    let mut global: GlobalLogger<Shared<JsonFormatter>> = GlobalLogger::new();
    clear_logger(&mut global);
    let logger = Logger::with_formatter(Level::Info, JsonFormatter);
    set_logger(&mut global, Shared::new(logger));
    emit(&global, Level::Info, Some("my_app"), "JSON formatted log");
    emit(&global, Level::Warn, None, "Another JSON log");
    match get_logger(&global) {
        ActiveLogger::Installed(l) => {
            let lines = l.printed();
            assert_eq!(lines.len(), 2);
            assert!(lines[0].starts_with("{\"timestamp\":\""));
            assert!(lines[0].ends_with(
                "\",\"level\":\"info\",\"target\":\"my_app\",\"message\":\"JSON formatted log\" }"
            ));
            assert!(lines[1].ends_with(
                "\",\"level\":\"warn\",\"target\":\"app\",\"message\":\"Another JSON log\" }"
            ));
        }
        ActiveLogger::Fallback(_) => panic!("a logger was installed"),
    }
}

#[test]
fn lib_test_json_formatter() {
    json_formatter_scenario();
}

#[test]
fn tests_test_json_formatter() {
    json_formatter_scenario();
}

fn file_logging_scenario() {
    let mut global: GlobalLogger<Shared<DefaultFormatter>> = GlobalLogger::new();
    clear_logger(&mut global);
    let logger = Logger::new(Level::Info).file();
    set_logger(&mut global, Shared::new(logger));
    emit(&global, Level::Info, None, "Logged to file");
    emit(&global, Level::Warn, None, "Another file log");
    assert!(flush(&global));
    match get_logger(&global) {
        ActiveLogger::Installed(l) => {
            let filed = l.filed.lock().unwrap().clone();
            assert_eq!(filed.len(), 2);
            assert!(filed[0].ends_with("(app) tests/logging.rs:1 -> Logged to file"));
            assert!(filed[1].ends_with("(app) tests/logging.rs:1 -> Another file log"));
            assert_eq!(*l.flushes.lock().unwrap(), 1);
        }
        ActiveLogger::Fallback(_) => panic!("a logger was installed"),
    }
}

#[test]
fn lib_test_file_logging() {
    file_logging_scenario();
}

#[test]
fn tests_test_file_logging() {
    file_logging_scenario();
}

#[derive(Debug)]
struct MyFormatter;

impl LogFormatter for MyFormatter {
    fn format(&self, record: &LogRecord) -> String {
        format!(">>> {} <<<", record.msg)
    }
}

fn custom_formatter_scenario() {
    let mut global: GlobalLogger<Shared<MyFormatter>> = GlobalLogger::new();
    clear_logger(&mut global);
    let logger = Logger::with_formatter(Level::Info, MyFormatter);
    set_logger(&mut global, Shared::new(logger));
    emit(&global, Level::Info, None, "Custom format");
    match get_logger(&global) {
        ActiveLogger::Installed(l) => assert_eq!(l.printed(), vec![">>> Custom format <<<"]),
        ActiveLogger::Fallback(_) => panic!("a logger was installed"),
    }
}

#[test]
fn lib_test_custom_formatter() {
    custom_formatter_scenario();
}

#[test]
fn tests_test_custom_formatter() {
    custom_formatter_scenario();
}

fn no_stdout_scenario() {
    let mut global: GlobalLogger<Shared<DefaultFormatter>> = GlobalLogger::new();
    clear_logger(&mut global);
    let logger = Logger::new(Level::Info).no_stdout();
    set_logger(&mut global, Shared::new(logger));
    emit(&global, Level::Info, None, "This won't print to stdout");
    match get_logger(&global) {
        ActiveLogger::Installed(l) => {
            assert!(l.printed().is_empty());
            assert_eq!(l.kept().len(), 1);
        }
        ActiveLogger::Fallback(_) => panic!("a logger was installed"),
    }
}

#[test]
fn lib_test_no_stdout() {
    no_stdout_scenario();
}

#[test]
fn tests_test_no_stdout() {
    no_stdout_scenario();
}
