//! A small logging library: severity levels, log records with metadata,
//! text formatters, the state and decisions of a logger, and a slot for a
//! shared logger with a fallback.
//!
//! Printing lines, writing files and sharing loggers between threads are
//! left to the caller: a logger hands out each line with where it goes.

pub mod format;
pub mod global;
pub mod level;
pub mod logger;
pub mod record;
pub mod text;
pub mod timestamp;

pub use format::{CompactFormatter, DefaultFormatter, JsonFormatter, LogFormatter};
pub use global::{clear_logger, flush, get_logger, set_logger, ActiveLogger, GlobalLogger};
pub use level::Level;
pub use logger::{Log, LogOutput, Logger};
pub use record::{LogBuilder, LogRecord, Metadata, RecordView};
pub use timestamp::Timestamp;
