use vstd::prelude::*;

use crate::format::{DefaultFormatter, LogFormatter};
use crate::level::{spec_rank, Level};
use crate::record::{LogRecord, RecordView};

verus! {

/// A logging backend that programs can implement themselves: it decides
/// which levels it handles, takes records, and may flush buffered output.
pub trait Log: Send + Sync + 'static {
    /// Whether records of this level are handled.
    fn enabled(&self, level: Level) -> bool;

    /// Handles one record.
    fn log(&self, record: LogRecord);

    /// Flushes buffered output; by default there is none.
    fn flush(&self) {
    }
}

/// Whether a logger whose minimum level is `min` handles `level`: it does
/// where `level` has at least the precedence of `min`.
pub open spec fn level_enabled(min: Level, level: Level) -> bool {
    spec_rank(level) >= spec_rank(min)
}

/// A logger handles a level exactly where the level's rank (`Trace` 0 up
/// to `Error` 4) is at least the rank of the logger's minimum level; in
/// particular a logger at `Error` handles `Error` only, and one at `Warn`
/// drops `Info`, `Debug` and `Trace`.
pub proof fn lemma_enabled_by_rank(min: Level, level: Level)
    ensures
        level_enabled(min, level) <==> spec_rank(level) >= spec_rank(min),
        min == Level::Error ==> (level_enabled(min, level) <==> level == Level::Error),
        min == Level::Warn ==> (level_enabled(min, level) <==> (level == Level::Warn || level == Level::Error)),
        level_enabled(min, min),
{
}

/// One step of a logger's history appends the record exactly where the
/// record's rank is at least the minimum level's, and keeps the history
/// otherwise.
pub proof fn lemma_step_by_rank(min: Level, history: Seq<RecordView>, record: RecordView)
    ensures
        step(min, history, record) == if spec_rank(record.level) >= spec_rank(min) {
            history.push(record)
        } else {
            history
        },
{
}

/// Raising a message's level never turns it from handled to dropped.
pub proof fn lemma_enabled_monotone(min: Level, low: Level, high: Level)
    requires
        spec_rank(low) <= spec_rank(high),
        level_enabled(min, low),
    ensures
        level_enabled(min, high),
{
}

/// Every logger handles `Error`, and a logger at `Trace` handles every level.
pub proof fn lemma_enabled_extremes(min: Level, level: Level)
    ensures
        level_enabled(min, Level::Error),
        level_enabled(Level::Trace, level),
{
}

/// The records of a sequence that a logger at minimum level `min` keeps,
/// in their order.
pub open spec fn kept(min: Level, records: Seq<RecordView>) -> Seq<RecordView> {
    records.filter(|r: RecordView| level_enabled(min, r.level))
}

/// Logging one more record extends what is kept exactly as `Logger::log`
/// extends its history, so a logger that started empty and was given a
/// sequence of records holds exactly the enabled ones, in order.
pub proof fn lemma_kept_push(min: Level, records: Seq<RecordView>, record: RecordView)
    ensures
        kept(min, records.push(record)) == if level_enabled(min, record.level) {
            kept(min, records).push(record)
        } else {
            kept(min, records)
        },
        kept(min, Seq::<RecordView>::empty()) == Seq::<RecordView>::empty(),
{
    reveal_with_fuel(Seq::filter, 1);
    assert(records.push(record).drop_last() =~= records);
    assert(Seq::<RecordView>::empty().filter(|r: RecordView| level_enabled(min, r.level)) =~= Seq::<RecordView>::empty());
}

/// The history of a logger at minimum level `min` after it was given one
/// more record: the record is appended where its level is enabled.
pub open spec fn step(min: Level, history: Seq<RecordView>, record: RecordView) -> Seq<RecordView> {
    if level_enabled(min, record.level) {
        history.push(record)
    } else {
        history
    }
}

/// A logger keeps exactly the enabled records, in the order of the calls:
/// where `histories` are the successive histories of a logger at minimum
/// level `min` that was given `inputs` one after the other (each history
/// the `step` of the one before with the next input), the last history is
/// the first followed by the enabled inputs, in order.
pub proof fn lemma_history_over_calls(min: Level, histories: Seq<Seq<RecordView>>, inputs: Seq<RecordView>)
    requires
        histories.len() == inputs.len() + 1,
        forall|i: int| 0 <= i < inputs.len() ==> #[trigger] histories[i + 1] == step(min, histories[i], inputs[i]),
    ensures
        histories.last() == histories[0] + kept(min, inputs),
    decreases inputs.len(),
{
    if inputs.len() == 0 {
        reveal_with_fuel(Seq::filter, 1);
        assert(inputs =~= Seq::<RecordView>::empty());
        assert(kept(min, inputs) =~= Seq::<RecordView>::empty());
        assert(histories[0] + kept(min, inputs) =~= histories[0]);
    } else {
        let n = inputs.len() - 1;
        let hs = histories.drop_last();
        let ins = inputs.drop_last();
        assert forall|i: int| 0 <= i < ins.len() implies #[trigger] hs[i + 1] == step(min, hs[i], ins[i]) by {
            assert(histories[i + 1] == step(min, histories[i], inputs[i]));
        }
        lemma_history_over_calls(min, hs, ins);
        assert(histories[n + 1] == step(min, histories[n], inputs[n]));
        assert(inputs =~= ins.push(inputs[n]));
        lemma_kept_push(min, ins, inputs[n]);
        if level_enabled(min, inputs[n].level) {
            assert(histories.last() =~= histories[0] + kept(min, inputs));
        } else {
            assert(histories.last() =~= histories[0] + kept(min, inputs));
        }
    }
}

/// What a logger hands to its sinks for one record: the formatted line,
/// whether to print it to standard output and whether to write it to the
/// logger's file.
pub struct LogOutput {
    pub line: String,
    pub to_stdout: bool,
    pub to_file: bool,
}

/// The state and decisions of the main logger: a minimum level, a
/// formatter, every record it accepted, and where its lines go. Printing
/// and writing the lines it hands out is the caller's part.
pub struct Logger<F> {
    /// The minimum level that is recorded.
    pub min_level: Level,
    /// The formatter of the lines.
    pub formatter: F,
    /// Every record accepted so far, oldest first.
    pub records: Vec<LogRecord>,
    /// Whether lines are also written to a file that the caller opened.
    pub file: bool,
    /// Whether lines are printed to standard output.
    pub print_to_stdout: bool,
}

/// The records of a sequence, as views.
pub open spec fn record_views(records: Seq<LogRecord>) -> Seq<RecordView> {
    records.map_values(|r: LogRecord| r@)
}

impl<F> Logger<F> {
    /// Whether lines are written to a file.
    pub open spec fn writes_to_file(self) -> bool {
        self.file
    }

    /// Whether lines are printed to standard output.
    pub open spec fn prints_to_stdout(self) -> bool {
        self.print_to_stdout
    }

    /// The accepted records, as views.
    pub open spec fn history(self) -> Seq<RecordView> {
        record_views(self.records@)
    }

    /// The minimum level.
    pub open spec fn spec_min_level(self) -> Level {
        self.min_level
    }

    /// The formatter.
    pub open spec fn spec_formatter(self) -> F {
        self.formatter
    }

    /// A logger at a minimum level with a formatter, no records, printing
    /// to standard output and writing no file.
    pub fn with_formatter(min_level: Level, formatter: F) -> (r: Logger<F>)
        ensures
            r.spec_min_level() == min_level,
            r.spec_formatter() == formatter,
            r.history().len() == 0,
            r.prints_to_stdout(),
            !r.writes_to_file(),
    {
        Logger { min_level, formatter, records: Vec::new(), file: false, print_to_stdout: true }
    }

    /// Replaces the formatter.
    pub fn set_formatter(&mut self, new_fmt: F)
        ensures
            final(self).spec_formatter() == new_fmt,
            final(self).spec_min_level() == old(self).spec_min_level(),
            final(self).history() == old(self).history(),
            final(self).prints_to_stdout() == old(self).prints_to_stdout(),
            final(self).writes_to_file() == old(self).writes_to_file(),
    {
        self.formatter = new_fmt;
    }

    /// This logger, also writing its lines to a file that the caller opened.
    pub fn file(self) -> (r: Logger<F>)
        ensures
            r.writes_to_file(),
            r.spec_min_level() == self.spec_min_level(),
            r.spec_formatter() == self.spec_formatter(),
            r.history() == self.history(),
            r.prints_to_stdout() == self.prints_to_stdout(),
    {
        let mut r = self;
        r.file = true;
        r
    }

    /// The minimum level.
    pub fn level(&self) -> (r: Level)
        ensures
            r == self.spec_min_level(),
    {
        self.min_level
    }

    /// This logger, no longer printing to standard output.
    pub fn no_stdout(self) -> (r: Logger<F>)
        ensures
            !r.prints_to_stdout(),
            r.spec_min_level() == self.spec_min_level(),
            r.spec_formatter() == self.spec_formatter(),
            r.history() == self.history(),
            r.writes_to_file() == self.writes_to_file(),
    {
        let mut r = self;
        r.print_to_stdout = false;
        r
    }

    /// This logger, printing to standard output again.
    pub fn with_stdout(self) -> (r: Logger<F>)
        ensures
            r.prints_to_stdout(),
            r.spec_min_level() == self.spec_min_level(),
            r.spec_formatter() == self.spec_formatter(),
            r.history() == self.history(),
            r.writes_to_file() == self.writes_to_file(),
    {
        let mut r = self;
        r.print_to_stdout = true;
        r
    }

    /// A copy of every accepted record, oldest first.
    pub fn get_records(&self) -> (r: Vec<LogRecord>)
        ensures
            record_views(r@) == self.history(),
    {
        let n = self.records.len();
        let mut out: Vec<LogRecord> = Vec::new();
        let mut i: usize = 0;
        while i < n
            invariant
                n == self.records.len(),
                i <= n,
                out@.len() == i,
                forall|j: int| 0 <= j < i ==> #[trigger] out@[j]@ == self.records@[j]@,
            decreases n - i,
        {
            out.push(self.records[i].clone());
            i = i + 1;
        }
        assert(record_views(out@) =~= self.history());
        out
    }

    /// Forgets every accepted record.
    pub fn clear_records(&mut self)
        ensures
            final(self).history().len() == 0,
            final(self).spec_min_level() == old(self).spec_min_level(),
            final(self).spec_formatter() == old(self).spec_formatter(),
            final(self).prints_to_stdout() == old(self).prints_to_stdout(),
            final(self).writes_to_file() == old(self).writes_to_file(),
    {
        self.records = Vec::new();
    }

    /// Whether records of a level are accepted.
    pub fn enabled(&self, level: Level) -> (r: bool)
        ensures
            r == level_enabled(self.spec_min_level(), level),
            r <==> spec_rank(level) >= spec_rank(self.spec_min_level()),
    {
        level.rank() >= self.min_level.rank()
    }

    /// Whether there is a file to flush.
    pub fn flush(&self) -> (r: bool)
        ensures
            r == self.writes_to_file(),
    {
        self.file
    }

    /// Takes a record whose line is already formatted: where its level is
    /// enabled, keeps the record and returns the line with where it goes;
    /// otherwise changes nothing and returns `None`.
    pub fn log_formatted(&mut self, record: LogRecord, line: String) -> (r: Option<LogOutput>)
        ensures
            r is Some <==> level_enabled(old(self).spec_min_level(), record.level),
            r is Some <==> spec_rank(record.level) >= spec_rank(old(self).spec_min_level()),
            final(self).history() == if spec_rank(record.level) >= spec_rank(old(self).spec_min_level()) {
                old(self).history().push(record@)
            } else {
                old(self).history()
            },
            r matches Some(out) ==> {
                &&& out.line == line
                &&& out.to_stdout == old(self).prints_to_stdout()
                &&& out.to_file == old(self).writes_to_file()
            },
            final(self).history() == step(old(self).spec_min_level(), old(self).history(), record@),
            final(self).spec_min_level() == old(self).spec_min_level(),
            final(self).spec_formatter() == old(self).spec_formatter(),
            final(self).prints_to_stdout() == old(self).prints_to_stdout(),
            final(self).writes_to_file() == old(self).writes_to_file(),
    {
        if !self.enabled(record.level) {
            return None;
        }
        let ghost before = self.records@;
        self.records.push(record);
        assert(record_views(self.records@) =~= record_views(before).push(self.records@.last()@));
        Some(LogOutput { line, to_stdout: self.print_to_stdout, to_file: self.file })
    }
}

impl<F: LogFormatter> Logger<F> {
    /// Takes a record: where its level is enabled, formats it, keeps it and
    /// returns the line with where it goes; otherwise changes nothing and
    /// returns `None`. The line is whatever the formatter makes of the record.
    pub fn log(&mut self, record: LogRecord) -> (r: Option<LogOutput>)
        ensures
            r is Some <==> level_enabled(old(self).spec_min_level(), record.level),
            r is Some <==> spec_rank(record.level) >= spec_rank(old(self).spec_min_level()),
            final(self).history() == if spec_rank(record.level) >= spec_rank(old(self).spec_min_level()) {
                old(self).history().push(record@)
            } else {
                old(self).history()
            },
            r matches Some(out) ==> {
                &&& call_ensures(F::format, (&old(self).spec_formatter(), &record), out.line)
                &&& out.to_stdout == old(self).prints_to_stdout()
                &&& out.to_file == old(self).writes_to_file()
            },
            final(self).history() == step(old(self).spec_min_level(), old(self).history(), record@),
            final(self).spec_min_level() == old(self).spec_min_level(),
            final(self).spec_formatter() == old(self).spec_formatter(),
            final(self).prints_to_stdout() == old(self).prints_to_stdout(),
            final(self).writes_to_file() == old(self).writes_to_file(),
    {
        if !self.enabled(record.level) {
            return None;
        }
        let line = self.formatter.format(&record);
        self.log_formatted(record, line)
    }
}

impl Logger<DefaultFormatter> {
    /// A logger at a minimum level with the default formatter, no records,
    /// printing to standard output and writing no file.
    pub fn new(min_level: Level) -> (r: Logger<DefaultFormatter>)
        ensures
            r.spec_min_level() == min_level,
            r.history().len() == 0,
            r.prints_to_stdout(),
            !r.writes_to_file(),
    {
        Logger::with_formatter(min_level, DefaultFormatter)
    }
}

} // verus!
