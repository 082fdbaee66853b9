use vstd::prelude::*;

use crate::level::spec_level_name;
use crate::record::{LogRecord, RecordView};
use crate::text::{decimal, escape_quotes, push_decimal, push_escaped_quotes};
use crate::timestamp::timestamp_text;

verus! {

/// Turns a record into the text that a logger prints.
pub trait LogFormatter {
    /// The strftime-style format of timestamps; `%H:%M:%S` unless a
    /// formatter chooses another.
    fn time_format(&self) -> (r: &str)
        default_ensures
            r@ == "%H:%M:%S"@,
    {
        "%H:%M:%S"
    }

    /// The text of a record.
    fn format(&self, record: &LogRecord) -> String;
}

/// The target of a record, or `app` where it has none.
pub open spec fn target_or_app(r: RecordView) -> Seq<char> {
    match r.target {
        Some(t) => t,
        None => "app"@,
    }
}

/// `file:line -> ` where the record knows both, else nothing.
pub open spec fn location_part(r: RecordView) -> Seq<char> {
    match (r.file, r.line) {
        (Some(f), Some(l)) => f + ":"@ + decimal(l as nat) + " -> "@,
        _ => Seq::empty(),
    }
}

/// `[time] [level] (target) file:line -> message`, the location part only
/// where the record has both a file and a line.
pub open spec fn default_line(r: RecordView, time: Seq<char>) -> Seq<char> {
    "["@ + time + "] ["@ + spec_level_name(r.level) + "] ("@ + target_or_app(r) + ") "@
        + location_part(r) + r.msg
}

/// `[level] message`.
pub open spec fn compact_line(r: RecordView) -> Seq<char> {
    "["@ + spec_level_name(r.level) + "] "@ + r.msg
}

/// A one-line JSON object with the time, the level, the target and the
/// message, where only the double quotes of the message are escaped.
pub open spec fn json_line(r: RecordView, time: Seq<char>) -> Seq<char> {
    "{\"timestamp\":\""@ + time + "\",\"level\":\""@ + spec_level_name(r.level)
        + "\",\"target\":\""@ + target_or_app(r) + "\",\"message\":\""@ + escape_quotes(r.msg)
        + "\" }"@
}

/// The default and compact lines end with the message; the compact line
/// does not depend on the record's time, target or location.
pub proof fn lemma_lines_end_with_message(r: RecordView, time: Seq<char>, other: RecordView)
    ensures
        default_line(r, time).subrange(default_line(r, time).len() - r.msg.len(), default_line(r, time).len() as int) == r.msg,
        compact_line(r).subrange(compact_line(r).len() - r.msg.len(), compact_line(r).len() as int) == r.msg,
        other.level == r.level && other.msg == r.msg ==> compact_line(other) == compact_line(r),
{
    let d = default_line(r, time);
    let prefix = "["@ + time + "] ["@ + spec_level_name(r.level) + "] ("@ + target_or_app(r) + ") "@ + location_part(r);
    assert(d == prefix + r.msg);
    assert(d.subrange(d.len() - r.msg.len(), d.len() as int) =~= r.msg);
    let c = compact_line(r);
    let cp = "["@ + spec_level_name(r.level) + "] "@;
    assert(c == cp + r.msg);
    assert(c.subrange(c.len() - r.msg.len(), c.len() as int) =~= r.msg);
}

/// Whether `s` ends with `suffix`.
pub open spec fn ends_with(s: Seq<char>, suffix: Seq<char>) -> bool {
    s.len() >= suffix.len() && s.subrange(s.len() - suffix.len(), s.len() as int) == suffix
}

/// Whether `s` starts with `prefix`.
pub open spec fn starts_with(s: Seq<char>, prefix: Seq<char>) -> bool {
    s.len() >= prefix.len() && s.subrange(0, prefix.len() as int) == prefix
}

/// The JSON line starts with the time field and ends with the message
/// field, whose text is the message with every double quote escaped, for
/// every record, with or without a target.
pub proof fn lemma_json_fields(r: RecordView, time: Seq<char>)
    ensures
        starts_with(json_line(r, time), "{\"timestamp\":\""@ + time + "\",\"level\":\""@ + spec_level_name(r.level)),
        ends_with(json_line(r, time), "\",\"message\":\""@ + escape_quotes(r.msg) + "\" }"@),
{
    let j = json_line(r, time);
    let head = "{\"timestamp\":\""@ + time + "\",\"level\":\""@ + spec_level_name(r.level);
    let mid = "\",\"target\":\""@ + target_or_app(r);
    let tail = "\",\"message\":\""@ + escape_quotes(r.msg) + "\" }"@;
    assert(j =~= head + mid + tail);
    assert(j.subrange(0, head.len() as int) =~= head);
    assert(j.subrange(j.len() - tail.len(), j.len() as int) =~= tail);
}

/// The default line starts with the time, the level and the target (or
/// `app`), and ends with `file:line -> message` where the record has both a
/// file and a line, and with `) message` otherwise.
pub proof fn lemma_default_fields(r: RecordView, time: Seq<char>)
    ensures
        starts_with(default_line(r, time), "["@ + time + "] ["@ + spec_level_name(r.level) + "] ("@
            + match r.target { Some(t) => t, None => "app"@ } + ") "@),
        r.file is Some && r.line is Some ==> ends_with(default_line(r, time),
            r.file->0 + ":"@ + decimal(r.line->0 as nat) + " -> "@ + r.msg),
        !(r.file is Some && r.line is Some) ==> default_line(r, time) == "["@ + time + "] ["@
            + spec_level_name(r.level) + "] ("@ + match r.target { Some(t) => t, None => "app"@ } + ") "@ + r.msg,
        compact_line(r) == "["@ + spec_level_name(r.level) + "] "@ + r.msg,
{
    let d = default_line(r, time);
    let head = "["@ + time + "] ["@ + spec_level_name(r.level) + "] ("@ + match r.target { Some(t) => t, None => "app"@ } + ") "@;
    assert(d =~= head + location_part(r) + r.msg);
    assert(d.subrange(0, head.len() as int) =~= head);
    if r.file is Some && r.line is Some {
        let tail = r.file->0 + ":"@ + decimal(r.line->0 as nat) + " -> "@ + r.msg;
        assert(d =~= head + tail);
        assert(d.subrange(d.len() - tail.len(), d.len() as int) =~= tail);
    } else {
        assert(d =~= head + r.msg);
    }
}

/// The text of a record's timestamp in a format.
pub open spec fn record_time(r: RecordView, format: Seq<char>) -> Option<Seq<char>> {
    timestamp_text(r.timestamp.spec_secs(), r.timestamp.spec_nanos(), r.timestamp.spec_offset(), format)
}

fn push_target(out: &mut String, record: &LogRecord)
    ensures
        final(out)@ == old(out)@ + target_or_app(record@),
{
    match &record.target {
        Some(t) => out.append(t.as_str()),
        None => out.append("app"),
    }
}

/// Timestamp, level, target, source location and message.
#[derive(Debug, Clone, Copy)]
pub struct DefaultFormatter;

impl DefaultFormatter {
    /// The line of a record whose timestamp reads `time`.
    pub fn format_with_time(&self, record: &LogRecord, time: &str) -> (r: String)
        ensures
            r@ == default_line(record@, time@),
    {
        let mut out = String::from_str("[");
        out.append(time);
        out.append("] [");
        out.append(record.level.name());
        out.append("] (");
        push_target(&mut out, record);
        out.append(") ");
        let ghost before_location = out@;
        match (&record.file, record.line) {
            (Some(f), Some(l)) => {
                out.append(f.as_str());
                out.append(":");
                push_decimal(&mut out, l);
                out.append(" -> ");
            },
            _ => {},
        }
        assert(out@ =~= before_location + location_part(record@));
        out.append(record.msg.as_str());
        assert(out@ =~= default_line(record@, time@));
        out
    }
}

impl LogFormatter for DefaultFormatter {
    fn time_format(&self) -> (r: &str)
        ensures
            r@ == "%H:%M:%S"@,
    {
        "%H:%M:%S"
    }

    fn format(&self, record: &LogRecord) -> (r: String)
        ensures
            record_time(record@, "%H:%M:%S"@) is Some,
            r@ == default_line(record@, record_time(record@, "%H:%M:%S"@).unwrap()),
    {
        let time = record.timestamp.format(self.time_format()).unwrap();
        self.format_with_time(record, time.as_str())
    }
}

/// Level and message only.
#[derive(Debug, Clone, Copy)]
pub struct CompactFormatter;

impl LogFormatter for CompactFormatter {
    fn format(&self, record: &LogRecord) -> (r: String)
        ensures
            r@ == compact_line(record@),
    {
        let mut out = String::from_str("[");
        out.append(record.level.name());
        out.append("] ");
        out.append(record.msg.as_str());
        assert(out@ =~= compact_line(record@));
        out
    }
}

/// A one-line JSON object. Only double quotes in the message are escaped,
/// so it is not JSON for every message.
#[derive(Debug, Clone, Copy)]
pub struct JsonFormatter;

impl JsonFormatter {
    /// The JSON line of a record whose timestamp reads `time`.
    pub fn format_with_time(&self, record: &LogRecord, time: &str) -> (r: String)
        ensures
            r@ == json_line(record@, time@),
    {
        let mut out = String::from_str("{\"timestamp\":\"");
        out.append(time);
        out.append("\",\"level\":\"");
        out.append(record.level.name());
        out.append("\",\"target\":\"");
        push_target(&mut out, record);
        out.append("\",\"message\":\"");
        push_escaped_quotes(&mut out, record.msg.as_str());
        out.append("\" }");
        assert(out@ =~= json_line(record@, time@));
        out
    }
}

impl LogFormatter for JsonFormatter {
    fn format(&self, record: &LogRecord) -> (r: String)
        ensures
            record_time(record@, "%Y-%m-%d %H:%M:%S"@) is Some,
            r@ == json_line(record@, record_time(record@, "%Y-%m-%d %H:%M:%S"@).unwrap()),
    {
        let time = record.timestamp.format("%Y-%m-%d %H:%M:%S").unwrap();
        self.format_with_time(record, time.as_str())
    }
}

} // verus!
