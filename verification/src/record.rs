use vstd::prelude::*;

use crate::level::Level;
use crate::timestamp::Timestamp;

verus! {

/// The text of an optional string.
pub open spec fn opt_text(s: Option<String>) -> Option<Seq<char>> {
    match s {
        Some(t) => Some(t@),
        None => None,
    }
}

/// Arbitrary key-value data attached to a record. Each key occurs once;
/// inserting an existing key replaces its value.
pub struct Metadata {
    entries: Vec<(String, String)>,
}

impl Metadata {
    /// The entries as text, in insertion order of their keys.
    pub closed spec fn pairs(self) -> Seq<(Seq<char>, Seq<char>)> {
        self.entries@.map_values(|e: (String, String)| (e.0@, e.1@))
    }

    #[verifier::type_invariant]
    closed spec fn keys_unique(self) -> bool {
        forall|i: int, j: int|
            0 <= i < j < self.entries@.len() ==> #[trigger] self.entries@[i].0@
                != #[trigger] self.entries@[j].0@
    }

    closed spec fn holds_key(self, key: Seq<char>) -> bool {
        exists|i: int| 0 <= i < self.entries@.len() && #[trigger] self.entries@[i].0@ == key
    }

    closed spec fn value_of(self, key: Seq<char>) -> Seq<char> {
        self.entries@[choose|i: int| 0 <= i < self.entries@.len() && #[trigger] self.entries@[i].0@ == key].1@
    }

    /// The metadata as a map from keys to values.
    pub closed spec fn as_map(self) -> Map<Seq<char>, Seq<char>> {
        Map::new(|k: Seq<char>| self.holds_key(k), |k: Seq<char>| self.value_of(k))
    }

    /// No metadata.
    pub fn new() -> (r: Metadata)
        ensures
            r@ == Map::<Seq<char>, Seq<char>>::empty(),
    {
        let r = Metadata { entries: Vec::new() };
        assert(r.as_map() =~= Map::<Seq<char>, Seq<char>>::empty());
        r
    }

    /// Sets the value of a key, replacing the value it had.
    pub fn insert(&mut self, key: String, value: String)
        ensures
            final(self)@ == old(self)@.insert(key@, value@),
    {
        proof {
            use_type_invariant(&*self);
        }
        let ghost before = *self;
        let ghost k = key@;
        let ghost v = value@;
        let mut entries: Vec<(String, String)> = Vec::new();
        std::mem::swap(&mut entries, &mut self.entries);
        let n = entries.len();
        let mut i: usize = 0;
        let mut found = false;
        while i < n
            invariant_except_break
                !found,
                forall|j: int| 0 <= j < i ==> entries@[j].0@ != k,
            invariant
                k == key@,
                n == entries.len(),
                entries@ == before.entries@,
                i <= n,
            ensures
                entries@ == before.entries@,
                found ==> i < n && entries@[i as int].0@ == k,
                !found ==> forall|j: int| 0 <= j < n ==> entries@[j].0@ != k,
            decreases n - i,
        {
            if entries[i].0 == key {
                found = true;
                break;
            }
            i = i + 1;
        }
        if found {
            entries.set(i, (key, value));
        } else {
            entries.push((key, value));
        }
        let ghost at: int = if found { i as int } else { n as int };
        let ghost after = Metadata { entries };
        proof {
            assert(after.entries@.len() == if found { n as int } else { n + 1 });
            assert(after.entries@[at].0@ == k && after.entries@[at].1@ == v);
            assert forall|w: int| 0 <= w < after.entries@.len() && w != at implies
                #[trigger] after.entries@[w] == before.entries@[w] by {}
            assert forall|a: int, b: int|
                0 <= a < b < after.entries@.len() implies #[trigger] after.entries@[a].0@
                != #[trigger] after.entries@[b].0@ by {
                if a != at && b != at {
                    assert(before.entries@[a].0@ != before.entries@[b].0@);
                } else if a == at {
                    assert(after.entries@[b] == before.entries@[b]);
                } else {
                    assert(after.entries@[a] == before.entries@[a]);
                }
            }
            assert forall|q: Seq<char>| #[trigger] after.holds_key(q) == before.as_map().insert(k, v).dom().contains(q) by {
                if before.holds_key(q) {
                    let w = choose|w: int| 0 <= w < before.entries@.len() && #[trigger] before.entries@[w].0@ == q;
                    if w != at {
                        assert(after.entries@[w].0@ == q);
                    } else {
                        assert(after.entries@[at].0@ == q);
                    }
                }
                if q == k {
                    assert(after.entries@[at].0@ == q);
                }
                if after.holds_key(q) {
                    let w = choose|w: int| 0 <= w < after.entries@.len() && #[trigger] after.entries@[w].0@ == q;
                    if w != at {
                        assert(before.entries@[w].0@ == q);
                    }
                }
            }
            assert forall|q: Seq<char>| #[trigger] after.holds_key(q) implies after.value_of(q) == before.as_map().insert(k, v)[q] by {
                let w = choose|w: int| 0 <= w < after.entries@.len() && #[trigger] after.entries@[w].0@ == q;
                if q == k {
                    assert(w == at);
                } else {
                    assert(w != at);
                    assert(before.entries@[w].0@ == q);
                    let u = choose|u: int| 0 <= u < before.entries@.len() && #[trigger] before.entries@[u].0@ == q;
                    assert(u == w);
                }
            }
            assert(after.as_map() =~= before.as_map().insert(k, v));
        }
        self.entries = entries;
    }
}

impl Metadata {
    /// The value of a key, if the key is present.
    pub fn get(&self, key: &str) -> (r: Option<&String>)
        ensures
            r is Some <==> self@.dom().contains(key@),
            r matches Some(v) ==> v@ == self@[key@],
    {
        proof {
            use_type_invariant(self);
        }
        let wanted = String::from_str(key);
        let n = self.entries.len();
        let mut i: usize = 0;
        while i < n
            invariant
                self.keys_unique(),
                wanted@ == key@,
                n == self.entries.len(),
                i <= n,
                forall|j: int| 0 <= j < i ==> self.entries@[j].0@ != key@,
            decreases n - i,
        {
            if self.entries[i].0 == wanted {
                proof {
                    let u = choose|u: int| 0 <= u < self.entries@.len() && #[trigger] self.entries@[u].0@ == key@;
                    assert(self.entries@[i as int].0@ == key@);
                    if u < i {
                        assert(self.entries@[u].0@ != self.entries@[i as int].0@);
                    } else if u > i {
                        assert(self.entries@[i as int].0@ != self.entries@[u].0@);
                    }
                }
                return Some(&self.entries[i].1);
            }
            i = i + 1;
        }
        None
    }
}

impl Clone for Metadata {
    fn clone(&self) -> (r: Metadata)
        ensures
            r@ == self@,
    {
        proof {
            use_type_invariant(self);
        }
        let n = self.entries.len();
        let mut entries: Vec<(String, String)> = Vec::new();
        let mut i: usize = 0;
        while i < n
            invariant
                n == self.entries.len(),
                i <= n,
                entries@.len() == i,
                forall|j: int| 0 <= j < i ==> #[trigger] entries@[j] == self.entries@[j],
            decreases n - i,
        {
            let key = self.entries[i].0.clone();
            let value = self.entries[i].1.clone();
            entries.push((key, value));
            i = i + 1;
        }
        proof {
            assert(entries@ =~= self.entries@);
        }
        Metadata { entries }
    }
}

impl View for Metadata {
    type V = Map<Seq<char>, Seq<char>>;

    open spec fn view(&self) -> Map<Seq<char>, Seq<char>> {
        self.as_map()
    }
}

/// What a log record holds, as text and plain values.
pub struct RecordView {
    pub msg: Seq<char>,
    pub level: Level,
    pub target: Option<Seq<char>>,
    pub timestamp: Timestamp,
    pub file: Option<Seq<char>>,
    pub line: Option<u32>,
    pub metadata: Map<Seq<char>, Seq<char>>,
}

impl RecordView {
    /// A record with a level, a message and a time, and nothing else.
    pub open spec fn fresh(level: Level, msg: Seq<char>, timestamp: Timestamp) -> RecordView {
        RecordView {
            msg,
            level,
            target: None,
            timestamp,
            file: None,
            line: None,
            metadata: Map::empty(),
        }
    }

    /// This record at another level.
    pub open spec fn at_level(self, level: Level) -> RecordView {
        RecordView { level, ..self }
    }

    /// This record with a target.
    pub open spec fn targeted(self, target: Seq<char>) -> RecordView {
        RecordView { target: Some(target), ..self }
    }

    /// This record with a source file and line.
    pub open spec fn located(self, file: Seq<char>, line: u32) -> RecordView {
        RecordView { file: Some(file), line: Some(line), ..self }
    }

    /// This record with one more (or one replaced) metadata entry.
    pub open spec fn annotated(self, key: Seq<char>, value: Seq<char>) -> RecordView {
        RecordView { metadata: self.metadata.insert(key, value), ..self }
    }
}

/// Each step of building a record changes only its own fields: setting the
/// level changes only the level, setting the target only the target,
/// setting the location only the file and line, and setting a metadata
/// entry only that entry; every other part of the record stays as it was.
pub proof fn lemma_steps_change_only_their_fields(r: RecordView, level: Level, target: Seq<char>, file: Seq<char>, line: u32, key: Seq<char>, value: Seq<char>)
    ensures
        ({
            let s = r.at_level(level);
            &&& s.level == level
            &&& s.msg == r.msg && s.target == r.target && s.timestamp == r.timestamp
            &&& s.file == r.file && s.line == r.line && s.metadata == r.metadata
        }),
        ({
            let s = r.targeted(target);
            &&& s.target == Some(target)
            &&& s.msg == r.msg && s.level == r.level && s.timestamp == r.timestamp
            &&& s.file == r.file && s.line == r.line && s.metadata == r.metadata
        }),
        ({
            let s = r.located(file, line);
            &&& s.file == Some(file) && s.line == Some(line)
            &&& s.msg == r.msg && s.level == r.level && s.target == r.target
            &&& s.timestamp == r.timestamp && s.metadata == r.metadata
        }),
        ({
            let s = r.annotated(key, value);
            &&& s.metadata.contains_key(key) && s.metadata[key] == value
            &&& s.metadata.dom() == r.metadata.dom().insert(key)
            &&& forall|k: Seq<char>| k != key && r.metadata.contains_key(k) ==> #[trigger] s.metadata[k] == r.metadata[k]
            &&& s.msg == r.msg && s.level == r.level && s.target == r.target
            &&& s.timestamp == r.timestamp && s.file == r.file && s.line == r.line
        }),
        ({
            let s = RecordView::fresh(level, r.msg, r.timestamp);
            &&& s.level == level && s.msg == r.msg && s.timestamp == r.timestamp
            &&& s.target is None && s.file is None && s.line is None
            &&& s.metadata.dom().is_empty()
        }),
{
    assert(r.annotated(key, value).metadata.dom() =~= r.metadata.dom().insert(key));
    assert(RecordView::fresh(level, r.msg, r.timestamp).metadata.dom() =~= Set::<Seq<char>>::empty());
}

/// Reading a metadata key gives back the value last written to it, and
/// writing one key leaves every other key as it was.
pub proof fn lemma_metadata_read_write(r: RecordView, key: Seq<char>, value: Seq<char>, other: Seq<char>, later: Seq<char>)
    ensures
        r.annotated(key, value).metadata.contains_key(key),
        r.annotated(key, value).metadata[key] == value,
        other != key ==> r.annotated(key, value).metadata.contains_key(other) == r.metadata.contains_key(other),
        other != key && r.metadata.contains_key(other) ==> r.annotated(key, value).metadata[other] == r.metadata[other],
        r.annotated(key, value).annotated(key, later) == r.annotated(key, later),
{
    assert(r.annotated(key, value).annotated(key, later).metadata =~= r.annotated(key, later).metadata);
}

/// Building a record with `LogBuilder` (which starts at `Level::Info`) and
/// then setting its level, target and location gives the same record as
/// making it at that level with `LogRecord::new` and setting the target and
/// location; setting target and location commutes.
pub proof fn lemma_builder_matches_record(level: Level, msg: Seq<char>, timestamp: Timestamp, target: Seq<char>, file: Seq<char>, line: u32)
    ensures
        RecordView::fresh(Level::Info, msg, timestamp).at_level(level).targeted(target).located(file, line)
            == RecordView::fresh(level, msg, timestamp).targeted(target).located(file, line),
        RecordView::fresh(level, msg, timestamp).targeted(target).located(file, line)
            == RecordView::fresh(level, msg, timestamp).located(file, line).targeted(target),
{
}

/// A log entry: message, level, optional target, time, optional source
/// location and key-value metadata.
pub struct LogRecord {
    /// The message.
    pub msg: String,
    /// The level of the message.
    pub level: Level,
    /// An optional name of the part of the program that logs.
    pub target: Option<String>,
    /// When the record was made.
    pub timestamp: Timestamp,
    /// The source file the message came from, if known.
    pub file: Option<String>,
    /// The source line the message came from, if known.
    pub line: Option<u32>,
    /// Arbitrary key-value data.
    pub metadata: Metadata,
}

impl View for LogRecord {
    type V = RecordView;

    open spec fn view(&self) -> RecordView {
        RecordView {
            msg: self.msg@,
            level: self.level,
            target: opt_text(self.target),
            timestamp: self.timestamp,
            file: opt_text(self.file),
            line: self.line,
            metadata: self.metadata@,
        }
    }
}

fn clone_opt(s: &Option<String>) -> (r: Option<String>)
    ensures
        opt_text(r) == opt_text(*s),
{
    match s {
        Some(t) => Some(t.clone()),
        None => None,
    }
}

impl Clone for LogRecord {
    fn clone(&self) -> (r: LogRecord)
        ensures
            r@ == self@,
    {
        LogRecord {
            msg: self.msg.clone(),
            level: self.level,
            target: clone_opt(&self.target),
            timestamp: self.timestamp,
            file: clone_opt(&self.file),
            line: self.line,
            metadata: self.metadata.clone(),
        }
    }
}

impl LogRecord {
    /// A record of a message at a level, stamped with the current time.
    pub fn new(level: Level, msg: &str) -> (r: LogRecord)
        ensures
            r@ == RecordView::fresh(level, msg@, r@.timestamp),
            r@.level == level && r@.msg == msg@,
            r@.target is None && r@.file is None && r@.line is None,
            r@.metadata == Map::<Seq<char>, Seq<char>>::empty(),
    {
        LogRecord::new_at(level, msg, Timestamp::now())
    }

    /// A record of a message at a level, stamped with the given time.
    pub fn new_at(level: Level, msg: &str, timestamp: Timestamp) -> (r: LogRecord)
        ensures
            r@ == RecordView::fresh(level, msg@, timestamp),
            r@.level == level && r@.msg == msg@ && r@.timestamp == timestamp,
            r@.target is None && r@.file is None && r@.line is None,
            r@.metadata == Map::<Seq<char>, Seq<char>>::empty(),
    {
        LogRecord {
            msg: String::from_str(msg),
            level,
            target: None,
            timestamp,
            file: None,
            line: None,
            metadata: Metadata::new(),
        }
    }

    /// This record with its target set.
    pub fn with_target(self, target: &str) -> (r: LogRecord)
        ensures
            r@ == self@.targeted(target@),
            r@.target == Some(target@) && r@.msg == self@.msg && r@.level == self@.level,
            r@.timestamp == self@.timestamp && r@.file == self@.file && r@.line == self@.line,
            r@.metadata == self@.metadata,
    {
        let mut r = self;
        r.target = Some(String::from_str(target));
        r
    }

    /// This record with its source file and line set.
    pub fn with_location(self, file: &str, line: u32) -> (r: LogRecord)
        ensures
            r@ == self@.located(file@, line),
            r@.file == Some(file@) && r@.line == Some(line) && r@.msg == self@.msg,
            r@.level == self@.level && r@.target == self@.target && r@.timestamp == self@.timestamp,
            r@.metadata == self@.metadata,
    {
        let mut r = self;
        r.file = Some(String::from_str(file));
        r.line = Some(line);
        r
    }

    /// This record with one metadata entry set.
    pub fn with_metadata(self, key: &str, value: &str) -> (r: LogRecord)
        ensures
            r@ == self@.annotated(key@, value@),
            r@.metadata == self@.metadata.insert(key@, value@) && r@.msg == self@.msg,
            r@.level == self@.level && r@.target == self@.target && r@.timestamp == self@.timestamp,
            r@.file == self@.file && r@.line == self@.line,
    {
        let mut r = self;
        r.metadata.insert(String::from_str(key), String::from_str(value));
        r
    }
}

/// A shorter way to build a `LogRecord`, starting at `Level::Info`.
pub struct LogBuilder {
    record: LogRecord,
}

impl View for LogBuilder {
    type V = RecordView;

    closed spec fn view(&self) -> RecordView {
        self.record@
    }
}

impl LogBuilder {
    /// A builder for a message at `Level::Info`, stamped with the current time.
    pub fn new(msg: &str) -> (r: LogBuilder)
        ensures
            r@ == RecordView::fresh(Level::Info, msg@, r@.timestamp),
            r@.level == Level::Info && r@.msg == msg@,
            r@.target is None && r@.file is None && r@.line is None,
            r@.metadata == Map::<Seq<char>, Seq<char>>::empty(),
    {
        LogBuilder { record: LogRecord::new(Level::Info, msg) }
    }

    /// Sets the level.
    pub fn level(self, level: Level) -> (r: LogBuilder)
        ensures
            r@ == self@.at_level(level),
            r@.level == level && r@.msg == self@.msg && r@.target == self@.target,
            r@.timestamp == self@.timestamp && r@.file == self@.file && r@.line == self@.line,
            r@.metadata == self@.metadata,
    {
        let mut record = self.record;
        record.level = level;
        LogBuilder { record }
    }

    /// Sets the target.
    pub fn target(self, target: &str) -> (r: LogBuilder)
        ensures
            r@ == self@.targeted(target@),
            r@.target == Some(target@) && r@.msg == self@.msg && r@.level == self@.level,
            r@.timestamp == self@.timestamp && r@.file == self@.file && r@.line == self@.line,
            r@.metadata == self@.metadata,
    {
        LogBuilder { record: self.record.with_target(target) }
    }

    /// Sets the source file and line.
    pub fn location(self, file: &str, line: u32) -> (r: LogBuilder)
        ensures
            r@ == self@.located(file@, line),
            r@.file == Some(file@) && r@.line == Some(line) && r@.msg == self@.msg,
            r@.level == self@.level && r@.target == self@.target && r@.timestamp == self@.timestamp,
            r@.metadata == self@.metadata,
    {
        LogBuilder { record: self.record.with_location(file, line) }
    }

    /// Sets one metadata entry.
    pub fn metadata(self, key: &str, value: &str) -> (r: LogBuilder)
        ensures
            r@ == self@.annotated(key@, value@),
            r@.metadata == self@.metadata.insert(key@, value@) && r@.msg == self@.msg,
            r@.level == self@.level && r@.target == self@.target && r@.timestamp == self@.timestamp,
            r@.file == self@.file && r@.line == self@.line,
    {
        LogBuilder { record: self.record.with_metadata(key, value) }
    }

    /// The record that was built.
    pub fn build(self) -> (r: LogRecord)
        ensures
            r@ == self@,
    {
        self.record
    }
}

} // verus!
