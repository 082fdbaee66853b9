use vstd::prelude::*;

verus! {

/// The earliest UNIX time (in seconds) that chrono can represent: the first
/// second of January 1 of the year -262143 (proleptic Gregorian calendar,
/// astronomical year numbering).
pub const MIN_UNIX_SECS: i64 = -8_334_601_228_800i64;

/// The latest UNIX time (in seconds) that chrono can represent: the last
/// second of December 31 of the year 262142.
pub const MAX_UNIX_SECS: i64 = 8_210_266_876_799i64;

/// Whether chrono accepts the parts of an instant: a UNIX time in seconds, a
/// sub-second part in nanoseconds (a value from one to two seconds only in
/// the last second of a minute, which is how chrono writes a leap second) and
/// an offset from UTC in seconds, less than a day in either direction.
pub open spec fn parts_accepted(secs: int, nanos: int, offset: int) -> bool {
    &&& MIN_UNIX_SECS <= secs <= MAX_UNIX_SECS
    &&& 0 <= nanos < 2_000_000_000
    &&& (nanos >= 1_000_000_000 ==> secs % 60 == 59)
    &&& -86_400 < offset < 86_400
}

/// The two time formats this library formats with. Each is made only of
/// literal characters and the specifiers `%Y`, `%m`, `%d`, `%H`, `%M` and
/// `%S`, which chrono documents.
pub open spec fn known_time_format(format: Seq<char>) -> bool {
    format == "%H:%M:%S"@ || format == "%Y-%m-%d %H:%M:%S"@
}

/// The text that chrono writes for the instant with the given parts (UNIX
/// seconds, nanoseconds, offset from UTC in seconds), seen in its own offset
/// and formatted with a strftime-style format, or `None` where chrono
/// reports a formatting error.
pub uninterp spec fn timestamp_text(secs: i64, nanos: u32, offset: i32, format: Seq<char>) -> Option<Seq<char>>;

/// Reads the clock through `chrono::Local::now` and splits the instant into
/// its UNIX seconds (`DateTime::timestamp`), its sub-second nanoseconds
/// (`DateTime::timestamp_subsec_nanos`) and the local offset from UTC in
/// seconds (`FixedOffset::local_minus_utc`). Claimed: chrono accepts these
/// parts again, as every `DateTime` that chrono built came out of
/// `DateTime::from_timestamp` and every `FixedOffset` is less than a day.
/// Which instant comes back is not stated.
#[verifier::external_body]
fn local_now_parts() -> (r: (i64, u32, i32))
    ensures
        parts_accepted(r.0 as int, r.1 as int, r.2 as int),
{
    let now = chrono::Local::now();
    (now.timestamp(), now.timestamp_subsec_nanos(), now.offset().local_minus_utc())
}

/// Builds the chrono `DateTime<FixedOffset>` of the given parts (through
/// `DateTime::from_timestamp`, `FixedOffset::east_opt` and
/// `DateTime::with_timezone`) and writes it with `DateTime::format` and
/// `DelayedFormat::write_to`. Claimed: the text is `timestamp_text` of the
/// arguments, and chrono reports no error for the two known formats.
#[verifier::external_body]
fn chrono_format(secs: i64, nanos: u32, offset: i32, format: &str) -> (r: Option<String>)
    requires
        parts_accepted(secs as int, nanos as int, offset as int),
    ensures
        r.deep_view() == timestamp_text(secs, nanos, offset, format@),
        known_time_format(format@) ==> r is Some,
{
    let zone = chrono::FixedOffset::east_opt(offset).unwrap();
    let at = chrono::DateTime::from_timestamp(secs, nanos).unwrap().with_timezone(&zone);
    let mut out = String::new();
    match at.format(format).write_to(&mut out) {
        Ok(()) => Some(out),
        Err(_) => None,
    }
}

/// An instant as chrono sees it: UNIX seconds, sub-second nanoseconds, and
/// the offset from UTC (in seconds) of the clock that took it.
#[derive(Clone, Copy, Debug, PartialEq, Eq, Structural)]
pub struct Timestamp {
    secs: i64,
    nanos: u32,
    offset: i32,
}

impl Timestamp {
    #[verifier::type_invariant]
    closed spec fn accepted(self) -> bool {
        parts_accepted(self.secs as int, self.nanos as int, self.offset as int)
    }

    /// UNIX seconds of this instant.
    pub closed spec fn spec_secs(self) -> i64 {
        self.secs
    }

    /// Sub-second nanoseconds of this instant.
    pub closed spec fn spec_nanos(self) -> u32 {
        self.nanos
    }

    /// Offset from UTC in seconds.
    pub closed spec fn spec_offset(self) -> i32 {
        self.offset
    }

    /// The timestamp with the given parts, or `None` where chrono would not
    /// accept them.
    pub fn from_parts(secs: i64, nanos: u32, offset: i32) -> (r: Option<Timestamp>)
        ensures
            r is Some <==> parts_accepted(secs as int, nanos as int, offset as int),
            r matches Some(t) ==> t.spec_secs() == secs && t.spec_nanos() == nanos
                && t.spec_offset() == offset,
    {
        if MIN_UNIX_SECS <= secs && secs <= MAX_UNIX_SECS && nanos < 2_000_000_000
            && (nanos < 1_000_000_000 || secs % 60 == 59 || secs % 60 == -1) && -86_400 < offset
            && offset < 86_400 {
            Some(Timestamp { secs, nanos, offset })
        } else {
            None
        }
    }

    /// The current instant on the local clock. Which instant is not stated;
    /// its parts are ones that chrono accepts, as for every timestamp.
    pub fn now() -> (r: Timestamp)
        ensures
            parts_accepted(r.spec_secs() as int, r.spec_nanos() as int, r.spec_offset() as int),
    {
        let (secs, nanos, offset) = local_now_parts();
        Timestamp { secs, nanos, offset }
    }

    /// UNIX seconds of this instant.
    pub fn secs(&self) -> (r: i64)
        ensures
            r == self.spec_secs(),
    {
        self.secs
    }

    /// Sub-second nanoseconds of this instant.
    pub fn nanos(&self) -> (r: u32)
        ensures
            r == self.spec_nanos(),
    {
        self.nanos
    }

    /// Offset from UTC in seconds.
    pub fn offset_secs(&self) -> (r: i32)
        ensures
            r == self.spec_offset(),
    {
        self.offset
    }

    /// The text of this instant in the given strftime-style format, or
    /// `None` where the format holds an error.
    pub fn format(&self, format: &str) -> (r: Option<String>)
        ensures
            r.deep_view() == timestamp_text(self.spec_secs(), self.spec_nanos(), self.spec_offset(), format@),
            known_time_format(format@) ==> r is Some,
    {
        proof {
            use_type_invariant(self);
        }
        chrono_format(self.secs, self.nanos, self.offset, format)
    }
}

} // verus!
