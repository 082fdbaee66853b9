use vstd::prelude::*;

use colored::Colorize;

verus! {

/// The verbosity of a message, from the lowest (`Trace`) to the highest
/// (`Error`) precedence.
#[derive(Debug, Clone, Copy, PartialEq, Eq, Structural, PartialOrd)]
pub enum Level {
    /// Very verbose tracing output.
    Trace,
    /// Debugging output.
    Debug,
    /// General information that stays in production.
    Info,
    /// Something that may need attention.
    Warn,
    /// An error.
    Error,
}

/// The precedence of a level: `Trace` is 0 and `Error` is 4.
pub open spec fn spec_rank(level: Level) -> nat {
    match level {
        Level::Trace => 0,
        Level::Debug => 1,
        Level::Info => 2,
        Level::Warn => 3,
        Level::Error => 4,
    }
}

/// The lower-case name of a level.
pub open spec fn spec_level_name(level: Level) -> Seq<char> {
    match level {
        Level::Trace => "trace"@,
        Level::Debug => "debug"@,
        Level::Info => "info"@,
        Level::Warn => "warn"@,
        Level::Error => "error"@,
    }
}

/// The levels are totally ordered by precedence, from `Trace` up to
/// `Error`: two levels have the same rank only where they are the same.
pub proof fn lemma_level_order(a: Level, b: Level)
    ensures
        spec_rank(Level::Trace) < spec_rank(Level::Debug) < spec_rank(Level::Info)
            < spec_rank(Level::Warn) < spec_rank(Level::Error),
        spec_rank(Level::Trace) <= spec_rank(a) <= spec_rank(Level::Error),
        spec_rank(a) == spec_rank(b) <==> a == b,
{
}

/// The ranks of the levels, from `Trace` at 0 to `Error` at 4.
pub proof fn lemma_rank_values()
    ensures
        spec_rank(Level::Trace) == 0,
        spec_rank(Level::Debug) == 1,
        spec_rank(Level::Info) == 2,
        spec_rank(Level::Warn) == 3,
        spec_rank(Level::Error) == 4,
{
}

/// Different levels have different names.
pub proof fn lemma_level_names_distinct(a: Level, b: Level)
    ensures
        spec_level_name(a) == spec_level_name(b) <==> a == b,
{
    reveal_strlit("trace");
    reveal_strlit("debug");
    reveal_strlit("info");
    reveal_strlit("warn");
    reveal_strlit("error");
    if a != b {
        let na = spec_level_name(a);
        let nb = spec_level_name(b);
        if na.len() == nb.len() {
            assert(na[0] != nb[0]);
        }
    }
}

impl Level {
    /// The precedence of this level (`Trace` is 0, `Error` is 4).
    pub fn rank(&self) -> (r: u8)
        ensures
            r as nat == spec_rank(*self),
    {
        match self {
            Level::Trace => 0,
            Level::Debug => 1,
            Level::Info => 2,
            Level::Warn => 3,
            Level::Error => 4,
        }
    }

    /// The lower-case name of this level.
    pub fn name(&self) -> (r: &'static str)
        ensures
            r@ == spec_level_name(*self),
    {
        match self {
            Level::Trace => "trace",
            Level::Debug => "debug",
            Level::Info => "info",
            Level::Warn => "warn",
            Level::Error => "error",
        }
    }

    /// The name of this level as an owned string.
    pub fn to_string(&self) -> (r: String)
        ensures
            r@ == spec_level_name(*self),
    {
        String::from_str(self.name())
    }
}

/// The ANSI escape sequence that starts the color of a level's name:
/// green, purple, blue, yellow, and bold red for `Error`.
pub open spec fn color_prefix(level: Level) -> Seq<char> {
    match level {
        Level::Trace => "\x1b[32m"@,
        Level::Debug => "\x1b[35m"@,
        Level::Info => "\x1b[34m"@,
        Level::Warn => "\x1b[33m"@,
        Level::Error => "\x1b[1;31m"@,
    }
}

/// The ANSI escape sequence that ends a color.
pub open spec fn color_reset() -> Seq<char> {
    "\x1b[0m"@
}

/// What `colored` may write for a text painted with a color prefix: the
/// text with the prefix and the reset sequence where it colorizes, the bare
/// text where it does not (the environment and the terminal decide), or the
/// text and the reset sequence where colorizing is switched off by another
/// thread while the text is written.
pub open spec fn painted(prefix: Seq<char>, text: Seq<char>, out: Seq<char>) -> bool {
    ||| out == text
    ||| out == prefix + text + color_reset()
    ||| out == text + color_reset()
}

/// Whether a text holds no escape character, so that `colored` writes it
/// unchanged between the escape sequences.
pub open spec fn no_escape(text: Seq<char>) -> bool {
    !text.contains('\x1b')
}

/// `Colorize::green` on a text, written with `ColoredString`'s `Display`.
#[verifier::external_body]
fn paint_green(text: &str) -> (r: String)
    requires
        no_escape(text@),
    ensures
        painted("\x1b[32m"@, text@, r@),
{
    text.green().to_string()
}

/// `Colorize::purple` on a text, written with `ColoredString`'s `Display`.
#[verifier::external_body]
fn paint_purple(text: &str) -> (r: String)
    requires
        no_escape(text@),
    ensures
        painted("\x1b[35m"@, text@, r@),
{
    text.purple().to_string()
}

/// `Colorize::blue` on a text, written with `ColoredString`'s `Display`.
#[verifier::external_body]
fn paint_blue(text: &str) -> (r: String)
    requires
        no_escape(text@),
    ensures
        painted("\x1b[34m"@, text@, r@),
{
    text.blue().to_string()
}

/// `Colorize::yellow` on a text, written with `ColoredString`'s `Display`.
#[verifier::external_body]
fn paint_yellow(text: &str) -> (r: String)
    requires
        no_escape(text@),
    ensures
        painted("\x1b[33m"@, text@, r@),
{
    text.yellow().to_string()
}

/// `Colorize::red` and then `Colorize::bold` on a text, written with
/// `ColoredString`'s `Display`.
#[verifier::external_body]
fn paint_red_bold(text: &str) -> (r: String)
    requires
        no_escape(text@),
    ensures
        painted("\x1b[1;31m"@, text@, r@),
{
    text.red().bold().to_string()
}

impl Level {
    /// The name of this level in its terminal color: green for `Trace`,
    /// purple for `Debug`, blue for `Info`, yellow for `Warn` and bold red
    /// for `Error`, where the environment lets `colored` colorize.
    pub fn to_colored_string(&self) -> (r: String)
        ensures
            painted(color_prefix(*self), spec_level_name(*self), r@),
    {
        let name = self.name();
        proof {
            reveal_strlit("trace");
            reveal_strlit("debug");
            reveal_strlit("info");
            reveal_strlit("warn");
            reveal_strlit("error");
            assert(no_escape(name@));
        }
        match self {
            Level::Trace => paint_green(name),
            Level::Debug => paint_purple(name),
            Level::Info => paint_blue(name),
            Level::Warn => paint_yellow(name),
            Level::Error => paint_red_bold(name),
        }
    }
}

} // verus!
