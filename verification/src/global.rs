use vstd::prelude::*;

use crate::format::DefaultFormatter;
use crate::level::Level;
use crate::logger::{Log, Logger};

verus! {

/// The level of the logger that stands in where none is installed.
pub open spec fn fallback_level() -> Level {
    Level::Info
}

/// Whether a logger is the one that stands in where none is installed: the
/// default formatter at `Level::Info`, no records, printing to standard
/// output and writing no file.
pub open spec fn is_fallback(logger: Logger<DefaultFormatter>) -> bool {
    &&& logger.spec_min_level() == fallback_level()
    &&& logger.history().len() == 0
    &&& logger.prints_to_stdout()
    &&& !logger.writes_to_file()
}

/// The logger in use: the installed one, or a fresh fallback logger.
pub enum ActiveLogger<'a, L> {
    Installed(&'a L),
    Fallback(Logger<DefaultFormatter>),
}

/// A slot for one shared logger. Where the slot is empty, a default
/// `Logger` at `Level::Info` is used.
pub struct GlobalLogger<L> {
    inner: Option<L>,
}

impl<L> GlobalLogger<L> {
    /// The installed logger, if any.
    pub closed spec fn installed(self) -> Option<L> {
        self.inner
    }

    /// The slot after installing a logger.
    pub closed spec fn after_set(self, logger: L) -> GlobalLogger<L> {
        GlobalLogger { inner: Some(logger) }
    }

    /// The slot after removing its logger.
    pub closed spec fn after_clear(self) -> GlobalLogger<L> {
        GlobalLogger { inner: None }
    }

    /// Installing a logger makes it the installed one whatever was installed
    /// before, so the last one installed wins; clearing leaves nothing
    /// installed, whatever was installed before.
    pub proof fn lemma_slot_laws(self, first: L, second: L)
        ensures
            self.after_set(first).installed() == Some(first),
            self.after_set(first).after_set(second) == self.after_set(second),
            self.after_clear().installed() is None,
            self.after_set(first).after_clear() == self.after_clear(),
            self.after_clear().after_set(first) == self.after_set(first),
    {
    }

    /// An empty slot.
    pub fn new() -> (r: GlobalLogger<L>)
        ensures
            r.installed() is None,
    {
        GlobalLogger { inner: None }
    }

    /// Installs a logger, replacing the one installed before.
    pub fn set(&mut self, logger: L)
        ensures
            *final(self) == old(self).after_set(logger),
            final(self).installed() == Some(logger),
    {
        self.inner = Some(logger);
    }

    /// Removes the installed logger.
    pub fn clear(&mut self)
        ensures
            *final(self) == old(self).after_clear(),
            final(self).installed() is None,
    {
        self.inner = None;
    }

    /// The installed logger, or a fresh fallback logger where none is.
    pub fn get(&self) -> (r: ActiveLogger<'_, L>)
        ensures
            match r {
                ActiveLogger::Installed(l) => self.installed() == Some(*l),
                ActiveLogger::Fallback(l) => self.installed() is None && is_fallback(l),
            },
    {
        match &self.inner {
            Some(l) => ActiveLogger::Installed(l),
            None => ActiveLogger::Fallback(Logger::new(Level::Info)),
        }
    }
}

/// Installs the logger that the global logging calls write through.
pub fn set_logger<L>(global: &mut GlobalLogger<L>, logger: L)
    ensures
        *final(global) == old(global).after_set(logger),
        final(global).installed() == Some(logger),
{
    global.set(logger);
}

/// Removes the installed global logger, so that the fallback logger is used.
pub fn clear_logger<L>(global: &mut GlobalLogger<L>)
    ensures
        *final(global) == old(global).after_clear(),
        final(global).installed() is None,
{
    global.clear();
}

/// The global logger in use: the installed one, or a fresh fallback logger.
pub fn get_logger<L>(global: &GlobalLogger<L>) -> (r: ActiveLogger<'_, L>)
    ensures
        match r {
            ActiveLogger::Installed(l) => global.installed() == Some(*l),
            ActiveLogger::Fallback(l) => global.installed() is None && is_fallback(l),
        },
{
    global.get()
}

/// Flushes the global logger in use: where a logger is installed, its
/// `flush` is called; the fallback logger writes no file, so there is
/// nothing to flush where none is. Returns whether a logger was installed.
pub fn flush<L: Log>(global: &GlobalLogger<L>) -> (r: bool)
    ensures
        r <==> global.installed() is Some,
        r ==> call_ensures(L::flush, (&global.installed().unwrap(),), ()),
{
    match get_logger(global) {
        ActiveLogger::Installed(l) => {
            l.flush();
            true
        },
        ActiveLogger::Fallback(l) => {
            let has_file = l.flush();
            assert(!has_file);
            false
        },
    }
}

} // verus!
