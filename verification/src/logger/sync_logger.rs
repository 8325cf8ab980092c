//! The synchronous logger: it hands each record to its sinks on the caller's thread.

use crate::logger::sink_list::{
    add_named, first_named, flush_all, flushed_by, handler_callable, log_all, logged_by, named,
    names_of, run_result,
    remove_named, sinks_of, swap_removed,
};
use crate::sink::Sink;
use crate::util::errors::{LoggerError, LoggerErrorKind};
use crate::util::level::{passes, Level, LevelFilter};
use crate::util::record::Record;
use crate::util::DEFAULT_NULL_NAME;
use vstd::prelude::*;

verus! {

/// A logger that filters records by level and hands them to its sinks at once.
///
/// Each error of a sink goes to the error handler as soon as it arises; the error of a missing
/// sink name is handed back to the caller.
pub struct SyncLogger<S, H> {
    name: String,
    max_level: LevelFilter,
    sinks: Vec<(String, S)>,
    error_handle: Option<H>,
}

impl<S, H> SyncLogger<S, H> {
    pub closed spec fn spec_name(&self) -> Seq<char> {
        self.name@
    }

    pub closed spec fn spec_max_level(&self) -> LevelFilter {
        self.max_level
    }

    pub closed spec fn spec_sinks(&self) -> Seq<S> {
        sinks_of(self.sinks@)
    }

    /// The name of each sink, as the sink gave it when it joined the logger.
    pub closed spec fn spec_names(&self) -> Seq<Seq<char>> {
        names_of(self.sinks@)
    }

    pub closed spec fn spec_error_handle(&self) -> Option<H> {
        self.error_handle
    }
}

impl<S: Sink, H> SyncLogger<S, H> {
    /// A builder for a synchronous logger.
    pub fn builder() -> (b: SyncLoggerBuilder<S, H>)
        ensures
            b.spec_name() == DEFAULT_NULL_NAME@,
            b.spec_max_level() == LevelFilter::Off,
            b.spec_sinks() == Seq::<S>::empty(),
            b.spec_error_handle() == None::<H>,
    {
        SyncLoggerBuilder::new()
    }

    /// Sets the most verbose level the logger passes on.
    pub fn set_level(&mut self, level: LevelFilter)
        ensures
            final(self).spec_max_level() == level,
            final(self).spec_sinks() == old(self).spec_sinks(),
            final(self).spec_names() == old(self).spec_names(),
            final(self).spec_name() == old(self).spec_name(),
            final(self).spec_error_handle() == old(self).spec_error_handle(),
    {
        self.max_level = level;
    }

    /// Adds a sink after the others, with the name it gives.
    pub fn add_sink(&mut self, sink: S)
        ensures
            final(self).spec_sinks() == old(self).spec_sinks().push(sink),
            final(self).spec_names().len() == old(self).spec_names().len() + 1,
            final(self).spec_names().drop_last() == old(self).spec_names(),
            final(self).spec_max_level() == old(self).spec_max_level(),
            final(self).spec_name() == old(self).spec_name(),
            final(self).spec_error_handle() == old(self).spec_error_handle(),
    {
        add_named(&mut self.sinks, sink);
    }

    /// Removes the first sink named `name`, moving the last sink into its place. When no sink
    /// has that name, the sinks are unchanged and the error is `SinkNameNotFound`.
    pub fn remove_sink(&mut self, name: &str) -> (r: Result<(), LoggerError>)
        ensures
            r is Err <==> forall|j: int|
                0 <= j < old(self).spec_names().len() ==> #[trigger] old(self).spec_names()[j] != name@,
            ({
                let i = first_named(old(self).spec_names(), name@);
                match r {
                    Ok(()) => 0 <= i < old(self).spec_sinks().len() && final(self).spec_sinks()
                        == swap_removed(old(self).spec_sinks(), i) && final(self).spec_names()
                        == swap_removed(old(self).spec_names(), i),
                    Err(e) => e.spec_kind() == LoggerErrorKind::SinkNameNotFound
                        && final(self).spec_sinks() == old(self).spec_sinks() && final(self).spec_names()
                        == old(self).spec_names(),
                }
            }),
            final(self).spec_max_level() == old(self).spec_max_level(),
            final(self).spec_name() == old(self).spec_name(),
            final(self).spec_error_handle() == old(self).spec_error_handle(),
    {
        remove_named(&mut self.sinks, name)
    }

    /// Whether a message of `level` passes the logger's level.
    pub fn enabled(&self, level: Level, _target: &str) -> (b: bool)
        ensures
            b == passes(self.spec_max_level(), level),
    {
        self.max_level.passes(level)
    }

    /// The name of the logger.
    pub fn name(&self) -> (n: &str)
        ensures
            n@ == self.spec_name(),
    {
        self.name.as_str()
    }

    /// The error handler.
    pub fn error_handle(&self) -> (h: &Option<H>)
        ensures
            *h == self.spec_error_handle(),
    {
        &self.error_handle
    }
}

impl<S: Sink, H: Fn(LoggerError) -> bool> SyncLogger<S, H> {
    /// Hands the record to each sink in order. Each sink's outcome is reported as `Ok` or a
    /// `LogError` without a source, and each error goes to the error handler at once; after a
    /// sink whose error the handler refuses, no later sink is called and the second part of the
    /// result is `true` (the caller then panics).
    pub fn log(&self, record: &Record) -> (r: (Vec<Result<(), LoggerError>>, bool))
        requires
            handler_callable(self.spec_error_handle()),
        ensures
            run_result(r, self.spec_sinks().len(), self.spec_error_handle(), LoggerErrorKind::LogError, false),
            logged_by(self.spec_sinks(), *record, r.0@, LoggerErrorKind::LogError, false),
    {
        log_all(&self.sinks, record, LoggerErrorKind::LogError, false, &self.error_handle)
    }

    /// Flushes each sink in order, reporting as [`SyncLogger::log`] does, with `FlushError`.
    pub fn flush(&self) -> (r: (Vec<Result<(), LoggerError>>, bool))
        requires
            handler_callable(self.spec_error_handle()),
        ensures
            run_result(r, self.spec_sinks().len(), self.spec_error_handle(), LoggerErrorKind::FlushError, false),
            flushed_by(self.spec_sinks(), r.0@, LoggerErrorKind::FlushError, false),
    {
        flush_all(&self.sinks, LoggerErrorKind::FlushError, false, &self.error_handle)
    }

    /// The same as [`SyncLogger::flush`]: the sinks are flushed before it returns.
    pub fn flush_and_wait(&self) -> (r: (Vec<Result<(), LoggerError>>, bool))
        requires
            handler_callable(self.spec_error_handle()),
        ensures
            run_result(r, self.spec_sinks().len(), self.spec_error_handle(), LoggerErrorKind::FlushError, false),
            flushed_by(self.spec_sinks(), r.0@, LoggerErrorKind::FlushError, false),
    {
        self.flush()
    }
}

/// Builds a [`SyncLogger`].
pub struct SyncLoggerBuilder<S, H> {
    name: String,
    max_level: LevelFilter,
    sinks: Vec<S>,
    error_handle: Option<H>,
}

impl<S, H> SyncLoggerBuilder<S, H> {
    pub closed spec fn spec_name(&self) -> Seq<char> {
        self.name@
    }

    pub closed spec fn spec_max_level(&self) -> LevelFilter {
        self.max_level
    }

    pub closed spec fn spec_sinks(&self) -> Seq<S> {
        self.sinks@
    }

    pub closed spec fn spec_error_handle(&self) -> Option<H> {
        self.error_handle
    }

    /// A builder named [`DEFAULT_NULL_NAME`], with level `Off`, no sinks and no error handler.
    pub fn new() -> (b: Self)
        ensures
            b.spec_name() == DEFAULT_NULL_NAME@,
            b.spec_max_level() == LevelFilter::Off,
            b.spec_sinks() == Seq::<S>::empty(),
            b.spec_error_handle() == None::<H>,
    {
        SyncLoggerBuilder {
            name: String::from_str(DEFAULT_NULL_NAME),
            max_level: LevelFilter::Off,
            sinks: Vec::new(),
            error_handle: None,
        }
    }

    /// Sets the name of the logger.
    pub fn name(&mut self, name: &str) -> (r: &mut Self)
        ensures
            r.spec_name() == name@,
            r.spec_max_level() == old(self).spec_max_level(),
            r.spec_sinks() == old(self).spec_sinks(),
            r.spec_error_handle() == old(self).spec_error_handle(),
            *final(self) == *final(r),
    {
        self.name = String::from_str(name);
        self
    }

    /// Sets the most verbose level the logger passes on.
    pub fn level(&mut self, level: LevelFilter) -> (r: &mut Self)
        ensures
            r.spec_max_level() == level,
            r.spec_name() == old(self).spec_name(),
            r.spec_sinks() == old(self).spec_sinks(),
            r.spec_error_handle() == old(self).spec_error_handle(),
            *final(self) == *final(r),
    {
        self.max_level = level;
        self
    }

    /// Adds a sink after the others.
    pub fn add_sink(&mut self, sink: S) -> (r: &mut Self)
        ensures
            r.spec_sinks() == old(self).spec_sinks().push(sink),
            r.spec_name() == old(self).spec_name(),
            r.spec_max_level() == old(self).spec_max_level(),
            r.spec_error_handle() == old(self).spec_error_handle(),
            *final(self) == *final(r),
    {
        self.sinks.push(sink);
        self
    }

    /// Adds several sinks after the others, in order.
    pub fn add_sinks(&mut self, sinks: Vec<S>) -> (r: &mut Self)
        ensures
            r.spec_sinks() == old(self).spec_sinks() + sinks@,
            r.spec_name() == old(self).spec_name(),
            r.spec_max_level() == old(self).spec_max_level(),
            r.spec_error_handle() == old(self).spec_error_handle(),
            *final(self) == *final(r),
    {
        let mut sinks = sinks;
        self.sinks.append(&mut sinks);
        self
    }

    /// Sets the error handler.
    pub fn error_handle(&mut self, handle: H) -> (r: &mut Self)
        ensures
            r.spec_error_handle() == Some(handle),
            r.spec_name() == old(self).spec_name(),
            r.spec_max_level() == old(self).spec_max_level(),
            r.spec_sinks() == old(self).spec_sinks(),
            *final(self) == *final(r),
    {
        self.error_handle = Some(handle);
        self
    }
}

impl<S: Sink + Clone, H: Copy> SyncLoggerBuilder<S, H> {
    /// Builds the logger; the builder keeps its settings.
    pub fn build(&self) -> (l: SyncLogger<S, H>)
        ensures
            l.spec_name() == self.spec_name(),
            l.spec_max_level() == self.spec_max_level(),
            l.spec_sinks().len() == self.spec_sinks().len(),
            forall|i: int|
                0 <= i < self.spec_sinks().len() ==> cloned::<S>(
                    self.spec_sinks()[i],
                    #[trigger] l.spec_sinks()[i],
                ),
            l.spec_error_handle() == self.spec_error_handle(),
    {
        SyncLogger {
            name: self.name.clone(),
            max_level: self.max_level,
            sinks: named(self.sinks.clone()),
            error_handle: self.error_handle,
        }
    }
}

} // verus!
