//! The asynchronous logger's settings, and the work of its background thread on each command.
//!
//! The channel and the thread themselves are run by the caller: it receives commands, hands
//! each to [`AsyncHandleThread::handle`] (which hands each error to the error handler as it
//! arises), waits on a barrier when told to, stops when told to, and panics when the handler
//! refuses an error.

use crate::logger::sink_list::{
    add_named, first_named, flush_all, flushed_by, handler_callable, log_all, logged_by, named,
    names_of, refused,
    remove_named, run_result, sinks_of, swap_removed,
};
use crate::logger::DEFAULT_CHANNEL_SIZE;
use crate::sink::Sink;
use crate::util::errors::{LoggerError, LoggerErrorKind};
use crate::util::level::LevelFilter;
use crate::util::record::Record;
use crate::util::DEFAULT_NULL_NAME;
use vstd::prelude::*;

verus! {

/// The settings of an asynchronous logger.
pub struct AsyncLoggerBuilder<S, H> {
    /// The name.
    pub name: String,
    /// The most verbose level the logger passes on.
    pub level: LevelFilter,
    /// Whether the queue is bounded.
    pub bound: bool,
    /// The size of a bounded queue.
    pub chanel_size: usize,
    /// The sinks.
    pub sinks: Vec<S>,
    /// The error handler.
    pub error_handle: Option<H>,
    /// Whether a record is dropped, rather than waited for, when the queue is full.
    pub drop_when_blocked: bool,
}

impl<S, H> AsyncLoggerBuilder<S, H> {
    /// Named [`DEFAULT_NULL_NAME`], level `Off`, an unbounded queue (of size
    /// [`DEFAULT_CHANNEL_SIZE`] if bounded later), no sinks, no error handler, dropping records
    /// when blocked.
    pub fn new() -> (b: Self)
        ensures
            b.name@ == DEFAULT_NULL_NAME@,
            b.level == LevelFilter::Off,
            !b.bound,
            b.chanel_size == DEFAULT_CHANNEL_SIZE,
            b.sinks@ == Seq::<S>::empty(),
            b.error_handle == None::<H>,
            b.drop_when_blocked,
    {
        AsyncLoggerBuilder {
            name: String::from_str(DEFAULT_NULL_NAME),
            level: LevelFilter::Off,
            bound: false,
            chanel_size: DEFAULT_CHANNEL_SIZE,
            sinks: Vec::new(),
            error_handle: None,
            drop_when_blocked: true,
        }
    }

    /// Sets the name.
    pub fn name(&mut self, name: &str) -> (r: &mut Self)
        ensures
            *r == (AsyncLoggerBuilder { name: r.name, ..*old(self) }),
            r.name@ == name@,
            *final(self) == *final(r),
    {
        self.name = String::from_str(name);
        self
    }

    /// Sets the most verbose level the logger passes on.
    pub fn level(&mut self, level: LevelFilter) -> (r: &mut Self)
        ensures
            *r == (AsyncLoggerBuilder { level, ..*old(self) }),
            *final(self) == *final(r),
    {
        self.level = level;
        self
    }

    /// Sets whether the queue is bounded.
    pub fn bound(&mut self, bound: bool) -> (r: &mut Self)
        ensures
            *r == (AsyncLoggerBuilder { bound, ..*old(self) }),
            *final(self) == *final(r),
    {
        self.bound = bound;
        self
    }

    /// Sets the size of a bounded queue.
    pub fn chanel_size(&mut self, size: usize) -> (r: &mut Self)
        ensures
            *r == (AsyncLoggerBuilder { chanel_size: size, ..*old(self) }),
            *final(self) == *final(r),
    {
        self.chanel_size = size;
        self
    }

    /// Adds several sinks after the others, in order.
    pub fn add_sinks(&mut self, sinks: Vec<S>) -> (r: &mut Self)
        ensures
            *r == (AsyncLoggerBuilder { sinks: r.sinks, ..*old(self) }),
            r.sinks@ == old(self).sinks@ + sinks@,
            *final(self) == *final(r),
    {
        let mut sinks = sinks;
        self.sinks.append(&mut sinks);
        self
    }

    /// Adds a sink after the others.
    pub fn add_sink(&mut self, sink: S) -> (r: &mut Self)
        ensures
            *r == (AsyncLoggerBuilder { sinks: r.sinks, ..*old(self) }),
            r.sinks@ == old(self).sinks@.push(sink),
            *final(self) == *final(r),
    {
        self.sinks.push(sink);
        self
    }

    /// Sets the error handler.
    pub fn error_handle(&mut self, handle: H) -> (r: &mut Self)
        ensures
            *r == (AsyncLoggerBuilder { error_handle: Some(handle), ..*old(self) }),
            *final(self) == *final(r),
    {
        self.error_handle = Some(handle);
        self
    }

    /// Sets whether a record is dropped, rather than waited for, when the queue is full.
    pub fn drop_when_blocked(&mut self, option: bool) -> (r: &mut Self)
        ensures
            *r == (AsyncLoggerBuilder { drop_when_blocked: option, ..*old(self) }),
            *final(self) == *final(r),
    {
        self.drop_when_blocked = option;
        self
    }
}

impl<S, H> Default for AsyncLoggerBuilder<S, H> {
    fn default() -> (b: Self)
        ensures
            b.name@ == DEFAULT_NULL_NAME@,
            b.level == LevelFilter::Off,
            !b.bound,
            b.chanel_size == DEFAULT_CHANNEL_SIZE,
            b.sinks@ == Seq::<S>::empty(),
            b.error_handle == None::<H>,
            b.drop_when_blocked,
    {
        Self::new()
    }
}

/// A command to the background thread of an asynchronous logger. `B` is the barrier the
/// sender waits on.
pub enum LogCommand<S, B> {
    /// Write one record.
    LogOnce(Record),
    /// Add a sink.
    AddSink(S),
    /// Remove the first sink with this name.
    RemoveSink(String),
    /// Flush the sinks.
    Flush,
    /// Flush the sinks and stop.
    Exit,
    /// Flush the sinks, then meet the sender at the barrier.
    FlushAndWait(B),
}

impl<S, B> LogCommand<S, B> {
    /// Whether the command may be dropped when the queue is full and the logger drops rather
    /// than waits: only a record may; every other command is always delivered.
    pub fn may_drop(&self) -> (b: bool)
        ensures
            b == (self is LogOnce),
    {
        match self {
            LogCommand::LogOnce(_) => true,
            _ => false,
        }
    }
}

/// What the background thread does after a command.
pub enum Step<B> {
    /// Go on with the next command.
    Continue,
    /// Stop.
    Stop,
    /// Meet the sender at the barrier, then go on.
    Wait(B),
    /// The error handler refused an error: the thread panics.
    Abort,
}

/// The state of the background thread of an asynchronous logger: its sinks, each with the name
/// it gave when it joined, and the error handler.
pub struct AsyncHandleThread<S, H> {
    sinks: Vec<(String, S)>,
    error_handle: Option<H>,
}

impl<S, H> AsyncHandleThread<S, H> {
    pub closed spec fn spec_sinks(&self) -> Seq<S> {
        sinks_of(self.sinks@)
    }

    /// The name of each sink, as the sink gave it when it joined.
    pub closed spec fn spec_names(&self) -> Seq<Seq<char>> {
        names_of(self.sinks@)
    }

    pub closed spec fn spec_error_handle(&self) -> Option<H> {
        self.error_handle
    }
}

/// Whether the sinks, their names and the handler are as they were.
pub open spec fn same_sinks<S, H>(a: AsyncHandleThread<S, H>, b: AsyncHandleThread<S, H>) -> bool {
    a.spec_sinks() == b.spec_sinks() && a.spec_names() == b.spec_names() && a.spec_error_handle()
        == b.spec_error_handle()
}

/// What a command that hands something to every sink leads to: `next` when the handler took
/// every error, `Abort` when it refused one (then the outcomes end with that error).
pub open spec fn run_step<B, H: Fn(LoggerError) -> bool>(
    r: (Step<B>, Vec<Result<(), LoggerError>>),
    next: Step<B>,
    n: nat,
    handler: Option<H>,
    kind: LoggerErrorKind,
) -> bool {
    (r.0 == next || r.0 is Abort) && run_result((r.1, r.0 is Abort), n, handler, kind, true)
}

impl<S: Sink, H: Fn(LoggerError) -> bool> AsyncHandleThread<S, H> {
    /// The background state of a logger with these sinks and this error handler.
    pub fn new(sinks: Vec<S>, error_handle: Option<H>) -> (t: Self)
        ensures
            t.spec_sinks() == sinks@,
            t.spec_error_handle() == error_handle,
    {
        AsyncHandleThread { sinks: named(sinks), error_handle }
    }

    /// Carries out one command and gives what to do next, with the outcomes it reports. Each
    /// error goes to the error handler as it arises; when the handler refuses one, nothing more
    /// is done and the step is `Abort`.
    /// - `LogOnce`: the record goes to every sink in order; one outcome per sink called, `Ok`
    ///   or a `LogError` whose source is the sink's error.
    /// - `AddSink`: the sink joins after the others; no outcome.
    /// - `RemoveSink`: the first sink of that name is removed (the last sink takes its place);
    ///   one outcome, `Ok`, or `SinkNameNotFound` when no sink has that name.
    /// - `Flush`, `Exit`, `FlushAndWait`: every sink is flushed in order; one outcome per sink
    ///   flushed, `Ok` or a `FlushError` whose source is the sink's error. Then `Exit` stops and
    ///   `FlushAndWait` hands back its barrier.
    pub fn handle<B>(&mut self, command: LogCommand<S, B>) -> (r: (Step<B>, Vec<Result<(), LoggerError>>))
        requires
            handler_callable(old(self).spec_error_handle()),
        ensures
            match command {
                LogCommand::LogOnce(record) => same_sinks(*final(self), *old(self)) && logged_by(
                    old(self).spec_sinks(),
                    record,
                    r.1@,
                    LoggerErrorKind::LogError,
                    true,
                ) && run_step(
                    r,
                    Step::Continue,
                    old(self).spec_sinks().len(),
                    old(self).spec_error_handle(),
                    LoggerErrorKind::LogError,
                ),
                LogCommand::AddSink(s) => r.0 is Continue && final(self).spec_sinks() == old(
                    self,
                ).spec_sinks().push(s) && final(self).spec_names().len() == old(self).spec_names().len() + 1
                    && final(self).spec_names().drop_last() == old(self).spec_names()
                    && final(self).spec_error_handle() == old(self).spec_error_handle() && r.1@.len() == 0,
                LogCommand::RemoveSink(name) => {
                    let i = first_named(old(self).spec_names(), name@);
                    &&& r.1@.len() == 1
                    &&& final(self).spec_error_handle() == old(self).spec_error_handle()
                    &&& (r.1@[0] is Err <==> forall|j: int|
                        0 <= j < old(self).spec_names().len() ==> #[trigger] old(self).spec_names()[j]
                            != name@)
                    &&& match r.1@[0] {
                        Ok(()) => r.0 is Continue && 0 <= i < old(self).spec_sinks().len()
                            && final(self).spec_sinks() == swap_removed(old(self).spec_sinks(), i)
                            && final(self).spec_names() == swap_removed(old(self).spec_names(), i),
                        Err(e) => e.spec_kind() == LoggerErrorKind::SinkNameNotFound && same_sinks(
                            *final(self),
                            *old(self),
                        ) && (r.0 is Continue || (r.0 is Abort && refused(
                            old(self).spec_error_handle(),
                            LoggerErrorKind::SinkNameNotFound,
                        ))),
                    }
                },
                LogCommand::Flush => same_sinks(*final(self), *old(self)) && flushed_by(
                    old(self).spec_sinks(),
                    r.1@,
                    LoggerErrorKind::FlushError,
                    true,
                ) && run_step(
                    r,
                    Step::Continue,
                    old(self).spec_sinks().len(),
                    old(self).spec_error_handle(),
                    LoggerErrorKind::FlushError,
                ),
                LogCommand::Exit => same_sinks(*final(self), *old(self)) && flushed_by(
                    old(self).spec_sinks(),
                    r.1@,
                    LoggerErrorKind::FlushError,
                    true,
                ) && run_step(
                    r,
                    Step::Stop,
                    old(self).spec_sinks().len(),
                    old(self).spec_error_handle(),
                    LoggerErrorKind::FlushError,
                ),
                LogCommand::FlushAndWait(b) => same_sinks(*final(self), *old(self)) && flushed_by(
                    old(self).spec_sinks(),
                    r.1@,
                    LoggerErrorKind::FlushError,
                    true,
                ) && run_step(
                    r,
                    Step::Wait(b),
                    old(self).spec_sinks().len(),
                    old(self).spec_error_handle(),
                    LoggerErrorKind::FlushError,
                ),
            },
    {
        match command {
            LogCommand::LogOnce(record) => {
                let (o, stop) = log_all(&self.sinks, &record, LoggerErrorKind::LogError, true, &self.error_handle);
                (if stop { Step::Abort } else { Step::Continue }, o)
            },
            LogCommand::AddSink(sink) => {
                add_named(&mut self.sinks, sink);
                (Step::Continue, Vec::new())
            },
            LogCommand::RemoveSink(name) => {
                let r = remove_named(&mut self.sinks, name.as_str());
                let mut step = Step::Continue;
                if r.is_err() {
                    match &self.error_handle {
                        Some(h) => {
                            let e = LoggerError::new(LoggerErrorKind::SinkNameNotFound);
                            let ghost g = e;
                            if !h(e) {
                                assert(g.spec_kind() == LoggerErrorKind::SinkNameNotFound && call_ensures(*h, (g,), false));
                                step = Step::Abort;
                            }
                        },
                        None => {},
                    }
                }
                let mut v = Vec::new();
                v.push(r);
                (step, v)
            },
            LogCommand::Flush => {
                let (o, stop) = self.flush();
                (if stop { Step::Abort } else { Step::Continue }, o)
            },
            LogCommand::Exit => {
                let (o, stop) = self.flush();
                (if stop { Step::Abort } else { Step::Stop }, o)
            },
            LogCommand::FlushAndWait(b) => {
                let (o, stop) = self.flush();
                (if stop { Step::Abort } else { Step::Wait(b) }, o)
            },
        }
    }

    /// Flushes each sink in order; each outcome is `Ok` or a `FlushError` whose source is the
    /// message of the sink's error, and each error goes to the handler at once. Stops after a
    /// sink whose error the handler refuses.
    fn flush(&self) -> (r: (Vec<Result<(), LoggerError>>, bool))
        requires
            handler_callable(self.spec_error_handle()),
        ensures
            run_result(r, self.spec_sinks().len(), self.spec_error_handle(), LoggerErrorKind::FlushError, true),
            flushed_by(self.spec_sinks(), r.0@, LoggerErrorKind::FlushError, true),
    {
        flush_all(&self.sinks, LoggerErrorKind::FlushError, true, &self.error_handle)
    }
}

} // verus!
