use multi_logging::logger::async_logger::{AsyncHandleThread, AsyncLoggerBuilder, LogCommand, Step};
use multi_logging::logger::sink_list::find_entry;
use multi_logging::logger::sync_logger::SyncLogger;
use multi_logging::logger::DEFAULT_CHANNEL_SIZE;
use multi_logging::sink::null_sink::{NullSink, NullSinkBuilder};
use multi_logging::sink::Sink;
use multi_logging::util::errors::{BaseError, LoggerError, LoggerErrorKind, SinkError, SinkErrorKinds};
use multi_logging::util::level::{Level, LevelFilter};
use multi_logging::util::record::Record;
use multi_logging::util::DEFAULT_NULL_NAME;
use std::sync::atomic::{AtomicUsize, Ordering};
use std::sync::Arc;

/// A sink that counts what it is asked to do, and fails when told to.
#[derive(Clone)]
struct CountingSink {
    name: String,
    fail: bool,
    logs: Arc<AtomicUsize>,
    flushes: Arc<AtomicUsize>,
}

impl CountingSink {
    fn new(name: &str, fail: bool) -> Self {
        CountingSink {
            name: name.to_string(),
            fail,
            logs: Arc::new(AtomicUsize::new(0)),
            flushes: Arc::new(AtomicUsize::new(0)),
        }
    }
}

impl Sink for CountingSink {
    fn log(&self, _record: &Record) -> Result<(), SinkError> {
        self.logs.fetch_add(1, Ordering::SeqCst);
        if self.fail {
            Err(BaseError::new(SinkErrorKinds::WriteError))
        } else {
            Ok(())
        }
    }

    fn flush(&self) -> Result<(), SinkError> {
        self.flushes.fetch_add(1, Ordering::SeqCst);
        if self.fail {
            Err(BaseError::new(SinkErrorKinds::FlushError))
        } else {
            Ok(())
        }
    }

    fn name(&self) -> &str {
        self.name.as_str()
    }

    fn set_level(&self, _level: LevelFilter) {}
}

type Handler = fn(LoggerError) -> bool;

static ACCEPTED: AtomicUsize = AtomicUsize::new(0);

fn refuse(_e: LoggerError) -> bool {
    false
}

fn accept(e: LoggerError) -> bool {
    assert_eq!(*e.kind(), LoggerErrorKind::LogError);
    ACCEPTED.fetch_add(1, Ordering::SeqCst);
    true
}

fn record() -> Record {
    Record::new("t", None, None, "hello", "main", None, 0, Level::Info, 1, "x", String::new(), String::new())
}

#[test]
fn find_entry_gives_the_first_match() {
    let e = vec![("a".to_string(), 1u8), ("b".to_string(), 2), ("a".to_string(), 3)];
    assert_eq!(find_entry(&e, "a"), 0);
    assert_eq!(find_entry(&e, "b"), 1);
    assert_eq!(find_entry(&e, "c"), 3);
    assert_eq!(find_entry::<u8>(&Vec::new(), "a"), 0);
}

#[test]
fn only_records_may_be_dropped() {
    assert!(LogCommand::<NullSink, u8>::LogOnce(record()).may_drop());
    assert!(!LogCommand::<NullSink, u8>::Flush.may_drop());
    assert!(!LogCommand::<NullSink, u8>::Exit.may_drop());
    assert!(!LogCommand::<NullSink, u8>::FlushAndWait(1).may_drop());
    assert!(!LogCommand::<NullSink, u8>::RemoveSink("a".to_string()).may_drop());
}

#[test]
fn null_sink_builder() {
    let b = NullSinkBuilder::new();
    assert_eq!(b.build().name(), DEFAULT_NULL_NAME);
    let mut b = NullSink::builder();
    b.name("quiet");
    let s = b.build();
    assert_eq!(s.name(), "quiet");
    assert!(s.log(&record()).is_ok());
    assert!(s.flush().is_ok());
    let d = NullSinkBuilder::default();
    assert_eq!(d.build().name(), DEFAULT_NULL_NAME);
}

#[test]
fn sync_logger_builder_settings() {
    let mut b = SyncLogger::<CountingSink, Handler>::builder();
    b.name("sync").level(LevelFilter::Warn).add_sink(CountingSink::new("a", false));
    let l = b.build();
    assert_eq!(l.name(), "sync");
    assert!(l.enabled(Level::Error, "t"));
    assert!(l.enabled(Level::Warn, "t"));
    assert!(!l.enabled(Level::Info, "t"));
    assert!(l.error_handle().is_none());
}

#[test]
fn default_sync_logger_passes_nothing() {
    let l = SyncLogger::<CountingSink, Handler>::builder().build();
    assert_eq!(l.name(), DEFAULT_NULL_NAME);
    assert!(!l.enabled(Level::Error, "t"));
}

#[test]
fn sync_logger_reports_one_error_per_failing_sink() {
    let good = CountingSink::new("good", false);
    let bad = CountingSink::new("bad", true);
    let mut b = SyncLogger::<CountingSink, Handler>::builder();
    b.add_sinks(vec![good.clone(), bad.clone(), CountingSink::new("bad2", true)]);
    let l = b.build();
    let (outcomes, refused) = l.log(&record());
    assert!(!refused);
    assert_eq!(outcomes.len(), 3);
    assert!(outcomes[0].is_ok());
    for e in outcomes[1..].iter() {
        let e = e.as_ref().err().unwrap();
        assert_eq!(*e.kind(), LoggerErrorKind::LogError);
        assert!(e.source().is_none());
    }
    assert_eq!(good.logs.load(Ordering::SeqCst), 1);
    assert_eq!(bad.logs.load(Ordering::SeqCst), 1);
    let (outcomes, refused) = l.flush();
    assert!(!refused);
    assert_eq!(outcomes.len(), 3);
    assert!(outcomes[0].is_ok());
    assert_eq!(*outcomes[1].as_ref().err().unwrap().kind(), LoggerErrorKind::FlushError);
    assert_eq!(*outcomes[2].as_ref().err().unwrap().kind(), LoggerErrorKind::FlushError);
    assert_eq!(good.flushes.load(Ordering::SeqCst), 1);
    let (outcomes, _) = l.flush_and_wait();
    assert_eq!(outcomes.iter().filter(|o| o.is_err()).count(), 2);
    assert_eq!(good.flushes.load(Ordering::SeqCst), 2);
}

#[test]
fn sync_logger_remove_sink() {
    let a = CountingSink::new("a", false);
    let b = CountingSink::new("b", false);
    let c = CountingSink::new("c", false);
    let mut builder = SyncLogger::<CountingSink, Handler>::builder();
    builder.add_sink(a.clone()).add_sink(b.clone()).add_sink(c.clone());
    let mut l = builder.build();
    assert!(l.remove_sink("a").is_ok());
    // The removed sink no longer gets records; the others still do.
    let (outcomes, _) = l.log(&record());
    assert_eq!(outcomes.len(), 2);
    assert!(outcomes.iter().all(|o| o.is_ok()));
    assert_eq!(a.logs.load(Ordering::SeqCst), 0);
    assert_eq!(b.logs.load(Ordering::SeqCst), 1);
    assert_eq!(c.logs.load(Ordering::SeqCst), 1);
    let e = l.remove_sink("a").err().unwrap();
    assert_eq!(*e.kind(), LoggerErrorKind::SinkNameNotFound);
    l.add_sink(a.clone());
    l.set_level(LevelFilter::Trace);
    assert!(l.enabled(Level::Trace, "t"));
    let (outcomes, _) = l.log(&record());
    assert_eq!(outcomes.len(), 3);
    assert!(outcomes.iter().all(|o| o.is_ok()));
    assert_eq!(a.logs.load(Ordering::SeqCst), 1);
}

#[test]
fn async_builder_defaults_and_setters() {
    let b: AsyncLoggerBuilder<NullSink, fn(u8) -> bool> = AsyncLoggerBuilder::new();
    assert_eq!(b.name, DEFAULT_NULL_NAME);
    assert_eq!(b.level, LevelFilter::Off);
    assert!(!b.bound);
    assert_eq!(b.chanel_size, DEFAULT_CHANNEL_SIZE);
    assert!(b.sinks.is_empty());
    assert!(b.error_handle.is_none());
    assert!(b.drop_when_blocked);
    let mut b: AsyncLoggerBuilder<NullSink, u8> = AsyncLoggerBuilder::default();
    b.name("async")
        .level(LevelFilter::Debug)
        .bound(true)
        .chanel_size(100_000)
        .drop_when_blocked(false)
        .add_sink(NullSink::new("x"))
        .add_sinks(vec![NullSink::new("y")])
        .error_handle(7);
    assert_eq!(b.name, "async");
    assert_eq!(b.level, LevelFilter::Debug);
    assert!(b.bound);
    assert_eq!(b.chanel_size, 100_000);
    assert!(!b.drop_when_blocked);
    assert_eq!(b.sinks.len(), 2);
    assert_eq!(b.sinks[1].name(), "y");
    assert_eq!(b.error_handle, Some(7));
}

#[test]
fn background_thread_carries_out_commands() {
    let good = CountingSink::new("good", false);
    let bad = CountingSink::new("bad", true);
    let mut t = AsyncHandleThread::new(vec![good.clone(), bad.clone()], None::<Handler>);

    let (step, outcomes) = t.handle::<u8>(LogCommand::LogOnce(record()));
    assert!(matches!(step, Step::Continue));
    assert_eq!(outcomes.len(), 2);
    assert!(outcomes[0].is_ok());
    let e = outcomes[1].as_ref().err().unwrap();
    assert_eq!(*e.kind(), LoggerErrorKind::LogError);
    assert_eq!(e.source().unwrap().as_str(), "Sink error when writing to the output.");
    assert_eq!(good.logs.load(Ordering::SeqCst), 1);

    let (step, outcomes) = t.handle::<u8>(LogCommand::Flush);
    assert!(matches!(step, Step::Continue));
    assert_eq!(outcomes.len(), 2);
    let e = outcomes[1].as_ref().err().unwrap();
    assert_eq!(e.source().unwrap().as_str(), "sink error when flushing.");

    let (step, outcomes) = t.handle::<u8>(LogCommand::RemoveSink("bad".to_string()));
    assert!(matches!(step, Step::Continue));
    assert_eq!(outcomes.len(), 1);
    assert!(outcomes[0].is_ok());
    let (_, outcomes) = t.handle::<u8>(LogCommand::RemoveSink("bad".to_string()));
    assert_eq!(outcomes.len(), 1);
    assert_eq!(*outcomes[0].as_ref().err().unwrap().kind(), LoggerErrorKind::SinkNameNotFound);

    let (_, outcomes) = t.handle::<u8>(LogCommand::AddSink(CountingSink::new("late", false)));
    assert!(outcomes.is_empty());
    let (step, outcomes) = t.handle(LogCommand::FlushAndWait(42u8));
    assert!(matches!(step, Step::Wait(42)));
    assert_eq!(outcomes.len(), 2);
    assert!(outcomes.iter().all(|o| o.is_ok()));
    assert_eq!(good.flushes.load(Ordering::SeqCst), 2);

    let (_, outcomes) = t.handle::<u8>(LogCommand::RemoveSink("good".to_string()));
    assert!(outcomes[0].is_ok());
    let (_, outcomes) = t.handle::<u8>(LogCommand::RemoveSink("late".to_string()));
    assert!(outcomes[0].is_ok());
    let (step, outcomes) = t.handle::<u8>(LogCommand::Exit);
    assert!(matches!(step, Step::Stop));
    assert!(outcomes.is_empty());
    assert_eq!(good.flushes.load(Ordering::SeqCst), 2);
}

#[test]
fn a_refused_error_stops_before_the_later_sinks() {
    let first = CountingSink::new("first", false);
    let bad = CountingSink::new("bad", true);
    let last = CountingSink::new("last", false);
    let mut b = SyncLogger::<CountingSink, Handler>::builder();
    b.add_sinks(vec![first.clone(), bad.clone(), last.clone()]).error_handle(refuse);
    let l = b.build();
    let (outcomes, refused) = l.log(&record());
    assert!(refused);
    assert_eq!(outcomes.len(), 2);
    assert!(outcomes[1].is_err());
    assert_eq!(first.logs.load(Ordering::SeqCst), 1);
    assert_eq!(bad.logs.load(Ordering::SeqCst), 1);
    assert_eq!(last.logs.load(Ordering::SeqCst), 0);

    let mut t = AsyncHandleThread::new(vec![first.clone(), bad.clone(), last.clone()], Some(refuse as Handler));
    let (step, outcomes) = t.handle::<u8>(LogCommand::Flush);
    assert!(matches!(step, Step::Abort));
    assert_eq!(outcomes.len(), 2);
    assert_eq!(last.flushes.load(Ordering::SeqCst), 0);
    let (step, outcomes) = t.handle::<u8>(LogCommand::RemoveSink("none".to_string()));
    assert!(matches!(step, Step::Abort));
    assert_eq!(*outcomes[0].as_ref().err().unwrap().kind(), LoggerErrorKind::SinkNameNotFound);
}

#[test]
fn the_handler_sees_each_error_as_it_arises() {
    let mut b = SyncLogger::<CountingSink, Handler>::builder();
    b.add_sinks(vec![CountingSink::new("a", true), CountingSink::new("b", false), CountingSink::new("c", true)])
        .error_handle(accept);
    let l = b.build();
    let before = ACCEPTED.load(Ordering::SeqCst);
    let (outcomes, refused) = l.log(&record());
    assert!(!refused);
    assert_eq!(outcomes.len(), 3);
    assert_eq!(ACCEPTED.load(Ordering::SeqCst) - before, 2);
}
