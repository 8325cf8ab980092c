//! Sinks: where formatted log messages go.

pub mod null_sink;

use crate::util::errors::SinkError;
use crate::util::level::LevelFilter;
use crate::util::record::Record;
use vstd::prelude::*;

verus! {

/// Writes formatted log messages somewhere.
pub trait Sink: Send + Sync {
    /// Formats and writes one record.
    fn log(&self, record: &Record) -> Result<(), SinkError>;

    /// Flushes what is buffered.
    fn flush(&self) -> Result<(), SinkError>;

    /// The name the sink was made with. A logger reads it once, when the sink joins it.
    fn name(&self) -> &str;

    /// Sets the most verbose level the sink writes.
    fn set_level(&self, level: LevelFilter);
}

/// The default size of a sink's write buffer.
pub const DEFAULT_BUFFER_SIZE: usize = 16384;

} // verus!
