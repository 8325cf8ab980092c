//! Loggers: they filter records by level and hand them to their sinks.

pub mod async_logger;
pub mod sink_list;
pub mod sync_logger;

use vstd::prelude::*;

verus! {

/// The default size of the queue of an asynchronous logger.
pub const DEFAULT_CHANNEL_SIZE: usize = 1024;

} // verus!
