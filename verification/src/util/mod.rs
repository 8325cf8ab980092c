//! Pieces shared by the formatters, sinks and loggers.

pub mod errors;
pub mod level;
pub mod record;
pub mod pool;
pub mod registry;
pub mod dispatcher;
pub mod text;

use vstd::prelude::*;

verus! {

/// The default name of every sink and logger.
pub const DEFAULT_NULL_NAME: &'static str = "__NULL_";

} // verus!
