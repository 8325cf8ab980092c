//! A logging library: pattern-based formatting, ANSI colouring, level filtering,
//! sinks and loggers, with the decisions verified.

pub mod util;
pub mod fmt;
pub mod sink;
pub mod logger;
