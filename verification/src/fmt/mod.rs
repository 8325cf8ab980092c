//! Formatting: ANSI colour codes, pattern strings and the formatters that render records.

pub mod ansi_color;
pub mod parse;
pub mod parse_laws;
pub mod date_time;
pub mod default;
pub mod color_console;
pub mod render_laws;

pub use parse::PatternCharacter;
