//! The formatter that colours its output with ANSI escape sequences.

use crate::fmt::date_time::{local_date_time, local_time_in_range};
use crate::fmt::default::{all_renderable, elapsed_since, rendered, DefaultFormatter};
use crate::fmt::parse::parse_pattern;
use crate::util::errors::ParseError;
use crate::util::level::{level_rank, Level};
use crate::util::record::Record;
use vstd::prelude::*;

verus! {

/// A formatter that marks the colour range of its pattern (`%^` ... `%$`) with the colour of
/// the record's level and a reset sequence.
pub struct ColorFormatter {
    pub(crate) inner: DefaultFormatter,
}

impl ColorFormatter {
    pub closed spec fn spec_inner(&self) -> DefaultFormatter {
        self.inner
    }

    /// A colouring formatter for a pattern string, made at `now` (nanoseconds since the Unix epoch).
    pub fn new(pattern: &str, now: u128) -> (r: Result<Self, ParseError>)
        ensures
            match parse_pattern(pattern@) {
                Ok(p) => r matches Ok(f) && f.spec_inner().spec_pattern() == p
                    && f.spec_inner().spec_last_parse() == now && f.spec_inner().spec_colors()
                    == crate::fmt::default::default_level_colors(),
                Err(e) => r == Err::<Self, ParseError>(e),
            },
    {
        Ok(ColorFormatter { inner: DefaultFormatter::new(pattern, now)? })
    }

    /// A colouring formatter for the default pattern, made at `now`.
    pub fn with_default_pattern(now: u128) -> (f: Self)
        ensures
            f.spec_inner().spec_pattern() == crate::fmt::parse::default_pattern(),
            f.spec_inner().spec_last_parse() == now,
            f.spec_inner().spec_colors() == crate::fmt::default::default_level_colors(),
    {
        ColorFormatter { inner: DefaultFormatter::with_default_pattern(now) }
    }

    /// Replaces the pattern; see [`DefaultFormatter::set_format`].
    pub fn set_format(&mut self, pattern: &str) -> (r: Result<(), ParseError>)
        ensures
            match parse_pattern(pattern@) {
                Ok(p) => r is Ok && final(self).spec_inner().spec_pattern() == p,
                Err(e) => r == Err::<(), ParseError>(e) && final(self).spec_inner().spec_pattern()
                    == old(self).spec_inner().spec_pattern(),
            },
            final(self).spec_inner().spec_last_parse() == old(self).spec_inner().spec_last_parse(),
            final(self).spec_inner().spec_colors() == old(self).spec_inner().spec_colors(),
    {
        self.inner.set_format(pattern)
    }

    /// Sets the colour of a level; see [`DefaultFormatter::set_color`].
    pub fn set_color(&mut self, level: Level, color: &str) -> (r: Result<(), ParseError>)
        ensures
            match crate::fmt::ansi_color::parse_ansi(color@) {
                Ok(codes) => r is Ok && final(self).spec_inner().spec_colors() == old(self).spec_inner().spec_colors().update(level_rank(level) - 1, codes),
                Err(e) => r == Err::<(), ParseError>(e) && final(self).spec_inner().spec_colors()
                    == old(self).spec_inner().spec_colors(),
            },
            final(self).spec_inner().spec_pattern() == old(self).spec_inner().spec_pattern(),
            final(self).spec_inner().spec_last_parse() == old(self).spec_inner().spec_last_parse(),
    {
        self.inner.set_color(level, color)
    }

    /// Whether every character of the pattern can be rendered.
    pub fn can_format(&self) -> (b: bool)
        ensures
            b == all_renderable(self.spec_inner().spec_pattern()),
    {
        self.inner.can_format()
    }

    /// Renders a record as [`DefaultFormatter::format`] does, marking the colour range with the
    /// colour of the record's level and `"\x1b[0m"`.
    pub fn format(&mut self, record: &Record, offset_seconds: i32) -> (s: String)
        requires
            all_renderable(old(self).spec_inner().spec_pattern()),
            local_time_in_range(record.spec_time_stamp() as int, offset_seconds as int),
        ensures
            s@ == rendered(
                old(self).spec_inner().spec_pattern(),
                *record,
                local_date_time(record.spec_time_stamp() as int, offset_seconds as int),
                elapsed_since(
                    record.spec_time_stamp() as int,
                    old(self).spec_inner().spec_last_parse() as int,
                ),
                Some(old(self).spec_inner().spec_colors()[level_rank(record.spec_level()) - 1]),
            ),
            final(self).spec_inner().spec_pattern() == old(self).spec_inner().spec_pattern(),
            final(self).spec_inner().spec_colors() == old(self).spec_inner().spec_colors(),
            final(self).spec_inner().spec_last_parse() == record.spec_time_stamp(),
    {
        self.inner.format_with(record, offset_seconds, true)
    }

    /// The plain formatter inside.
    pub fn into_inner(self) -> (f: DefaultFormatter)
        ensures
            f == self.spec_inner(),
    {
        self.inner
    }
}

impl From<DefaultFormatter> for ColorFormatter {
    fn from(value: DefaultFormatter) -> (c: Self)
        ensures
            c.spec_inner() == value,
    {
        ColorFormatter { inner: value }
    }
}

impl vstd::std_specs::convert::FromSpecImpl<DefaultFormatter> for ColorFormatter {
    open spec fn obeys_from_spec() -> bool {
        true
    }

    closed spec fn from_spec(v: DefaultFormatter) -> Self {
        ColorFormatter { inner: v }
    }
}

impl From<ColorFormatter> for DefaultFormatter {
    fn from(value: ColorFormatter) -> (d: Self)
        ensures
            d == value.spec_inner(),
    {
        value.inner
    }
}

impl vstd::std_specs::convert::FromSpecImpl<ColorFormatter> for DefaultFormatter {
    open spec fn obeys_from_spec() -> bool {
        true
    }

    closed spec fn from_spec(v: ColorFormatter) -> Self {
        v.inner
    }
}

} // verus!
