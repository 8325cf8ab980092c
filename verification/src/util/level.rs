//! Log levels and level filters.

use vstd::prelude::*;

verus! {

/// The level of a log message, from the most severe to the most verbose.
#[derive(Debug, Clone, Copy, PartialEq, Eq, Structural)]
pub enum Level {
    Error,
    Warn,
    Info,
    Debug,
    Trace,
}

/// The most verbose level that passes a filter; `Off` lets nothing through.
#[derive(Debug, Clone, Copy, PartialEq, Eq, Structural)]
pub enum LevelFilter {
    Off,
    Error,
    Warn,
    Info,
    Debug,
    Trace,
}

/// The rank of a level: 1 for `Error` up to 5 for `Trace`.
pub open spec fn level_rank(l: Level) -> nat {
    match l {
        Level::Error => 1,
        Level::Warn => 2,
        Level::Info => 3,
        Level::Debug => 4,
        Level::Trace => 5,
    }
}

/// The rank of a filter: 0 for `Off` up to 5 for `Trace`.
pub open spec fn filter_rank(f: LevelFilter) -> nat {
    match f {
        LevelFilter::Off => 0,
        LevelFilter::Error => 1,
        LevelFilter::Warn => 2,
        LevelFilter::Info => 3,
        LevelFilter::Debug => 4,
        LevelFilter::Trace => 5,
    }
}

/// Whether a message of `level` passes `filter`.
pub open spec fn passes(filter: LevelFilter, level: Level) -> bool {
    level_rank(level) <= filter_rank(filter)
}

pub open spec fn level_name_upper(l: Level) -> Seq<char> {
    match l {
        Level::Error => "ERROR"@,
        Level::Warn => "WARN"@,
        Level::Info => "INFO"@,
        Level::Debug => "DEBUG"@,
        Level::Trace => "TRACE"@,
    }
}

pub open spec fn level_name_lower(l: Level) -> Seq<char> {
    match l {
        Level::Error => "error"@,
        Level::Warn => "warn"@,
        Level::Info => "info"@,
        Level::Debug => "debug"@,
        Level::Trace => "trace"@,
    }
}

/// A filter that lets a level through lets every more severe level through, and every filter
/// at least as verbose lets it through too.
pub proof fn lemma_passes_monotonic(f: LevelFilter, g: LevelFilter, l: Level, m: Level)
    requires
        passes(f, l),
        level_rank(m) <= level_rank(l),
        filter_rank(f) <= filter_rank(g),
    ensures
        passes(f, m),
        passes(g, l),
{
}

/// `Off` lets nothing through and `Trace` lets everything through.
pub proof fn lemma_passes_extremes(l: Level)
    ensures
        !passes(LevelFilter::Off, l),
        passes(LevelFilter::Trace, l),
{
}

/// The levels run from the most severe to the most verbose, and the filters from `Off` to
/// `Trace`. Each filter other than `Off` lets through the level of its own name and every more
/// severe one, and nothing more verbose.
pub proof fn lemma_filter_levels()
    ensures
        level_rank(Level::Error) < level_rank(Level::Warn) < level_rank(Level::Info) < level_rank(
            Level::Debug,
        ) < level_rank(Level::Trace),
        filter_rank(LevelFilter::Off) < filter_rank(LevelFilter::Error) < filter_rank(
            LevelFilter::Warn,
        ) < filter_rank(LevelFilter::Info) < filter_rank(LevelFilter::Debug) < filter_rank(
            LevelFilter::Trace,
        ),
        forall|l: Level| !#[trigger] passes(LevelFilter::Off, l),
        forall|l: Level| #[trigger] passes(LevelFilter::Error, l) <==> l == Level::Error,
        forall|l: Level|
            #[trigger] passes(LevelFilter::Warn, l) <==> (l == Level::Error || l == Level::Warn),
        forall|l: Level|
            #[trigger] passes(LevelFilter::Info, l) <==> (l == Level::Error || l == Level::Warn || l
                == Level::Info),
        forall|l: Level| #[trigger] passes(LevelFilter::Debug, l) <==> l != Level::Trace,
        forall|l: Level| #[trigger] passes(LevelFilter::Trace, l),
{
}

impl Level {
    /// The index of the level among the five levels, `Error` first.
    pub fn index(&self) -> (i: usize)
        ensures
            i == level_rank(*self) - 1,
    {
        match self {
            Level::Error => 0,
            Level::Warn => 1,
            Level::Info => 2,
            Level::Debug => 3,
            Level::Trace => 4,
        }
    }

    /// The upper-case name of the level.
    pub fn as_str(&self) -> (s: &'static str)
        ensures
            s@ == level_name_upper(*self),
    {
        match self {
            Level::Error => "ERROR",
            Level::Warn => "WARN",
            Level::Info => "INFO",
            Level::Debug => "DEBUG",
            Level::Trace => "TRACE",
        }
    }

    /// The lower-case name of the level.
    pub fn as_str_lower(&self) -> (s: &'static str)
        ensures
            s@ == level_name_lower(*self),
    {
        match self {
            Level::Error => "error",
            Level::Warn => "warn",
            Level::Info => "info",
            Level::Debug => "debug",
            Level::Trace => "trace",
        }
    }
}

impl LevelFilter {
    pub fn rank(&self) -> (r: u8)
        ensures
            r == filter_rank(*self),
    {
        match self {
            LevelFilter::Off => 0,
            LevelFilter::Error => 1,
            LevelFilter::Warn => 2,
            LevelFilter::Info => 3,
            LevelFilter::Debug => 4,
            LevelFilter::Trace => 5,
        }
    }

    /// Whether a message of `level` passes the filter.
    pub fn passes(&self, level: Level) -> (b: bool)
        ensures
            b == passes(*self, level),
    {
        level.index() < self.rank() as usize
    }
}

} // verus!
