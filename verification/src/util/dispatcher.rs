//! The registry of loggers and sinks by name, the pool of string buffers, and the functions
//! that work on them.

use crate::fmt::default::DefaultFormatter;
use crate::fmt::parse::parse_pattern;
use crate::util::errors::ParseError;
use crate::util::pool::ObjectPool;
use crate::util::registry::Registry;
use crate::util::DEFAULT_NULL_NAME;
use vstd::prelude::*;

verus! {

/// The loggers and sinks registered by name, and the pool of string buffers.
pub struct Dispatcher<L, S> {
    pub(crate) object_pool: ObjectPool,
    pub(crate) loggers: Registry<L>,
    pub(crate) sinks: Registry<S>,
}

impl<L, S> Dispatcher<L, S> {
    pub closed spec fn spec_loggers(&self) -> Map<Seq<char>, L> {
        self.loggers.spec_map()
    }

    pub closed spec fn spec_sinks(&self) -> Map<Seq<char>, S> {
        self.sinks.spec_map()
    }

    pub closed spec fn spec_pool(&self) -> ObjectPool {
        self.object_pool
    }

    /// No loggers, no sinks, an empty pool.
    pub fn new() -> (d: Self)
        ensures
            d.spec_loggers() == Map::<Seq<char>, L>::empty(),
            d.spec_sinks() == Map::<Seq<char>, S>::empty(),
            d.spec_pool().spec_len() == 0,
            d.spec_pool().spec_capacity() == crate::util::pool::DEFAULT_POOL_SIZE,
    {
        Dispatcher { object_pool: ObjectPool::new(), loggers: Registry::new(), sinks: Registry::new() }
    }
}

/// The sink registered under `name`, if any.
pub fn get_sink<'a, L, S>(dispatcher: &'a Dispatcher<L, S>, name: &str) -> (r: Option<&'a S>)
    ensures
        match r {
            Some(s) => dispatcher.spec_sinks().dom().contains(name@) && *s
                == dispatcher.spec_sinks()[name@],
            None => !dispatcher.spec_sinks().dom().contains(name@),
        },
{
    dispatcher.sinks.get(name)
}

/// Removes the sink registered under `name` from the registry and hands it back, if any. The
/// sink itself keeps working.
pub fn remove_sink<L, S>(dispatcher: &mut Dispatcher<L, S>, name: &str) -> (r: Option<S>)
    ensures
        match r {
            Some(s) => old(dispatcher).spec_sinks().dom().contains(name@) && s == old(dispatcher).spec_sinks()[name@],
            None => !old(dispatcher).spec_sinks().dom().contains(name@),
        },
        final(dispatcher).spec_sinks() == old(dispatcher).spec_sinks().remove(name@),
        final(dispatcher).spec_loggers() == old(dispatcher).spec_loggers(),
{
    dispatcher.sinks.remove(name)
}

/// Registers a sink under its name. A sink named [`DEFAULT_NULL_NAME`], or one whose name is
/// taken, is handed back and the registry is unchanged.
pub fn register_sink<L, S>(dispatcher: &mut Dispatcher<L, S>, name: &str, sink: S) -> (r: Result<
    (),
    S,
>)
    ensures
        (name@ == DEFAULT_NULL_NAME@ || old(dispatcher).spec_sinks().dom().contains(name@)) ==> (r
            == Err::<(), S>(sink) && final(dispatcher).spec_sinks() == old(dispatcher).spec_sinks()),
        !(name@ == DEFAULT_NULL_NAME@ || old(dispatcher).spec_sinks().dom().contains(name@)) ==> (r
            is Ok && final(dispatcher).spec_sinks() == old(dispatcher).spec_sinks().insert(
            name@,
            sink,
        )),
        !old(dispatcher).spec_sinks().dom().contains(DEFAULT_NULL_NAME@) ==> !final(dispatcher).spec_sinks().dom().contains(DEFAULT_NULL_NAME@),
        final(dispatcher).spec_loggers() == old(dispatcher).spec_loggers(),
{
    let null_name = String::from_str(DEFAULT_NULL_NAME);
    let key = String::from_str(name);
    if key.eq(&null_name) {
        return Err(sink);
    }
    dispatcher.sinks.register(name, sink)
}

/// The logger registered under `name`, if any.
pub fn get_logger<'a, L, S>(dispatcher: &'a Dispatcher<L, S>, name: &str) -> (r: Option<&'a L>)
    ensures
        match r {
            Some(l) => dispatcher.spec_loggers().dom().contains(name@) && *l
                == dispatcher.spec_loggers()[name@],
            None => !dispatcher.spec_loggers().dom().contains(name@),
        },
{
    dispatcher.loggers.get(name)
}

/// Removes the logger registered under `name` from the registry and hands it back, if any. The
/// logger itself keeps working.
pub fn remove_logger<L, S>(dispatcher: &mut Dispatcher<L, S>, name: &str) -> (r: Option<L>)
    ensures
        match r {
            Some(l) => old(dispatcher).spec_loggers().dom().contains(name@) && l == old(dispatcher).spec_loggers()[name@],
            None => !old(dispatcher).spec_loggers().dom().contains(name@),
        },
        final(dispatcher).spec_loggers() == old(dispatcher).spec_loggers().remove(name@),
        final(dispatcher).spec_sinks() == old(dispatcher).spec_sinks(),
{
    dispatcher.loggers.remove(name)
}

/// Registers a logger under its name; a logger whose name is taken is handed back and the
/// registry is unchanged.
pub fn register_logger<L, S>(dispatcher: &mut Dispatcher<L, S>, name: &str, logger: L) -> (r:
    Result<(), L>)
    ensures
        old(dispatcher).spec_loggers().dom().contains(name@) ==> (r == Err::<(), L>(logger)
            && final(dispatcher).spec_loggers() == old(dispatcher).spec_loggers()),
        !old(dispatcher).spec_loggers().dom().contains(name@) ==> (r is Ok && final(dispatcher).spec_loggers() == old(dispatcher).spec_loggers().insert(name@, logger)),
        final(dispatcher).spec_sinks() == old(dispatcher).spec_sinks(),
{
    dispatcher.loggers.register(name, logger)
}

/// Takes an empty string buffer from the pool (a new one when the pool is empty).
pub fn acquire_string<L, S>(dispatcher: &mut Dispatcher<L, S>) -> (s: String)
    ensures
        s@ == Seq::<char>::empty(),
        old(dispatcher).spec_pool().spec_len() > 0 ==> final(dispatcher).spec_pool().spec_len() == old(dispatcher).spec_pool().spec_len() - 1,
        old(dispatcher).spec_pool().spec_len() == 0 ==> final(dispatcher).spec_pool().spec_len() == 0,
        final(dispatcher).spec_pool().spec_capacity() == old(dispatcher).spec_pool().spec_capacity(),
        final(dispatcher).spec_loggers() == old(dispatcher).spec_loggers(),
        final(dispatcher).spec_sinks() == old(dispatcher).spec_sinks(),
{
    dispatcher.object_pool.acquire_string()
}

/// Clears a string buffer and puts it back in the pool; when the pool is full it is dropped.
pub fn release_string<L, S>(dispatcher: &mut Dispatcher<L, S>, rel: String)
    ensures
        old(dispatcher).spec_pool().spec_len() < old(dispatcher).spec_pool().spec_capacity() ==> final(dispatcher).spec_pool().spec_len() == old(dispatcher).spec_pool().spec_len() + 1,
        old(dispatcher).spec_pool().spec_len() >= old(dispatcher).spec_pool().spec_capacity() ==> final(dispatcher).spec_pool().spec_len() == old(dispatcher).spec_pool().spec_len(),
        final(dispatcher).spec_pool().spec_capacity() == old(dispatcher).spec_pool().spec_capacity(),
        final(dispatcher).spec_loggers() == old(dispatcher).spec_loggers(),
        final(dispatcher).spec_sinks() == old(dispatcher).spec_sinks(),
{
    dispatcher.object_pool.release_string(rel)
}

/// Sets the pattern of the global formatter; on a parse error it is unchanged.
pub fn set_global_format(formatter: &mut DefaultFormatter, pattern: &str) -> (r: Result<(), ParseError>)
    ensures
        match parse_pattern(pattern@) {
            Ok(p) => r is Ok && final(formatter).spec_pattern() == p,
            Err(e) => r == Err::<(), ParseError>(e) && final(formatter).spec_pattern() == old(formatter).spec_pattern(),
        },
        final(formatter).spec_last_parse() == old(formatter).spec_last_parse(),
        final(formatter).spec_colors() == old(formatter).spec_colors(),
{
    formatter.set_format(pattern)
}

/// A logger registered under a free name is found under that name, as that very logger; removing
/// it again leaves the loggers as they were before.
pub proof fn lemma_logger_register_get_remove<L, S>(
    before: Dispatcher<L, S>,
    after: Dispatcher<L, S>,
    name: Seq<char>,
    logger: L,
)
    requires
        !before.spec_loggers().dom().contains(name),
        after.spec_loggers() == before.spec_loggers().insert(name, logger),
    ensures
        after.spec_loggers().dom().contains(name),
        after.spec_loggers()[name] == logger,
        after.spec_loggers().remove(name) == before.spec_loggers(),
{
    assert(after.spec_loggers().remove(name) =~= before.spec_loggers());
}

/// A sink registered under a free name other than [`DEFAULT_NULL_NAME`] is found under that
/// name, as that very sink; removing it again leaves the sinks as they were before.
pub proof fn lemma_sink_register_get_remove<L, S>(
    before: Dispatcher<L, S>,
    after: Dispatcher<L, S>,
    name: Seq<char>,
    sink: S,
)
    requires
        !before.spec_sinks().dom().contains(name),
        after.spec_sinks() == before.spec_sinks().insert(name, sink),
    ensures
        after.spec_sinks().dom().contains(name),
        after.spec_sinks()[name] == sink,
        after.spec_sinks().remove(name) == before.spec_sinks(),
{
    assert(after.spec_sinks().remove(name) =~= before.spec_sinks());
}

} // verus!
