//! A sink that writes nothing.

use crate::sink::Sink;
use crate::util::errors::SinkError;
use crate::util::level::LevelFilter;
use crate::util::record::Record;
use crate::util::text::push_str;
use crate::util::DEFAULT_NULL_NAME;
use vstd::prelude::*;

verus! {

/// A sink that writes nothing; every call succeeds.
pub struct NullSink {
    name: String,
}

impl NullSink {
    pub closed spec fn spec_name(&self) -> Seq<char> {
        self.name@
    }

    /// A null sink with the given name.
    pub fn new(name: &str) -> (s: Self)
        ensures
            s.spec_name() == name@,
    {
        let mut n = String::new();
        push_str(&mut n, name);
        NullSink { name: n }
    }

    /// A builder for a null sink.
    pub fn builder() -> (b: NullSinkBuilder)
        ensures
            b.spec_name() == DEFAULT_NULL_NAME@,
    {
        NullSinkBuilder::new()
    }
}

impl Sink for NullSink {
    fn log(&self, _record: &Record) -> (r: Result<(), SinkError>)
        ensures
            r is Ok,
    {
        Ok(())
    }

    fn flush(&self) -> (r: Result<(), SinkError>)
        ensures
            r is Ok,
    {
        Ok(())
    }

    fn name(&self) -> (n: &str)
        ensures
            n@ == self.spec_name(),
    {
        self.name.as_str()
    }

    fn set_level(&self, _level: LevelFilter) {
    }
}

/// Builds a [`NullSink`].
pub struct NullSinkBuilder {
    name: String,
}

impl NullSinkBuilder {
    pub closed spec fn spec_name(&self) -> Seq<char> {
        self.name@
    }

    /// A builder whose sink is named [`DEFAULT_NULL_NAME`].
    pub fn new() -> (b: Self)
        ensures
            b.spec_name() == DEFAULT_NULL_NAME@,
    {
        let mut n = String::new();
        push_str(&mut n, DEFAULT_NULL_NAME);
        NullSinkBuilder { name: n }
    }

    /// Sets the name of the sink to build.
    pub fn name(&mut self, name: &str) -> (r: &mut Self)
        ensures
            r.spec_name() == name@,
            *final(self) == *final(r),
    {
        let mut n = String::new();
        push_str(&mut n, name);
        self.name = n;
        self
    }

    /// Builds the sink.
    pub fn build(&self) -> (s: NullSink)
        ensures
            s.spec_name() == self.spec_name(),
    {
        NullSink::new(self.name.as_str())
    }
}

impl Default for NullSinkBuilder {
    fn default() -> (b: Self)
        ensures
            b.spec_name() == DEFAULT_NULL_NAME@,
    {
        Self::new()
    }
}

} // verus!
