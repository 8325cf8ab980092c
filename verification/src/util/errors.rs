//! Error types of the library.

use crate::util::text::{dec, push_char, push_dec, push_str};
use vstd::prelude::*;

verus! {

/// An error of some kind, optionally carrying the message of the error that caused it.
#[derive(Debug, Clone)]
pub struct BaseError<Kind> {
    pub(crate) kind: Kind,
    pub(crate) source: Option<String>,
}

impl<Kind> BaseError<Kind> {
    pub closed spec fn spec_kind(&self) -> Kind {
        self.kind
    }

    pub closed spec fn spec_source(&self) -> Option<Seq<char>> {
        match self.source {
            Some(s) => Some(s@),
            None => None,
        }
    }

    /// An error without a source.
    pub fn new(kind: Kind) -> (e: Self)
        ensures
            e.spec_kind() == kind,
            e.spec_source() == None::<Seq<char>>,
    {
        Self { kind, source: None }
    }

    /// An error caused by another one, whose message is `source`.
    pub fn with_source(kind: Kind, source: String) -> (e: Self)
        ensures
            e.spec_kind() == kind,
            e.spec_source() == Some(source@),
    {
        Self { kind, source: Some(source) }
    }

    /// Turns the error of `raw_error` into an error of this type with `kind`, recording the
    /// original error as its source; an `Ok` value passes through.
    pub fn try_with_source<T1>(kind: Kind, raw_error: Result<T1, String>) -> (r: Result<T1, Self>)
        ensures
            raw_error is Ok <==> r is Ok,
            raw_error matches Ok(v) ==> r == Ok::<T1, Self>(v),
            raw_error matches Err(src) ==> (r matches Err(e) && e.spec_kind() == kind
                && e.spec_source() == Some(src@)),
    {
        match raw_error {
            Ok(ok_val) => Ok(ok_val),
            Err(err_val) => Err(Self::with_source(kind, err_val)),
        }
    }

    /// The kind of the error.
    pub fn kind(&self) -> (k: &Kind)
        ensures
            *k == self.spec_kind(),
    {
        &self.kind
    }

    /// The message of the error that caused this one, if any.
    pub fn source(&self) -> (s: Option<&String>)
        ensures
            match s {
                Some(t) => self.spec_source() == Some(t@),
                None => self.spec_source() == None::<Seq<char>>,
            },
    {
        match &self.source {
            Some(t) => Some(t),
            None => None,
        }
    }
}

/// An error of a sink.
pub type SinkError = BaseError<SinkErrorKinds>;

/// What went wrong in a sink.
#[derive(Debug, Clone, Copy, PartialEq, Eq, Structural)]
pub enum SinkErrorKinds {
    FlushError,
    WriteError,
    OpenFileError,
    DuplicateName,
}

impl SinkErrorKinds {
    /// The message that describes the kind.
    pub fn message(&self) -> (m: &'static str)
        ensures
            m@ == sink_error_message(*self),
    {
        match self {
            SinkErrorKinds::FlushError => "sink error when flushing.",
            SinkErrorKinds::WriteError => "Sink error when writing to the output.",
            SinkErrorKinds::OpenFileError => "Could not open file.",
            SinkErrorKinds::DuplicateName => "Crate sink with a duplicate name.",
        }
    }
}

pub open spec fn sink_error_message(k: SinkErrorKinds) -> Seq<char> {
    match k {
        SinkErrorKinds::FlushError => "sink error when flushing."@,
        SinkErrorKinds::WriteError => "Sink error when writing to the output."@,
        SinkErrorKinds::OpenFileError => "Could not open file."@,
        SinkErrorKinds::DuplicateName => "Crate sink with a duplicate name."@,
    }
}

/// An error of a logger.
pub type LoggerError = BaseError<LoggerErrorKind>;

/// What went wrong in a logger.
#[derive(Debug, Clone, Copy, PartialEq, Eq, Structural)]
pub enum LoggerErrorKind {
    SinkNameNotFound,
    FlushError,
    LogError,
}

impl LoggerErrorKind {
    /// The message that describes the kind.
    pub fn message(&self) -> (m: &'static str)
        ensures
            m@ == logger_error_message(*self),
    {
        match self {
            LoggerErrorKind::SinkNameNotFound => "Can't find the name on the logger's sink list.",
            LoggerErrorKind::FlushError => "Error when flushing.",
            LoggerErrorKind::LogError => "Error when loging",
        }
    }
}

pub open spec fn logger_error_message(k: LoggerErrorKind) -> Seq<char> {
    match k {
        LoggerErrorKind::SinkNameNotFound => "Can't find the name on the logger's sink list."@,
        LoggerErrorKind::FlushError => "Error when flushing."@,
        LoggerErrorKind::LogError => "Error when loging"@,
    }
}

/// An error found while parsing a pattern string or an ANSI escape sequence, with the
/// character offset at which it was found.
#[derive(Debug, Clone, Copy, PartialEq, Eq, Structural)]
pub struct ParseError {
    pub kind: ParseErrorKind,
    pub offset: usize,
}

/// What a parse found wrong.
#[derive(Debug, Clone, Copy, PartialEq, Eq, Structural)]
pub enum ParseErrorKind {
    /// A character after `%` that names no pattern.
    UnexpectedPattern(char),
    /// The pattern string ended where a pattern character was expected.
    PatternNotFound,
    /// The text is not an ANSI escape sequence of the accepted form.
    NotANSI,
}

/// The message of a parse error.
pub open spec fn parse_error_message(e: ParseError) -> Seq<char> {
    match e.kind {
        ParseErrorKind::UnexpectedPattern(c) => "Unexpected pattern character. Found '"@ + seq![c]
            + "' at offset "@ + dec(e.offset as nat) + "."@,
        ParseErrorKind::PatternNotFound => "Expected a pattern character, but the pattern string ended."@,
        ParseErrorKind::NotANSI => "Not an ANSI escape sequence: unexpected character at offset "@
            + dec(e.offset as nat) + "."@,
    }
}

impl ParseError {
    pub fn new(kind: ParseErrorKind, offset: usize) -> (e: Self)
        ensures
            e.kind == kind,
            e.offset == offset,
    {
        Self { kind, offset }
    }

    pub fn kind(&self) -> (k: ParseErrorKind)
        ensures
            k == self.kind,
    {
        self.kind
    }

    pub fn offset(&self) -> (o: usize)
        ensures
            o == self.offset,
    {
        self.offset
    }

    /// The message that describes the error.
    pub fn as_string(&self) -> (s: String)
        ensures
            s@ == parse_error_message(*self),
    {
        let mut s = String::new();
        match self.kind {
            ParseErrorKind::UnexpectedPattern(c) => {
                push_str(&mut s, "Unexpected pattern character. Found '");
                push_char(&mut s, c);
                push_str(&mut s, "' at offset ");
                push_dec(&mut s, self.offset as u128);
                push_str(&mut s, ".");
            },
            ParseErrorKind::PatternNotFound => {
                push_str(&mut s, "Expected a pattern character, but the pattern string ended.");
            },
            ParseErrorKind::NotANSI => {
                push_str(&mut s, "Not an ANSI escape sequence: unexpected character at offset ");
                push_dec(&mut s, self.offset as u128);
                push_str(&mut s, ".");
            },
        }
        proof {
            assert(s@ =~= parse_error_message(*self));
        }
        s
    }
}

} // verus!
