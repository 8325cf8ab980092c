use multi_logging::util::errors::{
    BaseError, LoggerError, LoggerErrorKind, ParseError, ParseErrorKind, SinkError, SinkErrorKinds,
};

#[test]
fn base_error_without_source() {
    let e: SinkError = BaseError::new(SinkErrorKinds::WriteError);
    assert_eq!(*e.kind(), SinkErrorKinds::WriteError);
    assert!(e.source().is_none());
}

#[test]
fn base_error_with_source() {
    let e: LoggerError = BaseError::with_source(LoggerErrorKind::LogError, "disk full".to_string());
    assert_eq!(*e.kind(), LoggerErrorKind::LogError);
    assert_eq!(e.source().unwrap().as_str(), "disk full");
}

#[test]
fn try_with_source_keeps_ok_and_wraps_err() {
    let ok: Result<u32, LoggerError> =
        BaseError::try_with_source(LoggerErrorKind::FlushError, Ok::<u32, String>(7));
    assert_eq!(ok.unwrap(), 7);
    let err: Result<u32, LoggerError> =
        BaseError::try_with_source(LoggerErrorKind::FlushError, Err::<u32, String>("io".to_string()));
    let e = err.err().unwrap();
    assert_eq!(*e.kind(), LoggerErrorKind::FlushError);
    assert_eq!(e.source().unwrap().as_str(), "io");
}

#[test]
fn sink_error_messages() {
    assert_eq!(SinkErrorKinds::FlushError.message(), "sink error when flushing.");
    assert_eq!(SinkErrorKinds::WriteError.message(), "Sink error when writing to the output.");
    assert_eq!(SinkErrorKinds::OpenFileError.message(), "Could not open file.");
    assert_eq!(SinkErrorKinds::DuplicateName.message(), "Crate sink with a duplicate name.");
}

#[test]
fn logger_error_messages() {
    assert_eq!(
        LoggerErrorKind::SinkNameNotFound.message(),
        "Can't find the name on the logger's sink list."
    );
    assert_eq!(LoggerErrorKind::FlushError.message(), "Error when flushing.");
    assert_eq!(LoggerErrorKind::LogError.message(), "Error when loging");
}

#[test]
fn parse_error_messages() {
    let e = ParseError::new(ParseErrorKind::UnexpectedPattern('q'), 12);
    assert_eq!(e.kind(), ParseErrorKind::UnexpectedPattern('q'));
    assert_eq!(e.offset(), 12);
    assert_eq!(e.as_string(), "Unexpected pattern character. Found 'q' at offset 12.");
    let e = ParseError::new(ParseErrorKind::PatternNotFound, 3);
    assert_eq!(e.as_string(), "Expected a pattern character, but the pattern string ended.");
    let e = ParseError::new(ParseErrorKind::NotANSI, 0);
    assert_eq!(e.as_string(), "Not an ANSI escape sequence: unexpected character at offset 0.");
}
