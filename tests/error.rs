use pt::error::{Result, CODE_OPTIONS_ERROR, CODE_RUNTIME_ERROR};
use pt::{handle_error, Error, Handling, SourceError};

#[test]
fn test_source_error_variants() {
    let io_error = std::io::Error::other("io error");
    let err_io = SourceError::Io(io_error);
    assert!(matches!(err_io, SourceError::Io(..)));
    let err_uif = SourceError::UnsupportedInputFormat("unsupported".to_string());
    assert!(matches!(err_uif, SourceError::UnsupportedInputFormat(_)));
    let err_uof = SourceError::UnsupportedOutputFormat("unsupported".to_string());
    assert!(matches!(err_uof, SourceError::UnsupportedOutputFormat(_)));
    let err_iis = SourceError::InvalidInputSource("invalid".to_string());
    assert!(matches!(err_iis, SourceError::InvalidInputSource(_)));
    let err_msg = SourceError::Msg("message".to_string());
    assert!(matches!(err_msg, SourceError::Msg(_)));
}

#[test]
fn test_source_error_debug() {
    let err = SourceError::Msg("test".to_string());
    let debug_str = format!("{:?}", err);
    assert!(debug_str.contains("Msg"));
}

#[test]
fn test_source_error_from_string() {
    let err: SourceError = String::from("error message").into();
    assert!(matches!(err, SourceError::Msg(ref msg) if msg == "error message"));
}

#[test]
fn test_source_error_from_str() {
    let err: SourceError = "error message".into();
    assert!(matches!(err, SourceError::Msg(ref msg) if msg == "error message"));
}

#[test]
fn test_error_builder_methods() {
    let source_err = SourceError::Msg("source error".to_string());
    let err = Error::new(source_err)
        .set_context("additional context")
        .print_help()
        .set_code(42);
    assert_eq!(err.context(), "additional context");
    assert!(err.is_print_help());
    assert_eq!(err.code(), Some(42));
}

#[test]
fn test_error_display() {
    let source_err = SourceError::Msg("source error".to_string());
    let err = Error::new(source_err).set_context("additional context");
    let display_str = err.to_string();
    assert!(display_str.contains("additional context"));
    assert!(display_str.contains("source error"));
}

#[test]
fn test_handle_error_broken_pipe() {
    let io_error = std::io::Error::new(std::io::ErrorKind::BrokenPipe, "broken pipe");
    let err = Error::new(SourceError::Io(io_error));
    match err.source() {
        SourceError::Io(io_err) if io_err.kind() == std::io::ErrorKind::BrokenPipe => {}
        _ => panic!("Expected broken pipe error"),
    }
}

#[test]
fn test_handle_error_other() {
    let source_err = SourceError::Msg("some error".to_string());
    let err = Error::new(source_err);
    match err.source() {
        SourceError::Msg(msg) if msg == "some error" => {}
        _ => panic!("Expected some error message"),
    }
}

#[test]
fn test_result_type_alias() {
    fn example_function() -> Result<i32> {
        Ok(42)
    }
    let result = example_function();
    assert_eq!(result.unwrap(), 42);
}

#[test]
fn new_error_is_bare() {
    let err = Error::new(SourceError::Msg("m".to_string()));
    assert_eq!(err.code(), None);
    assert_eq!(err.context(), "");
    assert!(!err.is_print_help());
    assert_eq!(err.to_string(), "m");
}

#[test]
fn code_setters() {
    let mut err = Error::new(SourceError::Msg("m".to_string()));
    err.mut_code(7);
    assert_eq!(err.code(), Some(7));
    let err = err.unset_code();
    assert_eq!(err.code(), None);
    assert_eq!(err.exit_status(), CODE_RUNTIME_ERROR);
    let err = err.set_code(CODE_OPTIONS_ERROR);
    assert_eq!(err.exit_status(), 3);
}

#[test]
fn context_builders() {
    let mut err = Error::new(SourceError::Msg("m".to_string()));
    err.mut_context("first");
    assert_eq!(err.context(), "first");
    err.mut_context("second");
    assert_eq!(err.context(), "second\nfirst");
    let err = err.set_context("");
    assert_eq!(err.context(), "\nsecond\nfirst");
    let err = err.set_context("only");
    assert_eq!(err.context(), "only");
    assert_eq!(err.to_string(), "only\nm");
}

#[test]
fn print_help_flag_and_source_swap() {
    let mut err = Error::new(SourceError::Msg("m".to_string())).with_print_help(true);
    assert!(err.is_print_help());
    err.mut_source(SourceError::InvalidInputSource("x".to_string()));
    assert!(matches!(err.source(), SourceError::InvalidInputSource(s) if s == "x"));
    let err = err.with_print_help(false);
    assert!(!err.is_print_help());
}

#[test]
fn source_texts() {
    assert_eq!(
        SourceError::UnsupportedInputFormat("yaml".to_string()).to_string(),
        "Unsupported input format: yaml"
    );
    assert_eq!(
        SourceError::UnsupportedOutputFormat("xml".to_string()).to_string(),
        "Unsupported output format: xml"
    );
    assert_eq!(
        SourceError::InvalidInputSource("pipe".to_string()).to_string(),
        "Invalid input source: pipe"
    );
    assert_eq!(SourceError::Io(std::io::Error::other("boom")).to_string(), "boom");
}

#[test]
fn broken_pipe_is_only_warned_about() {
    let io_error = std::io::Error::new(std::io::ErrorKind::BrokenPipe, "pipe closed");
    let err = Error::new(SourceError::Io(io_error));
    match handle_error(&err) {
        Handling::BrokenPipe(line) => assert_eq!(line, "Broken pipe encountered: pipe closed"),
        Handling::Log(_) => panic!("a broken pipe should not be logged as an error"),
    }
}

#[test]
fn other_errors_are_logged_with_their_text() {
    let err = Error::new(SourceError::Msg("some error".to_string())).set_context("while probing");
    match handle_error(&err) {
        Handling::Log(line) => assert_eq!(line, "while probing\nsome error"),
        Handling::BrokenPipe(_) => panic!("not a broken pipe"),
    }
    let err = Error::new(SourceError::Io(std::io::Error::other("refused")));
    match handle_error(&err) {
        Handling::Log(line) => assert_eq!(line, "refused"),
        Handling::BrokenPipe(_) => panic!("not a broken pipe"),
    }
}
