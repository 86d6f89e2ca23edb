use sm_menu::error::{CliError, ErrorSeverity, IoFailureKind};

#[test]
fn test_error_display() {
    let error = CliError::InvalidCommand("test".to_string());
    assert_eq!(error.message(), "Invalid command: 'test'");

    let error = CliError::EmptyInput;
    assert_eq!(error.message(), "Empty input provided");

    let error = CliError::TooManyArguments {
        expected: 2,
        found: 5,
    };
    assert_eq!(error.message(), "Too many arguments: expected 2, found 5");

    let error = CliError::TooFewArguments {
        expected: 2,
        found: 1,
    };
    assert_eq!(error.message(), "Too few arguments: expected 2, found 1");

    let error = CliError::ExecutionError("command failed".to_string());
    assert_eq!(error.message(), "Command execution failed: command failed");
}

#[test]
fn test_error_severity() {
    assert_eq!(
        CliError::InvalidCommand("test".to_string()).severity(),
        ErrorSeverity::Warning
    );
    assert_eq!(
        CliError::ExecutionError("test".to_string()).severity(),
        ErrorSeverity::Error
    );
    assert_eq!(
        CliError::InternalError("test".to_string()).severity(),
        ErrorSeverity::Critical
    );
}

#[test]
fn test_error_icons() {
    assert_eq!(CliError::InvalidCommand("test".to_string()).icon(), "⚠️");
    assert_eq!(CliError::ExecutionError("test".to_string()).icon(), "❌");
    assert_eq!(CliError::InternalError("test".to_string()).icon(), "💥");
}

#[test]
fn test_error_messages_all_kinds() {
    assert_eq!(
        CliError::invalid_input("bad").message(),
        "Invalid input: bad"
    );
    assert_eq!(CliError::IoError("broken pipe".to_string()).message(), "IO error: broken pipe");
    assert_eq!(
        CliError::permission_denied("/etc/passwd").message(),
        "Permission denied: /etc/passwd"
    );
    assert_eq!(
        CliError::file_not_found("a.txt").message(),
        "File not found: a.txt"
    );
    assert_eq!(
        CliError::InvalidFileFormat("not utf-8".to_string()).message(),
        "Invalid file format: not utf-8"
    );
    assert_eq!(CliError::Interrupted.message(), "Operation interrupted by user");
    assert_eq!(
        CliError::terminal_error("no tty").message(),
        "Terminal error: no tty"
    );
    assert_eq!(
        CliError::internal_error("oops").message(),
        "Internal error: oops (please report this bug)"
    );
    assert_eq!(CliError::other("misc").message(), "Error: misc");
    assert_eq!(CliError::invalid_command("nope").message(), "Invalid command: 'nope'");
}

#[test]
fn test_io_failure_mapping() {
    assert!(matches!(
        CliError::from_io_failure(IoFailureKind::NotFound, "gone"),
        CliError::FileNotFound(m) if m == "gone"
    ));
    assert!(matches!(
        CliError::from_io_failure(IoFailureKind::PermissionDenied, "locked"),
        CliError::PermissionDenied(m) if m == "locked"
    ));
    assert!(matches!(
        CliError::from_io_failure(IoFailureKind::Interrupted, "signal"),
        CliError::Interrupted
    ));
    assert!(matches!(
        CliError::from_io_failure(IoFailureKind::Other, "strange"),
        CliError::IoError(m) if m == "strange"
    ));
}
