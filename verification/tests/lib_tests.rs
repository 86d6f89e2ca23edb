use sm_menu::{CliContext, CliError};

#[test]
fn test_cli_context_creation() {
    let context = CliContext::new();
    assert!(context.running);
    assert!(context.current_path().is_empty());
}

#[test]
fn test_cli_context_navigation() {
    let mut context = CliContext::new();

    context.preferences_mut().colored_prompt = false;

    context.push_context("file".to_string());
    assert_eq!(context.current_path(), vec!["file"]);
    assert_eq!(context.get_prompt(), "sm-menu ~ file > ");

    context.pop_context();
    assert!(context.current_path().is_empty());
    assert_eq!(context.get_prompt(), "sm-menu > ");
}

#[test]
fn lib_test_error_display() {
    let error = CliError::InvalidCommand("test".to_string());
    assert_eq!(error.message(), "Invalid command: 'test'");

    let error = CliError::EmptyInput;
    assert_eq!(error.message(), "Empty input provided");

    let error = CliError::TooManyArguments {
        expected: 2,
        found: 5,
    };
    assert_eq!(error.message(), "Too many arguments: expected 2, found 5");

    let error = CliError::TooFewArguments {
        expected: 2,
        found: 1,
    };
    assert_eq!(error.message(), "Too few arguments: expected 2, found 1");

    let error = CliError::ExecutionError("command failed".to_string());
    assert_eq!(error.message(), "Command execution failed: command failed");
}
