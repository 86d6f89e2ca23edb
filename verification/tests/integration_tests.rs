use sm_menu::command::{Command, CommandResult};
use sm_menu::commands::file::FileCommand;
use sm_menu::commands::help::HelpCommand;
use sm_menu::commands::quit::QuitCommand;
use sm_menu::commands::vers::VersCommand;
use sm_menu::error::CliError;

#[test]
fn test_vers_command_error_handling() {
    let mut cmd = VersCommand::new();

    let result = cmd.execute(&[]);
    assert!(result.is_ok());

    let result = cmd.execute(&["arg1".to_string(), "arg2".to_string()]);
    assert!(result.is_err());

    if let Err(CliError::TooManyArguments { expected, found }) = result {
        assert_eq!(expected, 0);
        assert_eq!(found, 2);
    } else {
        panic!("Expected TooManyArguments error");
    }
}

#[test]
fn test_help_command_error_handling() {
    let mut cmd = HelpCommand::new();

    let result = cmd.execute(&[]);
    assert!(result.is_ok());

    let result = cmd.execute(&["file".to_string()]);
    assert!(result.is_ok());

    let result = cmd.execute(&["invalid".to_string()]);
    assert!(result.is_err());

    if let Err(CliError::InvalidInput(_)) = result {
        // Expected error type
    } else {
        panic!("Expected InvalidInput error");
    }

    let result = cmd.execute(&["file".to_string(), "extra".to_string()]);
    assert!(result.is_err());

    if let Err(CliError::TooManyArguments { expected, found }) = result {
        assert_eq!(expected, 1);
        assert_eq!(found, 2);
    } else {
        panic!("Expected TooManyArguments error");
    }
}

#[test]
fn test_quit_command_error_handling() {
    let mut cmd = QuitCommand::new();

    let result = cmd.execute(&[]);
    assert!(result.is_ok());

    if let Ok(CommandResult::Quit) = result {
        // Expected result
    } else {
        panic!("Expected Quit result");
    }

    let result = cmd.execute(&["arg1".to_string()]);
    assert!(result.is_err());

    if let Err(CliError::TooManyArguments { expected, found }) = result {
        assert_eq!(expected, 0);
        assert_eq!(found, 1);
    } else {
        panic!("Expected TooManyArguments error");
    }
}

#[test]
fn test_file_command_error_handling() {
    let mut cmd = FileCommand::new();

    let result = cmd.execute(&[]);
    assert!(result.is_ok());

    let result = cmd.execute(&["arg1".to_string()]);
    assert!(result.is_err());

    if let Err(CliError::TooManyArguments { expected, found }) = result {
        assert_eq!(expected, 0);
        assert_eq!(found, 1);
    } else {
        panic!("Expected TooManyArguments error");
    }
}

#[test]
fn test_load_command_exact_arity() {
    let mut cmd = sm_menu::commands::load::LoadCommand::new();

    // exactly one argument succeeds
    let result = cmd.execute(&["readme.txt".to_string()]);
    assert!(matches!(result, Ok(CommandResult::Success(m)) if m == "Loading file: readme.txt"));

    // one fewer yields TooFewArguments
    let result = cmd.execute(&[]);
    if let Err(CliError::TooFewArguments { expected, found }) = result {
        assert_eq!(expected, 1);
        assert_eq!(found, 0);
    } else {
        panic!("Expected TooFewArguments error");
    }

    // one more yields TooManyArguments
    let result = cmd.execute(&["a".to_string(), "b".to_string()]);
    if let Err(CliError::TooManyArguments { expected, found }) = result {
        assert_eq!(expected, 1);
        assert_eq!(found, 2);
    } else {
        panic!("Expected TooManyArguments error");
    }
}

#[test]
fn test_load_command_validation() {
    let mut cmd = sm_menu::commands::load::LoadCommand::new();

    assert!(matches!(
        cmd.execute(&["../secret".to_string()]),
        Err(CliError::InvalidInput(m)) if m == "Invalid filename: path traversal not allowed"
    ));
    assert!(matches!(
        cmd.execute(&["data.missing".to_string()]),
        Err(CliError::FileNotFound(m)) if m == "data.missing"
    ));
    assert!(matches!(
        cmd.execute(&["  ".to_string()]),
        Err(CliError::InvalidInput(m)) if m == "Filename cannot be empty"
    ));
}

#[test]
fn test_save_command_validation() {
    let mut cmd = sm_menu::commands::save::SaveCommand::new();

    assert!(matches!(
        cmd.execute(&[]),
        Ok(CommandResult::Success(m)) if m == "Saving file: untitled.txt"
    ));
    assert!(matches!(
        cmd.execute(&["notes.txt".to_string()]),
        Ok(CommandResult::Success(m)) if m == "Saving file: notes.txt"
    ));
    assert!(matches!(
        cmd.execute(&["/etc/passwd".to_string()]),
        Err(CliError::PermissionDenied(m)) if m == "Cannot save to system directory: /etc/passwd"
    ));
    assert!(matches!(
        cmd.execute(&["a/../b".to_string()]),
        Err(CliError::InvalidInput(_))
    ));
}

#[test]
fn test_axis_command_validation() {
    let mut cmd = sm_menu::commands::axis::AxisCommand::new("edit");

    assert!(matches!(
        cmd.execute(&[]),
        Ok(CommandResult::Success(m)) if m == "Configuring axis properties for editing: default"
    ));
    assert!(matches!(
        cmd.execute(&["x_1-b".to_string()]),
        Ok(CommandResult::Success(m)) if m == "Configuring axis properties for editing: x_1-b"
    ));
    assert!(matches!(
        cmd.execute(&["bad!name".to_string()]),
        Err(CliError::InvalidInput(m))
            if m == "Axis name can only contain alphanumeric characters, underscores, and hyphens"
    ));

    let mut viewer = sm_menu::commands::axis::AxisCommand::new("view");
    assert!(matches!(
        viewer.execute(&["pitch".to_string()]),
        Ok(CommandResult::Success(m)) if m == "Configuring axis properties for viewing: pitch"
    ));
}

#[test]
fn test_help_topics() {
    let mut cmd = HelpCommand::new();

    let result = cmd.execute(&["quit".to_string()]);
    assert!(matches!(
        result,
        Ok(CommandResult::Success(m))
            if m == "Quit Command Help\n=================\nThe quit command exits the program.\nUsage: quit (no arguments)"
    ));

    // aliases reach the same topics
    let by_alias = cmd.execute(&["q".to_string()]);
    assert!(matches!(by_alias, Ok(CommandResult::Success(_))));

    let general = cmd.execute(&[]);
    if let Ok(CommandResult::Success(m)) = general {
        assert!(m.starts_with("simple-menu Help\n===========\nAvailable commands:"));
        assert!(m.contains("\x1b[1mf\x1b[0mile - File operations"));
        assert!(m.ends_with("Use 'help <command>' for specific command help."));
    } else {
        panic!("Expected general help text");
    }
}

#[test]
fn test_vers_command_output() {
    let mut cmd = VersCommand::new();
    assert!(matches!(
        cmd.execute(&[]),
        Ok(CommandResult::Success(m)) if m == "sm-menu > version 0.1.0"
    ));
}

#[test]
fn test_show_command_output() {
    let mut cmd = sm_menu::commands::show::ShowCommand::new("view");
    assert!(matches!(
        cmd.execute(&[]),
        Ok(CommandResult::Success(m))
            if m == "Displaying current view state...\nView mode: Active\nCurrent perspective: Default"
    ));
}
