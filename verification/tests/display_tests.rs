use sm_menu::disp::{DisplayManager, TerminalUtils};
use sm_menu::error::CliError;

#[test]
fn test_display_manager_creation() {
    let dm = DisplayManager::new();
    assert!(dm.colored);
    assert!(dm.unicode);

    let dm = DisplayManager::with_options(false, false);
    assert!(!dm.colored);
    assert!(!dm.unicode);
}

#[test]
fn test_format_command_with_alias() {
    let dm = DisplayManager::with_options(false, true);

    let result = dm.format_command_with_alias("help", Some("h"));
    assert_eq!(result, "help");

    let result = dm.format_command_with_alias("test", None);
    assert_eq!(result, "test");
}

#[test]
fn test_format_command_with_alias_colored() {
    let dm = DisplayManager::with_options(true, true);

    let result = dm.format_command_with_alias("help", Some("h"));
    assert_eq!(result, "\x1b[1mh\x1b[0melp");

    let result = dm.format_command_with_alias("show", Some("sh"));
    assert_eq!(result, "\x1b[1ms\x1b[0mhow");

    // an alias that does not start with the name's first letter adds nothing
    let result = dm.format_command_with_alias("vers", Some("x"));
    assert_eq!(result, "vers");
}

#[test]
fn test_format_command_name() {
    let dm = DisplayManager::with_options(true, true);

    let result = dm.format_command_name("file");
    assert_eq!(result, "\x1b[1mF\x1b[0mile");

    let result = dm.format_command_name("edit");
    assert_eq!(result, "\x1b[1mE\x1b[0mdit");

    let result = dm.format_command_name("view");
    assert_eq!(result, "\x1b[1mV\x1b[0miew");

    let result = dm.format_command_name("help");
    assert_eq!(result, "\x1b[1mH\x1b[0melp");

    let result = dm.format_command_name("quit");
    assert_eq!(result, "\x1b[1mQ\x1b[0muit");

    let result = dm.format_command_name("info");
    assert_eq!(result, "\x1b[1mI\x1b[0mnfo");

    let result = dm.format_command_name("load");
    assert_eq!(result, "\x1b[1mL\x1b[0moad");

    let result = dm.format_command_name("save");
    assert_eq!(result, "\x1b[1mS\x1b[0mave");

    let result = dm.format_command_name("exit");
    assert_eq!(result, "\x1b[1mE\x1b[0mxit");

    let result = dm.format_command_name("axis");
    assert_eq!(result, "\x1b[1mA\x1b[0mxis");

    let result = dm.format_command_name("show");
    assert_eq!(result, "\x1b[1mS\x1b[0mhow");

    let result = dm.format_command_name("vers");
    assert_eq!(result, "\x1b[1mV\x1b[0mers");

    let result = dm.format_command_name("View");
    assert_eq!(result, "\x1b[1mV\x1b[0miew");

    let result = dm.format_command_name("FILE");
    assert_eq!(result, "\x1b[1mF\x1b[0mile");

    let result = dm.format_command_name("unknown");
    assert_eq!(result, "unknown");

    let dm_no_color = DisplayManager::with_options(false, true);
    let result = dm_no_color.format_command_name("view");
    assert_eq!(result, "view");

    let result = dm_no_color.format_command_name("file");
    assert_eq!(result, "file");
}

#[test]
fn test_terminal_utils() {
    assert_eq!(TerminalUtils::get_width(), 80);
    assert_eq!(TerminalUtils::get_height(), 24);
}

#[test]
fn test_format_error_line() {
    let dm = DisplayManager::with_options(false, false);
    let line = dm.format_error(&CliError::EmptyInput);
    assert_eq!(line, "! Empty input provided");

    let dm = DisplayManager::with_options(true, false);
    let line = dm.format_error(&CliError::internal_error("boom"));
    assert_eq!(
        line,
        "\x1b[1;35m!! Internal error: boom (please report this bug)\x1b[0m"
    );

    let dm = DisplayManager::with_options(true, true);
    let line = dm.format_error(&CliError::invalid_command("nope"));
    assert_eq!(line, "\x1b[1;33m⚠️ Invalid command: 'nope'\x1b[0m");
}
