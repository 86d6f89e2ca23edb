use sm_menu::commands::quit::QuitCommand;
use sm_menu::commands::{MenuCommand, RootCommand};
use sm_menu::dispatch::{handle_input, DispatchNote};
use sm_menu::error::CliError;
use sm_menu::CliContext;

fn fresh_session() -> (Vec<MenuCommand>, CliContext) {
    (vec![MenuCommand::Root(RootCommand)], CliContext::new())
}

#[test]
fn test_end_to_end_session() {
    let (mut stack, mut context) = fresh_session();

    // from root, "file" enters the file submenu
    let note = handle_input("file", &mut stack, &mut context).expect("file is a root command");
    assert!(matches!(note, DispatchNote::Quiet));
    assert_eq!(context.depth(), 1);
    assert_eq!(stack.len(), 2);

    // "load readme.txt" reports the loading notice and stays at depth 1
    let note = handle_input("load readme.txt", &mut stack, &mut context).expect("load succeeds");
    assert!(matches!(note, DispatchNote::Message(m) if m == "Loading file: readme.txt"));
    assert_eq!(context.depth(), 1);

    // "exit" returns to the root
    let note = handle_input("exit", &mut stack, &mut context).expect("exit succeeds");
    assert!(matches!(note, DispatchNote::Quiet));
    assert_eq!(context.depth(), 0);
    assert_eq!(stack.len(), 1);

    // "quit" ends the session
    let note = handle_input("quit", &mut stack, &mut context).expect("quit succeeds");
    assert!(matches!(note, DispatchNote::Quiet));
    assert!(!context.running);
}

#[test]
fn test_go_up_at_root_is_noticed() {
    // a menu whose children include "exit", used directly as the root
    let mut stack = vec![MenuCommand::Quit(QuitCommand::new())];
    let mut context = CliContext::new();

    for _ in 0..3 {
        let note = handle_input("exit", &mut stack, &mut context).expect("exit never errors");
        assert!(matches!(note, DispatchNote::AtRoot));
        assert_eq!(stack.len(), 1);
        assert_eq!(context.depth(), 0);
    }
}

#[test]
fn test_unknown_command_leaves_state_unchanged() {
    let (mut stack, mut context) = fresh_session();

    let err = handle_input("frobnicate", &mut stack, &mut context).unwrap_err();
    assert!(matches!(err, CliError::InvalidCommand(name) if name == "frobnicate"));
    assert_eq!(stack.len(), 1);
    assert_eq!(context.depth(), 0);
    assert!(context.running);

    // the same holds at depth 1
    handle_input("edit", &mut stack, &mut context).expect("edit is a root command");
    assert_eq!(context.depth(), 1);
    let err = handle_input("frobnicate more args", &mut stack, &mut context).unwrap_err();
    assert!(matches!(err, CliError::InvalidCommand(name) if name == "frobnicate"));
    assert_eq!(stack.len(), 2);
    assert_eq!(context.depth(), 1);
}

#[test]
fn test_empty_input_is_rejected() {
    let (mut stack, mut context) = fresh_session();

    let err = handle_input("   ", &mut stack, &mut context).unwrap_err();
    assert!(matches!(err, CliError::EmptyInput));
    assert_eq!(stack.len(), 1);
}

#[test]
fn test_dispatch_matches_aliases_case_insensitively() {
    let (mut stack, mut context) = fresh_session();

    handle_input("F", &mut stack, &mut context).expect("alias reaches the file menu");
    assert_eq!(context.depth(), 1);
    assert_eq!(context.current_path(), vec!["file"]);

    handle_input("EXIT", &mut stack, &mut context).expect("alias reaches exit");
    assert_eq!(context.depth(), 0);
}

#[test]
fn test_dispatch_command_error_keeps_depth() {
    let (mut stack, mut context) = fresh_session();

    handle_input("file", &mut stack, &mut context).expect("file is a root command");
    let err = handle_input("load", &mut stack, &mut context).unwrap_err();
    assert!(matches!(
        err,
        CliError::TooFewArguments {
            expected: 1,
            found: 0
        }
    ));
    assert_eq!(context.depth(), 1);
    assert_eq!(stack.len(), 2);
}

#[test]
fn test_nested_file_menu() {
    let (mut stack, mut context) = fresh_session();

    handle_input("file", &mut stack, &mut context).expect("file is a root command");
    handle_input("file", &mut stack, &mut context).expect("the file menu nests itself");
    assert_eq!(context.depth(), 2);
    assert_eq!(context.current_path(), vec!["file", "file"]);

    handle_input("exit", &mut stack, &mut context).expect("exit succeeds");
    handle_input("exit", &mut stack, &mut context).expect("exit succeeds");
    assert_eq!(context.depth(), 0);
}

#[test]
fn test_info_is_a_quiet_success_message() {
    let (mut stack, mut context) = fresh_session();

    let note = handle_input("info", &mut stack, &mut context).expect("info succeeds");
    assert!(matches!(
        note,
        DispatchNote::Message(m) if m.starts_with("root menu information:")
    ));
    assert_eq!(context.depth(), 0);
}
