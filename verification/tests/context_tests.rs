use sm_menu::command::Command;
use sm_menu::commands::RootCommand;
use sm_menu::context::{get_relative_path, validate_transition, CliContext};

#[test]
fn test_context_creation() {
    let context = CliContext::new();
    assert!(context.running);
    assert!(context.current_path().is_empty());
    assert!(context.is_root());
    assert_eq!(context.depth(), 0);
}

#[test]
fn test_context_navigation() {
    let mut context = CliContext::new();

    context.push_context("file".to_string());
    assert_eq!(context.current_path(), &["file"]);
    assert_eq!(context.depth(), 1);
    assert!(!context.is_root());

    let popped = context.pop_context();
    assert_eq!(popped, Some("file".to_string()));
    assert!(context.is_root());
    assert_eq!(context.depth(), 0);
}

#[test]
fn test_prompt_generation() {
    let mut context = CliContext::new();
    context.preferences_mut().colored_prompt = false;

    assert_eq!(context.get_prompt(), "sm-menu > ");

    context.push_context("file".to_string());
    assert_eq!(context.get_prompt(), "sm-menu ~ file > ");

    context.push_context("load".to_string());
    assert_eq!(context.get_prompt(), "sm-menu ~ file > load > ");
}

#[test]
fn test_colored_prompt_generation() {
    let mut context = CliContext::new();
    context.preferences_mut().colored_prompt = true;

    assert_eq!(
        context.get_prompt(),
        "\x1b[38;2;0;215;135msm-menu\x1b[0m > "
    );

    context.push_context("file".to_string());
    assert_eq!(
        context.get_prompt(),
        "\x1b[38;2;0;215;135msm-menu\x1b[0m ~ file > "
    );
}

#[test]
fn test_history_management() {
    let mut context = CliContext::new();

    context.add_to_history("command1".to_string());
    context.add_to_history("command2".to_string());
    context.add_to_history("command3".to_string());

    assert_eq!(context.history().len(), 3);

    context.add_to_history("command3".to_string());
    assert_eq!(context.history().len(), 3);

    context.add_to_history("".to_string());
    context.add_to_history("   ".to_string());
    assert_eq!(context.history().len(), 3);
}

#[test]
fn test_history_eviction() {
    let mut context = CliContext::new();
    for i in 0..150 {
        context.add_to_history(format!("cmd{i}"));
    }
    assert_eq!(context.history().len(), 100);
    // the oldest 50 entries were evicted
    assert_eq!(context.history()[0], "cmd50");
    assert_eq!(context.history()[99], "cmd149");
}

#[test]
fn test_history_cursor() {
    let mut context = CliContext::new();
    context.add_to_history("one".to_string());
    context.add_to_history("two".to_string());
    context.add_to_history("three".to_string());

    assert_eq!(context.previous_command(), Some(&"three".to_string()));
    assert_eq!(context.previous_command(), Some(&"two".to_string()));
    assert_eq!(context.previous_command(), Some(&"one".to_string()));
    assert_eq!(context.previous_command(), None);
    assert_eq!(context.next_command(), Some(&"two".to_string()));
    assert_eq!(context.next_command(), Some(&"three".to_string()));
    assert_eq!(context.next_command(), None);
}

#[test]
fn test_reset_keeps_history() {
    let mut context = CliContext::new();
    context.push_context("file".to_string());
    context.add_to_history("load a.txt".to_string());
    context.quit();

    context.reset();
    assert!(context.running);
    assert!(context.is_root());
    assert_eq!(context.history().len(), 1);
}

#[test]
fn test_get_completions() {
    let mut context = CliContext::new();
    context.add_to_history("fetch".to_string());
    context.add_to_history("load b.txt".to_string());

    let commands = RootCommand.subcommands();
    let completions = context.get_completions("f", &commands);
    assert_eq!(completions, vec!["f".to_string(), "fetch".to_string(), "file".to_string()]);

    let all = context.get_completions("qu", &commands);
    assert_eq!(all, vec!["quit".to_string()]);
}

#[test]
fn test_validate_transition() {
    assert!(validate_transition(0, 0));
    assert!(validate_transition(2, 1));
    assert!(validate_transition(1, 2));
    assert!(validate_transition(3, 0));
    assert!(!validate_transition(1, 3));
    assert!(!validate_transition(0, 2));
}

#[test]
fn test_get_relative_path() {
    let from = vec!["a".to_string(), "b".to_string(), "c".to_string()];
    let to = vec!["a".to_string(), "d".to_string()];
    assert_eq!(
        get_relative_path(&from, &to),
        vec!["..".to_string(), "..".to_string(), "d".to_string()]
    );

    let from = vec!["a".to_string()];
    let to = vec!["a".to_string(), "b".to_string()];
    assert_eq!(get_relative_path(&from, &to), vec!["b".to_string()]);
}
