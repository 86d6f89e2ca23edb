use sm_menu::command::{Command, CommandCategory, CommandRegistry, CommandResult, ResultModel};
use sm_menu::commands::MenuCommand;
use sm_menu::error::{CliResult, ErrorModel};
use vstd::seq::Seq;

#[derive(Debug)]
struct TestCommand {
    name: &'static str,
    description: &'static str,
}

impl Command for TestCommand {
    // the specification-level items are never called at run time
    fn spec_name(&self) -> Seq<char> {
        unreachable!()
    }

    fn spec_description(&self) -> Seq<char> {
        unreachable!()
    }

    fn spec_aliases(&self) -> Seq<Seq<char>> {
        unreachable!()
    }

    fn spec_subcommands(&self) -> Seq<MenuCommand> {
        unreachable!()
    }

    fn spec_category(&self) -> CommandCategory {
        unreachable!()
    }

    fn spec_execute(&self, _args: Seq<Seq<char>>) -> Result<ResultModel, ErrorModel> {
        unreachable!()
    }

    fn name(&self) -> &'static str {
        self.name
    }

    fn description(&self) -> &'static str {
        self.description
    }

    fn aliases(&self) -> Vec<&'static str> {
        vec!["t"]
    }

    fn subcommands(&self) -> Vec<MenuCommand> {
        Vec::new()
    }

    fn category(&self) -> CommandCategory {
        CommandCategory::General
    }

    fn execute(&mut self, _args: &[String]) -> CliResult<CommandResult> {
        Ok(CommandResult::Success("Test executed".to_string()))
    }
}

#[test]
fn test_command_matches() {
    let cmd = TestCommand {
        name: "test",
        description: "Test command",
    };

    assert!(cmd.matches("test"));
    assert!(cmd.matches("t"));
    assert!(!cmd.matches("other"));
}

#[test]
fn test_command_matches_case_insensitive() {
    let cmd = TestCommand {
        name: "test",
        description: "Test command",
    };

    assert!(cmd.matches("test"));
    assert!(cmd.matches("Test"));
    assert!(cmd.matches("TEST"));
    assert!(cmd.matches("tEsT"));

    assert!(cmd.matches("t"));
    assert!(cmd.matches("T"));

    assert!(!cmd.matches("other"));
    assert!(!cmd.matches("OTHER"));
}

#[test]
fn test_command_help() {
    let cmd = TestCommand {
        name: "test",
        description: "Test command",
    };

    assert_eq!(cmd.help(), "test (t) - Test command");
}

#[test]
fn test_command_result() {
    let result = CommandResult::success("Test message");
    assert_eq!(result, CommandResult::Success("Test message".to_string()));

    let result = CommandResult::success_silent();
    assert_eq!(result, CommandResult::Success(String::new()));
}

#[test]
fn test_command_registry() {
    let mut registry = CommandRegistry::new();
    let cmd = TestCommand {
        name: "test",
        description: "Test command",
    };

    registry.register(cmd);
    assert!(registry.find_command("test").is_some());
    assert!(registry.find_command("t").is_some());
    assert!(registry.find_command("other").is_none());
}

#[test]
fn test_command_registry_case_insensitive() {
    let mut registry = CommandRegistry::new();
    let cmd = TestCommand {
        name: "test",
        description: "Test command",
    };

    registry.register(cmd);

    assert!(registry.find_command("test").is_some());
    assert!(registry.find_command("Test").is_some());
    assert!(registry.find_command("TEST").is_some());
    assert!(registry.find_command("tEsT").is_some());

    assert!(registry.find_command("t").is_some());
    assert!(registry.find_command("T").is_some());

    assert!(registry.find_command("other").is_none());
    assert!(registry.find_command("OTHER").is_none());
}

#[test]
fn test_command_registry_first_match_and_groups() {
    let mut registry = CommandRegistry::new();
    registry.register(TestCommand {
        name: "alpha",
        description: "First",
    });
    registry.register(TestCommand {
        name: "beta",
        description: "Second",
    });

    let found = registry.find_command("alpha").expect("alpha is registered");
    assert_eq!(found.description(), "First");
    // both commands share the alias "t"; the first registered one wins
    let by_alias = registry.find_command("t").expect("alias matches");
    assert_eq!(by_alias.name(), "alpha");

    // only the categories of registered commands appear
    let groups = registry.commands_by_category();
    assert_eq!(groups.len(), 1);
    assert_eq!(groups[0].0, CommandCategory::General);
    assert_eq!(groups[0].1.len(), 2);
    assert_eq!(groups[0].1[0].name(), "alpha");
    assert_eq!(groups[0].1[1].name(), "beta");
}

#[derive(Debug)]
struct CatCommand {
    name: &'static str,
    category: CommandCategory,
}

impl Command for CatCommand {
    // the specification-level items are never called at run time
    fn spec_name(&self) -> Seq<char> {
        unreachable!()
    }

    fn spec_description(&self) -> Seq<char> {
        unreachable!()
    }

    fn spec_aliases(&self) -> Seq<Seq<char>> {
        unreachable!()
    }

    fn spec_subcommands(&self) -> Seq<MenuCommand> {
        unreachable!()
    }

    fn spec_category(&self) -> CommandCategory {
        unreachable!()
    }

    fn spec_execute(&self, _args: Seq<Seq<char>>) -> Result<ResultModel, ErrorModel> {
        unreachable!()
    }

    fn name(&self) -> &'static str {
        self.name
    }

    fn description(&self) -> &'static str {
        "A categorized command"
    }

    fn aliases(&self) -> Vec<&'static str> {
        Vec::new()
    }

    fn subcommands(&self) -> Vec<MenuCommand> {
        Vec::new()
    }

    fn category(&self) -> CommandCategory {
        self.category
    }

    fn execute(&mut self, _args: &[String]) -> CliResult<CommandResult> {
        Ok(CommandResult::Continue)
    }
}

#[test]
fn test_commands_by_category_groups_in_declaration_order() {
    let mut registry = CommandRegistry::new();
    registry.register(CatCommand {
        name: "snapshot",
        category: CommandCategory::View,
    });
    registry.register(CatCommand {
        name: "open",
        category: CommandCategory::File,
    });
    registry.register(CatCommand {
        name: "close",
        category: CommandCategory::File,
    });

    let groups = registry.commands_by_category();
    assert_eq!(groups.len(), 2);
    // declaration order: File before View, regardless of registration order
    assert_eq!(groups[0].0, CommandCategory::File);
    assert_eq!(groups[0].1.len(), 2);
    assert_eq!(groups[0].1[0].name(), "open");
    assert_eq!(groups[0].1[1].name(), "close");
    assert_eq!(groups[1].0, CommandCategory::View);
    assert_eq!(groups[1].1.len(), 1);
    assert_eq!(groups[1].1[0].name(), "snapshot");

    // an empty registry yields no groups at all
    let empty: CommandRegistry<CatCommand> = CommandRegistry::new();
    assert!(empty.commands_by_category().is_empty());
}

#[test]
fn test_command_usage_and_category_names() {
    let cmd = TestCommand {
        name: "test",
        description: "Test command",
    };
    assert_eq!(cmd.usage(), "test [OPTIONS]");
    assert!(!cmd.has_subcommands());

    assert_eq!(CommandCategory::General.display_name(), "General");
    assert_eq!(CommandCategory::File.display_name(), "File Operations");
    assert_eq!(CommandCategory::Edit.display_name(), "Edit Operations");
    assert_eq!(CommandCategory::View.display_name(), "View Operations");
    assert_eq!(CommandCategory::System.display_name(), "System");
}
