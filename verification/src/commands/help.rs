//! Help command: general help for all commands, and specific help for a
//! single named command.

use vstd::prelude::*;
use crate::command::{ArgumentValidator, Command, CommandCategory, CommandResult, ResultModel};
use crate::commands::{base, MenuCommand};
use crate::error::{CliResult, ErrorModel};
use crate::text::views_of;

verus! {

/// A command name with its alias's first character set in bold, when the
/// alias starts with the name's first character.
pub open spec fn spec_format_with_alias(name: Seq<char>, alias: Option<Seq<char>>) -> Seq<char> {
    match alias {
        Some(a) => {
            if name.len() > 0 && a.len() > 0 && a[0] == name[0] {
                "\u{1b}[1m"@ + seq![name[0]] + "\u{1b}[0m"@ + name.subrange(1, name.len() as int)
            } else {
                name
            }
        },
        None => name,
    }
}

/// Format a command name with a bold alias character: when the alias starts
/// with the name's first character, that character is wrapped in ANSI bold.
pub fn format_command_with_alias(name: &str, alias: Option<&str>) -> (r: String)
    ensures
        r@ == spec_format_with_alias(name@, match alias {
            Some(a) => Some(a@),
            None => None,
        }),
{
    match alias {
        Some(a) => {
            let nlen = name.unicode_len();
            let alen = a.unicode_len();
            if nlen > 0 && alen > 0 && a.get_char(0) == name.get_char(0) {
                let mut s = String::new();
                s.append("\u{1b}[1m");
                crate::text::push_char(&mut s, name.get_char(0));
                s.append("\u{1b}[0m");
                s.append(name.substring_char(1, nlen));
                proof {
                    assert(s@ =~= spec_format_with_alias(name@, Some(a@)));
                }
                s
            } else {
                let mut s = String::new();
                s.append(name);
                s
            }
        },
        None => {
            let mut s = String::new();
            s.append(name);
            s
        },
    }
}

/// The general help message listing the root commands.
pub open spec fn general_help() -> Seq<char> {
    "simple-menu Help\n===========\nAvailable commands:\n  "@
        + spec_format_with_alias("file"@, Some("f"@))
        + " - File operations: Load, Save, Version, Info, Exit\n  "@
        + spec_format_with_alias("edit"@, Some("e"@))
        + " - Edit operations: Axis, Show, Info, Exit\n  "@
        + spec_format_with_alias("view"@, Some("v"@))
        + " - View operations: Axis, Show, Info, Exit\n  "@
        + spec_format_with_alias("help"@, Some("h"@))
        + " - Display help information for available commands\n  "@
        + spec_format_with_alias("quit"@, Some("q"@))
        + " - Exit the program\n\nType a command name to enter its submenu or see its options.\nUse 'help <command>' for specific command help."@
}

/// The specific help message for the file command.
pub open spec fn file_help() -> Seq<char> {
    "File Command Help\n=================\nThe file command provides file operation functionality.\nSubcommands:\n  load <filename> - Load a file\n  save [filename] - Save a file (default: untitled.txt)\n  vers - Show version information\n  info - Show file menu information\n  exit - Return to main menu"@
}

/// The specific help message for the edit command.
pub open spec fn edit_help() -> Seq<char> {
    "Edit Command Help\n=================\nThe edit command provides editing functionality.\nSubcommands:\n  axis [name] - Configure axis properties\n  show - Display current edit state\n  info - Show edit menu information\n  exit - Return to main menu"@
}

/// The specific help message for the view command.
pub open spec fn view_help() -> Seq<char> {
    "View Command Help\n=================\nThe view command provides viewing functionality.\nSubcommands:\n  axis [name] - Configure axis properties for viewing\n  show - Display current view state\n  info - Show view menu information\n  exit - Return to main menu"@
}

/// The specific help message for the help command.
pub open spec fn help_help() -> Seq<char> {
    "Help Command Help\n=================\nThe help command displays information about available commands.\nUsage:\n  help        - Show general help\n  help <cmd>  - Show specific command help"@
}

/// The specific help message for the quit command.
pub open spec fn quit_help() -> Seq<char> {
    "Quit Command Help\n=================\nThe quit command exits the program.\nUsage: quit (no arguments)"@
}

/// What the help command answers for one topic argument.
pub open spec fn topic_help(topic: Seq<char>) -> Result<ResultModel, ErrorModel> {
    if topic == "file"@ || topic == "f"@ {
        Ok(ResultModel::Success(file_help()))
    } else if topic == "edit"@ || topic == "e"@ {
        Ok(ResultModel::Success(edit_help()))
    } else if topic == "view"@ || topic == "v"@ {
        Ok(ResultModel::Success(view_help()))
    } else if topic == "help"@ || topic == "h"@ {
        Ok(ResultModel::Success(help_help()))
    } else if topic == "quit"@ || topic == "q"@ {
        Ok(ResultModel::Success(quit_help()))
    } else {
        Err(ErrorModel::InvalidInput("No help available for command: "@ + topic))
    }
}

/// Help command displaying available commands and their descriptions.
#[derive(Debug)]
pub struct HelpCommand;

impl HelpCommand {
    pub fn new() -> (r: Self) {
        HelpCommand
    }
}

impl Default for HelpCommand {
    fn default() -> (r: Self) {
        Self::new()
    }
}

impl ArgumentValidator for HelpCommand {}

impl Command for HelpCommand {
    open spec fn spec_name(&self) -> Seq<char> {
        "help"@
    }

    open spec fn spec_description(&self) -> Seq<char> {
        "Help information for the available commands"@
    }

    open spec fn spec_aliases(&self) -> Seq<Seq<char>> {
        seq!["h"@]
    }

    open spec fn spec_subcommands(&self) -> Seq<MenuCommand> {
        seq![
            MenuCommand::Info(base::InfoCommand { command: "help" }),
            MenuCommand::Exit(base::ExitCommand {}),
        ]
    }

    open spec fn spec_category(&self) -> CommandCategory {
        CommandCategory::General
    }

    open spec fn spec_execute(&self, args: Seq<Seq<char>>) -> Result<ResultModel, ErrorModel> {
        if args.len() > 1 {
            Err(ErrorModel::TooManyArguments { expected: 1, found: args.len() as usize })
        } else if args.len() == 0 {
            Ok(ResultModel::Success(general_help()))
        } else {
            topic_help(args[0])
        }
    }

    fn name(&self) -> (r: &'static str)
        ensures
            r@ == self.spec_name(),
    {
        "help"
    }

    fn description(&self) -> (r: &'static str)
        ensures
            r@ == self.spec_description(),
    {
        "Help information for the available commands"
    }

    fn aliases(&self) -> (r: Vec<&'static str>)
        ensures
            r@.map_values(|a: &'static str| a@) == self.spec_aliases(),
    {
        let mut v: Vec<&'static str> = Vec::new();
        v.push("h");
        proof {
            assert(v@.map_values(|a: &'static str| a@) =~= self.spec_aliases());
        }
        v
    }

    fn subcommands(&self) -> (r: Vec<MenuCommand>)
        ensures
            r@ == self.spec_subcommands(),
    {
        let mut v: Vec<MenuCommand> = Vec::new();
        v.push(MenuCommand::Info(base::InfoCommand::new("help")));
        v.push(MenuCommand::Exit(base::ExitCommand::new()));
        proof {
            assert(v@ =~= self.spec_subcommands());
        }
        v
    }

    fn category(&self) -> (r: CommandCategory)
        ensures
            r == self.spec_category(),
    {
        CommandCategory::General
    }

    fn execute(&mut self, args: &[String]) -> (r: CliResult<CommandResult>)
        ensures
            *final(self) == *old(self),
            crate::command::outcome_of(r) == old(self).spec_execute(views_of(args@)),
    {
        match self.validate_arg_range(args, 0, 1) {
            Err(e) => Err(e),
            Ok(_) => {
                if args.len() == 0 {
                    let mut s = String::new();
                    s.append("simple-menu Help\n===========\nAvailable commands:\n  ");
                    let f = format_command_with_alias("file", Some("f"));
                    s.append(f.as_str());
                    s.append(" - File operations: Load, Save, Version, Info, Exit\n  ");
                    let e = format_command_with_alias("edit", Some("e"));
                    s.append(e.as_str());
                    s.append(" - Edit operations: Axis, Show, Info, Exit\n  ");
                    let v = format_command_with_alias("view", Some("v"));
                    s.append(v.as_str());
                    s.append(" - View operations: Axis, Show, Info, Exit\n  ");
                    let h = format_command_with_alias("help", Some("h"));
                    s.append(h.as_str());
                    s.append(" - Display help information for available commands\n  ");
                    let q = format_command_with_alias("quit", Some("q"));
                    s.append(q.as_str());
                    s.append(
                        " - Exit the program\n\nType a command name to enter its submenu or see its options.\nUse 'help <command>' for specific command help.",
                    );
                    proof {
                        assert(s@ =~= general_help());
                    }
                    Ok(CommandResult::Success(s))
                } else {
                    let topic = args[0].as_str();
                    let mut s = String::new();
                    if crate::text::str_eq(topic, "file") || crate::text::str_eq(topic, "f") {
                        s.append(
                            "File Command Help\n=================\nThe file command provides file operation functionality.\nSubcommands:\n  load <filename> - Load a file\n  save [filename] - Save a file (default: untitled.txt)\n  vers - Show version information\n  info - Show file menu information\n  exit - Return to main menu",
                        );
                        Ok(CommandResult::Success(s))
                    } else if crate::text::str_eq(topic, "edit") || crate::text::str_eq(
                        topic,
                        "e",
                    ) {
                        s.append(
                            "Edit Command Help\n=================\nThe edit command provides editing functionality.\nSubcommands:\n  axis [name] - Configure axis properties\n  show - Display current edit state\n  info - Show edit menu information\n  exit - Return to main menu",
                        );
                        Ok(CommandResult::Success(s))
                    } else if crate::text::str_eq(topic, "view") || crate::text::str_eq(
                        topic,
                        "v",
                    ) {
                        s.append(
                            "View Command Help\n=================\nThe view command provides viewing functionality.\nSubcommands:\n  axis [name] - Configure axis properties for viewing\n  show - Display current view state\n  info - Show view menu information\n  exit - Return to main menu",
                        );
                        Ok(CommandResult::Success(s))
                    } else if crate::text::str_eq(topic, "help") || crate::text::str_eq(
                        topic,
                        "h",
                    ) {
                        s.append(
                            "Help Command Help\n=================\nThe help command displays information about available commands.\nUsage:\n  help        - Show general help\n  help <cmd>  - Show specific command help",
                        );
                        Ok(CommandResult::Success(s))
                    } else if crate::text::str_eq(topic, "quit") || crate::text::str_eq(
                        topic,
                        "q",
                    ) {
                        s.append(
                            "Quit Command Help\n=================\nThe quit command exits the program.\nUsage: quit (no arguments)",
                        );
                        Ok(CommandResult::Success(s))
                    } else {
                        s.append("No help available for command: ");
                        s.append(topic);
                        proof {
                            assert(s@ =~= "No help available for command: "@ + topic@);
                        }
                        Err(crate::error::CliError::InvalidInput(s))
                    }
                }
            },
        }
    }
}

} // verus!
