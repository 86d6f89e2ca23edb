//! Base command implementations that are commonly used across the menus: the
//! contextual info command and the exit command that returns to the parent
//! menu.

use vstd::prelude::*;
use crate::command::{ArgumentValidator, Command, CommandCategory, CommandResult, ResultModel};
use crate::commands::MenuCommand;
use crate::error::{CliResult, ErrorModel};
use crate::text::views_of;

verus! {

/// The fixed part of the info command's message, after the menu name.
pub open spec fn info_tail() -> Seq<char> {
    " menu information:\nAvailable commands in this menu:\n  Type any command name to execute it\n  Use 'exit' (or 'e') to return to parent menu"@
}

/// Info command that displays information about the current menu it belongs
/// to; usable in any menu.
#[derive(Debug)]
pub struct InfoCommand {
    /// Name of the menu this info command describes.
    pub command: &'static str,
}

impl InfoCommand {
    pub fn new(command: &'static str) -> (r: Self)
        ensures
            r.command == command,
    {
        InfoCommand { command }
    }
}

impl ArgumentValidator for InfoCommand {}

impl Command for InfoCommand {
    open spec fn spec_name(&self) -> Seq<char> {
        "info"@
    }

    open spec fn spec_description(&self) -> Seq<char> {
        "Display information about the current menu"@
    }

    open spec fn spec_aliases(&self) -> Seq<Seq<char>> {
        seq!["i"@]
    }

    open spec fn spec_subcommands(&self) -> Seq<MenuCommand> {
        Seq::empty()
    }

    open spec fn spec_category(&self) -> CommandCategory {
        CommandCategory::General
    }

    open spec fn spec_execute(&self, args: Seq<Seq<char>>) -> Result<ResultModel, ErrorModel> {
        if args.len() > 0 {
            Err(ErrorModel::TooManyArguments { expected: 0, found: args.len() as usize })
        } else {
            Ok(ResultModel::Success(self.command@ + info_tail()))
        }
    }

    fn name(&self) -> (r: &'static str)
        ensures
            r@ == self.spec_name(),
    {
        "info"
    }

    fn description(&self) -> (r: &'static str)
        ensures
            r@ == self.spec_description(),
    {
        "Display information about the current menu"
    }

    fn aliases(&self) -> (r: Vec<&'static str>)
        ensures
            r@.map_values(|a: &'static str| a@) == self.spec_aliases(),
    {
        let mut v: Vec<&'static str> = Vec::new();
        v.push("i");
        proof {
            assert(v@.map_values(|a: &'static str| a@) =~= self.spec_aliases());
        }
        v
    }

    fn subcommands(&self) -> (r: Vec<MenuCommand>)
        ensures
            r@ == self.spec_subcommands(),
    {
        let v: Vec<MenuCommand> = Vec::new();
        proof {
            assert(v@ =~= self.spec_subcommands());
        }
        v
    }

    fn category(&self) -> (r: CommandCategory)
        ensures
            r == self.spec_category(),
    {
        CommandCategory::General
    }

    fn execute(&mut self, args: &[String]) -> (r: CliResult<CommandResult>)
        ensures
            *final(self) == *old(self),
            crate::command::outcome_of(r) == old(self).spec_execute(views_of(args@)),
    {
        match self.validate_arg_count(args, 0) {
            Err(e) => Err(e),
            Ok(_) => {
                let mut msg = String::new();
                msg.append(self.command);
                msg.append(
                    " menu information:\nAvailable commands in this menu:\n  Type any command name to execute it\n  Use 'exit' (or 'e') to return to parent menu",
                );
                proof {
                    assert(msg@ =~= self.command@ + info_tail());
                }
                Ok(CommandResult::Success(msg))
            },
        }
    }
}

/// Exit command that returns to the parent menu by signalling `GoUp`.
#[derive(Debug)]
pub struct ExitCommand;

impl ExitCommand {
    pub fn new() -> (r: Self) {
        ExitCommand
    }
}

impl Default for ExitCommand {
    fn default() -> (r: Self) {
        Self::new()
    }
}

impl ArgumentValidator for ExitCommand {}

impl Command for ExitCommand {
    open spec fn spec_name(&self) -> Seq<char> {
        "exit"@
    }

    open spec fn spec_description(&self) -> Seq<char> {
        "Exit to the parent menu"@
    }

    open spec fn spec_aliases(&self) -> Seq<Seq<char>> {
        seq!["e"@]
    }

    open spec fn spec_subcommands(&self) -> Seq<MenuCommand> {
        Seq::empty()
    }

    open spec fn spec_category(&self) -> CommandCategory {
        CommandCategory::General
    }

    open spec fn spec_execute(&self, args: Seq<Seq<char>>) -> Result<ResultModel, ErrorModel> {
        if args.len() > 0 {
            Err(ErrorModel::TooManyArguments { expected: 0, found: args.len() as usize })
        } else {
            Ok(ResultModel::GoUp)
        }
    }

    fn name(&self) -> (r: &'static str)
        ensures
            r@ == self.spec_name(),
    {
        "exit"
    }

    fn description(&self) -> (r: &'static str)
        ensures
            r@ == self.spec_description(),
    {
        "Exit to the parent menu"
    }

    fn aliases(&self) -> (r: Vec<&'static str>)
        ensures
            r@.map_values(|a: &'static str| a@) == self.spec_aliases(),
    {
        let mut v: Vec<&'static str> = Vec::new();
        v.push("e");
        proof {
            assert(v@.map_values(|a: &'static str| a@) =~= self.spec_aliases());
        }
        v
    }

    fn subcommands(&self) -> (r: Vec<MenuCommand>)
        ensures
            r@ == self.spec_subcommands(),
    {
        let v: Vec<MenuCommand> = Vec::new();
        proof {
            assert(v@ =~= self.spec_subcommands());
        }
        v
    }

    fn category(&self) -> (r: CommandCategory)
        ensures
            r == self.spec_category(),
    {
        CommandCategory::General
    }

    fn execute(&mut self, args: &[String]) -> (r: CliResult<CommandResult>)
        ensures
            *final(self) == *old(self),
            crate::command::outcome_of(r) == old(self).spec_execute(views_of(args@)),
    {
        match self.validate_arg_count(args, 0) {
            Err(e) => Err(e),
            Ok(_) => Ok(CommandResult::GoUp),
        }
    }
}

} // verus!
