//! Quit command: ends the session by signalling `Quit` to the dispatch loop.

use vstd::prelude::*;
use crate::command::{ArgumentValidator, Command, CommandCategory, CommandResult, ResultModel};
use crate::commands::{base, MenuCommand};
use crate::error::{CliResult, ErrorModel};
use crate::text::views_of;

verus! {

/// Quit command that exits the program.
#[derive(Debug)]
pub struct QuitCommand;

impl QuitCommand {
    pub fn new() -> (r: Self) {
        QuitCommand
    }
}

impl Default for QuitCommand {
    fn default() -> (r: Self) {
        Self::new()
    }
}

impl ArgumentValidator for QuitCommand {}

impl Command for QuitCommand {
    open spec fn spec_name(&self) -> Seq<char> {
        "quit"@
    }

    open spec fn spec_description(&self) -> Seq<char> {
        "Quit the program and return to the shell"@
    }

    open spec fn spec_aliases(&self) -> Seq<Seq<char>> {
        seq!["q"@]
    }

    open spec fn spec_subcommands(&self) -> Seq<MenuCommand> {
        seq![
            MenuCommand::Info(base::InfoCommand { command: "quit" }),
            MenuCommand::Exit(base::ExitCommand {}),
        ]
    }

    open spec fn spec_category(&self) -> CommandCategory {
        CommandCategory::General
    }

    open spec fn spec_execute(&self, args: Seq<Seq<char>>) -> Result<ResultModel, ErrorModel> {
        if args.len() > 0 {
            Err(ErrorModel::TooManyArguments { expected: 0, found: args.len() as usize })
        } else {
            Ok(ResultModel::Quit)
        }
    }

    fn name(&self) -> (r: &'static str)
        ensures
            r@ == self.spec_name(),
    {
        "quit"
    }

    fn description(&self) -> (r: &'static str)
        ensures
            r@ == self.spec_description(),
    {
        "Quit the program and return to the shell"
    }

    fn aliases(&self) -> (r: Vec<&'static str>)
        ensures
            r@.map_values(|a: &'static str| a@) == self.spec_aliases(),
    {
        let mut v: Vec<&'static str> = Vec::new();
        v.push("q");
        proof {
            assert(v@.map_values(|a: &'static str| a@) =~= self.spec_aliases());
        }
        v
    }

    fn subcommands(&self) -> (r: Vec<MenuCommand>)
        ensures
            r@ == self.spec_subcommands(),
    {
        let mut v: Vec<MenuCommand> = Vec::new();
        v.push(MenuCommand::Info(base::InfoCommand::new("quit")));
        v.push(MenuCommand::Exit(base::ExitCommand::new()));
        proof {
            assert(v@ =~= self.spec_subcommands());
        }
        v
    }

    fn category(&self) -> (r: CommandCategory)
        ensures
            r == self.spec_category(),
    {
        CommandCategory::General
    }

    fn execute(&mut self, args: &[String]) -> (r: CliResult<CommandResult>)
        ensures
            *final(self) == *old(self),
            crate::command::outcome_of(r) == old(self).spec_execute(views_of(args@)),
    {
        match self.validate_arg_count(args, 0) {
            Err(e) => Err(e),
            Ok(_) => Ok(CommandResult::Quit),
        }
    }
}

} // verus!
