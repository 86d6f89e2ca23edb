//! View command: the submenu for viewing operations (axis, show, info,
//! exit).

use vstd::prelude::*;
use crate::command::{ArgumentValidator, Command, CommandCategory, CommandResult, ResultModel};
use crate::commands::{axis, base, show, MenuCommand};
use crate::error::{CliResult, ErrorModel};
use crate::text::views_of;

verus! {

/// View command handling "Axis", "Show", "Info", and "Exit".
#[derive(Debug)]
pub struct ViewCommand;

impl ViewCommand {
    pub fn new() -> (r: Self) {
        ViewCommand
    }
}

impl Default for ViewCommand {
    fn default() -> (r: Self) {
        Self::new()
    }
}

impl ArgumentValidator for ViewCommand {}

impl Command for ViewCommand {
    open spec fn spec_name(&self) -> Seq<char> {
        "view"@
    }

    open spec fn spec_description(&self) -> Seq<char> {
        "View operations: Axis, Show, Info, Exit"@
    }

    open spec fn spec_aliases(&self) -> Seq<Seq<char>> {
        seq!["v"@]
    }

    open spec fn spec_subcommands(&self) -> Seq<MenuCommand> {
        seq![
            MenuCommand::Axis(axis::AxisCommand { context: "view" }),
            MenuCommand::Show(show::ShowCommand { context: "view" }),
            MenuCommand::Info(base::InfoCommand { command: "view" }),
            MenuCommand::Exit(base::ExitCommand {}),
        ]
    }

    open spec fn spec_category(&self) -> CommandCategory {
        CommandCategory::View
    }

    open spec fn spec_execute(&self, args: Seq<Seq<char>>) -> Result<ResultModel, ErrorModel> {
        if args.len() > 0 {
            Err(ErrorModel::TooManyArguments { expected: 0, found: args.len() as usize })
        } else {
            Ok(ResultModel::Continue)
        }
    }

    fn name(&self) -> (r: &'static str)
        ensures
            r@ == self.spec_name(),
    {
        "view"
    }

    fn description(&self) -> (r: &'static str)
        ensures
            r@ == self.spec_description(),
    {
        "View operations: Axis, Show, Info, Exit"
    }

    fn aliases(&self) -> (r: Vec<&'static str>)
        ensures
            r@.map_values(|a: &'static str| a@) == self.spec_aliases(),
    {
        let mut v: Vec<&'static str> = Vec::new();
        v.push("v");
        proof {
            assert(v@.map_values(|a: &'static str| a@) =~= self.spec_aliases());
        }
        v
    }

    fn subcommands(&self) -> (r: Vec<MenuCommand>)
        ensures
            r@ == self.spec_subcommands(),
    {
        let mut v: Vec<MenuCommand> = Vec::new();
        v.push(MenuCommand::Axis(axis::AxisCommand::new("view")));
        v.push(MenuCommand::Show(show::ShowCommand::new("view")));
        v.push(MenuCommand::Info(base::InfoCommand::new("view")));
        v.push(MenuCommand::Exit(base::ExitCommand::new()));
        proof {
            assert(v@ =~= self.spec_subcommands());
        }
        v
    }

    fn category(&self) -> (r: CommandCategory)
        ensures
            r == self.spec_category(),
    {
        CommandCategory::View
    }

    fn execute(&mut self, args: &[String]) -> (r: CliResult<CommandResult>)
        ensures
            *final(self) == *old(self),
            crate::command::outcome_of(r) == old(self).spec_execute(views_of(args@)),
    {
        match self.validate_arg_count(args, 0) {
            Err(e) => Err(e),
            Ok(_) => Ok(CommandResult::Continue),
        }
    }
}

} // verus!
