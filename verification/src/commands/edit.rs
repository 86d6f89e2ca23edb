//! Edit command: the submenu for editing operations (axis, show, info,
//! exit).

use vstd::prelude::*;
use crate::command::{ArgumentValidator, Command, CommandCategory, CommandResult, ResultModel};
use crate::commands::{axis, base, show, MenuCommand};
use crate::error::{CliResult, ErrorModel};
use crate::text::views_of;

verus! {

/// Edit command handling "Axis", "Show", "Info", and "Exit".
#[derive(Debug)]
pub struct EditCommand;

impl EditCommand {
    pub fn new() -> (r: Self) {
        EditCommand
    }
}

impl Default for EditCommand {
    fn default() -> (r: Self) {
        Self::new()
    }
}

impl ArgumentValidator for EditCommand {}

impl Command for EditCommand {
    open spec fn spec_name(&self) -> Seq<char> {
        "edit"@
    }

    open spec fn spec_description(&self) -> Seq<char> {
        "Edit operations: Axis, Show, Info, Exit"@
    }

    open spec fn spec_aliases(&self) -> Seq<Seq<char>> {
        seq!["e"@]
    }

    open spec fn spec_subcommands(&self) -> Seq<MenuCommand> {
        seq![
            MenuCommand::Axis(axis::AxisCommand { context: "edit" }),
            MenuCommand::Show(show::ShowCommand { context: "edit" }),
            MenuCommand::Info(base::InfoCommand { command: "edit" }),
            MenuCommand::Exit(base::ExitCommand {}),
        ]
    }

    open spec fn spec_category(&self) -> CommandCategory {
        CommandCategory::Edit
    }

    open spec fn spec_execute(&self, args: Seq<Seq<char>>) -> Result<ResultModel, ErrorModel> {
        if args.len() > 0 {
            Err(ErrorModel::TooManyArguments { expected: 0, found: args.len() as usize })
        } else {
            Ok(ResultModel::Continue)
        }
    }

    fn name(&self) -> (r: &'static str)
        ensures
            r@ == self.spec_name(),
    {
        "edit"
    }

    fn description(&self) -> (r: &'static str)
        ensures
            r@ == self.spec_description(),
    {
        "Edit operations: Axis, Show, Info, Exit"
    }

    fn aliases(&self) -> (r: Vec<&'static str>)
        ensures
            r@.map_values(|a: &'static str| a@) == self.spec_aliases(),
    {
        let mut v: Vec<&'static str> = Vec::new();
        v.push("e");
        proof {
            assert(v@.map_values(|a: &'static str| a@) =~= self.spec_aliases());
        }
        v
    }

    fn subcommands(&self) -> (r: Vec<MenuCommand>)
        ensures
            r@ == self.spec_subcommands(),
    {
        let mut v: Vec<MenuCommand> = Vec::new();
        v.push(MenuCommand::Axis(axis::AxisCommand::new("edit")));
        v.push(MenuCommand::Show(show::ShowCommand::new("edit")));
        v.push(MenuCommand::Info(base::InfoCommand::new("edit")));
        v.push(MenuCommand::Exit(base::ExitCommand::new()));
        proof {
            assert(v@ =~= self.spec_subcommands());
        }
        v
    }

    fn category(&self) -> (r: CommandCategory)
        ensures
            r == self.spec_category(),
    {
        CommandCategory::Edit
    }

    fn execute(&mut self, args: &[String]) -> (r: CliResult<CommandResult>)
        ensures
            *final(self) == *old(self),
            crate::command::outcome_of(r) == old(self).spec_execute(views_of(args@)),
    {
        match self.validate_arg_count(args, 0) {
            Err(e) => Err(e),
            Ok(_) => Ok(CommandResult::Continue),
        }
    }
}

} // verus!
