//! Version command: reports the application's name and version.

use vstd::prelude::*;
use crate::command::{ArgumentValidator, Command, CommandCategory, CommandResult, ResultModel};
use crate::commands::{base, MenuCommand};
use crate::error::{CliResult, ErrorModel};
use crate::text::views_of;

verus! {

/// The version line the command reports.
pub open spec fn version_line() -> Seq<char> {
    "sm-menu > version 0.1.0"@
}

/// Vers command that shows version information.
#[derive(Debug)]
pub struct VersCommand;

impl VersCommand {
    pub fn new() -> (r: Self) {
        VersCommand
    }
}

impl Default for VersCommand {
    fn default() -> (r: Self) {
        Self::new()
    }
}

impl ArgumentValidator for VersCommand {}

impl Command for VersCommand {
    open spec fn spec_name(&self) -> Seq<char> {
        "vers"@
    }

    open spec fn spec_description(&self) -> Seq<char> {
        "Show version information about the application"@
    }

    open spec fn spec_aliases(&self) -> Seq<Seq<char>> {
        seq!["v"@]
    }

    open spec fn spec_subcommands(&self) -> Seq<MenuCommand> {
        seq![
            MenuCommand::Info(base::InfoCommand { command: "vers" }),
            MenuCommand::Exit(base::ExitCommand {}),
        ]
    }

    open spec fn spec_category(&self) -> CommandCategory {
        CommandCategory::General
    }

    open spec fn spec_execute(&self, args: Seq<Seq<char>>) -> Result<ResultModel, ErrorModel> {
        if args.len() > 0 {
            Err(ErrorModel::TooManyArguments { expected: 0, found: args.len() as usize })
        } else {
            Ok(ResultModel::Success(version_line()))
        }
    }

    fn name(&self) -> (r: &'static str)
        ensures
            r@ == self.spec_name(),
    {
        "vers"
    }

    fn description(&self) -> (r: &'static str)
        ensures
            r@ == self.spec_description(),
    {
        "Show version information about the application"
    }

    fn aliases(&self) -> (r: Vec<&'static str>)
        ensures
            r@.map_values(|a: &'static str| a@) == self.spec_aliases(),
    {
        let mut v: Vec<&'static str> = Vec::new();
        v.push("v");
        proof {
            assert(v@.map_values(|a: &'static str| a@) =~= self.spec_aliases());
        }
        v
    }

    fn subcommands(&self) -> (r: Vec<MenuCommand>)
        ensures
            r@ == self.spec_subcommands(),
    {
        let mut v: Vec<MenuCommand> = Vec::new();
        v.push(MenuCommand::Info(base::InfoCommand::new("vers")));
        v.push(MenuCommand::Exit(base::ExitCommand::new()));
        proof {
            assert(v@ =~= self.spec_subcommands());
        }
        v
    }

    fn category(&self) -> (r: CommandCategory)
        ensures
            r == self.spec_category(),
    {
        CommandCategory::General
    }

    fn execute(&mut self, args: &[String]) -> (r: CliResult<CommandResult>)
        ensures
            *final(self) == *old(self),
            crate::command::outcome_of(r) == old(self).spec_execute(views_of(args@)),
    {
        match self.validate_arg_count(args, 0) {
            Err(e) => Err(e),
            Ok(_) => {
                let mut msg = String::new();
                msg.append("sm-menu > version 0.1.0");
                Ok(CommandResult::Success(msg))
            },
        }
    }
}

} // verus!
