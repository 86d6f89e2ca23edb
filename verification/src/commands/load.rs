//! Load command: validates a filename and reports the simulated load.

use vstd::prelude::*;
use crate::command::{ArgumentValidator, Command, CommandCategory, CommandResult, ResultModel};
use crate::commands::{base, MenuCommand};
use crate::error::{CliResult, ErrorModel};
use crate::text::{contains_sub, seq_is_blank, str_contains, str_ends_with, str_is_blank, views_of};

verus! {

/// Load command for loading files from the filesystem; requires exactly one
/// argument, the filename, and rejects traversal attempts.
#[derive(Debug)]
pub struct LoadCommand;

impl LoadCommand {
    pub fn new() -> (r: Self) {
        LoadCommand
    }
}

impl Default for LoadCommand {
    fn default() -> (r: Self) {
        Self::new()
    }
}

impl ArgumentValidator for LoadCommand {}

impl Command for LoadCommand {
    open spec fn spec_name(&self) -> Seq<char> {
        "load"@
    }

    open spec fn spec_description(&self) -> Seq<char> {
        "Load a file from the filesystem"@
    }

    open spec fn spec_aliases(&self) -> Seq<Seq<char>> {
        seq!["l"@]
    }

    open spec fn spec_subcommands(&self) -> Seq<MenuCommand> {
        seq![
            MenuCommand::Info(base::InfoCommand { command: "load" }),
            MenuCommand::Exit(base::ExitCommand {}),
        ]
    }

    open spec fn spec_category(&self) -> CommandCategory {
        CommandCategory::File
    }

    open spec fn spec_execute(&self, args: Seq<Seq<char>>) -> Result<ResultModel, ErrorModel> {
        if args.len() == 0 {
            Err(ErrorModel::TooFewArguments { expected: 1, found: 0 })
        } else if args.len() > 1 {
            Err(ErrorModel::TooManyArguments { expected: 1, found: args.len() as usize })
        } else {
            let filename = args[0];
            if seq_is_blank(filename) {
                Err(ErrorModel::InvalidInput("Filename cannot be empty"@))
            } else if contains_sub(filename, ".."@) {
                Err(ErrorModel::InvalidInput("Invalid filename: path traversal not allowed"@))
            } else if ".missing"@.is_suffix_of(filename) {
                Err(ErrorModel::FileNotFound(filename))
            } else {
                Ok(ResultModel::Success("Loading file: "@ + filename))
            }
        }
    }

    fn name(&self) -> (r: &'static str)
        ensures
            r@ == self.spec_name(),
    {
        "load"
    }

    fn description(&self) -> (r: &'static str)
        ensures
            r@ == self.spec_description(),
    {
        "Load a file from the filesystem"
    }

    fn aliases(&self) -> (r: Vec<&'static str>)
        ensures
            r@.map_values(|a: &'static str| a@) == self.spec_aliases(),
    {
        let mut v: Vec<&'static str> = Vec::new();
        v.push("l");
        proof {
            assert(v@.map_values(|a: &'static str| a@) =~= self.spec_aliases());
        }
        v
    }

    fn subcommands(&self) -> (r: Vec<MenuCommand>)
        ensures
            r@ == self.spec_subcommands(),
    {
        let mut v: Vec<MenuCommand> = Vec::new();
        v.push(MenuCommand::Info(base::InfoCommand::new("load")));
        v.push(MenuCommand::Exit(base::ExitCommand::new()));
        proof {
            assert(v@ =~= self.spec_subcommands());
        }
        v
    }

    fn category(&self) -> (r: CommandCategory)
        ensures
            r == self.spec_category(),
    {
        CommandCategory::File
    }

    fn execute(&mut self, args: &[String]) -> (r: CliResult<CommandResult>)
        ensures
            *final(self) == *old(self),
            crate::command::outcome_of(r) == old(self).spec_execute(views_of(args@)),
    {
        match self.validate_arg_count(args, 1) {
            Err(e) => Err(e),
            Ok(_) => {
                let filename = &args[0];
                if str_is_blank(filename.as_str()) {
                    Err(crate::error::CliError::invalid_input("Filename cannot be empty"))
                } else if str_contains(filename.as_str(), "..") {
                    Err(crate::error::CliError::invalid_input(
                        "Invalid filename: path traversal not allowed",
                    ))
                } else if str_ends_with(filename.as_str(), ".missing") {
                    Err(crate::error::CliError::file_not_found(filename.as_str()))
                } else {
                    let mut msg = String::new();
                    msg.append("Loading file: ");
                    msg.append(filename.as_str());
                    proof {
                        assert(msg@ =~= "Loading file: "@ + filename@);
                    }
                    Ok(CommandResult::Success(msg))
                }
            },
        }
    }
}

} // verus!
