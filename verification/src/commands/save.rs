//! Save command: validates an optional filename and reports the simulated
//! save.

use vstd::prelude::*;
use crate::command::{ArgumentValidator, Command, CommandCategory, CommandResult, ResultModel};
use crate::commands::{base, MenuCommand};
use crate::error::{CliResult, ErrorModel};
use crate::text::{
    contains_sub, seq_is_blank, str_contains, str_is_blank, str_starts_with, views_of,
};

verus! {

/// What saving resolves the filename to: the single argument, or the default.
pub open spec fn save_filename(args: Seq<Seq<char>>) -> Seq<char> {
    if args.len() == 0 {
        "untitled.txt"@
    } else {
        args[0]
    }
}

/// Save command for saving files to the filesystem; takes an optional
/// filename, defaulting to "untitled.txt", and rejects traversal attempts and
/// system directories.
#[derive(Debug)]
pub struct SaveCommand;

impl SaveCommand {
    pub fn new() -> (r: Self) {
        SaveCommand
    }
}

impl Default for SaveCommand {
    fn default() -> (r: Self) {
        Self::new()
    }
}

impl ArgumentValidator for SaveCommand {}

impl Command for SaveCommand {
    open spec fn spec_name(&self) -> Seq<char> {
        "save"@
    }

    open spec fn spec_description(&self) -> Seq<char> {
        "Save a file to the filesystem"@
    }

    open spec fn spec_aliases(&self) -> Seq<Seq<char>> {
        seq!["s"@]
    }

    open spec fn spec_subcommands(&self) -> Seq<MenuCommand> {
        seq![
            MenuCommand::Info(base::InfoCommand { command: "save" }),
            MenuCommand::Exit(base::ExitCommand {}),
        ]
    }

    open spec fn spec_category(&self) -> CommandCategory {
        CommandCategory::File
    }

    open spec fn spec_execute(&self, args: Seq<Seq<char>>) -> Result<ResultModel, ErrorModel> {
        if args.len() > 1 {
            Err(ErrorModel::TooManyArguments { expected: 1, found: args.len() as usize })
        } else {
            let filename = save_filename(args);
            if seq_is_blank(filename) {
                Err(ErrorModel::InvalidInput("Filename cannot be empty"@))
            } else if contains_sub(filename, ".."@) {
                Err(ErrorModel::InvalidInput("Invalid filename: path traversal not allowed"@))
            } else if "/etc/"@.is_prefix_of(filename) {
                Err(ErrorModel::PermissionDenied(
                    "Cannot save to system directory: "@ + filename,
                ))
            } else {
                Ok(ResultModel::Success("Saving file: "@ + filename))
            }
        }
    }

    fn name(&self) -> (r: &'static str)
        ensures
            r@ == self.spec_name(),
    {
        "save"
    }

    fn description(&self) -> (r: &'static str)
        ensures
            r@ == self.spec_description(),
    {
        "Save a file to the filesystem"
    }

    fn aliases(&self) -> (r: Vec<&'static str>)
        ensures
            r@.map_values(|a: &'static str| a@) == self.spec_aliases(),
    {
        let mut v: Vec<&'static str> = Vec::new();
        v.push("s");
        proof {
            assert(v@.map_values(|a: &'static str| a@) =~= self.spec_aliases());
        }
        v
    }

    fn subcommands(&self) -> (r: Vec<MenuCommand>)
        ensures
            r@ == self.spec_subcommands(),
    {
        let mut v: Vec<MenuCommand> = Vec::new();
        v.push(MenuCommand::Info(base::InfoCommand::new("save")));
        v.push(MenuCommand::Exit(base::ExitCommand::new()));
        proof {
            assert(v@ =~= self.spec_subcommands());
        }
        v
    }

    fn category(&self) -> (r: CommandCategory)
        ensures
            r == self.spec_category(),
    {
        CommandCategory::File
    }

    fn execute(&mut self, args: &[String]) -> (r: CliResult<CommandResult>)
        ensures
            *final(self) == *old(self),
            crate::command::outcome_of(r) == old(self).spec_execute(views_of(args@)),
    {
        match self.validate_arg_range(args, 0, 1) {
            Err(e) => Err(e),
            Ok(_) => {
                let filename: &str = if args.len() == 0 {
                    "untitled.txt"
                } else {
                    args[0].as_str()
                };
                proof {
                    assert(filename@ == save_filename(views_of(args@)));
                }
                if str_is_blank(filename) {
                    Err(crate::error::CliError::invalid_input("Filename cannot be empty"))
                } else if str_contains(filename, "..") {
                    Err(crate::error::CliError::invalid_input(
                        "Invalid filename: path traversal not allowed",
                    ))
                } else if str_starts_with(filename, "/etc/") {
                    let mut msg = String::new();
                    msg.append("Cannot save to system directory: ");
                    msg.append(filename);
                    proof {
                        assert(msg@ =~= "Cannot save to system directory: "@ + filename@);
                    }
                    Err(crate::error::CliError::PermissionDenied(msg))
                } else {
                    let mut msg = String::new();
                    msg.append("Saving file: ");
                    msg.append(filename);
                    proof {
                        assert(msg@ =~= "Saving file: "@ + filename@);
                    }
                    Ok(CommandResult::Success(msg))
                }
            },
        }
    }
}

} // verus!
