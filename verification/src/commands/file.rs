//! File command: the submenu for file operations (load, save, vers, a nested
//! file menu, info, exit).

use vstd::prelude::*;
use crate::command::{ArgumentValidator, Command, CommandCategory, CommandResult, ResultModel};
use crate::commands::{base, load, save, vers, MenuCommand};
use crate::error::{CliResult, ErrorModel};
use crate::text::views_of;

verus! {

/// File command handling "Load", "Save", "Version", "Info", and "Exit"; it
/// also nests a fresh file menu inside itself.
#[derive(Debug)]
pub struct FileCommand {
    /// The parent context, when this menu is nested inside another one.
    pub parent_context: Option<&'static str>,
}

impl FileCommand {
    /// Creates a new FileCommand with no parent context.
    pub fn new() -> (r: Self)
        ensures
            r == (FileCommand { parent_context: None::<&'static str> }),
    {
        FileCommand { parent_context: None }
    }

    /// Creates a new FileCommand with a parent context.
    pub fn new_with_parent(parent: &'static str) -> (r: Self)
        ensures
            r == (FileCommand { parent_context: Some(parent) }),
    {
        FileCommand { parent_context: Some(parent) }
    }
}

impl Default for FileCommand {
    fn default() -> (r: Self) {
        Self::new()
    }
}

impl ArgumentValidator for FileCommand {}

impl Command for FileCommand {
    open spec fn spec_name(&self) -> Seq<char> {
        "file"@
    }

    open spec fn spec_description(&self) -> Seq<char> {
        "File operations: Load, Save, Version, Info, Exit"@
    }

    open spec fn spec_aliases(&self) -> Seq<Seq<char>> {
        seq!["f"@]
    }

    open spec fn spec_subcommands(&self) -> Seq<MenuCommand> {
        seq![
            MenuCommand::Load(load::LoadCommand {}),
            MenuCommand::Save(save::SaveCommand {}),
            MenuCommand::Vers(vers::VersCommand {}),
            MenuCommand::File(FileCommand { parent_context: Some("file") }),
            MenuCommand::Info(base::InfoCommand { command: "file" }),
            MenuCommand::Exit(base::ExitCommand {}),
        ]
    }

    open spec fn spec_category(&self) -> CommandCategory {
        CommandCategory::File
    }

    open spec fn spec_execute(&self, args: Seq<Seq<char>>) -> Result<ResultModel, ErrorModel> {
        if args.len() > 0 {
            Err(ErrorModel::TooManyArguments { expected: 0, found: args.len() as usize })
        } else {
            Ok(ResultModel::Continue)
        }
    }

    fn name(&self) -> (r: &'static str)
        ensures
            r@ == self.spec_name(),
    {
        "file"
    }

    fn description(&self) -> (r: &'static str)
        ensures
            r@ == self.spec_description(),
    {
        "File operations: Load, Save, Version, Info, Exit"
    }

    fn aliases(&self) -> (r: Vec<&'static str>)
        ensures
            r@.map_values(|a: &'static str| a@) == self.spec_aliases(),
    {
        let mut v: Vec<&'static str> = Vec::new();
        v.push("f");
        proof {
            assert(v@.map_values(|a: &'static str| a@) =~= self.spec_aliases());
        }
        v
    }

    fn subcommands(&self) -> (r: Vec<MenuCommand>)
        ensures
            r@ == self.spec_subcommands(),
    {
        let mut v: Vec<MenuCommand> = Vec::new();
        v.push(MenuCommand::Load(load::LoadCommand::new()));
        v.push(MenuCommand::Save(save::SaveCommand::new()));
        v.push(MenuCommand::Vers(vers::VersCommand::new()));
        v.push(MenuCommand::File(FileCommand::new_with_parent("file")));
        v.push(MenuCommand::Info(base::InfoCommand::new("file")));
        v.push(MenuCommand::Exit(base::ExitCommand::new()));
        proof {
            assert(v@ =~= self.spec_subcommands());
        }
        v
    }

    fn category(&self) -> (r: CommandCategory)
        ensures
            r == self.spec_category(),
    {
        CommandCategory::File
    }

    fn execute(&mut self, args: &[String]) -> (r: CliResult<CommandResult>)
        ensures
            *final(self) == *old(self),
            crate::command::outcome_of(r) == old(self).spec_execute(views_of(args@)),
    {
        match self.validate_arg_count(args, 0) {
            Err(e) => Err(e),
            Ok(_) => Ok(CommandResult::Continue),
        }
    }
}

} // verus!
