//! The concrete menu commands, and the closed sum of all of them that the
//! navigation stack and the menu tree are built from.

pub mod axis;
pub mod base;
pub mod edit;
pub mod file;
pub mod help;
pub mod load;
pub mod quit;
pub mod save;
pub mod show;
pub mod vers;
pub mod view;

use vstd::prelude::*;
use crate::command::{ArgumentValidator, Command, CommandCategory, CommandResult, ResultModel};
use crate::error::{CliResult, ErrorModel};
use crate::text::views_of;

verus! {

/// Root command that provides the main menu.
#[derive(Debug)]
pub struct RootCommand;

impl ArgumentValidator for RootCommand {}

impl Command for RootCommand {
    open spec fn spec_name(&self) -> Seq<char> {
        "root"@
    }

    open spec fn spec_description(&self) -> Seq<char> {
        "simple-menu main menu with File, Edit, View, Help, and Quit commands"@
    }

    open spec fn spec_aliases(&self) -> Seq<Seq<char>> {
        Seq::empty()
    }

    open spec fn spec_subcommands(&self) -> Seq<MenuCommand> {
        seq![
            MenuCommand::File(file::FileCommand { parent_context: None::<&'static str> }),
            MenuCommand::Edit(edit::EditCommand {}),
            MenuCommand::View(view::ViewCommand {}),
            MenuCommand::Help(help::HelpCommand {}),
            MenuCommand::Quit(quit::QuitCommand {}),
            MenuCommand::Info(base::InfoCommand { command: "root" }),
        ]
    }

    open spec fn spec_category(&self) -> CommandCategory {
        CommandCategory::General
    }

    open spec fn spec_execute(&self, args: Seq<Seq<char>>) -> Result<ResultModel, ErrorModel> {
        Ok(ResultModel::Continue)
    }

    fn name(&self) -> (r: &'static str)
        ensures
            r@ == self.spec_name(),
    {
        "root"
    }

    fn description(&self) -> (r: &'static str)
        ensures
            r@ == self.spec_description(),
    {
        "simple-menu main menu with File, Edit, View, Help, and Quit commands"
    }

    fn aliases(&self) -> (r: Vec<&'static str>)
        ensures
            r@.map_values(|a: &'static str| a@) == self.spec_aliases(),
    {
        let v: Vec<&'static str> = Vec::new();
        proof {
            assert(v@.map_values(|a: &'static str| a@) =~= self.spec_aliases());
        }
        v
    }

    fn subcommands(&self) -> (r: Vec<MenuCommand>)
        ensures
            r@ == self.spec_subcommands(),
    {
        let mut v: Vec<MenuCommand> = Vec::new();
        v.push(MenuCommand::File(file::FileCommand::new()));
        v.push(MenuCommand::Edit(edit::EditCommand::new()));
        v.push(MenuCommand::View(view::ViewCommand::new()));
        v.push(MenuCommand::Help(help::HelpCommand::new()));
        v.push(MenuCommand::Quit(quit::QuitCommand::new()));
        v.push(MenuCommand::Info(base::InfoCommand::new("root")));
        proof {
            assert(v@ =~= self.spec_subcommands());
        }
        v
    }

    fn category(&self) -> (r: CommandCategory)
        ensures
            r == self.spec_category(),
    {
        CommandCategory::General
    }

    fn execute(&mut self, args: &[String]) -> (r: CliResult<CommandResult>)
        ensures
            *final(self) == *old(self),
            crate::command::outcome_of(r) == old(self).spec_execute(views_of(args@)),
    {
        Ok(CommandResult::Continue)
    }
}

/// One menu command of this crate: the closed sum of every concrete command
/// type, so that stacks and child lists are plain data.
#[derive(Debug)]
pub enum MenuCommand {
    Axis(axis::AxisCommand),
    Edit(edit::EditCommand),
    Exit(base::ExitCommand),
    File(file::FileCommand),
    Help(help::HelpCommand),
    Info(base::InfoCommand),
    Load(load::LoadCommand),
    Quit(quit::QuitCommand),
    Root(RootCommand),
    Save(save::SaveCommand),
    Show(show::ShowCommand),
    Vers(vers::VersCommand),
    View(view::ViewCommand),
}

impl Command for MenuCommand {
    open spec fn spec_name(&self) -> Seq<char> {
        match self {
            MenuCommand::Axis(c) => c.spec_name(),
            MenuCommand::Edit(c) => c.spec_name(),
            MenuCommand::Exit(c) => c.spec_name(),
            MenuCommand::File(c) => c.spec_name(),
            MenuCommand::Help(c) => c.spec_name(),
            MenuCommand::Info(c) => c.spec_name(),
            MenuCommand::Load(c) => c.spec_name(),
            MenuCommand::Quit(c) => c.spec_name(),
            MenuCommand::Root(c) => c.spec_name(),
            MenuCommand::Save(c) => c.spec_name(),
            MenuCommand::Show(c) => c.spec_name(),
            MenuCommand::Vers(c) => c.spec_name(),
            MenuCommand::View(c) => c.spec_name(),
        }
    }

    open spec fn spec_description(&self) -> Seq<char> {
        match self {
            MenuCommand::Axis(c) => c.spec_description(),
            MenuCommand::Edit(c) => c.spec_description(),
            MenuCommand::Exit(c) => c.spec_description(),
            MenuCommand::File(c) => c.spec_description(),
            MenuCommand::Help(c) => c.spec_description(),
            MenuCommand::Info(c) => c.spec_description(),
            MenuCommand::Load(c) => c.spec_description(),
            MenuCommand::Quit(c) => c.spec_description(),
            MenuCommand::Root(c) => c.spec_description(),
            MenuCommand::Save(c) => c.spec_description(),
            MenuCommand::Show(c) => c.spec_description(),
            MenuCommand::Vers(c) => c.spec_description(),
            MenuCommand::View(c) => c.spec_description(),
        }
    }

    open spec fn spec_aliases(&self) -> Seq<Seq<char>> {
        match self {
            MenuCommand::Axis(c) => c.spec_aliases(),
            MenuCommand::Edit(c) => c.spec_aliases(),
            MenuCommand::Exit(c) => c.spec_aliases(),
            MenuCommand::File(c) => c.spec_aliases(),
            MenuCommand::Help(c) => c.spec_aliases(),
            MenuCommand::Info(c) => c.spec_aliases(),
            MenuCommand::Load(c) => c.spec_aliases(),
            MenuCommand::Quit(c) => c.spec_aliases(),
            MenuCommand::Root(c) => c.spec_aliases(),
            MenuCommand::Save(c) => c.spec_aliases(),
            MenuCommand::Show(c) => c.spec_aliases(),
            MenuCommand::Vers(c) => c.spec_aliases(),
            MenuCommand::View(c) => c.spec_aliases(),
        }
    }

    open spec fn spec_subcommands(&self) -> Seq<MenuCommand> {
        match self {
            MenuCommand::Axis(c) => c.spec_subcommands(),
            MenuCommand::Edit(c) => c.spec_subcommands(),
            MenuCommand::Exit(c) => c.spec_subcommands(),
            MenuCommand::File(c) => c.spec_subcommands(),
            MenuCommand::Help(c) => c.spec_subcommands(),
            MenuCommand::Info(c) => c.spec_subcommands(),
            MenuCommand::Load(c) => c.spec_subcommands(),
            MenuCommand::Quit(c) => c.spec_subcommands(),
            MenuCommand::Root(c) => c.spec_subcommands(),
            MenuCommand::Save(c) => c.spec_subcommands(),
            MenuCommand::Show(c) => c.spec_subcommands(),
            MenuCommand::Vers(c) => c.spec_subcommands(),
            MenuCommand::View(c) => c.spec_subcommands(),
        }
    }

    open spec fn spec_category(&self) -> CommandCategory {
        match self {
            MenuCommand::Axis(c) => c.spec_category(),
            MenuCommand::Edit(c) => c.spec_category(),
            MenuCommand::Exit(c) => c.spec_category(),
            MenuCommand::File(c) => c.spec_category(),
            MenuCommand::Help(c) => c.spec_category(),
            MenuCommand::Info(c) => c.spec_category(),
            MenuCommand::Load(c) => c.spec_category(),
            MenuCommand::Quit(c) => c.spec_category(),
            MenuCommand::Root(c) => c.spec_category(),
            MenuCommand::Save(c) => c.spec_category(),
            MenuCommand::Show(c) => c.spec_category(),
            MenuCommand::Vers(c) => c.spec_category(),
            MenuCommand::View(c) => c.spec_category(),
        }
    }

    open spec fn spec_execute(&self, args: Seq<Seq<char>>) -> Result<ResultModel, ErrorModel> {
        match self {
            MenuCommand::Axis(c) => c.spec_execute(args),
            MenuCommand::Edit(c) => c.spec_execute(args),
            MenuCommand::Exit(c) => c.spec_execute(args),
            MenuCommand::File(c) => c.spec_execute(args),
            MenuCommand::Help(c) => c.spec_execute(args),
            MenuCommand::Info(c) => c.spec_execute(args),
            MenuCommand::Load(c) => c.spec_execute(args),
            MenuCommand::Quit(c) => c.spec_execute(args),
            MenuCommand::Root(c) => c.spec_execute(args),
            MenuCommand::Save(c) => c.spec_execute(args),
            MenuCommand::Show(c) => c.spec_execute(args),
            MenuCommand::Vers(c) => c.spec_execute(args),
            MenuCommand::View(c) => c.spec_execute(args),
        }
    }

    fn name(&self) -> (r: &'static str)
        ensures
            r@ == self.spec_name(),
    {
        match self {
            MenuCommand::Axis(c) => c.name(),
            MenuCommand::Edit(c) => c.name(),
            MenuCommand::Exit(c) => c.name(),
            MenuCommand::File(c) => c.name(),
            MenuCommand::Help(c) => c.name(),
            MenuCommand::Info(c) => c.name(),
            MenuCommand::Load(c) => c.name(),
            MenuCommand::Quit(c) => c.name(),
            MenuCommand::Root(c) => c.name(),
            MenuCommand::Save(c) => c.name(),
            MenuCommand::Show(c) => c.name(),
            MenuCommand::Vers(c) => c.name(),
            MenuCommand::View(c) => c.name(),
        }
    }

    fn description(&self) -> (r: &'static str)
        ensures
            r@ == self.spec_description(),
    {
        match self {
            MenuCommand::Axis(c) => c.description(),
            MenuCommand::Edit(c) => c.description(),
            MenuCommand::Exit(c) => c.description(),
            MenuCommand::File(c) => c.description(),
            MenuCommand::Help(c) => c.description(),
            MenuCommand::Info(c) => c.description(),
            MenuCommand::Load(c) => c.description(),
            MenuCommand::Quit(c) => c.description(),
            MenuCommand::Root(c) => c.description(),
            MenuCommand::Save(c) => c.description(),
            MenuCommand::Show(c) => c.description(),
            MenuCommand::Vers(c) => c.description(),
            MenuCommand::View(c) => c.description(),
        }
    }

    fn aliases(&self) -> (r: Vec<&'static str>)
        ensures
            r@.map_values(|a: &'static str| a@) == self.spec_aliases(),
    {
        match self {
            MenuCommand::Axis(c) => c.aliases(),
            MenuCommand::Edit(c) => c.aliases(),
            MenuCommand::Exit(c) => c.aliases(),
            MenuCommand::File(c) => c.aliases(),
            MenuCommand::Help(c) => c.aliases(),
            MenuCommand::Info(c) => c.aliases(),
            MenuCommand::Load(c) => c.aliases(),
            MenuCommand::Quit(c) => c.aliases(),
            MenuCommand::Root(c) => c.aliases(),
            MenuCommand::Save(c) => c.aliases(),
            MenuCommand::Show(c) => c.aliases(),
            MenuCommand::Vers(c) => c.aliases(),
            MenuCommand::View(c) => c.aliases(),
        }
    }

    fn subcommands(&self) -> (r: Vec<MenuCommand>)
        ensures
            r@ == self.spec_subcommands(),
    {
        match self {
            MenuCommand::Axis(c) => c.subcommands(),
            MenuCommand::Edit(c) => c.subcommands(),
            MenuCommand::Exit(c) => c.subcommands(),
            MenuCommand::File(c) => c.subcommands(),
            MenuCommand::Help(c) => c.subcommands(),
            MenuCommand::Info(c) => c.subcommands(),
            MenuCommand::Load(c) => c.subcommands(),
            MenuCommand::Quit(c) => c.subcommands(),
            MenuCommand::Root(c) => c.subcommands(),
            MenuCommand::Save(c) => c.subcommands(),
            MenuCommand::Show(c) => c.subcommands(),
            MenuCommand::Vers(c) => c.subcommands(),
            MenuCommand::View(c) => c.subcommands(),
        }
    }

    fn category(&self) -> (r: CommandCategory)
        ensures
            r == self.spec_category(),
    {
        match self {
            MenuCommand::Axis(c) => c.category(),
            MenuCommand::Edit(c) => c.category(),
            MenuCommand::Exit(c) => c.category(),
            MenuCommand::File(c) => c.category(),
            MenuCommand::Help(c) => c.category(),
            MenuCommand::Info(c) => c.category(),
            MenuCommand::Load(c) => c.category(),
            MenuCommand::Quit(c) => c.category(),
            MenuCommand::Root(c) => c.category(),
            MenuCommand::Save(c) => c.category(),
            MenuCommand::Show(c) => c.category(),
            MenuCommand::Vers(c) => c.category(),
            MenuCommand::View(c) => c.category(),
        }
    }

    fn execute(&mut self, args: &[String]) -> (r: CliResult<CommandResult>)
        ensures
            *final(self) == *old(self),
            crate::command::outcome_of(r) == old(self).spec_execute(views_of(args@)),
    {
        match self {
            MenuCommand::Axis(c) => c.execute(args),
            MenuCommand::Edit(c) => c.execute(args),
            MenuCommand::Exit(c) => c.execute(args),
            MenuCommand::File(c) => c.execute(args),
            MenuCommand::Help(c) => c.execute(args),
            MenuCommand::Info(c) => c.execute(args),
            MenuCommand::Load(c) => c.execute(args),
            MenuCommand::Quit(c) => c.execute(args),
            MenuCommand::Root(c) => c.execute(args),
            MenuCommand::Save(c) => c.execute(args),
            MenuCommand::Show(c) => c.execute(args),
            MenuCommand::Vers(c) => c.execute(args),
            MenuCommand::View(c) => c.execute(args),
        }
    }
}

} // verus!
