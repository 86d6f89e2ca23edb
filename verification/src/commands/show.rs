//! Show command: displays the current state for the context it was created
//! in (editing or viewing).

use vstd::prelude::*;
use crate::command::{ArgumentValidator, Command, CommandCategory, CommandResult, ResultModel};
use crate::commands::{base, MenuCommand};
use crate::error::{CliResult, ErrorModel};
use crate::text::{str_eq, views_of};

verus! {

/// The state report for a given context.
pub open spec fn show_text(context: Seq<char>) -> Seq<char> {
    if context == "edit"@ {
        "Displaying current edit state...\nEdit mode: Active\nCurrent selection: None"@
    } else if context == "view"@ {
        "Displaying current view state...\nView mode: Active\nCurrent perspective: Default"@
    } else {
        "Displaying current state...\nStatus: Active"@
    }
}

/// Show command for displaying current state.
#[derive(Debug)]
pub struct ShowCommand {
    /// The context this command operates in.
    pub context: &'static str,
}

impl ShowCommand {
    /// The context this command was created for.
    pub open spec fn spec_context(&self) -> Seq<char> {
        self.context@
    }

    /// Creates a new ShowCommand with the specified context.
    pub fn new(context: &'static str) -> (r: Self)
        ensures
            r == (ShowCommand { context }),
    {
        ShowCommand { context }
    }
}

impl ArgumentValidator for ShowCommand {}

impl Command for ShowCommand {
    open spec fn spec_name(&self) -> Seq<char> {
        "show"@
    }

    open spec fn spec_description(&self) -> Seq<char> {
        if self.spec_context() == "edit"@ {
            "Display current edit state and configuration"@
        } else if self.spec_context() == "view"@ {
            "Display current view state and configuration"@
        } else {
            "Display current state"@
        }
    }

    open spec fn spec_aliases(&self) -> Seq<Seq<char>> {
        seq!["sh"@]
    }

    open spec fn spec_subcommands(&self) -> Seq<MenuCommand> {
        seq![
            MenuCommand::Info(base::InfoCommand { command: "show" }),
            MenuCommand::Exit(base::ExitCommand {}),
        ]
    }

    open spec fn spec_category(&self) -> CommandCategory {
        CommandCategory::General
    }

    open spec fn spec_execute(&self, args: Seq<Seq<char>>) -> Result<ResultModel, ErrorModel> {
        if args.len() > 0 {
            Err(ErrorModel::TooManyArguments { expected: 0, found: args.len() as usize })
        } else {
            Ok(ResultModel::Success(show_text(self.spec_context())))
        }
    }

    fn name(&self) -> (r: &'static str)
        ensures
            r@ == self.spec_name(),
    {
        "show"
    }

    fn description(&self) -> (r: &'static str)
        ensures
            r@ == self.spec_description(),
    {
        if str_eq(self.context, "edit") {
            "Display current edit state and configuration"
        } else if str_eq(self.context, "view") {
            "Display current view state and configuration"
        } else {
            "Display current state"
        }
    }

    fn aliases(&self) -> (r: Vec<&'static str>)
        ensures
            r@.map_values(|a: &'static str| a@) == self.spec_aliases(),
    {
        let mut v: Vec<&'static str> = Vec::new();
        v.push("sh");
        proof {
            assert(v@.map_values(|a: &'static str| a@) =~= self.spec_aliases());
        }
        v
    }

    fn subcommands(&self) -> (r: Vec<MenuCommand>)
        ensures
            r@ == self.spec_subcommands(),
    {
        let mut v: Vec<MenuCommand> = Vec::new();
        v.push(MenuCommand::Info(base::InfoCommand::new("show")));
        v.push(MenuCommand::Exit(base::ExitCommand::new()));
        proof {
            assert(v@ =~= self.spec_subcommands());
        }
        v
    }

    fn category(&self) -> (r: CommandCategory)
        ensures
            r == self.spec_category(),
    {
        CommandCategory::General
    }

    fn execute(&mut self, args: &[String]) -> (r: CliResult<CommandResult>)
        ensures
            *final(self) == *old(self),
            crate::command::outcome_of(r) == old(self).spec_execute(views_of(args@)),
    {
        match self.validate_arg_count(args, 0) {
            Err(e) => Err(e),
            Ok(_) => {
                let mut msg = String::new();
                if str_eq(self.context, "edit") {
                    msg.append(
                        "Displaying current edit state...\nEdit mode: Active\nCurrent selection: None",
                    );
                } else if str_eq(self.context, "view") {
                    msg.append(
                        "Displaying current view state...\nView mode: Active\nCurrent perspective: Default",
                    );
                } else {
                    msg.append("Displaying current state...\nStatus: Active");
                }
                Ok(CommandResult::Success(msg))
            },
        }
    }
}

} // verus!
