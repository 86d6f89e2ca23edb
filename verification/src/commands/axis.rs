//! Axis command: configures axis properties for the context it was created
//! in (editing or viewing), with validation of the axis name.

use vstd::prelude::*;
use crate::command::{ArgumentValidator, Command, CommandCategory, CommandResult, ResultModel};
use crate::commands::{base, MenuCommand};
use crate::error::{CliResult, ErrorModel};
use crate::text::{char_is_alnum, is_unicode_alnum, seq_is_blank, str_eq, str_is_blank, views_of};

verus! {

/// A well-formed axis name: alphanumeric characters, underscores and hyphens.
pub open spec fn valid_axis_name(s: Seq<char>) -> bool {
    forall|i: int|
        0 <= i < s.len() ==> is_unicode_alnum(#[trigger] s[i]) || s[i] == '_' || s[i] == '-'
}

/// The axis name the command acts on: the single argument, or the default.
pub open spec fn axis_name_of(args: Seq<Seq<char>>) -> Seq<char> {
    if args.len() == 0 {
        "default"@
    } else {
        args[0]
    }
}

/// The report for a configured axis in a given context.
pub open spec fn axis_text(context: Seq<char>, axis: Seq<char>) -> Seq<char> {
    if context == "edit"@ {
        "Configuring axis properties for editing: "@ + axis
    } else if context == "view"@ {
        "Configuring axis properties for viewing: "@ + axis
    } else {
        "Configuring axis properties: "@ + axis
    }
}

/// Axis command for configuring axis properties.
#[derive(Debug)]
pub struct AxisCommand {
    /// The context this command operates in.
    pub context: &'static str,
}

impl AxisCommand {
    /// The context this command was created for.
    pub open spec fn spec_context(&self) -> Seq<char> {
        self.context@
    }

    /// Creates a new AxisCommand with the specified context.
    pub fn new(context: &'static str) -> (r: Self)
        ensures
            r == (AxisCommand { context }),
    {
        AxisCommand { context }
    }
}

impl ArgumentValidator for AxisCommand {}

impl Command for AxisCommand {
    open spec fn spec_name(&self) -> Seq<char> {
        "axis"@
    }

    open spec fn spec_description(&self) -> Seq<char> {
        if self.spec_context() == "edit"@ {
            "Configure axis properties for the editing environment"@
        } else if self.spec_context() == "view"@ {
            "Configure axis properties for the viewing environment"@
        } else {
            "Configure axis properties"@
        }
    }

    open spec fn spec_aliases(&self) -> Seq<Seq<char>> {
        seq!["a"@]
    }

    open spec fn spec_subcommands(&self) -> Seq<MenuCommand> {
        seq![
            MenuCommand::Info(base::InfoCommand { command: "axis" }),
            MenuCommand::Exit(base::ExitCommand {}),
        ]
    }

    open spec fn spec_category(&self) -> CommandCategory {
        CommandCategory::General
    }

    open spec fn spec_execute(&self, args: Seq<Seq<char>>) -> Result<ResultModel, ErrorModel> {
        if args.len() > 1 {
            Err(ErrorModel::TooManyArguments { expected: 1, found: args.len() as usize })
        } else {
            let axis = axis_name_of(args);
            if seq_is_blank(axis) {
                Err(ErrorModel::InvalidInput("Axis name cannot be empty"@))
            } else if !valid_axis_name(axis) {
                Err(ErrorModel::InvalidInput(
                    "Axis name can only contain alphanumeric characters, underscores, and hyphens"@,
                ))
            } else {
                Ok(ResultModel::Success(axis_text(self.spec_context(), axis)))
            }
        }
    }

    fn name(&self) -> (r: &'static str)
        ensures
            r@ == self.spec_name(),
    {
        "axis"
    }

    fn description(&self) -> (r: &'static str)
        ensures
            r@ == self.spec_description(),
    {
        if str_eq(self.context, "edit") {
            "Configure axis properties for the editing environment"
        } else if str_eq(self.context, "view") {
            "Configure axis properties for the viewing environment"
        } else {
            "Configure axis properties"
        }
    }

    fn aliases(&self) -> (r: Vec<&'static str>)
        ensures
            r@.map_values(|a: &'static str| a@) == self.spec_aliases(),
    {
        let mut v: Vec<&'static str> = Vec::new();
        v.push("a");
        proof {
            assert(v@.map_values(|a: &'static str| a@) =~= self.spec_aliases());
        }
        v
    }

    fn subcommands(&self) -> (r: Vec<MenuCommand>)
        ensures
            r@ == self.spec_subcommands(),
    {
        let mut v: Vec<MenuCommand> = Vec::new();
        v.push(MenuCommand::Info(base::InfoCommand::new("axis")));
        v.push(MenuCommand::Exit(base::ExitCommand::new()));
        proof {
            assert(v@ =~= self.spec_subcommands());
        }
        v
    }

    fn category(&self) -> (r: CommandCategory)
        ensures
            r == self.spec_category(),
    {
        CommandCategory::General
    }

    fn execute(&mut self, args: &[String]) -> (r: CliResult<CommandResult>)
        ensures
            *final(self) == *old(self),
            crate::command::outcome_of(r) == old(self).spec_execute(views_of(args@)),
    {
        match self.validate_arg_range(args, 0, 1) {
            Err(e) => Err(e),
            Ok(_) => {
                let axis: &str = if args.len() == 0 {
                    "default"
                } else {
                    args[0].as_str()
                };
                proof {
                    assert(axis@ == axis_name_of(views_of(args@)));
                }
                if str_is_blank(axis) {
                    Err(crate::error::CliError::invalid_input("Axis name cannot be empty"))
                } else if !axis_chars_ok(axis) {
                    Err(crate::error::CliError::invalid_input(
                        "Axis name can only contain alphanumeric characters, underscores, and hyphens",
                    ))
                } else {
                    let mut msg = String::new();
                    if str_eq(self.context, "edit") {
                        msg.append("Configuring axis properties for editing: ");
                    } else if str_eq(self.context, "view") {
                        msg.append("Configuring axis properties for viewing: ");
                    } else {
                        msg.append("Configuring axis properties: ");
                    }
                    msg.append(axis);
                    proof {
                        assert(msg@ =~= axis_text(self.spec_context(), axis@));
                    }
                    Ok(CommandResult::Success(msg))
                }
            },
        }
    }
}

/// Whether every character of `s` is allowed in an axis name.
fn axis_chars_ok(s: &str) -> (r: bool)
    ensures
        r == valid_axis_name(s@),
{
    let len = s.unicode_len();
    let mut i: usize = 0;
    while i < len
        invariant
            i <= len,
            len == s@.len(),
            forall|j: int|
                0 <= j < i ==> is_unicode_alnum(#[trigger] s@[j]) || s@[j] == '_' || s@[j] == '-',
        decreases len - i,
    {
        let c = s.get_char(i);
        let ok = char_is_alnum(c) || c == '_' || c == '-';
        if !ok {
            return false;
        }
        i = i + 1;
    }
    true
}

} // verus!
