//! The command abstraction: the capability every menu node implements, the
//! result protocol a command execution returns, the argument-validation
//! policy, and a registry of commands.

use vstd::prelude::*;
use crate::error::{CliError, CliResult, ErrorModel};
use crate::text::{eq_ignore_case, join_with, str_eq_ignore_case, views_of};
use crate::commands::MenuCommand;

verus! {

/// Result of command execution, interpreted by the dispatch loop as a stack
/// operation: stay, descend, ascend, or halt.
#[derive(Debug)]
pub enum CommandResult {
    /// Command executed successfully with an optional message
    Success(String),
    /// Return to parent menu
    GoUp,
    /// Exit the program
    Quit,
    /// Continue in current menu context
    Continue,
}

/// Specification-level model of `CommandResult`.
pub enum ResultModel {
    Success(Seq<char>),
    GoUp,
    Quit,
    Continue,
}

impl View for CommandResult {
    type V = ResultModel;

    open spec fn view(&self) -> ResultModel {
        match self {
            CommandResult::Success(m) => ResultModel::Success(m@),
            CommandResult::GoUp => ResultModel::GoUp,
            CommandResult::Quit => ResultModel::Quit,
            CommandResult::Continue => ResultModel::Continue,
        }
    }
}

impl PartialEq for CommandResult {
    fn eq(&self, other: &CommandResult) -> (r: bool) {
        match self {
            CommandResult::Success(a) => match other {
                CommandResult::Success(b) => *a == *b,
                _ => false,
            },
            CommandResult::GoUp => matches!(other, CommandResult::GoUp),
            CommandResult::Quit => matches!(other, CommandResult::Quit),
            CommandResult::Continue => matches!(other, CommandResult::Continue),
        }
    }
}

impl vstd::std_specs::cmp::PartialEqSpecImpl for CommandResult {
    open spec fn obeys_eq_spec() -> bool {
        true
    }

    open spec fn eq_spec(&self, other: &CommandResult) -> bool {
        match (self, other) {
            (CommandResult::Success(a), CommandResult::Success(b)) => a@ == b@,
            (CommandResult::GoUp, CommandResult::GoUp) => true,
            (CommandResult::Quit, CommandResult::Quit) => true,
            (CommandResult::Continue, CommandResult::Continue) => true,
            _ => false,
        }
    }
}

impl CommandResult {
    /// Create a success result with a message
    pub fn success(msg: &str) -> (r: Self)
        ensures
            r@ == ResultModel::Success(msg@),
    {
        CommandResult::Success(msg.to_owned())
    }

    /// Create a success result with no message
    pub fn success_silent() -> (r: Self)
        ensures
            r@ == ResultModel::Success(Seq::<char>::empty()),
    {
        CommandResult::Success(String::new())
    }
}

/// The model of an execution result: `Ok`/`Err` over the spec-level models.
pub open spec fn outcome_of(r: Result<CommandResult, CliError>) -> Result<ResultModel, ErrorModel> {
    match r {
        Ok(cr) => Ok(cr@),
        Err(e) => Err(e@),
    }
}

/// Whether `probe` names a command with canonical name `name` and aliases
/// `aliases`: equality up to ASCII case against the name or any alias.
pub open spec fn name_matches(name: Seq<char>, aliases: Seq<Seq<char>>, probe: Seq<char>) -> bool {
    eq_ignore_case(name, probe) || exists|k: int|
        0 <= k < aliases.len() && eq_ignore_case(#[trigger] aliases[k], probe)
}

/// The help line for a command: `name - description`, with the aliases listed
/// in parentheses when there are any.
pub open spec fn spec_help_line(
    name: Seq<char>,
    aliases: Seq<Seq<char>>,
    description: Seq<char>,
) -> Seq<char> {
    if aliases.len() == 0 {
        name + " - "@ + description
    } else {
        name + " ("@ + join_with(aliases, ", "@) + ") - "@ + description
    }
}

/// Command categories for organizing help output
#[derive(Debug, Clone, Copy, PartialEq, Eq, Hash, Structural)]
pub enum CommandCategory {
    /// General commands
    General,
    /// File operations
    File,
    /// Edit operations
    Edit,
    /// View operations
    View,
    /// System commands
    System,
}

impl CommandCategory {
    /// Get the display name for this category
    pub fn display_name(&self) -> (r: &'static str)
        ensures
            *self == CommandCategory::General ==> r@ == "General"@,
            *self == CommandCategory::File ==> r@ == "File Operations"@,
            *self == CommandCategory::Edit ==> r@ == "Edit Operations"@,
            *self == CommandCategory::View ==> r@ == "View Operations"@,
            *self == CommandCategory::System ==> r@ == "System"@,
    {
        match self {
            CommandCategory::General => "General",
            CommandCategory::File => "File Operations",
            CommandCategory::Edit => "Edit Operations",
            CommandCategory::View => "View Operations",
            CommandCategory::System => "System",
        }
    }
}

/// Core capability that all menu commands implement: identification,
/// execution, and help generation. Every implementation's behaviour is pinned
/// by the spec-level functions.
pub trait Command: Sized {
    /// The command's canonical name.
    spec fn spec_name(&self) -> Seq<char>;

    /// The command's description.
    spec fn spec_description(&self) -> Seq<char>;

    /// The command's aliases.
    spec fn spec_aliases(&self) -> Seq<Seq<char>>;

    /// The command's freshly constructed children; empty for leaves.
    spec fn spec_subcommands(&self) -> Seq<MenuCommand>;

    /// The command's category.
    spec fn spec_category(&self) -> CommandCategory;

    /// What executing the command with the given arguments returns.
    spec fn spec_execute(&self, args: Seq<Seq<char>>) -> Result<ResultModel, ErrorModel>;

    /// Get the command name (used for command matching)
    fn name(&self) -> (r: &'static str)
        ensures
            r@ == self.spec_name(),
    ;

    /// Get the command description for help text
    fn description(&self) -> (r: &'static str)
        ensures
            r@ == self.spec_description(),
    ;

    /// Get command aliases (alternative names for the command)
    fn aliases(&self) -> (r: Vec<&'static str>)
        ensures
            r@.map_values(|a: &'static str| a@) == self.spec_aliases(),
    ;

    /// Get available subcommands (if any)
    fn subcommands(&self) -> (r: Vec<MenuCommand>)
        ensures
            r@ == self.spec_subcommands(),
    ;

    /// Get command category for help organization
    fn category(&self) -> (r: CommandCategory)
        ensures
            r == self.spec_category(),
    ;

    /// Execute the command with given arguments
    fn execute(&mut self, args: &[String]) -> (r: CliResult<CommandResult>)
        ensures
            *final(self) == *old(self),
            outcome_of(r) == old(self).spec_execute(views_of(args@)),
    ;

    /// Check if the given name matches this command (name or alias)
    fn matches(&self, name: &str) -> (r: bool)
        ensures
            r == name_matches(self.spec_name(), self.spec_aliases(), name@),
    {
        let own = self.name();
        if str_eq_ignore_case(own, name) {
            proof {
                assert(eq_ignore_case(self.spec_name(), name@));
            }
            return true;
        }
        let aliases = self.aliases();
        let ghost model = aliases@.map_values(|a: &'static str| a@);
        let mut k: usize = 0;
        while k < aliases.len()
            invariant
                k <= aliases.len(),
                model == aliases@.map_values(|a: &'static str| a@),
                model == self.spec_aliases(),
                forall|j: int| 0 <= j < k ==> !eq_ignore_case(#[trigger] model[j], name@),
            decreases aliases.len() - k,
        {
            if str_eq_ignore_case(aliases[k], name) {
                proof {
                    assert(eq_ignore_case(self.spec_aliases()[k as int], name@));
                }
                return true;
            }
            k = k + 1;
        }
        false
    }

    /// Check if this command has subcommands
    fn has_subcommands(&self) -> (r: bool)
        ensures
            r == (self.spec_subcommands().len() > 0),
    {
        self.subcommands().len() > 0
    }

    /// Get detailed help text for the command
    fn help(&self) -> (r: String)
        ensures
            r@ == spec_help_line(self.spec_name(), self.spec_aliases(), self.spec_description()),
    {
        let aliases = self.aliases();
        let ghost model = aliases@.map_values(|a: &'static str| a@);
        let mut s = String::new();
        s.append(self.name());
        if aliases.len() == 0 {
            s.append(" - ");
            s.append(self.description());
            proof {
                assert(s@ =~= spec_help_line(
                    self.spec_name(),
                    self.spec_aliases(),
                    self.spec_description(),
                ));
            }
        } else {
            s.append(" (");
            let mut k: usize = 0;
            while k < aliases.len()
                invariant
                    k <= aliases.len(),
                    aliases.len() > 0,
                    model == aliases@.map_values(|a: &'static str| a@),
                    model == self.spec_aliases(),
                    k > 0 ==> s@ == self.spec_name() + " ("@ + join_with(
                        model.take(k as int),
                        ", "@,
                    ),
                    k == 0 ==> s@ == self.spec_name() + " ("@,
                decreases aliases.len() - k,
            {
                if k > 0 {
                    s.append(", ");
                }
                s.append(aliases[k]);
                proof {
                    let t = model.take(k + 1);
                    assert(t.drop_last() =~= model.take(k as int));
                    assert(t.last() == model[k as int]);
                    assert(s@ =~= self.spec_name() + " ("@ + join_with(t, ", "@));
                }
                k = k + 1;
            }
            s.append(") - ");
            s.append(self.description());
            proof {
                assert(model.take(model.len() as int) =~= model);
                assert(s@ =~= spec_help_line(
                    self.spec_name(),
                    self.spec_aliases(),
                    self.spec_description(),
                ));
            }
        }
        s
    }

    /// Get usage information for the command
    fn usage(&self) -> (r: String)
        ensures
            r@ == self.spec_name() + " [OPTIONS]"@,
    {
        let mut s = String::new();
        s.append(self.name());
        s.append(" [OPTIONS]");
        s
    }
}

/// The values referred to by a sequence of references.
pub open spec fn deref_views<C>(rs: Seq<&C>) -> Seq<C> {
    rs.map_values(|c: &C| *c)
}

/// The commands of `cmds` whose category is `cat`, in order.
pub open spec fn of_category<C: Command>(cmds: Seq<C>, cat: CommandCategory) -> Seq<C> {
    cmds.filter(|c: C| c.spec_category() == cat)
}

/// The position of a category in declaration order.
pub open spec fn cat_rank(c: CommandCategory) -> int {
    match c {
        CommandCategory::General => 0,
        CommandCategory::File => 1,
        CommandCategory::Edit => 2,
        CommandCategory::View => 3,
        CommandCategory::System => 4,
    }
}

/// Two categories with the same rank are the same category.
proof fn lemma_cat_rank_inj(a: CommandCategory, b: CommandCategory)
    ensures
        (cat_rank(a) == cat_rank(b)) == (a == b),
{
}

/// Whether the command at index `i` of `cmds` matches `probe`.
pub open spec fn matches_at_index<C: Command>(cmds: Seq<C>, probe: Seq<char>, i: int) -> bool {
    name_matches(cmds[i].spec_name(), cmds[i].spec_aliases(), probe)
}

/// Whether some command of `cmds` matches `probe`.
pub open spec fn any_match<C: Command>(cmds: Seq<C>, probe: Seq<char>) -> bool {
    exists|i: int| 0 <= i < cmds.len() && #[trigger] matches_at_index(cmds, probe, i)
}

/// Find the first command of `cmds` that `probe` names, if any.
pub fn find_match<C: Command>(cmds: &Vec<C>, name: &str) -> (r: Option<usize>)
    ensures
        match r {
            Some(i) => i < cmds@.len() && matches_at_index(cmds@, name@, i as int)
                && forall|j: int| 0 <= j < i ==> !matches_at_index(cmds@, name@, j),
            None => !any_match(cmds@, name@),
        },
{
    let mut i: usize = 0;
    while i < cmds.len()
        invariant
            i <= cmds@.len(),
            forall|j: int| 0 <= j < i ==> !matches_at_index(cmds@, name@, j),
        decreases cmds@.len() - i,
    {
        if cmds[i].matches(name) {
            return Some(i);
        }
        i = i + 1;
    }
    None
}

/// Command registry for managing available commands: a centralized way to
/// look commands up by name or alias and to group them for help output.
#[derive(Debug)]
pub struct CommandRegistry<C: Command> {
    commands: Vec<C>,
}

impl<C: Command> CommandRegistry<C> {
    /// The registered commands, in registration order.
    pub closed spec fn model(&self) -> Seq<C> {
        self.commands@
    }

    /// Create a new command registry
    pub fn new() -> (r: Self)
        ensures
            r.model() == Seq::<C>::empty(),
    {
        Self { commands: Vec::new() }
    }

    /// Register a command with the registry
    pub fn register(&mut self, command: C)
        ensures
            final(self).model() == old(self).model().push(command),
    {
        self.commands.push(command);
    }

    /// Find a command by name or alias; the first registered match wins.
    pub fn find_command(&self, name: &str) -> (r: Option<&C>)
        ensures
            match r {
                Some(c) => exists|i: int|
                    0 <= i < self.model().len() && *c == self.model()[i]
                        && #[trigger] matches_at_index(self.model(), name@, i) && forall|j: int|
                        0 <= j < i ==> !#[trigger] matches_at_index(self.model(), name@, j),
                None => !any_match(self.model(), name@),
            },
    {
        match find_match(&self.commands, name) {
            Some(i) => {
                let c = &self.commands[i];
                proof {
                    assert(matches_at_index(self.model(), name@, i as int));
                }
                Some(c)
            },
            None => None,
        }
    }

    /// Get all registered commands
    pub fn commands(&self) -> (r: &Vec<C>)
        ensures
            r@ == self.model(),
    {
        &self.commands
    }

    /// Get the registered commands grouped by category: one group for each
    /// category that has registered commands, in declaration order, each
    /// holding its commands in registration order. Categories with no
    /// registered commands do not appear.
    pub fn commands_by_category(&self) -> (r: Vec<(CommandCategory, Vec<&C>)>)
        ensures
            forall|k1: int, k2: int|
                0 <= k1 < k2 < r@.len() ==> cat_rank((#[trigger] r@[k1]).0) < cat_rank(
                    (#[trigger] r@[k2]).0,
                ),
            forall|k: int|
                0 <= k < r@.len() ==> deref_views((#[trigger] r@[k]).1@) == of_category(
                    self.model(),
                    r@[k].0,
                ) && of_category(self.model(), r@[k].0).len() > 0,
            forall|c: CommandCategory|
                (exists|k: int| 0 <= k < r@.len() && (#[trigger] r@[k]).0 == c)
                    <==> #[trigger] of_category(self.model(), c).len() > 0,
    {
        let mut order: Vec<CommandCategory> = Vec::new();
        order.push(CommandCategory::General);
        order.push(CommandCategory::File);
        order.push(CommandCategory::Edit);
        order.push(CommandCategory::View);
        order.push(CommandCategory::System);
        proof {
            assert(forall|j: int|
                0 <= j < order@.len() ==> cat_rank(#[trigger] order@[j]) == j);
        }
        let mut out: Vec<(CommandCategory, Vec<&C>)> = Vec::new();
        let mut i: usize = 0;
        while i < order.len()
            invariant
                i <= order@.len(),
                order@.len() == 5,
                forall|j: int| 0 <= j < order@.len() ==> cat_rank(#[trigger] order@[j]) == j,
                forall|k1: int, k2: int|
                    0 <= k1 < k2 < out@.len() ==> cat_rank((#[trigger] out@[k1]).0) < cat_rank(
                        (#[trigger] out@[k2]).0,
                    ),
                forall|k: int|
                    0 <= k < out@.len() ==> cat_rank((#[trigger] out@[k]).0) < i
                        && deref_views(out@[k].1@) == of_category(self.model(), out@[k].0)
                        && of_category(self.model(), out@[k].0).len() > 0,
                forall|c: CommandCategory|
                    cat_rank(c) < i ==> ((exists|k: int|
                        0 <= k < out@.len() && (#[trigger] out@[k]).0 == c)
                        <==> #[trigger] of_category(self.model(), c).len() > 0),
            decreases order@.len() - i,
        {
            let cat = order[i];
            let g = self.in_category(cat);
            let ghost prev = out@;
            proof {
                assert(deref_views(g@).len() == g@.len());
            }
            if g.len() > 0 {
                out.push((cat, g));
                proof {
                    assert(out@[out@.len() - 1] == (cat, g));
                    assert(forall|k: int| 0 <= k < prev.len() ==> #[trigger] out@[k] == prev[k]);
                }
            }
            proof {
                assert forall|c: CommandCategory| cat_rank(c) < i + 1 implies ((exists|k: int|
                    0 <= k < out@.len() && (#[trigger] out@[k]).0 == c)
                    <==> #[trigger] of_category(self.model(), c).len() > 0) by {
                    lemma_cat_rank_inj(c, cat);
                    if cat_rank(c) == i as int {
                        if of_category(self.model(), c).len() > 0 {
                            assert(out@[out@.len() - 1].0 == c);
                        }
                    } else {
                        if exists|k: int| 0 <= k < prev.len() && (#[trigger] prev[k]).0 == c {
                            let k = choose|k: int|
                                0 <= k < prev.len() && (#[trigger] prev[k]).0 == c;
                            assert(out@[k].0 == c);
                        }
                        if exists|k: int| 0 <= k < out@.len() && (#[trigger] out@[k]).0 == c {
                            let k = choose|k: int|
                                0 <= k < out@.len() && (#[trigger] out@[k]).0 == c;
                            if k < prev.len() {
                                assert(prev[k].0 == c);
                            }
                        }
                    }
                }
            }
            i = i + 1;
        }
        proof {
            assert forall|c: CommandCategory| cat_rank(c) < 5 by {
                match c {
                    CommandCategory::General => {},
                    CommandCategory::File => {},
                    CommandCategory::Edit => {},
                    CommandCategory::View => {},
                    CommandCategory::System => {},
                }
            }
        }
        out
    }

    /// The registered commands of one category, in registration order.
    fn in_category(&self, cat: CommandCategory) -> (r: Vec<&C>)
        ensures
            deref_views(r@) == of_category(self.model(), cat),
    {
        let mut out: Vec<&C> = Vec::new();
        proof {
            reveal_with_fuel(Seq::filter, 1);
            assert(self.model().take(0) =~= Seq::<C>::empty());
            assert(deref_views(out@) =~= of_category(self.model().take(0), cat));
        }
        let mut i: usize = 0;
        while i < self.commands.len()
            invariant
                i <= self.model().len(),
                self.model() == self.commands@,
                deref_views(out@) == of_category(self.model().take(i as int), cat),
            decreases self.commands@.len() - i,
        {
            let ghost prev = out@;
            let hit = self.commands[i].category() == cat;
            if hit {
                out.push(&self.commands[i]);
            }
            proof {
                let t = self.model().take(i + 1);
                assert(t.drop_last() =~= self.model().take(i as int));
                assert(t.last() == self.model()[i as int]);
                reveal_with_fuel(Seq::filter, 2);
                if hit {
                    assert(of_category(t, cat)
                        == of_category(self.model().take(i as int), cat).push(t.last()));
                    assert(deref_views(out@) =~= deref_views(prev).push(self.model()[i as int]));
                } else {
                    assert(of_category(t, cat) == of_category(self.model().take(i as int), cat));
                }
                assert(deref_views(out@) =~= of_category(t, cat));
            }
            i = i + 1;
        }
        proof {
            assert(self.model().take(self.model().len() as int) =~= self.model());
        }
        out
    }
}

/// Trait for commands that can validate their arguments
pub trait ArgumentValidator {
    /// Validate that the number of arguments is exactly `expected`: too few
    /// arguments yield `TooFewArguments`, too many `TooManyArguments`.
    fn validate_arg_count(&self, args: &[String], expected: usize) -> (r: CliResult<()>)
        ensures
            args@.len() == expected ==> r is Ok,
            args@.len() < expected ==> (match r {
                Err(e) => e@ == ErrorModel::TooFewArguments {
                    expected,
                    found: args@.len() as usize,
                },
                Ok(_) => false,
            }),
            args@.len() > expected ==> (match r {
                Err(e) => e@ == ErrorModel::TooManyArguments {
                    expected,
                    found: args@.len() as usize,
                },
                Ok(_) => false,
            }),
    {
        if args.len() < expected {
            Err(CliError::TooFewArguments { expected, found: args.len() })
        } else if args.len() > expected {
            Err(CliError::TooManyArguments { expected, found: args.len() })
        } else {
            Ok(())
        }
    }

    /// Validate that the number of arguments lies in `min ..= max`.
    fn validate_arg_range(&self, args: &[String], min: usize, max: usize) -> (r: CliResult<()>)
        ensures
            min <= args@.len() <= max ==> r is Ok,
            args@.len() < min ==> (match r {
                Err(e) => e@ == ErrorModel::TooFewArguments {
                    expected: min,
                    found: args@.len() as usize,
                },
                Ok(_) => false,
            }),
            min <= args@.len() && args@.len() > max ==> (match r {
                Err(e) => e@ == ErrorModel::TooManyArguments {
                    expected: max,
                    found: args@.len() as usize,
                },
                Ok(_) => false,
            }),
    {
        if args.len() < min {
            Err(CliError::TooFewArguments { expected: min, found: args.len() })
        } else if args.len() > max {
            Err(CliError::TooManyArguments { expected: max, found: args.len() })
        } else {
            Ok(())
        }
    }

    /// Validate that an argument is not blank.
    fn validate_not_empty(&self, arg: &str, arg_name: &str) -> (r: CliResult<()>)
        ensures
            !crate::text::seq_is_blank(arg@) ==> r is Ok,
            crate::text::seq_is_blank(arg@) ==> (match r {
                Err(e) => e@ == ErrorModel::InvalidInput(arg_name@ + " cannot be empty"@),
                Ok(_) => false,
            }),
    {
        if crate::text::str_is_blank(arg) {
            let mut msg = String::new();
            msg.append(arg_name);
            msg.append(" cannot be empty");
            Err(CliError::InvalidInput(msg))
        } else {
            Ok(())
        }
    }
}

} // verus!
