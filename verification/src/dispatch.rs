//! The dispatch engine: one step of the read-eval loop. The input line is
//! tokenized, the command name is resolved among the current menu's
//! subcommands, the command is executed, and its result is applied to the
//! command stack and the navigation path as a stack-machine instruction.
//!
//! The whole step is pinned by the functional model [`spec_step`].

use vstd::prelude::*;
use crate::command::{matches_at_index, outcome_of, Command, CommandResult};
use crate::commands::MenuCommand;
use crate::context::CliContext;
use crate::error::{CliError, CliResult, ErrorModel};
use crate::text::{tokenize, tokens_of, views_of};

verus! {

/// What the dispatch loop is told to display after a successful step.
#[derive(Debug)]
pub enum DispatchNote {
    /// Nothing to display.
    Quiet,
    /// A message produced by the executed command.
    Message(String),
    /// The "already at root level" notice: `GoUp` at the root changed nothing.
    AtRoot,
}

/// Specification-level model of `DispatchNote`.
pub enum NoteModel {
    Quiet,
    Message(Seq<char>),
    AtRoot,
}

impl View for DispatchNote {
    type V = NoteModel;

    open spec fn view(&self) -> NoteModel {
        match self {
            DispatchNote::Quiet => NoteModel::Quiet,
            DispatchNote::Message(m) => NoteModel::Message(m@),
            DispatchNote::AtRoot => NoteModel::AtRoot,
        }
    }
}

/// The first subcommand that a probe names, if any.
pub open spec fn spec_find_match(cmds: Seq<MenuCommand>, probe: Seq<char>) -> Option<int>
    decreases cmds.len(),
{
    if cmds.len() == 0 {
        None
    } else if matches_at_index(cmds, probe, 0) {
        Some(0int)
    } else {
        match spec_find_match(cmds.subrange(1, cmds.len() as int), probe) {
            Some(i) => Some(i + 1),
            None => None,
        }
    }
}

/// A found first match is a match with nothing to its left matching; no
/// found match means nothing matches.
pub proof fn lemma_find_match_correct(cmds: Seq<MenuCommand>, probe: Seq<char>)
    ensures
        match spec_find_match(cmds, probe) {
            Some(i) => 0 <= i < cmds.len() && matches_at_index(cmds, probe, i) && forall|j: int|
                0 <= j < i ==> !#[trigger] matches_at_index(cmds, probe, j),
            None => !crate::command::any_match(cmds, probe),
        },
    decreases cmds.len(),
{
    if cmds.len() > 0 && !matches_at_index(cmds, probe, 0) {
        let rest = cmds.subrange(1, cmds.len() as int);
        lemma_find_match_correct(rest, probe);
        assert(forall|j: int| 0 <= j < rest.len() ==> #[trigger] rest[j] == cmds[j + 1]);
        match spec_find_match(rest, probe) {
            Some(i) => {
                assert(matches_at_index(cmds, probe, i + 1));
                assert forall|j: int| 0 <= j < i + 1 implies !#[trigger] matches_at_index(
                    cmds,
                    probe,
                    j,
                ) by {
                    if j > 0 {
                        assert(!matches_at_index(rest, probe, j - 1));
                    }
                }
            },
            None => {
                assert forall|j: int| 0 <= j < cmds.len() implies !#[trigger] matches_at_index(
                    cmds,
                    probe,
                    j,
                ) by {
                    if j > 0 {
                        assert(!matches_at_index(rest, probe, j - 1));
                    }
                }
            },
        }
    }
}

/// The state a dispatch step leaves behind, with what it reports.
pub struct StepModel {
    /// The command stack after the step.
    pub stack: Seq<MenuCommand>,
    /// The navigation path after the step.
    pub path: Seq<Seq<char>>,
    /// Whether the session is still running after the step.
    pub running: bool,
    /// The note to display, or the error the step raised.
    pub outcome: Result<NoteModel, ErrorModel>,
}

/// The functional model of one dispatch step on the given input line.
pub open spec fn spec_step(
    stack: Seq<MenuCommand>,
    path: Seq<Seq<char>>,
    running: bool,
    input: Seq<char>,
) -> StepModel {
    let toks = tokens_of(input);
    if toks.len() == 0 {
        StepModel { stack, path, running, outcome: Err(ErrorModel::EmptyInput) }
    } else {
        let subs = stack.last().spec_subcommands();
        match spec_find_match(subs, toks[0]) {
            None => StepModel {
                stack,
                path,
                running,
                outcome: Err(ErrorModel::InvalidCommand(toks[0])),
            },
            Some(i) => {
                let cmd = subs[i];
                match cmd.spec_execute(toks.subrange(1, toks.len() as int)) {
                    Err(e) => StepModel { stack, path, running, outcome: Err(e) },
                    Ok(res) => apply_result(stack, path, running, cmd, res),
                }
            },
        }
    }
}

/// How a command's result drives the stack: `Success` displays its message
/// and changes nothing; `Continue` descends into the command when it has
/// subcommands; `GoUp` pops unless already at the root, which it reports
/// instead; `Quit` clears the running flag.
pub open spec fn apply_result(
    stack: Seq<MenuCommand>,
    path: Seq<Seq<char>>,
    running: bool,
    cmd: MenuCommand,
    res: crate::command::ResultModel,
) -> StepModel {
    match res {
        crate::command::ResultModel::Success(m) => StepModel {
            stack,
            path,
            running,
            outcome: Ok(
                if m.len() == 0 {
                    NoteModel::Quiet
                } else {
                    NoteModel::Message(m)
                },
            ),
        },
        crate::command::ResultModel::Continue => {
            if cmd.spec_subcommands().len() > 0 {
                StepModel {
                    stack: stack.push(cmd),
                    path: path.push(cmd.spec_name()),
                    running,
                    outcome: Ok(NoteModel::Quiet),
                }
            } else {
                StepModel { stack, path, running, outcome: Ok(NoteModel::Quiet) }
            }
        },
        crate::command::ResultModel::GoUp => {
            if stack.len() > 1 {
                StepModel {
                    stack: stack.drop_last(),
                    path: path.drop_last(),
                    running,
                    outcome: Ok(NoteModel::Quiet),
                }
            } else {
                StepModel { stack, path, running, outcome: Ok(NoteModel::AtRoot) }
            }
        },
        crate::command::ResultModel::Quit => StepModel {
            stack,
            path,
            running: false,
            outcome: Ok(NoteModel::Quiet),
        },
    }
}

/// Handle one line of input against the current command stack and context:
/// resolve, execute, and apply the result, exactly as [`spec_step`] says.
/// The stack never loses its root, and the path stays one shorter than the
/// stack.
pub fn handle_input(
    input: &str,
    command_stack: &mut Vec<MenuCommand>,
    context: &mut CliContext,
) -> (r: CliResult<DispatchNote>)
    requires
        old(command_stack)@.len() >= 1,
        old(context).spec_path().len() == old(command_stack)@.len() - 1,
    ensures
        ({
            let m = spec_step(
                old(command_stack)@,
                old(context).spec_path(),
                old(context).spec_running(),
                input@,
            );
            &&& final(command_stack)@ == m.stack
            &&& final(context).spec_path() == m.path
            &&& final(context).spec_running() == m.running
            &&& match r {
                Ok(n) => m.outcome == Ok::<NoteModel, ErrorModel>(n@),
                Err(e) => m.outcome == Err::<NoteModel, ErrorModel>(e@),
            }
        }),
        final(command_stack)@.len() >= 1,
        final(context).spec_path().len() == final(command_stack)@.len() - 1,
        final(context).spec_history() == old(context).spec_history(),
        final(context).spec_cursor() == old(context).spec_cursor(),
        final(context).spec_prefs() == old(context).spec_prefs(),
        final(context).wf() == old(context).wf(),
    {
        let ghost toks = tokens_of(input@);
        let parts = tokenize(input);
        if parts.len() == 0 {
            proof {
                assert(toks.len() == 0);
            }
            return Err(CliError::EmptyInput);
        }
        proof {
            assert(views_of(parts@)[0] == parts@[0]@);
        }
        let top = &command_stack[command_stack.len() - 1];
        let mut subs = top.subcommands();
        proof {
            assert(subs@ == old(command_stack)@.last().spec_subcommands());
        }
        match crate::command::find_match(&subs, parts[0].as_str()) {
            None => {
                proof {
                    lemma_find_match_correct(subs@, parts@[0]@);
                }
                Err(CliError::invalid_command(parts[0].as_str()))
            },
            Some(i) => {
                proof {
                    lemma_find_match_correct(subs@, parts@[0]@);
                }
                let mut cmd = subs.remove(i);
                let ghost cmd0 = cmd;
                let mut args: Vec<String> = Vec::new();
                let mut k: usize = 1;
                while k < parts.len()
                    invariant
                        1 <= k <= parts@.len(),
                        args@.len() == k - 1,
                        forall|j: int| 0 <= j < k - 1 ==> #[trigger] args@[j] == parts@[j + 1],
                    decreases parts@.len() - k,
                {
                    args.push(parts[k].clone());
                    k = k + 1;
                }
                proof {
                    assert(views_of(args@) =~= toks.subrange(1, toks.len() as int));
                }
                let result = cmd.execute(&args);
                proof {
                    assert(outcome_of(result) == cmd0.spec_execute(
                        toks.subrange(1, toks.len() as int),
                    ));
                }
                match result {
                    Err(e) => Err(e),
                    Ok(res) => match res {
                        CommandResult::Success(msg) => {
                            if msg.as_str().is_empty() {
                                Ok(DispatchNote::Quiet)
                            } else {
                                Ok(DispatchNote::Message(msg))
                            }
                        },
                        CommandResult::Continue => {
                            if cmd.has_subcommands() {
                                let nm = cmd.name();
                                context.push_context(nm.to_owned());
                                command_stack.push(cmd);
                            }
                            Ok(DispatchNote::Quiet)
                        },
                        CommandResult::GoUp => {
                            if command_stack.len() > 1 {
                                let _ = command_stack.pop();
                                let _ = context.pop_context();
                                proof {
                                    assert(final(command_stack)@ =~= old(
                                        command_stack,
                                    )@.drop_last());
                                }
                                Ok(DispatchNote::Quiet)
                            } else {
                                Ok(DispatchNote::AtRoot)
                            }
                        },
                        CommandResult::Quit => {
                            context.quit();
                            Ok(DispatchNote::Quiet)
                        },
                    },
                }
            },
        }
    }

} // verus!
