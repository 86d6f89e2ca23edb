//! The crate-wide laws: properties that hold of every input, proved once and
//! for all over the specification functions that the executable contracts
//! are stated with.

use vstd::prelude::*;
use crate::command::{any_match, matches_at_index, name_matches, Command};
use crate::commands::MenuCommand;
use crate::context::{spec_history_after, MAX_HISTORY_SIZE};
use crate::dispatch::{apply_result, lemma_find_match_correct, spec_find_match, spec_step, NoteModel, StepModel};
use crate::error::ErrorModel;
use crate::text::{ascii_lower, eq_ignore_case, lower_seq, tokens_of, trimmed};

verus! {

/// The exact argument counts each menu command accepts: a count below the
/// first bound is too few, one above the second is too many.
pub open spec fn arity_bounds(cmd: MenuCommand) -> (usize, usize) {
    match cmd {
        MenuCommand::Load(_) => (1usize, 1usize),
        MenuCommand::Axis(_) => (0usize, 1usize),
        MenuCommand::Save(_) => (0usize, 1usize),
        MenuCommand::Help(_) => (0usize, 1usize),
        MenuCommand::Root(_) => (0usize, usize::MAX),
        _ => (0usize, 0usize),
    }
}

/// The uniform argument-validation policy: for every command, too few
/// arguments yield exactly `TooFewArguments` with the expected and found
/// counts, too many yield exactly `TooManyArguments`, and an acceptable count
/// never yields an arity error.
pub proof fn lemma_argument_policy(cmd: MenuCommand, args: Seq<Seq<char>>)
    requires
        args.len() <= usize::MAX,
    ensures
        args.len() < arity_bounds(cmd).0 ==> cmd.spec_execute(args) == Err::<
            crate::command::ResultModel,
            ErrorModel,
        >(
            ErrorModel::TooFewArguments {
                expected: arity_bounds(cmd).0,
                found: args.len() as usize,
            },
        ),
        args.len() > arity_bounds(cmd).1 ==> cmd.spec_execute(args) == Err::<
            crate::command::ResultModel,
            ErrorModel,
        >(
            ErrorModel::TooManyArguments {
                expected: arity_bounds(cmd).1,
                found: args.len() as usize,
            },
        ),
        arity_bounds(cmd).0 <= args.len() <= arity_bounds(cmd).1 ==> (match cmd.spec_execute(
            args,
        ) {
            Err(e) => !(e is TooFewArguments) && !(e is TooManyArguments),
            Ok(_) => true,
        }),
        arity_bounds(cmd) == (0usize, 0usize) && args.len() == 0 ==> cmd.spec_execute(args) is Ok,
{
}

/// ASCII case folding is idempotent on sequences.
pub proof fn lemma_lower_idempotent(s: Seq<char>)
    ensures
        lower_seq(lower_seq(s)) == lower_seq(s),
{
    assert forall|i: int| 0 <= i < s.len() implies ascii_lower(
        #[trigger] lower_seq(s)[i],
    ) == lower_seq(s)[i] by {
        assert(lower_seq(s)[i] == ascii_lower(s[i]));
    }
    assert(lower_seq(lower_seq(s)) =~= lower_seq(s));
}

/// Command matching is insensitive to the ASCII case of the probe: folding
/// the probe to lower case never changes whether it names the command. With
/// the definition of `name_matches` this pins the matching relation: a probe
/// matches exactly when it equals the canonical name or an alias up to ASCII
/// case, and any other string matches nothing.
pub proof fn lemma_matches_case_insensitive(
    name: Seq<char>,
    aliases: Seq<Seq<char>>,
    probe: Seq<char>,
)
    ensures
        name_matches(name, aliases, probe) == name_matches(name, aliases, lower_seq(probe)),
{
    lemma_lower_idempotent(probe);
    assert forall|k: int| 0 <= k < aliases.len() implies eq_ignore_case(
        #[trigger] aliases[k],
        probe,
    ) == eq_ignore_case(aliases[k], lower_seq(probe)) by {}
    if name_matches(name, aliases, probe) && !eq_ignore_case(name, probe) {
        let k = choose|k: int| 0 <= k < aliases.len() && eq_ignore_case(#[trigger] aliases[k], probe);
        assert(eq_ignore_case(aliases[k], lower_seq(probe)));
    }
    if name_matches(name, aliases, lower_seq(probe)) && !eq_ignore_case(name, lower_seq(probe)) {
        let k = choose|k: int|
            0 <= k < aliases.len() && eq_ignore_case(#[trigger] aliases[k], lower_seq(probe));
        assert(eq_ignore_case(aliases[k], probe));
    }
}

/// The history policy: the history never outgrows its bound; a blank line and
/// a repetition of the previous line (compared after trimming) change
/// nothing; any other line is appended, evicting the oldest entry when the
/// history is full.
pub proof fn lemma_history_policy(hist: Seq<Seq<char>>, line: Seq<char>)
    requires
        hist.len() <= MAX_HISTORY_SIZE,
    ensures
        spec_history_after(hist, line).len() <= MAX_HISTORY_SIZE,
        trimmed(line).len() == 0 ==> spec_history_after(hist, line) == hist,
        hist.len() > 0 && trimmed(hist.last()) == trimmed(line) ==> spec_history_after(hist, line)
            == hist,
        trimmed(line).len() > 0 && (hist.len() == 0 || trimmed(hist.last()) != trimmed(line))
            && hist.len() < MAX_HISTORY_SIZE ==> spec_history_after(hist, line) == hist.push(line),
        trimmed(line).len() > 0 && (hist.len() == 0 || trimmed(hist.last()) != trimmed(line))
            && hist.len() == MAX_HISTORY_SIZE ==> spec_history_after(hist, line) == hist.subrange(
            1,
            hist.len() as int,
        ).push(line),
{
    if trimmed(line).len() > 0 && (hist.len() == 0 || trimmed(hist.last()) != trimmed(line)) {
        if hist.len() == MAX_HISTORY_SIZE {
            assert(spec_history_after(hist, line) =~= hist.subrange(1, hist.len() as int).push(
                line,
            ));
        }
    }
}

/// Path validation fails closed: whatever the filesystem answered, a path
/// with a ".." component is always rejected, and a path is only ever
/// returned in its canonical form lying within the working directory.
pub proof fn lemma_path_validation_fails_closed(
    p: Seq<char>,
    cwd: Seq<char>,
    lookup: crate::security::LookupModel,
)
    ensures
        crate::security::has_dotdot_component(p) ==> crate::security::spec_validate_path(
            p,
            cwd,
            lookup,
        ) is Err,
        match crate::security::spec_validate_path(p, cwd, lookup) {
            Ok(c) => crate::security::path_within(c, cwd),
            Err(_) => true,
        },
{
}

/// The stack never drops below the root and the navigation path always stays
/// exactly one entry shorter than the stack, whatever input a dispatch step
/// processes.
pub proof fn lemma_step_preserves_root(
    stack: Seq<MenuCommand>,
    path: Seq<Seq<char>>,
    running: bool,
    input: Seq<char>,
)
    requires
        stack.len() >= 1,
        path.len() == stack.len() - 1,
    ensures
        spec_step(stack, path, running, input).stack.len() >= 1,
        spec_step(stack, path, running, input).path.len() == spec_step(
            stack,
            path,
            running,
            input,
        ).stack.len() - 1,
        spec_step(stack, path, running, input).stack.len() >= stack.len() - 1,
{
}

/// `GoUp` applied at the root leaves the stack and the path unchanged and
/// reports the "already at root" notice instead of an error.
pub proof fn lemma_go_up_at_root(
    stack: Seq<MenuCommand>,
    path: Seq<Seq<char>>,
    running: bool,
    cmd: MenuCommand,
)
    requires
        stack.len() == 1,
    ensures
        apply_result(stack, path, running, cmd, crate::command::ResultModel::GoUp) == (StepModel {
            stack,
            path,
            running,
            outcome: Ok(NoteModel::AtRoot),
        }),
{
}

/// An unrecognized token yields `InvalidCommand` carrying that token and
/// leaves the stack, the path and the running flag unchanged, at any depth.
pub proof fn lemma_unknown_token_unchanged(
    stack: Seq<MenuCommand>,
    path: Seq<Seq<char>>,
    running: bool,
    input: Seq<char>,
)
    requires
        stack.len() >= 1,
        tokens_of(input).len() > 0,
        !any_match(stack.last().spec_subcommands(), tokens_of(input)[0]),
    ensures
        spec_step(stack, path, running, input) == (StepModel {
            stack,
            path,
            running,
            outcome: Err(ErrorModel::InvalidCommand(tokens_of(input)[0])),
        }),
{
    let subs = stack.last().spec_subcommands();
    let probe = tokens_of(input)[0];
    lemma_find_match_correct(subs, probe);
    if spec_find_match(subs, probe) is Some {
        let i = spec_find_match(subs, probe).unwrap();
        assert(matches_at_index(subs, probe, i));
        assert(any_match(subs, probe));
    }
}

} // verus!
