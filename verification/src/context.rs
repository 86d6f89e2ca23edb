//! Session state: the navigation path shown in the prompt, the running flag,
//! the bounded command history with its cursor, and the user preferences.
//! Also the pure navigation helpers for depth transitions and relative paths.

use vstd::prelude::*;
use std::collections::VecDeque;
use crate::command::Command;
use crate::text::{
    append_joined, insert_sorted, join_with, sorted_unique, str_starts_with, str_trim, trimmed,
    views_of,
};

verus! {

/// Maximum number of commands kept in history.
pub const MAX_HISTORY_SIZE: usize = 100;

/// User preferences for CLI behavior.
#[derive(Debug, Clone)]
pub struct CliPreferences {
    /// Whether to use colored output
    pub colored_prompt: bool,
    /// Whether to show command suggestions on invalid input
    pub show_suggestions: bool,
    /// Whether to confirm destructive operations
    pub confirm_destructive: bool,
    /// Maximum number of items to show in listings
    pub max_list_items: usize,
}

/// The default preferences: everything enabled, listings capped at 50.
pub open spec fn spec_default_prefs() -> CliPreferences {
    CliPreferences {
        colored_prompt: true,
        show_suggestions: true,
        confirm_destructive: true,
        max_list_items: 50,
    }
}

impl Default for CliPreferences {
    fn default() -> (r: Self)
        ensures
            r == spec_default_prefs(),
    {
        Self {
            colored_prompt: true,
            show_suggestions: true,
            confirm_destructive: true,
            max_list_items: 50,
        }
    }
}

/// The prompt rendered for a navigation path, optionally with the application
/// name wrapped in a 24-bit ANSI green escape.
pub open spec fn spec_prompt(colored: bool, path: Seq<Seq<char>>) -> Seq<char> {
    let green = if colored {
        "\u{1b}[38;2;0;215;135m"@
    } else {
        Seq::<char>::empty()
    };
    let reset = if colored {
        "\u{1b}[0m"@
    } else {
        Seq::<char>::empty()
    };
    if path.len() == 0 {
        green + "sm-menu"@ + reset + " > "@
    } else {
        green + "sm-menu"@ + reset + " ~ "@ + join_with(path, " > "@) + " > "@
    }
}

/// What one `add_to_history` call leaves in the history: blank lines and
/// consecutive duplicates (compared after trimming) are dropped, and the
/// oldest entry is evicted once the bound is exceeded.
pub open spec fn spec_history_after(hist: Seq<Seq<char>>, line: Seq<char>) -> Seq<Seq<char>> {
    if trimmed(line).len() == 0 || (hist.len() > 0 && trimmed(hist.last()) == trimmed(line)) {
        hist
    } else if hist.len() + 1 > MAX_HISTORY_SIZE {
        hist.push(line).subrange(1, hist.len() as int + 1)
    } else {
        hist.push(line)
    }
}

/// CLI context for managing application state and navigation: the current
/// navigation path, the running flag, the bounded command history with its
/// cursor, and the user preferences.
#[derive(Debug)]
pub struct CliContext {
    /// Current navigation path (stack of menu names)
    current_path: Vec<String>,
    /// Whether the application is still running
    pub running: bool,
    /// Command history for user convenience
    history: VecDeque<String>,
    /// Current history position (for history navigation)
    history_position: usize,
    /// User preferences
    preferences: CliPreferences,
}

impl CliContext {
    /// The navigation path, root first.
    pub closed spec fn spec_path(&self) -> Seq<Seq<char>> {
        views_of(self.current_path@)
    }

    /// Whether the session is still running.
    pub closed spec fn spec_running(&self) -> bool {
        self.running
    }

    /// The command history, oldest first.
    pub closed spec fn spec_history(&self) -> Seq<Seq<char>> {
        self.history@.map_values(|s: String| s@)
    }

    /// The history cursor.
    pub closed spec fn spec_cursor(&self) -> int {
        self.history_position as int
    }

    /// The preferences.
    pub closed spec fn spec_prefs(&self) -> CliPreferences {
        self.preferences
    }

    /// Internal validity: the cursor never exceeds the history length, and
    /// the history never exceeds its bound.
    pub closed spec fn wf(&self) -> bool {
        self.history_position <= self.history@.len()
            && self.history@.len() <= MAX_HISTORY_SIZE
    }

    /// Create a new CLI context with default settings.
    pub fn new() -> (r: Self)
        ensures
            r.wf(),
            r.spec_path() == Seq::<Seq<char>>::empty(),
            r.spec_running(),
            r.spec_history() == Seq::<Seq<char>>::empty(),
            r.spec_cursor() == 0,
            r.spec_prefs() == spec_default_prefs(),
    {
        let r = Self {
            current_path: Vec::new(),
            running: true,
            history: VecDeque::new(),
            history_position: 0,
            preferences: CliPreferences::default(),
        };
        proof {
            assert(r.spec_path() =~= Seq::<Seq<char>>::empty());
            assert(r.spec_history() =~= Seq::<Seq<char>>::empty());
        }
        r
    }

    /// Push a new context level (enter submenu).
    pub fn push_context(&mut self, name: String)
        ensures
            final(self).spec_path() == old(self).spec_path().push(name@),
            final(self).spec_running() == old(self).spec_running(),
            final(self).spec_history() == old(self).spec_history(),
            final(self).spec_cursor() == old(self).spec_cursor(),
            final(self).spec_prefs() == old(self).spec_prefs(),
            final(self).wf() == old(self).wf(),
    {
        self.current_path.push(name);
        proof {
            assert(final(self).spec_path() =~= old(self).spec_path().push(name@));
        }
    }

    /// Pop the current context level (exit to parent menu).
    pub fn pop_context(&mut self) -> (r: Option<String>)
        ensures
            final(self).spec_running() == old(self).spec_running(),
            final(self).spec_history() == old(self).spec_history(),
            final(self).spec_cursor() == old(self).spec_cursor(),
            final(self).spec_prefs() == old(self).spec_prefs(),
            final(self).wf() == old(self).wf(),
            match r {
                Some(name) => old(self).spec_path().len() > 0
                    && name@ == old(self).spec_path().last()
                    && final(self).spec_path() == old(self).spec_path().drop_last(),
                None => old(self).spec_path().len() == 0
                    && final(self).spec_path() == old(self).spec_path(),
            },
    {
        let r = self.current_path.pop();
        proof {
            if old(self).current_path@.len() > 0 {
                assert(final(self).spec_path() =~= old(self).spec_path().drop_last());
            }
        }
        r
    }

    /// Get the current navigation path.
    pub fn current_path(&self) -> (r: &[String])
        ensures
            views_of(r@) == self.spec_path(),
    {
        self.current_path.as_slice()
    }

    /// Get the current depth in the navigation hierarchy.
    pub fn depth(&self) -> (r: usize)
        ensures
            r == self.spec_path().len(),
    {
        self.current_path.len()
    }

    /// Check if we're at the root level.
    pub fn is_root(&self) -> (r: bool)
        ensures
            r == (self.spec_path().len() == 0),
    {
        self.current_path.len() == 0
    }

    /// Get the formatted prompt string.
    pub fn get_prompt(&self) -> (r: String)
        ensures
            r@ == spec_prompt(self.spec_prefs().colored_prompt, self.spec_path()),
    {
        let mut s = String::new();
        if self.preferences.colored_prompt {
            s.append("\u{1b}[38;2;0;215;135m");
        }
        s.append("sm-menu");
        if self.preferences.colored_prompt {
            s.append("\u{1b}[0m");
        }
        if self.current_path.len() == 0 {
            s.append(" > ");
            proof {
                assert(s@ =~= spec_prompt(self.spec_prefs().colored_prompt, self.spec_path()));
            }
        } else {
            s.append(" ~ ");
            append_joined(&mut s, &self.current_path, " > ");
            s.append(" > ");
            proof {
                assert(s@ =~= spec_prompt(self.spec_prefs().colored_prompt, self.spec_path()));
            }
        }
        s
    }

    /// Signal that the application should quit.
    pub fn quit(&mut self)
        ensures
            !final(self).spec_running(),
            final(self).spec_path() == old(self).spec_path(),
            final(self).spec_history() == old(self).spec_history(),
            final(self).spec_cursor() == old(self).spec_cursor(),
            final(self).spec_prefs() == old(self).spec_prefs(),
            final(self).wf() == old(self).wf(),
    {
        self.running = false;
    }

    /// Add a command to the history: blank lines and consecutive duplicates
    /// (compared after trimming) are dropped; the oldest entry is evicted
    /// once the history exceeds its bound; an appended entry resets the
    /// cursor to the end of the history.
    pub fn add_to_history(&mut self, command: String)
        requires
            old(self).wf(),
        ensures
            final(self).wf(),
            final(self).spec_history() == spec_history_after(old(self).spec_history(), command@),
            final(self).spec_history() == old(self).spec_history()
                || final(self).spec_cursor() == final(self).spec_history().len(),
            final(self).spec_history() != old(self).spec_history()
                || final(self).spec_cursor() == old(self).spec_cursor(),
            final(self).spec_path() == old(self).spec_path(),
            final(self).spec_running() == old(self).spec_running(),
            final(self).spec_prefs() == old(self).spec_prefs(),
    {
        let t = str_trim(command.as_str());
        if t.unicode_len() == 0 {
            return;
        }
        if self.history.len() > 0 {
            let last = &self.history[self.history.len() - 1];
            let lt = str_trim(last.as_str());
            if crate::text::str_eq(lt, t) {
                return;
            }
        }
        let ghost oldh = self.spec_history();
        self.history.push_back(command);
        proof {
            assert(self.spec_history() =~= oldh.push(command@));
        }
        if self.history.len() > MAX_HISTORY_SIZE {
            let ghost pushed = self.spec_history();
            let _ = self.history.pop_front();
            proof {
                assert(self.spec_history() =~= pushed.subrange(1, pushed.len() as int));
                assert(self.spec_history() =~= spec_history_after(oldh, command@));
            }
        } else {
            proof {
                assert(self.spec_history() =~= spec_history_after(oldh, command@));
            }
        }
        self.history_position = self.history.len();
    }

    /// Get the command history.
    pub fn history(&self) -> (r: &VecDeque<String>)
        ensures
            r@.map_values(|s: String| s@) == self.spec_history(),
    {
        &self.history
    }

    /// Get the previous command in history, moving the cursor back.
    pub fn previous_command(&mut self) -> (r: Option<&String>)
        requires
            old(self).wf(),
        ensures
            final(self).wf(),
            final(self).spec_path() == old(self).spec_path(),
            final(self).spec_running() == old(self).spec_running(),
            final(self).spec_history() == old(self).spec_history(),
            final(self).spec_prefs() == old(self).spec_prefs(),
            match r {
                Some(s) => old(self).spec_cursor() > 0
                    && final(self).spec_cursor() == old(self).spec_cursor() - 1
                    && s@ == old(self).spec_history()[final(self).spec_cursor()],
                None => old(self).spec_cursor() == 0
                    && final(self).spec_cursor() == old(self).spec_cursor(),
            },
    {
        if self.history_position > 0 {
            self.history_position = self.history_position - 1;
            let s = &self.history[self.history_position];
            Some(s)
        } else {
            None
        }
    }

    /// Get the next command in history, moving the cursor forward.
    pub fn next_command(&mut self) -> (r: Option<&String>)
        requires
            old(self).wf(),
        ensures
            final(self).wf(),
            final(self).spec_path() == old(self).spec_path(),
            final(self).spec_running() == old(self).spec_running(),
            final(self).spec_history() == old(self).spec_history(),
            final(self).spec_prefs() == old(self).spec_prefs(),
            match r {
                Some(s) => old(self).spec_cursor() + 1 < old(self).spec_history().len()
                    && final(self).spec_cursor() == old(self).spec_cursor() + 1
                    && s@ == old(self).spec_history()[final(self).spec_cursor()],
                None => (old(self).spec_history().len() == 0
                    || old(self).spec_cursor() + 1 >= old(self).spec_history().len())
                    && final(self).spec_cursor() == old(self).spec_cursor(),
            },
    {
        let len = self.history.len();
        let limit = if len == 0 {
            0
        } else {
            len - 1
        };
        if self.history_position < limit {
            self.history_position = self.history_position + 1;
            let s = &self.history[self.history_position];
            Some(s)
        } else {
            None
        }
    }

    /// Get user preferences.
    pub fn preferences(&self) -> (r: &CliPreferences)
        ensures
            *r == self.spec_prefs(),
    {
        &self.preferences
    }

    /// Get mutable user preferences.
    pub fn preferences_mut(&mut self) -> (r: &mut CliPreferences)
        ensures
            *r == old(self).spec_prefs(),
            final(self).spec_prefs() == *final(r),
            final(self).spec_path() == old(self).spec_path(),
            final(self).spec_running() == old(self).spec_running(),
            final(self).spec_history() == old(self).spec_history(),
            final(self).spec_cursor() == old(self).spec_cursor(),
            final(self).wf() == old(self).wf(),
    {
        &mut self.preferences
    }

    /// Reset the context to its initial state: the path is cleared, the
    /// session runs again, and the cursor moves to the end of the retained
    /// history.
    pub fn reset(&mut self)
        requires
            old(self).wf(),
        ensures
            final(self).wf(),
            final(self).spec_path() == Seq::<Seq<char>>::empty(),
            final(self).spec_running(),
            final(self).spec_history() == old(self).spec_history(),
            final(self).spec_cursor() == final(self).spec_history().len(),
            final(self).spec_prefs() == old(self).spec_prefs(),
    {
        self.current_path.clear();
        self.running = true;
        self.history_position = self.history.len();
        proof {
            assert(final(self).spec_path() =~= Seq::<Seq<char>>::empty());
        }
    }
}

/// Whether `x` completes `prefix` as the name or an alias of `cmd`.
pub open spec fn cmd_completion<C: Command>(cmd: C, prefix: Seq<char>, x: Seq<char>) -> bool {
    prefix.is_prefix_of(x) && (x == cmd.spec_name() || cmd.spec_aliases().contains(x))
}

/// Whether `x` completes `prefix` among the given commands and history.
pub open spec fn is_completion<C: Command>(
    cmds: Seq<C>,
    hist: Seq<Seq<char>>,
    prefix: Seq<char>,
    x: Seq<char>,
) -> bool {
    (exists|i: int| 0 <= i < cmds.len() && cmd_completion(#[trigger] cmds[i], prefix, x)) || (
    prefix.is_prefix_of(x) && hist.contains(x))
}

/// Collect the completions `cmd` contributes for `prefix` into `out`.
fn add_command_completions<C: Command>(out: &mut Vec<String>, cmd: &C, prefix: &str)
    requires
        sorted_unique(views_of(old(out)@)),
    ensures
        sorted_unique(views_of(final(out)@)),
        forall|x: Seq<char>|
            #[trigger] views_of(final(out)@).contains(x) <==> views_of(old(out)@).contains(x)
                || cmd_completion(*cmd, prefix@, x),
{
    let name = cmd.name();
    if str_starts_with(name, prefix) {
        insert_sorted(out, name.to_owned());
    }
    let ghost mid = out@;
    let aliases = cmd.aliases();
    let ghost amodel = aliases@.map_values(|a: &'static str| a@);
    let mut k: usize = 0;
    while k < aliases.len()
        invariant
            k <= aliases.len(),
            amodel == aliases@.map_values(|a: &'static str| a@),
            amodel == cmd.spec_aliases(),
            sorted_unique(views_of(out@)),
            forall|x: Seq<char>|
                #[trigger] views_of(out@).contains(x) <==> views_of(mid).contains(x) || (
                prefix@.is_prefix_of(x) && exists|j: int| 0 <= j < k && #[trigger] amodel[j] == x),
        decreases aliases.len() - k,
    {
        if str_starts_with(aliases[k], prefix) {
            insert_sorted(out, aliases[k].to_owned());
            proof {
                assert(amodel[k as int] == aliases@[k as int]@);
            }
        }
        k = k + 1;
    }
    proof {
        assert forall|x: Seq<char>|
            #[trigger] views_of(out@).contains(x) <==> views_of(old(out)@).contains(x)
                || cmd_completion(*cmd, prefix@, x) by {
            if cmd_completion(*cmd, prefix@, x) && x != cmd.spec_name() {
                let j = choose|j: int|
                    0 <= j < cmd.spec_aliases().len() && cmd.spec_aliases()[j] == x;
                assert(amodel[j] == x);
            }
        }
    }
}

impl CliContext {
    /// Get command completions for the given prefix: the sorted, deduplicated
    /// union of the command names, aliases and history entries that start
    /// with the prefix.
    pub fn get_completions<C: Command>(&self, prefix: &str, available_commands: &[C]) -> (r: Vec<
        String,
    >)
        ensures
            sorted_unique(views_of(r@)),
            forall|x: Seq<char>|
                #[trigger] views_of(r@).contains(x) <==> is_completion(
                    available_commands@,
                    self.spec_history(),
                    prefix@,
                    x,
                ),
    {
        let mut out: Vec<String> = Vec::new();
        let mut i: usize = 0;
        while i < available_commands.len()
            invariant
                i <= available_commands@.len(),
                sorted_unique(views_of(out@)),
                forall|x: Seq<char>|
                    #[trigger] views_of(out@).contains(x) <==> exists|j: int|
                        0 <= j < i && cmd_completion(
                            #[trigger] available_commands@[j],
                            prefix@,
                            x,
                        ),
            decreases available_commands@.len() - i,
        {
            add_command_completions(&mut out, &available_commands[i], prefix);
            i = i + 1;
        }
        let hlen = self.history.len();
        let mut j: usize = 0;
        while j < hlen
            invariant
                j <= hlen,
                hlen == self.spec_history().len(),
                self.spec_history() == self.history@.map_values(|s: String| s@),
                sorted_unique(views_of(out@)),
                forall|x: Seq<char>|
                    #[trigger] views_of(out@).contains(x) <==> (exists|k: int|
                        0 <= k < available_commands@.len() && cmd_completion(
                            #[trigger] available_commands@[k],
                            prefix@,
                            x,
                        )) || (prefix@.is_prefix_of(x) && exists|k: int|
                        0 <= k < j && #[trigger] self.spec_history()[k] == x),
            decreases hlen - j,
        {
            let entry = &self.history[j];
            if str_starts_with(entry.as_str(), prefix) {
                insert_sorted(&mut out, entry.clone());
            }
            proof {
                assert(self.spec_history()[j as int] == entry@);
            }
            j = j + 1;
        }
        proof {
            assert forall|x: Seq<char>|
                #[trigger] views_of(out@).contains(x) <==> is_completion(
                    available_commands@,
                    self.spec_history(),
                    prefix@,
                    x,
                ) by {
                if prefix@.is_prefix_of(x) && self.spec_history().contains(x) {
                    let k = choose|k: int|
                        0 <= k < self.spec_history().len() && self.spec_history()[k] == x;
                    assert(0 <= k < hlen && self.spec_history()[k] == x);
                }
            }
        }
        out
    }
}

/// A depth transition is valid when it ascends or stays (any target at or
/// below the current depth) or descends exactly one level.
pub fn validate_transition(current_depth: usize, target_depth: usize) -> (r: bool)
    ensures
        r == (target_depth <= current_depth || target_depth == current_depth + 1),
{
    if target_depth <= current_depth {
        true
    } else {
        target_depth - current_depth == 1
    }
}

/// The length of the longest common prefix of two path sequences.
pub open spec fn lcp_len(a: Seq<Seq<char>>, b: Seq<Seq<char>>) -> int
    decreases a.len(),
{
    if a.len() == 0 || b.len() == 0 || a[0] != b[0] {
        0
    } else {
        1 + lcp_len(a.subrange(1, a.len() as int), b.subrange(1, b.len() as int))
    }
}

pub proof fn lemma_lcp_len(a: Seq<Seq<char>>, b: Seq<Seq<char>>)
    ensures
        0 <= lcp_len(a, b) <= a.len(),
        lcp_len(a, b) <= b.len(),
        forall|j: int| 0 <= j < lcp_len(a, b) ==> a[j] == #[trigger] b[j],
        lcp_len(a, b) < a.len() && lcp_len(a, b) < b.len() ==> a[lcp_len(a, b)] != b[lcp_len(
            a,
            b,
        )],
    decreases a.len(),
{
    if a.len() > 0 && b.len() > 0 && a[0] == b[0] {
        let a1 = a.subrange(1, a.len() as int);
        let b1 = b.subrange(1, b.len() as int);
        lemma_lcp_len(a1, b1);
        let l = lcp_len(a, b);
        assert forall|j: int| 0 <= j < l implies a[j] == #[trigger] b[j] by {
            if j >= 1 {
                assert(a1[j - 1] == b1[j - 1]);
            }
        }
        if l < a.len() && l < b.len() {
            assert(a1[l - 1] != b1[l - 1]);
        }
    }
}

proof fn lemma_lcp_at(a: Seq<Seq<char>>, b: Seq<Seq<char>>, l: int)
    requires
        0 <= l <= a.len(),
        l <= b.len(),
        forall|j: int| 0 <= j < l ==> a[j] == #[trigger] b[j],
        l == a.len() || l == b.len() || a[l] != b[l],
    ensures
        lcp_len(a, b) == l,
    decreases l,
{
    if l == 0 {
    } else {
        let a1 = a.subrange(1, a.len() as int);
        let b1 = b.subrange(1, b.len() as int);
        lemma_lcp_at(a1, b1, l - 1);
    }
}

/// The relative path from `from` to `to`: one ".." for each component of
/// `from` beyond the common prefix, then the components of `to` beyond it.
pub open spec fn spec_relative_path(a: Seq<Seq<char>>, b: Seq<Seq<char>>) -> Seq<Seq<char>> {
    Seq::new((a.len() - lcp_len(a, b)) as nat, |i: int| ".."@) + b.subrange(
        lcp_len(a, b),
        b.len() as int,
    )
}

/// Compute the relative path between two navigation paths.
pub fn get_relative_path(from: &[String], to: &[String]) -> (r: Vec<String>)
    ensures
        views_of(r@) == spec_relative_path(views_of(from@), views_of(to@)),
{
    let ghost a = views_of(from@);
    let ghost b = views_of(to@);
    let flen = from.len();
    let tlen = to.len();
    let mut l: usize = 0;
    loop
        invariant
            l <= flen,
            l <= tlen,
            flen == a.len(),
            tlen == b.len(),
            a == views_of(from@),
            b == views_of(to@),
            forall|j: int| 0 <= j < l ==> a[j] == #[trigger] b[j],
        ensures
            l <= flen,
            l <= tlen,
            forall|j: int| 0 <= j < l ==> a[j] == #[trigger] b[j],
            l == flen || l == tlen || a[l as int] != b[l as int],
        decreases flen - l,
    {
        if l >= flen || l >= tlen {
            break;
        }
        if !crate::text::str_eq(from[l].as_str(), to[l].as_str()) {
            break;
        }
        l = l + 1;
    }
    proof {
        lemma_lcp_at(a, b, l as int);
    }
    let mut out: Vec<String> = Vec::new();
    let ups = flen - l;
    let mut i: usize = 0;
    while i < ups
        invariant
            i <= ups,
            out@.len() == i,
            forall|j: int| 0 <= j < i ==> (#[trigger] out@[j])@ == ".."@,
        decreases ups - i,
    {
        out.push(String::from_str(".."));
        i = i + 1;
    }
    let mut k: usize = l;
    while k < tlen
        invariant
            l <= k <= tlen,
            tlen == b.len(),
            b == views_of(to@),
            out@.len() == ups + k - l,
            forall|j: int| 0 <= j < ups ==> (#[trigger] out@[j])@ == ".."@,
            forall|j: int| ups <= j < out@.len() ==> (#[trigger] out@[j])@ == b[l + j - ups],
        decreases tlen - k,
    {
        out.push(to[k].clone());
        proof {
            assert(out@[out@.len() - 1]@ == b[k as int]);
        }
        k = k + 1;
    }
    proof {
        assert(views_of(out@) =~= spec_relative_path(a, b));
    }
    out
}

impl Default for CliContext {
    fn default() -> (r: Self)
        ensures
            r.wf(),
            r.spec_path() == Seq::<Seq<char>>::empty(),
            r.spec_running(),
            r.spec_history() == Seq::<Seq<char>>::empty(),
            r.spec_cursor() == 0,
            r.spec_prefs() == spec_default_prefs(),
    {
        Self::new()
    }
}

} // verus!
