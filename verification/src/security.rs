//! Security validators consumed by the file-oriented commands: path
//! validation against traversal and escapes from the working directory, a
//! file-size threshold, and sanitization of untrusted strings for display.
//!
//! Path validation is split from the filesystem: the caller resolves the path
//! against the filesystem (current directory and canonicalization) and hands
//! the outcome in as a [`PathLookup`]; the decision itself is verified here
//! and fails closed for every outcome.

use vstd::prelude::*;
use crate::error::{CliError, CliResult, ErrorModel};
use crate::text::{dec_rep, seq_is_blank, str_is_blank, str_starts_with, u64_to_dec};

verus! {

/// Maximum file size allowed for loading (100 MiB).
pub const MAX_FILE_SIZE: u64 = 100 * 1024 * 1024;

/// A character removed before display: a control character other than
/// newline and tab.
pub open spec fn is_control_char(c: char) -> bool {
    (c as u32) < 0x20 || (0x7f <= c as u32 && c as u32 <= 0x9f)
}

/// Whether a character survives sanitization.
pub open spec fn keep_for_display(c: char) -> bool {
    !is_control_char(c) || c == '\n' || c == '\t'
}

/// The sanitized form of a string: its characters that survive sanitization,
/// in order.
pub open spec fn display_kept(s: Seq<char>) -> Seq<char> {
    s.filter(|c: char| keep_for_display(c))
}

/// Sanitize a string for safe display in the terminal: control characters,
/// except newline and tab, are removed, defeating escape-sequence injection.
pub fn sanitize_for_display(s: &str) -> (r: String)
    ensures
        r@ == display_kept(s@),
{
    let len = s.unicode_len();
    let mut out = String::new();
    proof {
        reveal_with_fuel(Seq::filter, 1);
        assert(s@.take(0) =~= Seq::<char>::empty());
        assert(out@ =~= display_kept(s@.take(0)));
    }
    let mut i: usize = 0;
    while i < len
        invariant
            i <= len,
            len == s@.len(),
            out@ == display_kept(s@.take(i as int)),
        decreases len - i,
    {
        let c = s.get_char(i);
        let n = c as u32;
        let keep = !(n < 0x20 || (0x7f <= n && n <= 0x9f)) || c == '\n' || c == '\t';
        if keep {
            crate::text::push_char(&mut out, c);
        }
        proof {
            let t = s@.take(i + 1);
            assert(t.drop_last() =~= s@.take(i as int));
            assert(t.last() == s@[i as int]);
            reveal_with_fuel(Seq::filter, 2);
            assert(out@ =~= display_kept(t));
        }
        i = i + 1;
    }
    proof {
        assert(s@.take(len as int) =~= s@);
    }
    out
}

/// The message reported for an oversized file.
pub open spec fn size_error_message(size: u64) -> Seq<char> {
    "File too large: "@ + dec_rep(size as nat) + " bytes (maximum: "@ + dec_rep(
        MAX_FILE_SIZE as nat,
    ) + " bytes)"@
}

/// Check that a file size is within the acceptable limit.
pub fn validate_file_size(size: u64) -> (r: CliResult<()>)
    ensures
        size <= MAX_FILE_SIZE ==> r is Ok,
        size > MAX_FILE_SIZE ==> (match r {
            Err(e) => e@ == ErrorModel::ExecutionError(size_error_message(size)),
            Ok(_) => false,
        }),
{
    if size > MAX_FILE_SIZE {
        let mut msg = String::new();
        msg.append("File too large: ");
        let sd = u64_to_dec(size);
        msg.append(sd.as_str());
        msg.append(" bytes (maximum: ");
        let md = u64_to_dec(MAX_FILE_SIZE);
        msg.append(md.as_str());
        msg.append(" bytes)");
        proof {
            assert(msg@ =~= size_error_message(size));
        }
        Err(CliError::ExecutionError(msg))
    } else {
        Ok(())
    }
}

/// The filesystem's answer when a path is resolved: either its canonical
/// form (symlinks resolved), or the error text of the failed lookup.
#[derive(Debug)]
pub enum PathLookup {
    /// The path exists; this is its canonical form.
    Canonicalized(String),
    /// The path does not exist; this is the underlying lookup error text.
    NotFound(String),
}

/// Specification-level model of `PathLookup`.
pub enum LookupModel {
    Canonicalized(Seq<char>),
    NotFound(Seq<char>),
}

impl View for PathLookup {
    type V = LookupModel;

    open spec fn view(&self) -> LookupModel {
        match self {
            PathLookup::Canonicalized(s) => LookupModel::Canonicalized(s@),
            PathLookup::NotFound(s) => LookupModel::NotFound(s@),
        }
    }
}

/// Whether the path contains a ".." component: a ".." bounded by separators
/// or by the ends of the path.
pub open spec fn has_dotdot_component(s: Seq<char>) -> bool {
    exists|i: int|
        0 <= i && i + 2 <= s.len() && #[trigger] s[i] == '.' && s[i + 1] == '.' && (i == 0 || s[i
            - 1] == '/') && (i + 2 == s.len() || s[i + 2] == '/')
}

/// Whether the path `p` lies within `base`: `base` is a prefix of `p` at a
/// component boundary.
pub open spec fn path_within(p: Seq<char>, base: Seq<char>) -> bool {
    base.is_prefix_of(p) && (p.len() == base.len() || p[base.len() as int] == '/' || (base.len()
        > 0 && base.last() == '/'))
}

/// The path with its last component removed: everything before the last
/// separator, or empty when there is none.
pub open spec fn parent_of(s: Seq<char>) -> Seq<char>
    decreases s.len(),
{
    if s.len() == 0 {
        Seq::empty()
    } else if s.last() == '/' {
        s.drop_last()
    } else {
        parent_of(s.drop_last())
    }
}

/// The full path a relative input resolves to against the working directory.
pub open spec fn resolved_path(p: Seq<char>, cwd: Seq<char>) -> Seq<char> {
    if p.len() > 0 && p[0] == '/' {
        p
    } else {
        cwd + "/"@ + p
    }
}

/// What path validation decides for a given input, working directory, and
/// filesystem answer. It never yields a path outside the working directory.
pub open spec fn spec_validate_path(
    p: Seq<char>,
    cwd: Seq<char>,
    lookup: LookupModel,
) -> Result<Seq<char>, ErrorModel> {
    if seq_is_blank(p) {
        Err(ErrorModel::InvalidInput("File path cannot be empty"@))
    } else if has_dotdot_component(p) {
        Err(ErrorModel::InvalidInput("Path traversal not allowed (.. components detected)"@))
    } else {
        match lookup {
            LookupModel::Canonicalized(c) => {
                if !path_within(c, cwd) {
                    Err(ErrorModel::PermissionDenied(
                        "Access outside working directory is not allowed"@,
                    ))
                } else {
                    Ok(c)
                }
            },
            LookupModel::NotFound(e) => {
                if !path_within(parent_of(resolved_path(p, cwd)), cwd) {
                    Err(ErrorModel::PermissionDenied(
                        "Access outside working directory is not allowed"@,
                    ))
                } else {
                    Err(ErrorModel::FileNotFound(p + ": "@ + e))
                }
            },
        }
    }
}

/// Whether the path contains a ".." component.
fn has_dotdot(s: &str) -> (r: bool)
    ensures
        r == has_dotdot_component(s@),
{
    let len = s.unicode_len();
    if len < 2 {
        return false;
    }
    let mut i: usize = 0;
    while i <= len - 2
        invariant
            2 <= len,
            i <= len - 1,
            len == s@.len(),
            forall|j: int|
                0 <= j < i ==> !(j + 2 <= s@.len() && #[trigger] s@[j] == '.' && s@[j + 1] == '.'
                    && (j == 0 || s@[j - 1] == '/') && (j + 2 == s@.len() || s@[j + 2] == '/')),
        decreases len - i,
    {
        let hit = s.get_char(i) == '.' && s.get_char(i + 1) == '.' && (i == 0 || s.get_char(i - 1)
            == '/') && (i + 2 == len || s.get_char(i + 2) == '/');
        if hit {
            return true;
        }
        i = i + 1;
    }
    false
}

/// Whether `p` lies within `base` at a component boundary.
fn within(p: &str, base: &str) -> (r: bool)
    ensures
        r == path_within(p@, base@),
{
    if !str_starts_with(p, base) {
        return false;
    }
    let plen = p.unicode_len();
    let blen = base.unicode_len();
    if plen == blen {
        true
    } else if blen > 0 && base.get_char(blen - 1) == '/' {
        true
    } else {
        p.get_char(blen) == '/'
    }
}

proof fn lemma_parent_range(s: Seq<char>, i: int)
    requires
        0 <= i <= s.len(),
        forall|j: int| i <= j < s.len() ==> #[trigger] s[j] != '/',
        i == 0 || s[i - 1] == '/',
    ensures
        i == 0 ==> parent_of(s) == Seq::<char>::empty(),
        i > 0 ==> parent_of(s) == s.subrange(0, i - 1),
    decreases s.len(),
{
    if s.len() == 0 {
    } else if s.last() == '/' {
        assert(i == s.len());
        assert(s.drop_last() =~= s.subrange(0, i - 1));
    } else {
        lemma_parent_range(s.drop_last(), if i == s.len() { i - 1 } else { i });
        if i > 0 && i < s.len() {
            assert(s.drop_last().subrange(0, i - 1) =~= s.subrange(0, i - 1));
        } else if i > 0 && i == s.len() {
            assert(s.drop_last().subrange(0, i - 2) =~= s.subrange(0, i - 2));
        }
    }
}

/// The prefix of `s` before its last separator, or the empty string when it
/// has none.
fn parent_str(s: &str) -> (r: &str)
    ensures
        r@ == parent_of(s@),
{
    let len = s.unicode_len();
    let mut i: usize = len;
    loop
        invariant
            i <= len,
            len == s@.len(),
            forall|j: int| i <= j < len ==> #[trigger] s@[j] != '/',
        ensures
            i <= len,
            forall|j: int| i <= j < len ==> #[trigger] s@[j] != '/',
            i == 0 || s@[i - 1] == '/',
        decreases i,
    {
        if i == 0 {
            break;
        }
        if s.get_char(i - 1) == '/' {
            break;
        }
        i = i - 1;
    }
    proof {
        lemma_parent_range(s@, i as int);
    }
    if i == 0 {
        proof {
            reveal_strlit("");
            assert(""@ =~= Seq::<char>::empty());
        }
        ""
    } else {
        s.substring_char(0, i - 1)
    }
}

/// Validate a file path against traversal and escapes from the working
/// directory, deciding from the filesystem's answer `lookup`: a blank path or
/// one with a ".." component is rejected outright; an existing path must
/// canonicalize into the working directory; a missing path must at least have
/// its parent inside the working directory before the lookup failure is
/// surfaced.
pub fn validate_file_path(path_str: &str, cwd: &str, lookup: &PathLookup) -> (r: CliResult<String>)
    ensures
        match r {
            Ok(c) => spec_validate_path(path_str@, cwd@, lookup@) == Ok::<Seq<char>, ErrorModel>(
                c@,
            ),
            Err(e) => spec_validate_path(path_str@, cwd@, lookup@) == Err::<
                Seq<char>,
                ErrorModel,
            >(e@),
        },
        r is Ok ==> path_within(r.unwrap()@, cwd@),
{
    if str_is_blank(path_str) {
        return Err(CliError::invalid_input("File path cannot be empty"));
    }
    if has_dotdot(path_str) {
        return Err(CliError::invalid_input("Path traversal not allowed (.. components detected)"));
    }
    match lookup {
        PathLookup::Canonicalized(c) => {
            if !within(c.as_str(), cwd) {
                Err(CliError::permission_denied("Access outside working directory is not allowed"))
            } else {
                Ok(c.clone())
            }
        },
        PathLookup::NotFound(e) => {
            let plen = path_str.unicode_len();
            let mut full = String::new();
            if plen > 0 && path_str.get_char(0) == '/' {
                full.append(path_str);
            } else {
                full.append(cwd);
                full.append("/");
                full.append(path_str);
            }
            proof {
                assert(full@ =~= resolved_path(path_str@, cwd@));
            }
            let parent = parent_str(full.as_str());
            if !within(parent, cwd) {
                Err(CliError::permission_denied("Access outside working directory is not allowed"))
            } else {
                let mut msg = String::new();
                msg.append(path_str);
                msg.append(": ");
                msg.append(e.as_str());
                proof {
                    assert(msg@ =~= path_str@ + ": "@ + e@);
                }
                Err(CliError::FileNotFound(msg))
            }
        },
    }
}

} // verus!
