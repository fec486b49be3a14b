//! Reading the output of `git`: which branch is the default, which is the
//! current one, and which lines of a pull sum up a fast-forward.

use crate::text::{
    after_line, contains, contains_char, contains_digit, contains_seq, has_char, has_digit,
    has_prefix, is_ascii_digit, is_digit, line_at, matches_at, next_line, row_fields, split_row,
    starts_with, strip_prefix, to_chars, to_string, trim, trimmed, without_prefix,
};
use vstd::prelude::*;

verus! {

/// Why the output of `git` names no branch.
#[derive(Debug, Clone, Copy, PartialEq, Eq, Structural)]
pub enum GitError {
    /// The output is no reference to a branch of the remote.
    InvalidOutput,
    /// No branch is checked out.
    DetachedHead,
}

impl GitError {
    /// The message for the user.
    pub fn message(&self) -> (text: &'static str)
        ensures
            text@ == match self {
                GitError::InvalidOutput => "Invalid git output"@,
                GitError::DetachedHead => "Not on a branch (detached HEAD)"@,
            },
    {
        match self {
            GitError::InvalidOutput => "Invalid git output",
            GitError::DetachedHead => "Not on a branch (detached HEAD)",
        }
    }
}

/// The branch that a symbolic reference to the remote's head names: the
/// trimmed output without `refs/remotes/origin/`.
pub open spec fn symbolic_branch(output: Seq<char>) -> Option<Seq<char>> {
    without_prefix(trimmed(output), "refs/remotes/origin/"@)
}

/// The branch that a line of `git ls-remote --symref` names: the line
/// starts with `ref:`, holds `HEAD`, and its second field is a branch
/// head.
pub open spec fn ref_line_branch(line: Seq<char>) -> Option<Seq<char>> {
    if has_prefix(line, "ref:"@) && contains_seq(line, "HEAD"@) {
        match row_fields(line) {
            Some((_, path)) => without_prefix(path, "refs/heads/"@),
            None => None,
        }
    } else {
        None
    }
}

/// The branch that the first telling line of `output[i..]` names.
pub open spec fn ls_remote_branch_from(output: Seq<char>, i: int) -> Option<Seq<char>>
    decreases output.len() - i,
{
    if 0 <= i < output.len() {
        match ref_line_branch(line_at(output, i)) {
            Some(branch) => Some(branch),
            None => if i < after_line(output, i) <= output.len() {
                ls_remote_branch_from(output, after_line(output, i))
            } else {
                None
            },
        }
    } else {
        None
    }
}

/// The branch that a line of `git remote show` names as the head branch.
pub open spec fn head_line_branch(line: Seq<char>) -> Option<Seq<char>> {
    match without_prefix(trimmed(line), "HEAD branch:"@) {
        Some(rest) => Some(trimmed(rest)),
        None => None,
    }
}

/// The head branch that the first telling line of `output[i..]` names.
pub open spec fn remote_show_branch_from(output: Seq<char>, i: int) -> Option<Seq<char>>
    decreases output.len() - i,
{
    if 0 <= i < output.len() {
        match head_line_branch(line_at(output, i)) {
            Some(branch) => Some(branch),
            None => if i < after_line(output, i) <= output.len() {
                remote_show_branch_from(output, after_line(output, i))
            } else {
                None
            },
        }
    } else {
        None
    }
}

/// Whether a line of a pull's output sums up a fast-forward: a file with
/// its change bar, the count of changed files, or the word itself.
pub open spec fn is_summary(line: Seq<char>) -> bool {
    let t = trimmed(line);
    t.len() > 0 && {
        ||| contains_seq(t, " | "@) && (has_char(t, '+') || has_char(t, '-')) && has_digit(t)
        ||| is_digit(t[0]) && contains_seq(t, "files changed"@)
        ||| t == "Fast-forward"@
    }
}

/// The branch that the output of `git symbolic-ref refs/remotes/origin/HEAD`
/// names.
pub fn symbolic_ref_branch(output: &str) -> (branch: Option<String>)
    ensures
        match branch {
            Some(name) => symbolic_branch(output@) == Some(name@),
            None => symbolic_branch(output@) is None,
        },
{
    let t = trim(&to_chars(output));
    match strip_prefix(&t, &to_chars("refs/remotes/origin/")) {
        Some(rest) => Some(to_string(&rest)),
        None => None,
    }
}

/// The branch that the output of `git symbolic-ref` names, or the error
/// that the output is no such reference.
pub fn parse_branch_output(output: &str) -> (branch: Result<String, GitError>)
    ensures
        match branch {
            Ok(name) => symbolic_branch(output@) == Some(name@),
            Err(error) => symbolic_branch(output@) is None && error == GitError::InvalidOutput,
        },
{
    match symbolic_ref_branch(output) {
        Some(name) => Ok(name),
        None => Err(GitError::InvalidOutput),
    }
}

/// The branch that the output of `git ls-remote --symref origin HEAD`
/// names as the remote's head: that of the first line that tells one.
pub fn ls_remote_branch(output: &str) -> (branch: Option<String>)
    ensures
        match branch {
            Some(name) => ls_remote_branch_from(output@, 0) == Some(name@),
            None => ls_remote_branch_from(output@, 0) is None,
        },
{
    let text = to_chars(output);
    let marker = to_chars("ref:");
    let head = to_chars("HEAD");
    let heads = to_chars("refs/heads/");
    let mut i: usize = 0;
    while i < text.len()
        invariant
            i <= text.len(),
            text@ == output@,
            marker@ == "ref:"@,
            head@ == "HEAD"@,
            heads@ == "refs/heads/"@,
            ls_remote_branch_from(output@, 0) == ls_remote_branch_from(text@, i as int),
        decreases text.len() - i,
    {
        let (line, next) = next_line(&text, i);
        if starts_with(&line, &marker) && contains(&line, &head) {
            if let Some((_, path)) = split_row(&line) {
                if let Some(rest) = strip_prefix(&to_chars(path.as_str()), &heads) {
                    return Some(to_string(&rest));
                }
            }
        }
        i = next;
    }
    None
}

/// The branch that the output of `git remote show origin` names as the
/// head branch.
pub fn remote_show_branch(output: &str) -> (branch: Option<String>)
    ensures
        match branch {
            Some(name) => remote_show_branch_from(output@, 0) == Some(name@),
            None => remote_show_branch_from(output@, 0) is None,
        },
{
    let text = to_chars(output);
    let marker = to_chars("HEAD branch:");
    let mut i: usize = 0;
    while i < text.len()
        invariant
            i <= text.len(),
            text@ == output@,
            marker@ == "HEAD branch:"@,
            remote_show_branch_from(output@, 0) == remote_show_branch_from(text@, i as int),
        decreases text.len() - i,
    {
        let (line, next) = next_line(&text, i);
        let t = trim(&line);
        if let Some(rest) = strip_prefix(&t, &marker) {
            return Some(to_string(&trim(&rest)));
        }
        i = next;
    }
    None
}

/// The branch that the output of `git branch --show-current` names. An
/// empty output means that no branch is checked out.
pub fn current_branch(output: &str) -> (branch: Result<String, GitError>)
    ensures
        match branch {
            Ok(name) => name@ == trimmed(output@) && name@.len() > 0,
            Err(error) => trimmed(output@).len() == 0 && error == GitError::DetachedHead,
        },
{
    let t = trim(&to_chars(output));
    if t.len() == 0 {
        Err(GitError::DetachedHead)
    } else {
        Ok(to_string(&t))
    }
}

/// Whether a line of a pull's output sums up a fast-forward and is shown
/// highlighted.
pub fn is_fast_forward_summary_line(line: &str) -> (b: bool)
    ensures
        b == is_summary(line@),
{
    let t = trim(&to_chars(line));
    if t.len() == 0 {
        return false;
    }
    if contains(&t, &to_chars(" | ")) && (contains_char(&t, '+') || contains_char(&t, '-'))
        && contains_digit(&t) {
        return true;
    }
    if is_ascii_digit(t[0]) && contains(&t, &to_chars("files changed")) {
        return true;
    }
    let word = to_chars("Fast-forward");
    let same = t.len() == word.len() && matches_at(&t, &word, 0);
    proof {
        if t@.len() == word@.len() {
            assert(t@.subrange(0, t@.len() as int) =~= t@);
        }
    }
    same
}

} // verus!
