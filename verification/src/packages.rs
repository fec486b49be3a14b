//! Reading the package listings of uv, Poetry and Cargo: the names of the
//! installed packages, and the version of one of them.

use crate::project::ProjectType;
use crate::text::{
    after_line, find_char, find_char_from, has_prefix, is_ascii_digit, is_digit, line_at,
    matches_at, next_line, occurs_at, skip_spaces, skip_spaces_from, skip_word, skip_word_from,
    starts_with, strip_prefix, subvec, to_chars, to_string, trim, trimmed, without_prefix,
};
use vstd::prelude::*;

verus! {

/// The name of the root package, which no listing of its dependencies
/// names.
pub open spec fn root_package() -> Seq<char> {
    "bashers"@
}

/// The first index at or after `i` at which `p` does not stand, going over
/// `p` as often as it repeats.
pub open spec fn skip_repeats(s: Seq<char>, p: Seq<char>, i: int) -> int
    decreases s.len() - i,
{
    if 0 <= i < s.len() && p.len() > 0 && occurs_at(s, p, i) {
        skip_repeats(s, p, i + p.len())
    } else {
        i
    }
}

/// `s` without the branch of a tree in front of it.
pub open spec fn without_branch(s: Seq<char>) -> Seq<char> {
    let a = skip_repeats(s, "\u{251c}\u{2500}\u{2500} "@, 0);
    let rest = s.subrange(a, s.len() as int);
    let b = skip_repeats(rest, "\u{2514}\u{2500}\u{2500} "@, 0);
    rest.subrange(b, rest.len() as int)
}

/// The first field of `line`, if it has one.
pub open spec fn first_field(line: Seq<char>) -> Option<Seq<char>> {
    let a = skip_spaces(line, 0);
    if a < line.len() {
        Some(line.subrange(a, skip_word(line, a)))
    } else {
        None
    }
}

/// The package that a line of `cargo tree` names: the text in front of the
/// first space, once the branch is gone. The root package is left out.
pub open spec fn cargo_name(line: Seq<char>) -> Option<Seq<char>> {
    let entry = without_branch(trimmed(line));
    let space = find_char(entry, ' ', 0);
    let name = trimmed(entry.subrange(0, space));
    if space < entry.len() && name.len() > 0 && name != root_package() {
        Some(name)
    } else {
        None
    }
}

/// The package that a line of `poetry show` names: the text between the
/// first and the second colon of a line that starts with `name`.
pub open spec fn poetry_name(line: Seq<char>) -> Option<Seq<char>> {
    let first = find_char(line, ':', 0);
    if has_prefix(line, "name"@) && first < line.len() {
        Some(trimmed(line.subrange(first + 1, find_char(line, ':', first + 1))))
    } else {
        None
    }
}

/// The package that line number `line_no` of `uv pip list` names: its
/// first field, behind the two lines of the table's head.
pub open spec fn uv_name(line: Seq<char>, line_no: int) -> Option<Seq<char>> {
    if line_no >= 2 {
        first_field(line)
    } else {
        None
    }
}

/// The package that a line of the listing of `kind` names.
pub open spec fn listed_name(kind: ProjectType, line: Seq<char>, line_no: int) -> Option<Seq<char>> {
    match kind {
        ProjectType::Uv => uv_name(line, line_no),
        ProjectType::Poetry => poetry_name(line),
        ProjectType::Cargo => cargo_name(line),
    }
}

/// The packages that the lines of `output[i..]` name, the line at `i`
/// being number `line_no`.
pub open spec fn names_from(kind: ProjectType, output: Seq<char>, i: int, line_no: int) -> Seq<Seq<char>>
    decreases output.len() - i,
{
    if 0 <= i < output.len() {
        let rest = if i < after_line(output, i) <= output.len() {
            names_from(kind, output, after_line(output, i), line_no + 1)
        } else {
            Seq::<Seq<char>>::empty()
        };
        match listed_name(kind, line_at(output, i), line_no) {
            Some(name) => seq![name] + rest,
            None => rest,
        }
    } else {
        Seq::<Seq<char>>::empty()
    }
}

/// The texts of `names`.
pub open spec fn names_of(names: Seq<String>) -> Seq<Seq<char>> {
    Seq::new(names.len(), |i: int| names[i]@)
}

/// The first index at or after `i` at which `p` does not stand.
pub fn skip_repeats_from(v: &Vec<char>, p: &Vec<char>, i: usize) -> (r: usize)
    requires
        i <= v.len(),
    ensures
        r == skip_repeats(v@, p@, i as int),
        i <= r <= v.len(),
{
    let mut k: usize = i;
    while k < v.len() && p.len() > 0 && matches_at(v, p, k)
        invariant
            i <= k <= v.len(),
            skip_repeats(v@, p@, k as int) == skip_repeats(v@, p@, i as int),
        decreases v.len() - k,
    {
        k += p.len();
    }
    k
}

/// `v` without the branch of a tree in front of it.
pub fn strip_branch(v: &Vec<char>) -> (r: Vec<char>)
    ensures
        r@ == without_branch(v@),
{
    let a = skip_repeats_from(v, &to_chars("\u{251c}\u{2500}\u{2500} "), 0);
    let rest = subvec(v, a, v.len());
    let b = skip_repeats_from(&rest, &to_chars("\u{2514}\u{2500}\u{2500} "), 0);
    subvec(&rest, b, rest.len())
}

/// The package that a line of `cargo tree` names.
pub fn parse_cargo_line(line: &Vec<char>) -> (name: Option<String>)
    ensures
        match name {
            Some(found) => cargo_name(line@) == Some(found@),
            None => cargo_name(line@) is None,
        },
{
    let entry = strip_branch(&trim(line));
    let space = find_char_from(&entry, ' ', 0);
    if space >= entry.len() {
        return None;
    }
    let name = trim(&subvec(&entry, 0, space));
    let root = to_chars("bashers");
    let is_root = name.len() == root.len() && matches_at(&name, &root, 0);
    proof {
        if name@.len() == root@.len() {
            assert(name@.subrange(0, name@.len() as int) =~= name@);
        }
    }
    if name.len() > 0 && !is_root {
        Some(to_string(&name))
    } else {
        None
    }
}

/// The package that a line of `poetry show` names.
pub fn parse_poetry_line(line: &Vec<char>) -> (name: Option<String>)
    ensures
        match name {
            Some(found) => poetry_name(line@) == Some(found@),
            None => poetry_name(line@) is None,
        },
{
    if !starts_with(line, &to_chars("name")) {
        return None;
    }
    let first = find_char_from(line, ':', 0);
    if first >= line.len() {
        return None;
    }
    let second = find_char_from(line, ':', first + 1);
    Some(to_string(&trim(&subvec(line, first + 1, second))))
}

/// The first field of `line`.
pub fn parse_first_field(line: &Vec<char>) -> (field: Option<String>)
    ensures
        match field {
            Some(found) => first_field(line@) == Some(found@),
            None => first_field(line@) is None,
        },
{
    let a = skip_spaces_from(line, 0);
    if a < line.len() {
        let b = skip_word_from(line, a);
        Some(crate::text::string_of(line, a, b))
    } else {
        None
    }
}

/// The names of the installed packages, read from the listing that the
/// tool of `project_type` printed: `uv pip list`, `poetry show`, or
/// `cargo tree --depth 1`.
pub fn list(project_type: ProjectType, output: &str) -> (names: Vec<String>)
    ensures
        names_of(names@) == names_from(project_type, output@, 0, 0),
{
    let text = to_chars(output);
    let mut names: Vec<String> = Vec::new();
    let mut i: usize = 0;
    let mut line_no: usize = 0;
    while i < text.len()
        invariant
            i <= text.len(),
            line_no <= i,
            text@ == output@,
            names_from(project_type, output@, 0, 0) == names_of(names@) + names_from(
                project_type,
                text@,
                i as int,
                line_no as int,
            ),
        decreases text.len() - i,
    {
        let (line, next) = next_line(&text, i);
        let found: Option<String> = match project_type {
            ProjectType::Uv => if line_no >= 2 {
                parse_first_field(&line)
            } else {
                None
            },
            ProjectType::Poetry => parse_poetry_line(&line),
            ProjectType::Cargo => parse_cargo_line(&line),
        };
        if let Some(name) = found {
            names.push(name);
        }
        i = next;
        line_no += 1;
    }
    names
}

/// The names of the dependencies in the output of `cargo tree`.
pub fn parse_cargo_tree_output(output: &str) -> (names: Vec<String>)
    ensures
        names_of(names@) == names_from(ProjectType::Cargo, output@, 0, 0),
{
    list(ProjectType::Cargo, output)
}

/// The first index at or after `i` that holds neither a space nor a colon.
pub open spec fn skip_separators(s: Seq<char>, i: int) -> int
    decreases s.len() - i,
{
    if 0 <= i < s.len() && (s[i] == ' ' || s[i] == ':') {
        skip_separators(s, i + 1)
    } else {
        i
    }
}

/// The version that a line of `uv pip show` tells.
pub open spec fn uv_version(line: Seq<char>) -> Option<Seq<char>> {
    match without_prefix(line, "Version:"@) {
        Some(rest) => Some(trimmed(rest)),
        None => None,
    }
}

/// The version that a line of `poetry show` tells.
pub open spec fn poetry_version(line: Seq<char>) -> Option<Seq<char>> {
    match without_prefix(line, "version"@) {
        Some(rest) => if skip_separators(rest, 0) < rest.len() {
            Some(trimmed(rest.subrange(skip_separators(rest, 0), rest.len() as int)))
        } else {
            None
        },
        None => None,
    }
}

/// The version that a line of `cargo tree` tells of `package`: what stands
/// behind the package's name, without a leading `v`.
pub open spec fn cargo_version(line: Seq<char>, package: Seq<char>) -> Option<Seq<char>> {
    match without_prefix(without_branch(trimmed(line)), package) {
        Some(rest) => {
            let shown = trimmed(rest);
            if shown.len() > 0 && shown[0] == 'v' {
                Some(shown.subrange(1, shown.len() as int))
            } else if shown.len() > 0 && is_digit(shown[0]) {
                Some(shown)
            } else {
                None
            }
        },
        None => None,
    }
}

/// The version that a line of the output of `kind`'s tool tells.
pub open spec fn told_version(kind: ProjectType, line: Seq<char>, package: Seq<char>) -> Option<Seq<char>> {
    match kind {
        ProjectType::Uv => uv_version(line),
        ProjectType::Poetry => poetry_version(line),
        ProjectType::Cargo => cargo_version(line, package),
    }
}

/// The version that the first telling line of `output[i..]` tells.
pub open spec fn version_from(kind: ProjectType, output: Seq<char>, package: Seq<char>, i: int) -> Option<Seq<char>>
    decreases output.len() - i,
{
    if 0 <= i < output.len() {
        match told_version(kind, line_at(output, i), package) {
            Some(version) => Some(version),
            None => if i < after_line(output, i) <= output.len() {
                version_from(kind, output, package, after_line(output, i))
            } else {
                None
            },
        }
    } else {
        None
    }
}

/// The version that `line` tells, in the output of `kind`'s tool.
pub fn parse_version_line(kind: ProjectType, line: &Vec<char>, package: &Vec<char>) -> (version:
    Option<String>)
    ensures
        match version {
            Some(found) => told_version(kind, line@, package@) == Some(found@),
            None => told_version(kind, line@, package@) is None,
        },
{
    match kind {
        ProjectType::Uv => match strip_prefix(line, &to_chars("Version:")) {
            Some(rest) => Some(to_string(&trim(&rest))),
            None => None,
        },
        ProjectType::Poetry => match strip_prefix(line, &to_chars("version")) {
            Some(rest) => {
                let mut k: usize = 0;
                while k < rest.len() && (rest[k] == ' ' || rest[k] == ':')
                    invariant
                        k <= rest.len(),
                        skip_separators(rest@, k as int) == skip_separators(rest@, 0),
                    decreases rest.len() - k,
                {
                    k += 1;
                }
                if k < rest.len() {
                    Some(to_string(&trim(&subvec(&rest, k, rest.len()))))
                } else {
                    None
                }
            },
            None => None,
        },
        ProjectType::Cargo => match strip_prefix(&strip_branch(&trim(line)), package) {
            Some(rest) => {
                let shown = trim(&rest);
                if shown.len() > 0 && shown[0] == 'v' {
                    Some(to_string(&subvec(&shown, 1, shown.len())))
                } else if shown.len() > 0 && is_ascii_digit(shown[0]) {
                    Some(to_string(&shown))
                } else {
                    None
                }
            },
            None => None,
        },
    }
}

/// The installed version of `package`, read from what the tool of
/// `project_type` printed about it: `uv pip show`, `poetry show`, or
/// `cargo tree -p`. `None` where no line tells a version.
pub fn get_installed_version(project_type: ProjectType, package: &str, output: &str) -> (version:
    Option<String>)
    ensures
        match version {
            Some(found) => version_from(project_type, output@, package@, 0) == Some(found@),
            None => version_from(project_type, output@, package@, 0) is None,
        },
{
    let text = to_chars(output);
    let name = to_chars(package);
    let mut i: usize = 0;
    while i < text.len()
        invariant
            i <= text.len(),
            text@ == output@,
            name@ == package@,
            version_from(project_type, output@, package@, 0) == version_from(
                project_type,
                text@,
                name@,
                i as int,
            ),
        decreases text.len() - i,
    {
        let (line, next) = next_line(&text, i);
        if let Some(found) = parse_version_line(project_type, &line, &name) {
            return Some(found);
        }
        i = next;
    }
    None
}

} // verus!
