//! Reading a listing of dependencies: one per line, with or without the
//! branches of a tree in front, and filtered by name.

use crate::pattern::{regex_matches, regex_valid, source_for, Matcher};
use crate::text::{
    contains, contains_seq, matches_at, occurs_at, skip_spaces, skip_spaces_from, skip_word,
    skip_word_from, string_of, to_chars,
};
use vstd::prelude::*;

verus! {

/// A dependency and, where the listing tells it, its version.
#[derive(Debug, Clone, PartialEq, Eq)]
pub struct DependencyInfo {
    pub name: String,
    pub version: Option<String>,
}

/// A dependency, as mathematical values.
pub struct DependencyModel {
    pub name: Seq<char>,
    pub version: Option<Seq<char>>,
}

impl View for DependencyInfo {
    type V = DependencyModel;

    open spec fn view(&self) -> DependencyModel {
        DependencyModel {
            name: self.name@,
            version: match self.version {
                Some(v) => Some(v@),
                None => None,
            },
        }
    }
}

/// The views of `deps`.
pub open spec fn deps_of(deps: Seq<DependencyInfo>) -> Seq<DependencyModel> {
    Seq::new(deps.len(), |i: int| deps[i]@)
}

/// `s[i..]` without the occurrences of `p`, found from left to right.
pub open spec fn without_all(s: Seq<char>, p: Seq<char>, i: int) -> Seq<char>
    decreases s.len() - i,
{
    if 0 <= i < s.len() {
        if p.len() > 0 && occurs_at(s, p, i) {
            without_all(s, p, i + p.len())
        } else {
            seq![s[i]] + without_all(s, p, i + 1)
        }
    } else {
        Seq::<char>::empty()
    }
}

/// `line` without the branches that a tree listing draws in front of an
/// entry.
pub open spec fn without_tree(line: Seq<char>) -> Seq<char> {
    without_all(
        without_all(
            without_all(
                without_all(line, "\u{251c}\u{2500}\u{2500} "@, 0),
                "\u{2514}\u{2500}\u{2500} "@,
                0,
            ),
            "\u{2502}   "@,
            0,
        ),
        "\u{2502}"@,
        0,
    )
}

/// The dependency that a line of the listing names: its first field, and
/// its second as the version. A line that is blank once the tree is gone
/// names none.
pub open spec fn dependency_of(line: Seq<char>) -> Option<DependencyModel> {
    let c = without_tree(line);
    let a0 = skip_spaces(c, 0);
    let b0 = skip_word(c, a0);
    let a1 = skip_spaces(c, b0);
    let b1 = skip_word(c, a1);
    if a0 < c.len() {
        Some(
            DependencyModel {
                name: c.subrange(a0, b0),
                version: if a1 < c.len() {
                    Some(c.subrange(a1, b1))
                } else {
                    None
                },
            },
        )
    } else {
        None
    }
}

/// The dependencies that the lines `lines[i..]` name, in order.
pub open spec fn dependencies_from(lines: Seq<String>, i: int) -> Seq<DependencyModel>
    decreases lines.len() - i,
{
    if 0 <= i < lines.len() {
        match dependency_of(lines[i]@) {
            Some(dep) => seq![dep] + dependencies_from(lines, i + 1),
            None => dependencies_from(lines, i + 1),
        }
    } else {
        Seq::<DependencyModel>::empty()
    }
}

/// `v` without the occurrences of `p`, found from left to right.
pub fn remove_all(v: &Vec<char>, p: &Vec<char>) -> (r: Vec<char>)
    ensures
        r@ == without_all(v@, p@, 0),
{
    let mut r: Vec<char> = Vec::new();
    let mut i: usize = 0;
    while i < v.len()
        invariant
            i <= v.len(),
            without_all(v@, p@, 0) == r@ + without_all(v@, p@, i as int),
        decreases v.len() - i,
    {
        if p.len() > 0 && matches_at(v, p, i) {
            i += p.len();
        } else {
            r.push(v[i]);
            i += 1;
        }
    }
    r
}

/// The dependency that `line` names, if it names one.
pub fn parse_dependency_line(line: &str) -> (dep: Option<DependencyInfo>)
    ensures
        match dep {
            Some(found) => dependency_of(line@) == Some(found@),
            None => dependency_of(line@) is None,
        },
{
    let first = remove_all(&to_chars(line), &to_chars("\u{251c}\u{2500}\u{2500} "));
    let second = remove_all(&first, &to_chars("\u{2514}\u{2500}\u{2500} "));
    let third = remove_all(&second, &to_chars("\u{2502}   "));
    let c = remove_all(&third, &to_chars("\u{2502}"));
    let a0 = skip_spaces_from(&c, 0);
    if a0 >= c.len() {
        return None;
    }
    let b0 = skip_word_from(&c, a0);
    let a1 = skip_spaces_from(&c, b0);
    let b1 = skip_word_from(&c, a1);
    Some(
        DependencyInfo {
            name: string_of(&c, a0, b0),
            version: if a1 < c.len() {
                Some(string_of(&c, a1, b1))
            } else {
                None
            },
        },
    )
}

/// The dependencies that `lines` name, in order. Blank lines and lines
/// that hold nothing but the branches of a tree are skipped.
pub fn parse_dependency_lines(lines: &Vec<String>) -> (deps: Vec<DependencyInfo>)
    ensures
        deps_of(deps@) == dependencies_from(lines@, 0),
{
    let mut deps: Vec<DependencyInfo> = Vec::new();
    let mut i: usize = 0;
    while i < lines.len()
        invariant
            i <= lines.len(),
            dependencies_from(lines@, 0) == deps_of(deps@) + dependencies_from(lines@, i as int),
        decreases lines.len() - i,
    {
        if let Some(dep) = parse_dependency_line(lines[i].as_str()) {
            deps.push(dep);
        }
        i += 1;
    }
    deps
}

/// The lower-case form of a text, as `str::to_lowercase` gives it.
pub uninterp spec fn lowercased(text: Seq<char>) -> Seq<char>;

/// `str::to_lowercase` of std: the lower-case form of `text`.
#[verifier::external_body]
fn to_lower(text: &str) -> (lower: String)
    ensures
        lower@ == lowercased(text@),
{
    text.to_lowercase()
}

/// Whether `text` holds `pattern`, given what the search for the escaped
/// pattern found and the lower-case forms of both: where the search could
/// not run, the lower-case forms decide.
pub open spec fn holds_literal(found: Option<bool>, lower_text: Seq<char>, lower_pattern: Seq<char>) -> bool {
    match found {
        Some(hit) => hit,
        None => contains_seq(lower_text, lower_pattern),
    }
}

/// Whether `text` holds the pattern, given what the search for the escaped
/// pattern found and the lower-case forms of both.
pub fn literal_verdict(found: Option<bool>, lower_text: &str, lower_pattern: &str) -> (b: bool)
    ensures
        b == holds_literal(found, lower_text@, lower_pattern@),
{
    match found {
        Some(hit) => hit,
        None => contains(&to_chars(lower_text), &to_chars(lower_pattern)),
    }
}

/// What the search for the escaped `pattern` in `text` finds.
pub open spec fn literal_search(text: Seq<char>, pattern: Seq<char>) -> Option<bool> {
    if regex_valid(source_for(pattern, false)) {
        Some(regex_matches(source_for(pattern, false), text))
    } else {
        None
    }
}

/// Whether `text` holds `pattern`, taken literally and without regard to
/// case.
pub fn regex_match_case_insensitive(text: &str, pattern: &str) -> (b: bool)
    ensures
        b == holds_literal(
            literal_search(text@, pattern@),
            lowercased(text@),
            lowercased(pattern@),
        ),
{
    let matcher = Matcher::from_outcome(pattern, false);
    let found = matcher.try_match(text);
    match found {
        Some(hit) => hit,
        None => {
            let lower_text = to_lower(text);
            let lower_pattern = to_lower(pattern);
            literal_verdict(None, lower_text.as_str(), lower_pattern.as_str())
        },
    }
}

/// Whether one of `patterns[i..]` is held by `text`.
pub open spec fn any_holds(text: Seq<char>, patterns: Seq<String>, i: int) -> bool
    decreases patterns.len() - i,
{
    if 0 <= i < patterns.len() {
        holds_literal(
            literal_search(text, patterns[i]@),
            lowercased(text),
            lowercased(patterns[i]@),
        ) || any_holds(text, patterns, i + 1)
    } else {
        false
    }
}

/// Whether `text` holds one of `patterns`, each taken literally and
/// without regard to case.
pub fn matches_any_pattern(text: &str, patterns: &Vec<String>) -> (b: bool)
    ensures
        b == any_holds(text@, patterns@, 0),
{
    let mut i: usize = 0;
    while i < patterns.len()
        invariant
            i <= patterns.len(),
            any_holds(text@, patterns@, 0) == any_holds(text@, patterns@, i as int),
        decreases patterns.len() - i,
    {
        if regex_match_case_insensitive(text, patterns[i].as_str()) {
            return true;
        }
        i += 1;
    }
    false
}

} // verus!
