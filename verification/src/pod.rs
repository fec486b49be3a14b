//! Pods and their discovery: the rows of a pod listing are matched against
//! the pattern list, and a failed listing becomes an error that says what to
//! do about it.

use crate::pattern::Matcher;
use crate::text::{
    find_char, find_char_from, lemma_find_char_bounds, row_fields, split_row, subvec, to_chars,
};
use vstd::prelude::*;
use vstd::string::StringExecFns;

verus! {

/// What a pod reference holds, as mathematical values.
pub struct PodModel {
    pub namespace: Seq<char>,
    pub name: Seq<char>,
    pub pattern_idx: usize,
}

impl PodModel {
    /// The pod's identity: namespace, a slash, name.
    pub open spec fn key(self) -> Seq<char> {
        self.namespace + seq!['/'] + self.name
    }
}

/// A pod, with the index of the first pattern that matched its name.
#[derive(Clone, Debug)]
pub struct PodInfo {
    pub namespace: String,
    pub name: String,
    pub pattern_idx: usize,
}

impl View for PodInfo {
    type V = PodModel;

    open spec fn view(&self) -> PodModel {
        PodModel { namespace: self.namespace@, name: self.name@, pattern_idx: self.pattern_idx }
    }
}

impl PodInfo {
    /// The pod's identity: `"namespace/name"`.
    pub fn key(&self) -> (key: String)
        ensures
            key@ == self@.key(),
    {
        let mut key = self.namespace.clone();
        proof {
            reveal_strlit("/");
        }
        key.append("/");
        key.append(self.name.as_str());
        key
    }
}

/// The views of `pods`.
pub open spec fn pods_of(pods: Seq<PodInfo>) -> Seq<PodModel> {
    Seq::new(pods.len(), |i: int| pods[i]@)
}

/// The first index at or after `i` that holds `true`, or the length.
pub open spec fn first_true(verdicts: Seq<bool>, i: int) -> int
    decreases verdicts.len() - i,
{
    if 0 <= i < verdicts.len() && !verdicts[i] {
        first_true(verdicts, i + 1)
    } else {
        i
    }
}

/// The index of the first `true` among `verdicts`, if there is one.
pub open spec fn first_hit(verdicts: Seq<bool>) -> Option<usize> {
    if first_true(verdicts, 0) < verdicts.len() {
        Some(first_true(verdicts, 0) as usize)
    } else {
        None
    }
}

/// For each pattern, whether it accepts `name`.
pub open spec fn verdicts_on(patterns: Seq<Matcher>, name: Seq<char>) -> Seq<bool> {
    Seq::new(patterns.len(), |i: int| patterns[i].accepts(name))
}

/// The pod that a row of the listing stands for, if its name matches a
/// pattern: it carries the index of the first pattern that matches.
pub open spec fn row_pod(line: Seq<char>, patterns: Seq<Matcher>) -> Option<PodModel> {
    match row_fields(line) {
        Some((namespace, name)) => match first_hit(verdicts_on(patterns, name)) {
            Some(idx) => Some(PodModel { namespace, name, pattern_idx: idx }),
            None => None,
        },
        None => None,
    }
}

/// The pods of the rows of `listing` from index `i` on, in the listing's
/// order. Rows end at a line feed.
pub open spec fn rows_from(listing: Seq<char>, i: int, patterns: Seq<Matcher>) -> Seq<PodModel>
    decreases listing.len() - i,
{
    if 0 <= i < listing.len() {
        let e = find_char(listing, '\n', i);
        let rest = if i <= e < listing.len() {
            rows_from(listing, e + 1, patterns)
        } else {
            Seq::<PodModel>::empty()
        };
        match row_pod(listing.subrange(i, e), patterns) {
            Some(pod) => seq![pod] + rest,
            None => rest,
        }
    } else {
        Seq::<PodModel>::empty()
    }
}

/// The pods that `listing` names and a pattern matches.
pub open spec fn matching_rows(listing: Seq<char>, patterns: Seq<Matcher>) -> Seq<PodModel> {
    rows_from(listing, 0, patterns)
}

/// The index of the first `true` among `verdicts`.
pub fn first_hit_of(verdicts: &Vec<bool>) -> (hit: Option<usize>)
    ensures
        hit == first_hit(verdicts@),
{
    let mut i: usize = 0;
    while i < verdicts.len() && !verdicts[i]
        invariant
            i <= verdicts.len(),
            first_true(verdicts@, i as int) == first_true(verdicts@, 0),
        decreases verdicts.len() - i,
    {
        i += 1;
    }
    if i < verdicts.len() {
        Some(i)
    } else {
        None
    }
}

/// The index of the first of `regexes` that matches `name`. Patterns are
/// tried in list order.
pub fn first_match(regexes: &Vec<Matcher>, name: &str) -> (hit: Option<usize>)
    ensures
        hit == first_hit(verdicts_on(regexes@, name@)),
{
    let ghost verdicts = verdicts_on(regexes@, name@);
    let mut i: usize = 0;
    while i < regexes.len()
        invariant
            i <= regexes.len(),
            verdicts == verdicts_on(regexes@, name@),
            first_true(verdicts, i as int) == first_true(verdicts, 0),
        decreases regexes.len() - i,
    {
        if regexes[i].is_match(name) {
            return Some(i);
        }
        i += 1;
    }
    None
}

/// The pods that the rows of `listing` name and a pattern matches, in the
/// listing's order. Each pod carries the index of the first pattern that
/// matches its name. Rows with fewer than two fields are skipped.
pub fn parse_pods(listing: &str, regexes: &Vec<Matcher>) -> (pods: Vec<PodInfo>)
    ensures
        pods_of(pods@) == matching_rows(listing@, regexes@),
{
    let text = to_chars(listing);
    let mut pods: Vec<PodInfo> = Vec::new();
    let mut i: usize = 0;
    while i < text.len()
        invariant
            i <= text.len(),
            text@ == listing@,
            matching_rows(listing@, regexes@) == pods_of(pods@) + rows_from(
                text@,
                i as int,
                regexes@,
            ),
        decreases text.len() - i,
    {
        let e = find_char_from(&text, '\n', i);
        proof {
            lemma_find_char_bounds(text@, '\n', i as int);
        }
        let line = subvec(&text, i, e);
        match split_row(&line) {
            Some((namespace, name)) => {
                match first_match(regexes, name.as_str()) {
                    Some(idx) => {
                        let pod = PodInfo { namespace, name, pattern_idx: idx };
                        pods.push(pod);
                    },
                    None => {},
                }
            },
            None => {},
        }
        if e == text.len() {
            i = e;
        } else {
            i = e + 1;
        }
    }
    pods
}

} // verus!
