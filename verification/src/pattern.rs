//! Pod-name patterns: a regular expression, or, where the text is no valid
//! regular expression, that text taken literally and without regard to case.

use regex::Regex;
use vstd::prelude::*;
use vstd::string::StringExecFns;

verus! {

/// Whether `Regex::new` accepts `pattern`.
pub uninterp spec fn regex_valid(pattern: Seq<char>) -> bool;

/// Whether the regular expression compiled from `pattern` matches somewhere
/// in `haystack`.
pub uninterp spec fn regex_matches(pattern: Seq<char>, haystack: Seq<char>) -> bool;

/// The characters that have a meaning in a regular expression.
pub open spec fn is_meta(c: char) -> bool {
    ||| c == '\\'
    ||| c == '.'
    ||| c == '+'
    ||| c == '*'
    ||| c == '?'
    ||| c == '('
    ||| c == ')'
    ||| c == '|'
    ||| c == '['
    ||| c == ']'
    ||| c == '{'
    ||| c == '}'
    ||| c == '^'
    ||| c == '$'
    ||| c == '#'
    ||| c == '&'
    ||| c == '-'
    ||| c == '~'
}

/// `s` with a backslash in front of each meta character.
pub open spec fn escaped(s: Seq<char>) -> Seq<char>
    decreases s.len(),
{
    if s.len() == 0 {
        Seq::<char>::empty()
    } else if is_meta(s[0]) {
        seq!['\\', s[0]] + escaped(s.drop_first())
    } else {
        seq![s[0]] + escaped(s.drop_first())
    }
}

/// The text that an escaped pattern stands for: each backslash is dropped
/// and the character behind it kept.
pub open spec fn unescaped(e: Seq<char>) -> Seq<char>
    decreases e.len(),
{
    if e.len() == 0 {
        Seq::<char>::empty()
    } else if e[0] == '\\' && e.len() >= 2 {
        seq![e[1]] + unescaped(e.subrange(2, e.len() as int))
    } else {
        seq![e[0]] + unescaped(e.drop_first())
    }
}

/// The flag group that switches a regular expression to ignore case.
pub open spec fn ignore_case_flag() -> Seq<char> {
    seq!['(', '?', 'i', ')']
}

/// The regular expression that stands for the user's `pattern`: the pattern
/// itself where it is valid, else its escaped text behind the ignore-case
/// flag.
pub open spec fn source_for(pattern: Seq<char>, valid: bool) -> Seq<char> {
    if valid {
        pattern
    } else {
        ignore_case_flag() + escaped(pattern)
    }
}

/// Escaping keeps the text: whatever the user typed, reading the escaped
/// pattern back, each backslash dropped and the character behind it kept,
/// gives the typed text again. The pattern that stands in for an invalid
/// regular expression therefore names that text and nothing else.
pub proof fn law_escape_keeps_the_text(s: Seq<char>)
    ensures
        unescaped(escaped(s)) == s,
    decreases s.len(),
{
    if s.len() > 0 {
        let rest = escaped(s.drop_first());
        law_escape_keeps_the_text(s.drop_first());
        let e = escaped(s);
        if is_meta(s[0]) {
            assert(e.subrange(2, e.len() as int) =~= rest);
        } else {
            assert(e.drop_first() =~= rest);
        }
    }
}

/// `regex::escape`: puts a backslash in front of each meta character of
/// `pattern` and leaves the other characters as they are.
#[verifier::external_body]
fn escape(pattern: &str) -> (r: String)
    ensures
        r@ == escaped(pattern@),
{
    regex::escape(pattern)
}

/// `Regex::new` and `Regex::is_match`: compiles `pattern` and searches
/// `haystack`. The result is `None` exactly where the pattern is refused,
/// and else tells whether the expression matches somewhere in the haystack.
#[verifier::external_body]
fn search(pattern: &str, haystack: &str) -> (r: Option<bool>)
    ensures
        r is Some <==> regex_valid(pattern@),
        r is Some ==> r->Some_0 == regex_matches(pattern@, haystack@),
{
    match Regex::new(pattern) {
        Ok(re) => Some(re.is_match(haystack)),
        Err(_) => None,
    }
}

/// What a matcher holds, as mathematical values.
pub struct MatcherModel {
    /// The regular expression that is searched for.
    pub source: Seq<char>,
    /// Whether the user's text was escaped and is matched literally.
    pub literal: bool,
}

/// A compiled pod-name pattern.
#[derive(Clone, Debug)]
pub struct Matcher {
    source: String,
    literal: bool,
}

impl View for Matcher {
    type V = MatcherModel;

    closed spec fn view(&self) -> MatcherModel {
        MatcherModel { source: self.source@, literal: self.literal }
    }
}

/// Whether a search that returned `found` counts as a match.
pub open spec fn is_hit(found: Option<bool>) -> bool {
    found == Some(true)
}

/// Whether a search that returned `found` counts as a match: a pattern that
/// did not compile matches nothing.
pub fn verdict(found: Option<bool>) -> (b: bool)
    ensures
        b == is_hit(found),
{
    match found {
        Some(hit) => hit,
        None => false,
    }
}

impl Matcher {
    /// Whether the matcher accepts `text`.
    pub open spec fn accepts(&self, text: Seq<char>) -> bool {
        regex_valid(self@.source) && regex_matches(self@.source, text)
    }

    /// The matcher for the user's `pattern`, given whether that pattern is a
    /// valid regular expression.
    pub fn from_outcome(pattern: &str, valid: bool) -> (m: Matcher)
        ensures
            m@.source == source_for(pattern@, valid),
            m@.literal == !valid,
    {
        if valid {
            Matcher { source: pattern.to_owned(), literal: false }
        } else {
            let mut source = String::from_str("(?i)");
            proof {
                reveal_strlit("(?i)");
            }
            let body = escape(pattern);
            source.append(body.as_str());
            Matcher { source, literal: true }
        }
    }

    /// The regular expression that is searched for.
    pub fn as_str(&self) -> (s: &str)
        ensures
            s@ == self@.source,
    {
        self.source.as_str()
    }

    /// Whether the user's text was no valid regular expression and is
    /// matched literally, ignoring case.
    pub fn is_literal(&self) -> (b: bool)
        ensures
            b == self@.literal,
    {
        self.literal
    }

    /// Searches `text`. The result is `None` where the pattern does not
    /// compile, and else tells whether it matches somewhere in `text`.
    pub fn try_match(&self, text: &str) -> (found: Option<bool>)
        ensures
            found is Some <==> regex_valid(self@.source),
            found is Some ==> found->Some_0 == regex_matches(self@.source, text@),
    {
        search(self.source.as_str(), text)
    }

    /// Whether the pattern matches somewhere in `text`.
    pub fn is_match(&self, text: &str) -> (b: bool)
        ensures
            b == self.accepts(text@),
    {
        verdict(search(self.source.as_str(), text))
    }

    /// A copy of the matcher.
    pub fn duplicate(&self) -> (m: Matcher)
        ensures
            m@ == self@,
    {
        Matcher { source: self.source.clone(), literal: self.literal }
    }
}

/// Compiles `pattern` as a regular expression. A pattern that is no valid
/// regular expression is matched literally and without regard to case. This
/// never fails.
pub fn pod_pattern_regex(pattern: &str) -> (m: Matcher)
    ensures
        m@.source == source_for(pattern@, regex_valid(pattern@)),
        m@.literal == !regex_valid(pattern@),
{
    let probe = search(pattern, "");
    Matcher::from_outcome(pattern, probe.is_some())
}

} // verus!
