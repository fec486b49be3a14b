//! The severity filter of a log stream: a two-state machine that lets
//! through warnings, errors and whole tracebacks, and holds back the rest.

use crate::text::{contains, contains_seq, to_chars};
use vstd::prelude::*;

verus! {

/// The upper-case form of a text, as `str::to_uppercase` gives it.
pub uninterp spec fn uppercased(text: Seq<char>) -> Seq<char>;

/// `str::to_uppercase` of std: the upper-case form of `text`.
#[verifier::external_body]
fn to_upper(text: &str) -> (upper: String)
    ensures
        upper@ == uppercased(text@),
{
    text.to_uppercase()
}

/// Whether `line` opens a traceback.
pub open spec fn opens_traceback(line: Seq<char>) -> bool {
    contains_seq(line, "Traceback (most recent call last)"@)
}

/// Whether `line` begins with a space or a tab, as the lines inside a
/// traceback do.
pub open spec fn is_indented(line: Seq<char>) -> bool {
    line.len() > 0 && (line[0] == ' ' || line[0] == '\t')
}

/// Whether the upper-case form `upper` of a line names a severity worth
/// showing.
pub open spec fn names_severity(upper: Seq<char>) -> bool {
    ||| contains_seq(upper, "WARNING"@)
    ||| contains_seq(upper, "ERROR"@)
    ||| contains_seq(upper, "CRITICAL"@)
    ||| contains_seq(upper, "FATAL"@)
}

/// Whether the filter shows `line`, whose upper-case form is `upper`, when
/// it is inside a traceback or not.
pub open spec fn shows(line: Seq<char>, upper: Seq<char>, inside: bool) -> bool {
    if opens_traceback(line) {
        true
    } else if inside {
        true
    } else {
        names_severity(upper)
    }
}

/// Whether the filter is inside a traceback after `line`.
pub open spec fn inside_after(line: Seq<char>, inside: bool) -> bool {
    if opens_traceback(line) {
        true
    } else {
        inside && is_indented(line)
    }
}

/// Whether the upper-case text `upper` names a severity worth showing.
pub fn has_severity(upper: &str) -> (found: bool)
    ensures
        found == names_severity(upper@),
{
    let chars = to_chars(upper);
    contains(&chars, &to_chars("WARNING")) || contains(&chars, &to_chars("ERROR")) || contains(
        &chars,
        &to_chars("CRITICAL"),
    ) || contains(&chars, &to_chars("FATAL"))
}

/// One step of the filter on `line`, whose upper-case form is `upper`.
/// Returns whether the line is shown and updates the traceback state:
/// a line with the traceback marker is shown and enters the traceback;
/// inside, every line is shown, and the first that is not indented leaves
/// the traceback; outside, a line is shown if it names a severity.
pub fn filter_line(line: &str, upper: &str, in_traceback: &mut bool) -> (shown: bool)
    ensures
        shown == shows(line@, upper@, *old(in_traceback)),
        *final(in_traceback) == inside_after(line@, *old(in_traceback)),
{
    let chars = to_chars(line);
    if contains(&chars, &to_chars("Traceback (most recent call last)")) {
        *in_traceback = true;
        return true;
    }
    if *in_traceback {
        if chars.len() > 0 && (chars[0] == ' ' || chars[0] == '\t') {
            return true;
        }
        *in_traceback = false;
        return true;
    }
    has_severity(upper)
}

/// Whether a log line is shown when only warnings and errors are wanted.
/// The severity names are looked for without regard to case.
pub fn should_show_line(line: &str, in_traceback: &mut bool) -> (shown: bool)
    ensures
        shown == shows(line@, uppercased(line@), *old(in_traceback)),
        *final(in_traceback) == inside_after(line@, *old(in_traceback)),
{
    let upper = to_upper(line);
    filter_line(line, upper.as_str(), in_traceback)
}

} // verus!
