//! Colored messages about packages and pods, as text and styled spans.
//! Writing them to a terminal is left to the caller.

use crate::text::to_chars;
use vstd::prelude::*;
use vstd::string::StringExecFns;

verus! {

/// The escape sequence for bold cyan text.
pub const ANSI_CYAN_BOLD: &'static str = "\x1b[36m\x1b[1m";

/// The escape sequence for green text.
pub const ANSI_GREEN: &'static str = "\x1b[32m";

/// The escape sequence for red text.
pub const ANSI_RED: &'static str = "\x1b[31m";

/// The escape sequence for yellow text.
pub const ANSI_YELLOW: &'static str = "\x1b[33m";

/// The escape sequence for dim text.
pub const ANSI_DIM: &'static str = "\x1b[2m";

/// The escape sequence that ends every style.
pub const ANSI_RESET: &'static str = "\x1b[0m";

/// How a package's version moved.
#[derive(Debug, Clone, Copy, PartialEq, Eq, Structural)]
pub enum VersionChange {
    Upgraded,
    Unchanged,
    Downgraded,
}

/// The color of a span of text.
#[derive(Debug, Clone, Copy, PartialEq, Eq, Structural)]
pub enum Tint {
    Plain,
    Green,
    Yellow,
}

/// A piece of a message, in one color.
#[derive(Debug, Clone)]
pub struct Span {
    pub tint: Tint,
    pub text: String,
}

/// A piece of a message, as mathematical values.
pub struct SpanModel {
    pub tint: Tint,
    pub text: Seq<char>,
}

impl View for Span {
    type V = SpanModel;

    open spec fn view(&self) -> SpanModel {
        SpanModel { tint: self.tint, text: self.text@ }
    }
}

/// The views of `spans`.
pub open spec fn spans_of(spans: Seq<Span>) -> Seq<SpanModel> {
    Seq::new(spans.len(), |i: int| spans[i]@)
}

/// A span of `text` in the color `tint`.
pub fn span(tint: Tint, text: &str) -> (s: Span)
    ensures
        s@ == (SpanModel { tint, text: text@ }),
{
    Span { tint, text: String::from_str(text) }
}

/// `version` with a leading `v`.
pub open spec fn with_v(version: Seq<char>) -> Seq<char> {
    if version.len() > 0 && version[0] == 'v' {
        version
    } else {
        "v"@ + version
    }
}

/// `version` with a leading `v`, which is added where it is missing.
pub fn fmt_version(version: &str) -> (text: String)
    ensures
        text@ == with_v(version@),
{
    let chars = to_chars(version);
    if chars.len() > 0 && chars[0] == 'v' {
        version.to_owned()
    } else {
        let mut text = String::from_str("v");
        text.append(version);
        text
    }
}

/// The message that a package is being updated: one line of spans.
pub fn print_update(package: &str) -> (line: Vec<Span>)
    ensures
        spans_of(line@) == seq![
            SpanModel { tint: Tint::Green, text: "[update]"@ },
            SpanModel { tint: Tint::Plain, text: ": updating "@ },
            SpanModel { tint: Tint::Green, text: package@ },
        ],
{
    let mut line: Vec<Span> = Vec::new();
    line.push(span(Tint::Green, "[update]"));
    line.push(span(Tint::Plain, ": updating "));
    line.push(span(Tint::Green, package));
    line
}

/// The message that a package is now at `version`: one line of spans.
pub fn print_updated_version(package: &str, version: &str) -> (line: Vec<Span>)
    ensures
        spans_of(line@) == seq![
            SpanModel { tint: Tint::Green, text: "[update]"@ },
            SpanModel { tint: Tint::Plain, text: ": "@ },
            SpanModel { tint: Tint::Green, text: package@ },
            SpanModel { tint: Tint::Plain, text: " is now "@ + with_v(version@) },
        ],
{
    let mut tail = String::from_str(" is now ");
    let shown = fmt_version(version);
    tail.append(shown.as_str());
    let mut line: Vec<Span> = Vec::new();
    line.push(span(Tint::Green, "[update]"));
    line.push(span(Tint::Plain, ": "));
    line.push(span(Tint::Green, package));
    line.push(Span { tint: Tint::Plain, text: tail });
    line
}

/// The message that a package moved from `before` to `after`: one line of
/// spans.
pub fn print_bumped_version(package: &str, before: &str, after: &str) -> (line: Vec<Span>)
    ensures
        spans_of(line@) == seq![
            SpanModel { tint: Tint::Green, text: "[update]"@ },
            SpanModel { tint: Tint::Plain, text: ": "@ },
            SpanModel { tint: Tint::Green, text: package@ },
            SpanModel { tint: Tint::Plain, text: " bumped from "@ },
            SpanModel { tint: Tint::Yellow, text: before@ },
            SpanModel { tint: Tint::Plain, text: " -> "@ },
            SpanModel { tint: Tint::Green, text: after@ },
        ],
{
    let mut line: Vec<Span> = Vec::new();
    line.push(span(Tint::Green, "[update]"));
    line.push(span(Tint::Plain, ": "));
    line.push(span(Tint::Green, package));
    line.push(span(Tint::Plain, " bumped from "));
    line.push(span(Tint::Yellow, before));
    line.push(span(Tint::Plain, " -> "));
    line.push(span(Tint::Green, after));
    line
}

/// The escape sequence for the new version of a package.
pub open spec fn change_color(change: VersionChange) -> Seq<char> {
    match change {
        VersionChange::Upgraded => ANSI_GREEN@,
        VersionChange::Unchanged => ANSI_DIM@,
        VersionChange::Downgraded => ANSI_RED@,
    }
}

/// The text that tells how a version moved.
pub open spec fn bumped_text(
    before: Seq<char>,
    after: Seq<char>,
    change: VersionChange,
    use_color: bool,
) -> Seq<char> {
    if use_color {
        "bumped from "@ + ANSI_YELLOW@ + before + ANSI_RESET@ + " -> "@ + change_color(change)
            + after + ANSI_RESET@
    } else {
        "bumped from "@ + before + " -> "@ + after
    }
}

/// The text that tells how a version moved from `before` to `after`. With
/// colors the old version is yellow, and the new one green, dim or red.
pub fn format_bumped_message_colored(
    before: &str,
    after: &str,
    change: VersionChange,
    use_color: bool,
) -> (text: String)
    ensures
        text@ == bumped_text(before@, after@, change, use_color),
{
    let mut text = String::from_str("bumped from ");
    if use_color {
        let after_color: &'static str = match change {
            VersionChange::Upgraded => ANSI_GREEN,
            VersionChange::Unchanged => ANSI_DIM,
            VersionChange::Downgraded => ANSI_RED,
        };
        text.append(ANSI_YELLOW);
        text.append(before);
        text.append(ANSI_RESET);
        text.append(" -> ");
        text.append(after_color);
        text.append(after);
        text.append(ANSI_RESET);
    } else {
        text.append(before);
        text.append(" -> ");
        text.append(after);
    }
    text
}

/// The prefix for the output about a pod.
pub open spec fn pod_prefix(pod_name: Seq<char>, use_color: bool) -> Seq<char> {
    if use_color {
        ANSI_CYAN_BOLD@ + "["@ + pod_name + "]"@ + ANSI_RESET@ + ": "@
    } else {
        "["@ + pod_name + "]: "@
    }
}

/// The prefix for the output about the pod `pod_name`: its name in
/// brackets, in bold cyan where colors are used.
pub fn format_pod_prefix(pod_name: &str, use_color: bool) -> (prefix: String)
    ensures
        prefix@ == pod_prefix(pod_name@, use_color),
{
    if use_color {
        let mut prefix = String::from_str(ANSI_CYAN_BOLD);
        prefix.append("[");
        prefix.append(pod_name);
        prefix.append("]");
        prefix.append(ANSI_RESET);
        prefix.append(": ");
        prefix
    } else {
        let mut prefix = String::from_str("[");
        prefix.append(pod_name);
        prefix.append("]: ");
        prefix
    }
}

} // verus!
