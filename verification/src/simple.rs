//! The plain renderer: log lines of all pods in one stream, each behind its
//! pod's key, with a labeled separator wherever the pod changes.

use vstd::prelude::*;
use vstd::string::StringExecFns;

verus! {

/// The escape sequence that ends every style.
pub const RESET: &'static str = "\x1b[0m";

/// The escape sequence for bold text.
pub const BOLD: &'static str = "\x1b[1m";

/// The escape sequence for red text.
pub const RED: &'static str = "\x1b[31m";

/// The line that a separator is ruled with.
pub const RULE: &'static str = "\u{2501}\u{2501}\u{2501}\u{2501}\u{2501}\u{2501}\u{2501}\u{2501}\u{2501}\u{2501}\u{2501}\u{2501}\u{2501}\u{2501}\u{2501}\u{2501}\u{2501}\u{2501}\u{2501}\u{2501}\u{2501}\u{2501}\u{2501}\u{2501}\u{2501}\u{2501}\u{2501}\u{2501}\u{2501}\u{2501}\u{2501}\u{2501}\u{2501}\u{2501}\u{2501}\u{2501}\u{2501}\u{2501}\u{2501}\u{2501}";

/// The escape sequence of the color for patterns number `slot`, which is
/// below 8.
pub open spec fn pod_color_of(slot: int) -> Seq<char> {
    if slot == 0 {
        "\x1b[36m"@
    } else if slot == 1 {
        "\x1b[32m"@
    } else if slot == 2 {
        "\x1b[35m"@
    } else if slot == 3 {
        "\x1b[33m"@
    } else if slot == 4 {
        "\x1b[34m"@
    } else if slot == 5 {
        "\x1b[96m"@
    } else if slot == 6 {
        "\x1b[92m"@
    } else {
        "\x1b[95m"@
    }
}

/// The escape sequence of the color for the pods of pattern `pattern_idx`:
/// eight colors that repeat.
pub fn pod_color(pattern_idx: usize) -> (code: &'static str)
    ensures
        code@ == pod_color_of((pattern_idx % 8) as int),
{
    let slot: usize = pattern_idx % 8;
    if slot == 0 {
        "\x1b[36m"
    } else if slot == 1 {
        "\x1b[32m"
    } else if slot == 2 {
        "\x1b[35m"
    } else if slot == 3 {
        "\x1b[33m"
    } else if slot == 4 {
        "\x1b[34m"
    } else if slot == 5 {
        "\x1b[96m"
    } else if slot == 6 {
        "\x1b[92m"
    } else {
        "\x1b[95m"
    }
}

/// `text` in bold and in the color `code`, or as it is without colors.
pub open spec fn styled(text: Seq<char>, code: Seq<char>, use_color: bool) -> Seq<char> {
    if use_color {
        code + BOLD@ + text + RESET@
    } else {
        text
    }
}

/// The separator that announces the lines of the pod `key`: a blank line,
/// a rule, the key, and a rule.
pub open spec fn separator_of(key: Seq<char>, code: Seq<char>, use_color: bool) -> Seq<char> {
    "\n"@ + styled(RULE@, code, use_color) + "\n"@ + styled(" "@ + key, code, use_color) + "\n"@
        + styled(RULE@, code, use_color)
}

/// The prefix that a line of the pod `key` is printed behind.
pub open spec fn prefix_of(key: Seq<char>, code: Seq<char>, use_color: bool) -> Seq<char> {
    styled("["@ + key + "]"@, code, use_color) + ": "@
}

/// What is printed for a line `text` of the pod `key`: the separator first
/// where the pod before was another, then the line behind its prefix.
pub open spec fn printed(
    last_pod: Seq<char>,
    key: Seq<char>,
    code: Seq<char>,
    use_color: bool,
    text: Seq<char>,
) -> Seq<char> {
    (if last_pod != key {
        separator_of(key, code, use_color) + "\n"@
    } else {
        Seq::<char>::empty()
    }) + prefix_of(key, code, use_color) + text
}

/// Appends `text` to `out`, in bold and in the color `code` where colors
/// are used.
pub fn push_styled(out: &mut String, text: &str, code: &str, use_color: bool)
    ensures
        final(out)@ == old(out)@ + styled(text@, code@, use_color),
{
    if use_color {
        out.append(code);
        out.append(BOLD);
        out.append(text);
        out.append(RESET);
    } else {
        out.append(text);
    }
}

/// What the plain renderer remembers between lines.
pub struct OutputState {
    /// The key of the pod whose line was printed last; empty at the start.
    pub last_pod: String,
    pub use_color: bool,
}

impl OutputState {
    /// The state before the first line.
    pub fn new(use_color: bool) -> (state: OutputState)
        ensures
            state.last_pod@ == Seq::<char>::empty(),
            state.use_color == use_color,
    {
        OutputState { last_pod: String::new(), use_color }
    }

    /// The text to print for a line `text` of the pod `key`, which was
    /// found by pattern `pattern_idx`. Where the pod before was another,
    /// the text starts with the separator for `key`.
    pub fn emit(&mut self, key: &str, pattern_idx: usize, text: &str) -> (out: String)
        ensures
            out@ == printed(
                old(self).last_pod@,
                key@,
                pod_color_of((pattern_idx % 8) as int),
                old(self).use_color,
                text@,
            ),
            final(self).last_pod@ == key@,
            final(self).use_color == old(self).use_color,
    {
        let code = pod_color(pattern_idx);
        let mut out = String::new();
        let changed: bool = self.last_pod != key.to_owned();
        if changed {
            out.append("\n");
            push_styled(&mut out, RULE, code, self.use_color);
            out.append("\n");
            let mut label = String::from_str(" ");
            label.append(key);
            push_styled(&mut out, label.as_str(), code, self.use_color);
            out.append("\n");
            push_styled(&mut out, RULE, code, self.use_color);
            out.append("\n");
            self.last_pod = key.to_owned();
        }
        let mut tag = String::from_str("[");
        tag.append(key);
        tag.append("]");
        push_styled(&mut out, tag.as_str(), code, self.use_color);
        out.append(": ");
        out.append(text);
        out
    }
}

/// The message for a log feed of the pod `key` that could not be started.
pub open spec fn follow_error_of(key: Seq<char>, reason: Seq<char>) -> Seq<char> {
    "\n"@ + RED@ + BOLD@ + "[error]"@ + RESET@ + " Failed to follow logs for "@ + key + ": "@
        + reason + "\n"@
}

/// The message for a log feed of the pod `key` that could not be started
/// for `reason`.
pub fn follow_error(key: &str, reason: &str) -> (message: String)
    ensures
        message@ == follow_error_of(key@, reason@),
{
    let mut message = String::from_str("\n");
    message.append(RED);
    message.append(BOLD);
    message.append("[error]");
    message.append(RESET);
    message.append(" Failed to follow logs for ");
    message.append(key);
    message.append(": ");
    message.append(reason);
    message.append("\n");
    message
}

} // verus!
