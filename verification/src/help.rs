//! The overview of the commands that the program prints without arguments.

use crate::colors::{span, spans_of, Span, SpanModel, Tint};
use vstd::prelude::*;

verus! {

/// A line of the overview: a highlighted head and plain text behind it.
pub open spec fn help_line(head: Seq<char>, tail: Seq<char>) -> Seq<SpanModel> {
    seq![SpanModel { tint: Tint::Green, text: head }, SpanModel { tint: Tint::Plain, text: tail }]
}

/// A line of the overview.
pub fn line_of(head: &str, tail: &str) -> (line: Vec<Span>)
    ensures
        spans_of(line@) == help_line(head@, tail@),
{
    let mut line: Vec<Span> = Vec::new();
    line.push(span(Tint::Green, head));
    line.push(span(Tint::Plain, tail));
    line
}

/// The lines of the overview.
pub open spec fn overview() -> Seq<Seq<SpanModel>> {
    seq![
        help_line("Bashers - Bash command helpers"@, ""@),
        help_line(""@, ""@),
        help_line("Usage: "@, "bashers <COMMAND> [ARGS]"@),
        help_line(""@, ""@),
        help_line("Commands:"@, ""@),
        help_line("  update"@, "    Update Python dependencies (uv/poetry)"@),
        help_line("  setup"@, "    Install project dependencies (uv/poetry)"@),
        help_line("  show"@, "    List installed packages (uv/poetry)"@),
        help_line("  gh"@, "    Git home: checkout default branch, pull, fetch all"@),
        help_line(""@, ""@),
        help_line("Use bashers <command> --help"@, " for more details."@),
    ]
}

/// The views of `lines`.
pub open spec fn lines_of(lines: Seq<Vec<Span>>) -> Seq<Seq<SpanModel>> {
    Seq::new(lines.len(), |i: int| spans_of(lines[i]@))
}

/// The overview of the commands, line by line.
pub fn run() -> (lines: Vec<Vec<Span>>)
    ensures
        lines_of(lines@) == overview(),
{
    let mut lines: Vec<Vec<Span>> = Vec::new();
    lines.push(line_of("Bashers - Bash command helpers", ""));
    lines.push(line_of("", ""));
    lines.push(line_of("Usage: ", "bashers <COMMAND> [ARGS]"));
    lines.push(line_of("", ""));
    lines.push(line_of("Commands:", ""));
    lines.push(line_of("  update", "    Update Python dependencies (uv/poetry)"));
    lines.push(line_of("  setup", "    Install project dependencies (uv/poetry)"));
    lines.push(line_of("  show", "    List installed packages (uv/poetry)"));
    lines.push(line_of("  gh", "    Git home: checkout default branch, pull, fetch all"));
    lines.push(line_of("", ""));
    lines.push(line_of("Use bashers <command> --help", " for more details."));
    lines
}

} // verus!
