//! Running a command over and over and showing what changed in its output.

use crate::text::{pop_char, push_char};
use vstd::string::StringExecFns;
use vstd::prelude::*;

verus! {

/// A stretch of a line that stayed, or that is new.
#[derive(Debug, Clone, PartialEq, Eq)]
pub enum DiffSegment {
    Same(String),
    Added(String),
}

/// A line of output, cut into the stretches that stayed and that are new.
#[derive(Debug, Clone, PartialEq, Eq)]
pub struct DiffLine {
    pub segments: Vec<DiffSegment>,
}

/// Why nothing can be watched.
#[derive(Debug, Clone, Copy, PartialEq, Eq, Structural)]
pub enum WatchError {
    /// No command was given.
    EmptyCommand,
}

impl WatchError {
    /// The message for the user.
    pub fn message(&self) -> (text: &'static str)
        ensures
            text@ == "command cannot be empty"@,
    {
        "command cannot be empty"
    }
}

/// What is run, and how often.
#[derive(Debug, Clone)]
pub struct WatchPlan {
    pub program: String,
    pub args: Vec<String>,
    pub interval_secs: u64,
    /// Whether changes are highlighted: not before the second run.
    pub highlight: bool,
}

/// Plans the watching of `command`, whose first word is the program: it is
/// run every `interval_secs` seconds, and changes are highlighted unless
/// `no_diff` is set. An empty command is an error.
pub fn run(command: &Vec<String>, interval_secs: u64, no_diff: bool) -> (plan: Result<
    WatchPlan,
    WatchError,
>)
    ensures
        match plan {
            Ok(plan) => {
                &&& command@.len() > 0
                &&& plan.program@ == command@[0]@
                &&& plan.args@.len() == command@.len() - 1
                &&& forall|i: int|
                    0 <= i < plan.args@.len() ==> (#[trigger] plan.args@[i])@ == command@[i + 1]@
                &&& plan.interval_secs == interval_secs
                &&& plan.highlight == !no_diff
            },
            Err(error) => command@.len() == 0 && error == WatchError::EmptyCommand,
        },
{
    if command.len() == 0 {
        return Err(WatchError::EmptyCommand);
    }
    let mut args: Vec<String> = Vec::new();
    let mut i: usize = 1;
    while i < command.len()
        invariant
            1 <= i <= command.len(),
            args@.len() == i - 1,
            forall|k: int| 0 <= k < args@.len() ==> (#[trigger] args@[k])@ == command@[k + 1]@,
        decreases command.len() - i,
    {
        args.push(command[i].clone());
        i += 1;
    }
    Ok(WatchPlan { program: command[0].clone(), args, interval_secs, highlight: !no_diff })
}

/// A step of the comparison of two texts, line by line.
#[derive(Debug, Clone, PartialEq, Eq)]
pub enum LineStep {
    /// A line of the old text only.
    Left(String),
    /// A line of both texts.
    Both(String, String),
    /// A line of the new text only.
    Right(String),
}

/// A step of the comparison of two lines, character by character.
#[derive(Debug, Clone, Copy, PartialEq, Eq, Structural)]
pub enum CharStep {
    /// A character of the old line only.
    Left(char),
    /// A character of both lines.
    Both(char, char),
    /// A character of the new line only.
    Right(char),
}

/// A step of the comparison of two texts, as mathematical values.
pub enum LineStepModel {
    Left(Seq<char>),
    Both(Seq<char>, Seq<char>),
    Right(Seq<char>),
}

impl View for LineStep {
    type V = LineStepModel;

    open spec fn view(&self) -> LineStepModel {
        match self {
            LineStep::Left(line) => LineStepModel::Left(line@),
            LineStep::Both(old, new) => LineStepModel::Both(old@, new@),
            LineStep::Right(line) => LineStepModel::Right(line@),
        }
    }
}

/// A stretch of a line, as mathematical values.
pub enum SegmentModel {
    Same(Seq<char>),
    Added(Seq<char>),
}

impl View for DiffSegment {
    type V = SegmentModel;

    open spec fn view(&self) -> SegmentModel {
        match self {
            DiffSegment::Same(text) => SegmentModel::Same(text@),
            DiffSegment::Added(text) => SegmentModel::Added(text@),
        }
    }
}

/// The views of `segments`.
pub open spec fn segments_view(segments: Seq<DiffSegment>) -> Seq<SegmentModel> {
    Seq::new(segments.len(), |i: int| segments[i]@)
}

impl View for DiffLine {
    type V = Seq<SegmentModel>;

    open spec fn view(&self) -> Seq<SegmentModel> {
        segments_view(self.segments@)
    }
}

/// The views of `lines`.
pub open spec fn lines_view(lines: Seq<DiffLine>) -> Seq<Seq<SegmentModel>> {
    Seq::new(lines.len(), |i: int| lines[i]@)
}

/// The views of `steps`.
pub open spec fn steps_view(steps: Seq<LineStep>) -> Seq<LineStepModel> {
    Seq::new(steps.len(), |i: int| steps[i]@)
}

/// The steps that `diff::lines` finds between two texts.
pub uninterp spec fn line_diff(left: Seq<char>, right: Seq<char>) -> Seq<LineStepModel>;

/// The steps that `diff::chars` finds between two lines.
pub uninterp spec fn char_diff(left: Seq<char>, right: Seq<char>) -> Seq<CharStep>;

/// `diff::lines`: compares two texts line by line. Its working memory
/// grows with the product of the two line counts.
#[verifier::external_body]
fn diff_lines(left: &str, right: &str) -> (steps: Vec<LineStep>)
    ensures
        steps_view(steps@) == line_diff(left@, right@),
{
    diff::lines(left, right).into_iter().map(|step| match step {
        diff::Result::Left(l) => LineStep::Left(l.to_string()),
        diff::Result::Both(l, r) => LineStep::Both(l.to_string(), r.to_string()),
        diff::Result::Right(r) => LineStep::Right(r.to_string()),
    }).collect()
}

/// `diff::chars`: compares two lines character by character. Its working
/// memory grows with the product of the two lengths.
#[verifier::external_body]
fn diff_chars(left: &str, right: &str) -> (steps: Vec<CharStep>)
    ensures
        steps@ == char_diff(left@, right@),
{
    diff::chars(left, right).into_iter().map(|step| match step {
        diff::Result::Left(l) => CharStep::Left(l),
        diff::Result::Both(l, r) => CharStep::Both(l, r),
        diff::Result::Right(r) => CharStep::Right(r),
    }).collect()
}

/// The segments so far with the stretch `text` closed, if it holds
/// anything.
pub open spec fn closed_same(done: Seq<SegmentModel>, text: Seq<char>) -> Seq<SegmentModel> {
    if text.len() > 0 {
        done.push(SegmentModel::Same(text))
    } else {
        done
    }
}

/// The segments so far with the new stretch `text` closed, if it holds
/// anything.
pub open spec fn closed_added(done: Seq<SegmentModel>, text: Seq<char>) -> Seq<SegmentModel> {
    if text.len() > 0 {
        done.push(SegmentModel::Added(text))
    } else {
        done
    }
}

/// The segments of a line from the steps `steps[i..]`, with the segments
/// `done` closed and the stretches `same` and `added` open. Characters of
/// both lines go to a stretch that stayed, characters of the new line to a
/// new stretch, and characters of the old line are left out.
pub open spec fn segments_from(
    steps: Seq<CharStep>,
    i: int,
    done: Seq<SegmentModel>,
    same: Seq<char>,
    added: Seq<char>,
) -> Seq<SegmentModel>
    decreases steps.len() - i,
{
    if 0 <= i < steps.len() {
        match steps[i] {
            CharStep::Left(_) => segments_from(steps, i + 1, done, same, added),
            CharStep::Both(c, _) => segments_from(
                steps,
                i + 1,
                closed_added(done, added),
                same.push(c),
                Seq::<char>::empty(),
            ),
            CharStep::Right(c) => segments_from(
                steps,
                i + 1,
                closed_same(done, same),
                Seq::<char>::empty(),
                added.push(c),
            ),
        }
    } else {
        closed_added(closed_same(done, same), added)
    }
}

/// The segments of the new line, from the steps of its comparison with
/// the old line.
pub open spec fn segments_of(steps: Seq<CharStep>) -> Seq<SegmentModel> {
    segments_from(
        steps,
        0,
        Seq::<SegmentModel>::empty(),
        Seq::<char>::empty(),
        Seq::<char>::empty(),
    )
}

/// Cuts the new line into the stretches that stayed and that are new, from
/// the steps of its comparison with the old line.
pub fn char_segments(steps: &Vec<CharStep>) -> (line: DiffLine)
    ensures
        line@ == segments_of(steps@),
{
    let mut segments: Vec<DiffSegment> = Vec::new();
    let mut normal = String::new();
    let mut added = String::new();
    let mut i: usize = 0;
    assert(segments_view(segments@) =~= Seq::<SegmentModel>::empty());
    while i < steps.len()
        invariant
            i <= steps.len(),
            segments_of(steps@) == segments_from(
                steps@,
                i as int,
                segments_view(segments@),
                normal@,
                added@,
            ),
        decreases steps.len() - i,
    {
        let ghost done = segments_view(segments@);
        match steps[i] {
            CharStep::Left(_) => {},
            CharStep::Both(c, _) => {
                if added.as_str().unicode_len() > 0 {
                    segments.push(DiffSegment::Added(added));
                    assert(segments_view(segments@) =~= done.push(SegmentModel::Added(added@)));
                    added = String::new();
                }
                assert(added@ =~= Seq::<char>::empty());
                push_char(&mut normal, c);
            },
            CharStep::Right(c) => {
                if normal.as_str().unicode_len() > 0 {
                    segments.push(DiffSegment::Same(normal));
                    assert(segments_view(segments@) =~= done.push(SegmentModel::Same(normal@)));
                    normal = String::new();
                }
                assert(normal@ =~= Seq::<char>::empty());
                push_char(&mut added, c);
            },
        }
        i += 1;
    }
    if normal.as_str().unicode_len() > 0 {
        segments.push(DiffSegment::Same(normal));
    }
    if added.as_str().unicode_len() > 0 {
        segments.push(DiffSegment::Added(added));
    }
    DiffLine { segments }
}

/// Cuts `curr_line` into the stretches that it shares with `prev_line` and
/// those that are new.
pub fn compute_char_diff(prev_line: &str, curr_line: &str) -> (line: DiffLine)
    ensures
        line@ == segments_of(char_diff(prev_line@, curr_line@)),
{
    let steps = diff_chars(prev_line, curr_line);
    char_segments(&steps)
}

/// The lines of the new text from the steps `steps[i..]`, with the lines
/// `pending` of the old text waiting for a new line to be compared with.
/// A line of both texts is compared with itself; a new line is compared
/// with the old line that waits last, or is new as a whole where none
/// waits.
pub open spec fn merged_from(steps: Seq<LineStepModel>, i: int, pending: Seq<Seq<char>>) -> Seq<
    Seq<SegmentModel>,
>
    decreases steps.len() - i,
{
    if 0 <= i < steps.len() {
        match steps[i] {
            LineStepModel::Left(line) => merged_from(steps, i + 1, pending.push(line)),
            LineStepModel::Both(old, new) => seq![segments_of(char_diff(old, new))] + merged_from(
                steps,
                i + 1,
                pending,
            ),
            LineStepModel::Right(new) => if pending.len() > 0 {
                seq![segments_of(char_diff(pending.last(), new))] + merged_from(
                    steps,
                    i + 1,
                    pending.drop_last(),
                )
            } else {
                seq![seq![SegmentModel::Added(new)]] + merged_from(steps, i + 1, pending)
            },
        }
    } else {
        Seq::<Seq<SegmentModel>>::empty()
    }
}

/// The texts of `lines`.
pub open spec fn pending_view(lines: Seq<String>) -> Seq<Seq<char>> {
    Seq::new(lines.len(), |i: int| lines[i]@)
}

/// The lines of the new text with their changes marked, from the steps of
/// the comparison of the two texts.
pub fn merge_lines(steps: &Vec<LineStep>) -> (lines: Vec<DiffLine>)
    ensures
        lines_view(lines@) == merged_from(steps_view(steps@), 0, Seq::<Seq<char>>::empty()),
{
    let ghost all = steps_view(steps@);
    let mut output: Vec<DiffLine> = Vec::new();
    let mut pending: Vec<String> = Vec::new();
    let mut i: usize = 0;
    assert(pending_view(pending@) =~= Seq::<Seq<char>>::empty());
    while i < steps.len()
        invariant
            i <= steps.len(),
            all == steps_view(steps@),
            merged_from(all, 0, Seq::<Seq<char>>::empty()) == lines_view(output@) + merged_from(
                all,
                i as int,
                pending_view(pending@),
            ),
        decreases steps.len() - i,
    {
        let ghost waiting = pending_view(pending@);
        match &steps[i] {
            LineStep::Left(line) => {
                pending.push(line.clone());
                assert(pending_view(pending@) =~= waiting.push(line@));
            },
            LineStep::Both(old, new) => {
                let made = compute_char_diff(old.as_str(), new.as_str());
                output.push(made);
            },
            LineStep::Right(new) => {
                let made = match pending.pop() {
                    Some(old) => {
                        assert(pending_view(pending@) =~= waiting.drop_last());
                        compute_char_diff(old.as_str(), new.as_str())
                    },
                    None => {
                        let mut segments: Vec<DiffSegment> = Vec::new();
                        segments.push(DiffSegment::Added(new.clone()));
                        assert(segments_view(segments@) =~= seq![SegmentModel::Added(new@)]);
                        DiffLine { segments }
                    },
                };
                output.push(made);
            },
        }
        i += 1;
    }
    output
}

/// The lines of `curr` with what changed against `prev` marked: each line
/// is cut into the stretches that stayed and that are new.
pub fn compute_diff_lines(prev: &str, curr: &str) -> (lines: Vec<DiffLine>)
    ensures
        lines_view(lines@) == merged_from(line_diff(prev@, curr@), 0, Seq::<Seq<char>>::empty()),
{
    let steps = diff_lines(prev, curr);
    merge_lines(&steps)
}

/// What a run of the command wrote: its output, then its error output,
/// without one line feed at the very end.
pub open spec fn shown_output(stdout: Seq<char>, stderr: Seq<char>) -> Seq<char> {
    let whole = stdout + stderr;
    if whole.len() > 0 && whole.last() == '\n' {
        whole.drop_last()
    } else {
        whole
    }
}

/// The text to show for a run of the command that wrote `stdout` and
/// `stderr`.
pub fn run_cmd(stdout: &str, stderr: &str) -> (shown: String)
    ensures
        shown@ == shown_output(stdout@, stderr@),
{
    let mut shown = String::from_str(stdout);
    shown.append(stderr);
    match pop_char(&mut shown) {
        Some(last) => {
            if last != '\n' {
                push_char(&mut shown, last);
            }
        },
        None => {},
    }
    shown
}

} // verus!
