use bashers::watch::{
    char_segments, compute_char_diff, compute_diff_lines, merge_lines, run, run_cmd, CharStep,
    DiffSegment, LineStep, WatchError,
};

#[test]
fn test_run_empty_command_errors() {
    let err = run(&vec![], 1, false).unwrap_err();
    assert!(err.message().contains("empty"));
}

#[test]
fn test_run_cmd_strips_trailing_newline() {
    let output = run_cmd("hello\n", "");
    assert_eq!(output, "hello");
}

#[test]
fn test_run_cmd_no_trailing_newline() {
    let output = run_cmd("hello", "");
    assert_eq!(output, "hello");
}

#[test]
fn test_run_cmd_with_args() {
    let output = run_cmd("a b", "");
    assert_eq!(output, "a b");
}

#[test]
fn test_compute_diff_lines_identical() {
    let result = compute_diff_lines("hello\nworld", "hello\nworld");
    assert_eq!(result.len(), 2);
    assert_eq!(result[0].segments, vec![DiffSegment::Same("hello".to_string())]);
    assert_eq!(result[1].segments, vec![DiffSegment::Same("world".to_string())]);
}

#[test]
fn test_compute_diff_lines_added_line() {
    let result = compute_diff_lines("hello", "hello\nnew");
    assert_eq!(result.len(), 2);
    assert_eq!(result[1].segments, vec![DiffSegment::Added("new".to_string())]);
}

#[test]
fn test_compute_diff_lines_char_change() {
    let result = compute_diff_lines("count: 5", "count: 10");
    assert_eq!(result.len(), 1);
    assert!(result[0].segments.iter().any(|s| matches!(s, DiffSegment::Added(_))));
}

#[test]
fn test_diff_segment_equality() {
    assert_eq!(DiffSegment::Same("a".into()), DiffSegment::Same("a".into()));
    assert_ne!(DiffSegment::Same("a".into()), DiffSegment::Added("a".into()));
}

#[test]
fn a_plan_names_the_program_and_its_arguments() {
    let command = vec!["ls".to_string(), "-l".to_string(), "/tmp".to_string()];
    let plan = run(&command, 5, false).unwrap();
    assert_eq!(plan.program, "ls");
    assert_eq!(plan.args, vec!["-l", "/tmp"]);
    assert_eq!(plan.interval_secs, 5);
    assert!(plan.highlight);
    let raw = run(&vec!["date".to_string()], 1, true).unwrap();
    assert!(raw.args.is_empty());
    assert!(!raw.highlight);
    assert_eq!(run(&vec![], 2, true).unwrap_err(), WatchError::EmptyCommand);
}

#[test]
fn the_error_output_follows_the_output() {
    assert_eq!(run_cmd("out\n", "err\n"), "out\nerr");
    assert_eq!(run_cmd("", ""), "");
    assert_eq!(run_cmd("\n", ""), "");
    assert_eq!(run_cmd("a\n\n", ""), "a\n");
    assert_eq!(run_cmd("a", "b"), "ab");
}

#[test]
fn characters_are_grouped_into_stretches() {
    let same = |t: &str| DiffSegment::Same(t.to_string());
    let added = |t: &str| DiffSegment::Added(t.to_string());
    let steps = vec![
        CharStep::Both('a', 'a'),
        CharStep::Both('b', 'b'),
        CharStep::Left('x'),
        CharStep::Right('1'),
        CharStep::Right('2'),
        CharStep::Both('c', 'c'),
        CharStep::Right('3'),
    ];
    assert_eq!(char_segments(&steps).segments, vec![same("ab"), added("12"), same("c"), added("3")]);
    assert_eq!(char_segments(&vec![]).segments, vec![]);
    assert_eq!(char_segments(&vec![CharStep::Left('x')]).segments, vec![]);
    assert_eq!(char_segments(&vec![CharStep::Right('x')]).segments, vec![added("x")]);
}

#[test]
fn a_changed_line_is_compared_with_the_line_it_replaces() {
    let same = |t: &str| DiffSegment::Same(t.to_string());
    let added = |t: &str| DiffSegment::Added(t.to_string());
    assert_eq!(compute_char_diff("count: 5", "count: 10").segments, vec![same("count: "), added("10")]);
    assert_eq!(compute_char_diff("same", "same").segments, vec![same("same")]);
    assert_eq!(compute_char_diff("", "new").segments, vec![added("new")]);
    assert_eq!(compute_char_diff("old", "").segments, vec![]);
    let steps = vec![
        LineStep::Both("head".to_string(), "head".to_string()),
        LineStep::Left("one".to_string()),
        LineStep::Left("two".to_string()),
        LineStep::Right("two!".to_string()),
        LineStep::Right("one?".to_string()),
        LineStep::Right("three".to_string()),
    ];
    let lines = merge_lines(&steps);
    assert_eq!(lines.len(), 4);
    assert_eq!(lines[0].segments, vec![same("head")]);
    assert_eq!(lines[1].segments, vec![same("two"), added("!")]);
    assert_eq!(lines[2].segments, vec![same("one"), added("?")]);
    assert_eq!(lines[3].segments, vec![added("three")]);
    let changed = compute_diff_lines("a\nb\nc", "a\nB\nc");
    assert_eq!(changed.len(), 3);
    assert_eq!(changed[1].segments, vec![added("B")]);
    assert!(compute_diff_lines("", "").is_empty());
}
