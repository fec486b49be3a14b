use bashers::filter::{filter_line, has_severity, should_show_line};
use bashers::worker::{should_stop, worker_step, WorkerAction, WorkerEvent, WorkerPhase};

fn step(phase: WorkerPhase, event: WorkerEvent, live: bool, err_only: bool) -> (WorkerPhase, String) {
    let (next, action) = worker_step(phase, event, live, true, err_only);
    (next, format!("{action:?}"))
}

#[test]
fn the_filter_shows_a_traceback_and_hides_the_line_after_it() {
    let mut in_traceback = false;
    let lines = [
        "Traceback (most recent call last):",
        "  File x, line 1",
        "ValueError: bad",
        "INFO ok",
    ];
    let shown: Vec<bool> = lines.iter().map(|l| should_show_line(l, &mut in_traceback)).collect();
    assert_eq!(shown, vec![true, true, true, false]);
    assert!(!in_traceback);
}

#[test]
fn the_filter_finds_severities_in_any_case() {
    let mut in_traceback = false;
    assert!(should_show_line("a warning here", &mut in_traceback));
    assert!(should_show_line("Critical: disk", &mut in_traceback));
    assert!(should_show_line("fAtAl", &mut in_traceback));
    assert!(should_show_line("stderr", &mut in_traceback) == false);
    assert!(should_show_line("xERRORx", &mut in_traceback));
    assert!(!should_show_line("traceback (most recent call last)", &mut in_traceback));
    assert!(!in_traceback);
}

#[test]
fn a_traceback_marker_inside_a_traceback_keeps_the_state() {
    let mut in_traceback = true;
    assert!(should_show_line("Traceback (most recent call last):", &mut in_traceback));
    assert!(in_traceback);
    assert!(should_show_line("\tat frame", &mut in_traceback));
    assert!(in_traceback);
    assert!(should_show_line("", &mut in_traceback));
    assert!(!in_traceback);
    assert!(!should_show_line("", &mut in_traceback));
}

#[test]
fn the_filter_step_reads_the_upper_case_form_that_it_is_given() {
    let mut outside = false;
    assert!(filter_line("quiet", "ERROR", &mut outside));
    assert!(!filter_line("error", "quiet", &mut outside));
    assert!(!outside);
    assert!(has_severity("A WARNING"));
    assert!(has_severity("FATAL"));
    assert!(!has_severity("warning"));
    assert!(!has_severity(""));
}

#[test]
fn a_worker_attaches_reads_and_forwards() {
    assert_eq!(
        step(WorkerPhase::Idle, WorkerEvent::Wake, true, false),
        (WorkerPhase::Attaching, "Attach".to_string())
    );
    assert_eq!(
        step(WorkerPhase::Attaching, WorkerEvent::Attached { has_stream: true }, true, false),
        (WorkerPhase::Streaming { in_traceback: false }, "Read".to_string())
    );
    let (phase, action) = worker_step(
        WorkerPhase::Streaming { in_traceback: false },
        WorkerEvent::Line("INFO ok".to_string()),
        true,
        true,
        false,
    );
    assert_eq!(phase, WorkerPhase::Sending { in_traceback: false });
    match action {
        WorkerAction::Forward(text) => assert_eq!(text, "INFO ok"),
        _ => panic!("a line is forwarded"),
    }
    assert_eq!(
        step(WorkerPhase::Sending { in_traceback: false }, WorkerEvent::Delivered(true), true, false),
        (WorkerPhase::Streaming { in_traceback: false }, "Read".to_string())
    );
}

#[test]
fn a_filtering_worker_skips_quiet_lines_and_follows_tracebacks() {
    let quiet = step(
        WorkerPhase::Streaming { in_traceback: false },
        WorkerEvent::Line("INFO ok".to_string()),
        true,
        true,
    );
    assert_eq!(quiet, (WorkerPhase::Streaming { in_traceback: false }, "Read".to_string()));
    let (phase, action) = worker_step(
        WorkerPhase::Streaming { in_traceback: false },
        WorkerEvent::Line("Traceback (most recent call last):".to_string()),
        true,
        true,
        true,
    );
    assert_eq!(phase, WorkerPhase::Sending { in_traceback: true });
    assert!(matches!(action, WorkerAction::Forward(_)));
    let (phase, action) = worker_step(
        WorkerPhase::Streaming { in_traceback: true },
        WorkerEvent::Line("ValueError: bad".to_string()),
        true,
        true,
        true,
    );
    assert_eq!(phase, WorkerPhase::Sending { in_traceback: false });
    assert!(matches!(action, WorkerAction::Forward(_)));
    let (phase, _) = worker_step(
        WorkerPhase::Streaming { in_traceback: true },
        WorkerEvent::Line("plain".to_string()),
        true,
        true,
        false,
    );
    assert_eq!(phase, WorkerPhase::Sending { in_traceback: true });
}

#[test]
fn a_feed_that_ends_is_cleaned_up_and_tried_again_after_a_pause() {
    for event in [WorkerEvent::Ended, WorkerEvent::ReadFailed] {
        assert_eq!(
            step(WorkerPhase::Streaming { in_traceback: true }, event, true, false),
            (WorkerPhase::Reaping, "Reap".to_string())
        );
    }
    assert_eq!(
        step(WorkerPhase::Attaching, WorkerEvent::Attached { has_stream: false }, true, false),
        (WorkerPhase::Reaping, "Reap".to_string())
    );
    assert_eq!(
        step(WorkerPhase::Sending { in_traceback: false }, WorkerEvent::Delivered(false), true, false),
        (WorkerPhase::Reaping, "Reap".to_string())
    );
    assert_eq!(
        step(WorkerPhase::Reaping, WorkerEvent::Reaped, true, false),
        (WorkerPhase::Sleeping, "Sleep".to_string())
    );
    assert_eq!(
        step(WorkerPhase::Sleeping, WorkerEvent::Wake, true, false),
        (WorkerPhase::Attaching, "Attach".to_string())
    );
}

#[test]
fn a_feed_that_cannot_start_is_tried_again_after_a_pause() {
    assert_eq!(
        step(WorkerPhase::Attaching, WorkerEvent::AttachFailed, true, false),
        (WorkerPhase::Sleeping, "Sleep".to_string())
    );
    let (phase, action) =
        worker_step(WorkerPhase::Attaching, WorkerEvent::AttachFailed, false, true, false);
    assert_eq!(phase, WorkerPhase::Done);
    assert!(matches!(action, WorkerAction::Exit));
}

#[test]
fn a_stopped_worker_winds_down() {
    for (running, alive) in [(false, true), (true, false), (false, false)] {
        assert!(should_stop(running, alive));
        let run = |phase: WorkerPhase, event: WorkerEvent| {
            let (next, action) = worker_step(phase, event, running, alive, false);
            (next, format!("{action:?}"))
        };
        assert_eq!(run(WorkerPhase::Idle, WorkerEvent::Wake), (WorkerPhase::Done, "Exit".to_string()));
        assert_eq!(
            run(WorkerPhase::Sleeping, WorkerEvent::Wake),
            (WorkerPhase::Done, "Exit".to_string())
        );
        assert_eq!(
            run(WorkerPhase::Streaming { in_traceback: false }, WorkerEvent::Line("ERROR".to_string())),
            (WorkerPhase::Reaping, "Kill".to_string())
        );
        assert_eq!(
            run(WorkerPhase::Streaming { in_traceback: false }, WorkerEvent::ReadFailed),
            (WorkerPhase::Reaping, "Kill".to_string())
        );
        assert_eq!(
            run(WorkerPhase::Reaping, WorkerEvent::Reaped),
            (WorkerPhase::Done, "Exit".to_string())
        );
    }
    assert!(!should_stop(true, true));
}

#[test]
fn an_event_without_meaning_is_dropped() {
    assert_eq!(
        step(WorkerPhase::Idle, WorkerEvent::Reaped, true, false),
        (WorkerPhase::Idle, "Ignore".to_string())
    );
    assert_eq!(
        step(WorkerPhase::Done, WorkerEvent::Wake, true, false),
        (WorkerPhase::Done, "Ignore".to_string())
    );
    assert_eq!(
        step(WorkerPhase::Reaping, WorkerEvent::Line("x".to_string()), true, false),
        (WorkerPhase::Reaping, "Ignore".to_string())
    );
    assert_eq!(
        step(WorkerPhase::Sending { in_traceback: true }, WorkerEvent::Ended, true, false),
        (WorkerPhase::Sending { in_traceback: true }, "Ignore".to_string())
    );
    assert_eq!(
        step(WorkerPhase::Attaching, WorkerEvent::Wake, true, false),
        (WorkerPhase::Attaching, "Ignore".to_string())
    );
}
