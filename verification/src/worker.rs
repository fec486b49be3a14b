//! The life of one log worker as a state machine.
//!
//! A worker follows the log of one pod: it attaches to the log feed, reads
//! lines, forwards those worth showing, and attaches again after a pause
//! when the feed ends or does not start. The driver performs each action and reports what
//! came of it; `worker_step` decides what comes next. Stopping is
//! cooperative: the flags are looked at before a line is handled and
//! before the pause, never in the middle of a read.

use crate::filter::{inside_after, should_show_line, shows, uppercased};
use vstd::prelude::*;

verus! {

/// The seconds that a worker waits before it attaches again.
pub const RECONNECT_DELAY_SECS: u64 = 3;

/// The lines of history that a worker asks for when it attaches.
pub const TAIL_LINES: u64 = 1000;

/// Where a worker stands.
#[derive(Clone, Copy, Debug, PartialEq, Eq, Structural)]
pub enum WorkerPhase {
    /// Not attached; about to look at the flags.
    Idle,
    /// Waiting for the log feed to start.
    Attaching,
    /// Reading lines.
    Streaming { in_traceback: bool },
    /// Waiting for a forwarded line to be taken.
    Sending { in_traceback: bool },
    /// Waiting for the ended feed to be cleaned up.
    Reaping,
    /// Pausing before the next attach.
    Sleeping,
    /// Ended.
    Done,
}

/// What the driver reports to the worker.
#[derive(Clone, Debug)]
pub enum WorkerEvent {
    /// The worker starts, or its pause is over.
    Wake,
    /// The log feed started, with or without a stream to read.
    Attached { has_stream: bool },
    /// The log feed could not be started.
    AttachFailed,
    /// A line was read.
    Line(String),
    /// Reading failed.
    ReadFailed,
    /// The stream ended.
    Ended,
    /// A forwarded line was taken, or the receiver is gone.
    Delivered(bool),
    /// The ended feed was cleaned up.
    Reaped,
}

/// What the worker asks the driver to do next.
#[derive(Clone, Debug)]
pub enum WorkerAction {
    /// Start the log feed and report `Attached` or `AttachFailed`.
    Attach,
    /// Read the next line and report `Line`, `ReadFailed` or `Ended`.
    Read,
    /// Send the line to the dashboard and report `Delivered`.
    Forward(String),
    /// Kill the feed, clean it up and report `Reaped`.
    Kill,
    /// Clean the feed up and report `Reaped`.
    Reap,
    /// Pause for the reconnect delay and report `Wake`.
    Sleep,
    /// Take the pod out of the active set and end.
    Exit,
    /// The event has no meaning in this phase: drop it.
    Ignore,
}

/// A report of the driver, as mathematical values.
pub enum ReportModel {
    Wake,
    Attached { has_stream: bool },
    AttachFailed,
    Line(Seq<char>),
    ReadFailed,
    Ended,
    Delivered(bool),
    Reaped,
}

/// A request to the driver, as mathematical values.
pub enum RequestModel {
    Attach,
    Read,
    Forward(Seq<char>),
    Kill,
    Reap,
    Sleep,
    Exit,
    Ignore,
}

impl View for WorkerEvent {
    type V = ReportModel;

    open spec fn view(&self) -> ReportModel {
        match self {
            WorkerEvent::Wake => ReportModel::Wake,
            WorkerEvent::Attached { has_stream } => ReportModel::Attached {
                has_stream: *has_stream,
            },
            WorkerEvent::AttachFailed => ReportModel::AttachFailed,
            WorkerEvent::Line(text) => ReportModel::Line(text@),
            WorkerEvent::ReadFailed => ReportModel::ReadFailed,
            WorkerEvent::Ended => ReportModel::Ended,
            WorkerEvent::Delivered(taken) => ReportModel::Delivered(*taken),
            WorkerEvent::Reaped => ReportModel::Reaped,
        }
    }
}

impl View for WorkerAction {
    type V = RequestModel;

    open spec fn view(&self) -> RequestModel {
        match self {
            WorkerAction::Attach => RequestModel::Attach,
            WorkerAction::Read => RequestModel::Read,
            WorkerAction::Forward(text) => RequestModel::Forward(text@),
            WorkerAction::Kill => RequestModel::Kill,
            WorkerAction::Reap => RequestModel::Reap,
            WorkerAction::Sleep => RequestModel::Sleep,
            WorkerAction::Exit => RequestModel::Exit,
            WorkerAction::Ignore => RequestModel::Ignore,
        }
    }
}

/// Whether a worker is to stop: the run flag is down, or its pane is gone.
pub open spec fn stops(running: bool, alive: bool) -> bool {
    !running || !alive
}

/// Whether the worker forwards `line` when it is inside a traceback or not:
/// every line, unless only warnings and errors are wanted.
pub open spec fn forwards(line: Seq<char>, inside: bool, err_only: bool) -> bool {
    !err_only || shows(line, uppercased(line), inside)
}

/// The traceback state after `line`: it moves only while the filter is on.
pub open spec fn traceback_after(line: Seq<char>, inside: bool, err_only: bool) -> bool {
    if err_only {
        inside_after(line, inside)
    } else {
        inside
    }
}

/// The phase and request that follow `report` in `phase`, given whether the
/// worker is to stop.
pub open spec fn transition(
    phase: WorkerPhase,
    report: ReportModel,
    stop: bool,
    err_only: bool,
) -> (WorkerPhase, RequestModel) {
    match (phase, report) {
        (WorkerPhase::Idle, ReportModel::Wake) | (WorkerPhase::Sleeping, ReportModel::Wake) => if stop {
            (WorkerPhase::Done, RequestModel::Exit)
        } else {
            (WorkerPhase::Attaching, RequestModel::Attach)
        },
        (WorkerPhase::Attaching, ReportModel::Attached { has_stream }) => if has_stream {
            (WorkerPhase::Streaming { in_traceback: false }, RequestModel::Read)
        } else {
            (WorkerPhase::Reaping, RequestModel::Reap)
        },
        (WorkerPhase::Attaching, ReportModel::AttachFailed) => if stop {
            (WorkerPhase::Done, RequestModel::Exit)
        } else {
            (WorkerPhase::Sleeping, RequestModel::Sleep)
        },
        (WorkerPhase::Streaming { in_traceback }, ReportModel::Line(text)) => if stop {
            (WorkerPhase::Reaping, RequestModel::Kill)
        } else if forwards(text, in_traceback, err_only) {
            (
                WorkerPhase::Sending {
                    in_traceback: traceback_after(text, in_traceback, err_only),
                },
                RequestModel::Forward(text),
            )
        } else {
            (
                WorkerPhase::Streaming {
                    in_traceback: traceback_after(text, in_traceback, err_only),
                },
                RequestModel::Read,
            )
        },
        (WorkerPhase::Streaming { in_traceback }, ReportModel::ReadFailed) => if stop {
            (WorkerPhase::Reaping, RequestModel::Kill)
        } else {
            (WorkerPhase::Reaping, RequestModel::Reap)
        },
        (WorkerPhase::Streaming { in_traceback }, ReportModel::Ended) => (
            WorkerPhase::Reaping,
            RequestModel::Reap,
        ),
        (WorkerPhase::Sending { in_traceback }, ReportModel::Delivered(taken)) => if taken {
            (WorkerPhase::Streaming { in_traceback }, RequestModel::Read)
        } else {
            (WorkerPhase::Reaping, RequestModel::Reap)
        },
        (WorkerPhase::Reaping, ReportModel::Reaped) => if stop {
            (WorkerPhase::Done, RequestModel::Exit)
        } else {
            (WorkerPhase::Sleeping, RequestModel::Sleep)
        },
        _ => (phase, RequestModel::Ignore),
    }
}

/// Whether a worker is to stop: the run flag is down, or its pane was
/// closed.
pub fn should_stop(running: bool, alive: bool) -> (stop: bool)
    ensures
        stop == stops(running, alive),
{
    !running || !alive
}

/// Decides what a worker in `phase` does after `event`. `running` and
/// `alive` are the flags as the driver reads them now.
pub fn worker_step(
    phase: WorkerPhase,
    event: WorkerEvent,
    running: bool,
    alive: bool,
    err_only: bool,
) -> (next: (WorkerPhase, WorkerAction))
    ensures
        (next.0, next.1@) == transition(phase, event@, stops(running, alive), err_only),
{
    let stop = should_stop(running, alive);
    match phase {
        WorkerPhase::Idle | WorkerPhase::Sleeping => match event {
            WorkerEvent::Wake => if stop {
                (WorkerPhase::Done, WorkerAction::Exit)
            } else {
                (WorkerPhase::Attaching, WorkerAction::Attach)
            },
            _ => (phase, WorkerAction::Ignore),
        },
        WorkerPhase::Attaching => match event {
            WorkerEvent::Attached { has_stream } => if has_stream {
                (WorkerPhase::Streaming { in_traceback: false }, WorkerAction::Read)
            } else {
                (WorkerPhase::Reaping, WorkerAction::Reap)
            },
            WorkerEvent::AttachFailed => if stop {
                (WorkerPhase::Done, WorkerAction::Exit)
            } else {
                (WorkerPhase::Sleeping, WorkerAction::Sleep)
            },
            _ => (phase, WorkerAction::Ignore),
        },
        WorkerPhase::Streaming { in_traceback } => match event {
            WorkerEvent::Line(text) => {
                if stop {
                    (WorkerPhase::Reaping, WorkerAction::Kill)
                } else {
                    let mut inside = in_traceback;
                    if err_only && !should_show_line(text.as_str(), &mut inside) {
                        (WorkerPhase::Streaming { in_traceback: inside }, WorkerAction::Read)
                    } else {
                        (WorkerPhase::Sending { in_traceback: inside }, WorkerAction::Forward(text))
                    }
                }
            },
            WorkerEvent::ReadFailed => if stop {
                (WorkerPhase::Reaping, WorkerAction::Kill)
            } else {
                (WorkerPhase::Reaping, WorkerAction::Reap)
            },
            WorkerEvent::Ended => (WorkerPhase::Reaping, WorkerAction::Reap),
            _ => (phase, WorkerAction::Ignore),
        },
        WorkerPhase::Sending { in_traceback } => match event {
            WorkerEvent::Delivered(taken) => if taken {
                (WorkerPhase::Streaming { in_traceback }, WorkerAction::Read)
            } else {
                (WorkerPhase::Reaping, WorkerAction::Reap)
            },
            _ => (phase, WorkerAction::Ignore),
        },
        WorkerPhase::Reaping => match event {
            WorkerEvent::Reaped => if stop {
                (WorkerPhase::Done, WorkerAction::Exit)
            } else {
                (WorkerPhase::Sleeping, WorkerAction::Sleep)
            },
            _ => (phase, WorkerAction::Ignore),
        },
        WorkerPhase::Done => (phase, WorkerAction::Ignore),
    }
}

/// A worker that is told to stop starts nothing new: it never attaches,
/// never forwards a line and never pauses for another round. And a worker
/// that has ended stays ended.
pub proof fn law_stopped_worker_winds_down(phase: WorkerPhase, report: ReportModel, err_only: bool)
    ensures
        !(transition(phase, report, true, err_only).1 is Attach),
        !(transition(phase, report, true, err_only).1 is Forward),
        !(transition(phase, report, true, err_only).1 is Sleep),
        transition(phase, report, true, err_only).1 is Read ==> phase is Attaching || phase is Sending,
        forall|stop: bool|
            transition(WorkerPhase::Done, report, stop, err_only) == (
                WorkerPhase::Done,
                RequestModel::Ignore,
            ),
{
}

/// A worker forwards a line as it read it, and only a line that it has
/// just read.
pub proof fn law_forward_keeps_the_line(
    phase: WorkerPhase,
    report: ReportModel,
    stop: bool,
    err_only: bool,
)
    ensures
        transition(phase, report, stop, err_only).1 matches RequestModel::Forward(text)
            ==> report == ReportModel::Line(text),
{
}

} // verus!
