//! The events that workers and discoveries send to the dashboard.

use crate::pod::{PodInfo, PodModel};
use vstd::prelude::*;

verus! {

/// An event for the dashboard.
#[derive(Clone, Debug)]
pub enum TrackEvent {
    /// A pod wrote a log line.
    LogLine { pod_key: String, text: String },
    /// A discovery found a pod that had no worker yet.
    NewPod { pod: PodInfo, alive: bool },
}

/// An event for the dashboard, as mathematical values.
pub enum EventModel {
    LogLine { pod_key: Seq<char>, text: Seq<char> },
    NewPod { pod: PodModel, alive: bool },
}

impl View for TrackEvent {
    type V = EventModel;

    open spec fn view(&self) -> EventModel {
        match self {
            TrackEvent::LogLine { pod_key, text } => EventModel::LogLine {
                pod_key: pod_key@,
                text: text@,
            },
            TrackEvent::NewPod { pod, alive } => EventModel::NewPod { pod: pod@, alive: *alive },
        }
    }
}

} // verus!
