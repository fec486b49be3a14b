//! The seams of the dashboard: where pods come from, how a pattern becomes
//! a matcher, and how a log worker is started. A driver implements them
//! for the cluster it talks to.

use crate::discovery::DiscoveryError;
use crate::pattern::{pod_pattern_regex, regex_valid, source_for, Matcher};
use crate::pod::PodInfo;
use vstd::prelude::*;

verus! {

/// Finds the pods that match a pattern list.
pub trait PodDiscovery {
    fn find_matching_pods(&self, regexes: &Vec<Matcher>) -> Result<Vec<PodInfo>, DiscoveryError>;
}

/// What a log worker is started with.
#[derive(Clone, Copy, Debug, PartialEq, Eq, Structural)]
pub struct LogStreamSpawnOpts {
    /// Forward warnings, errors and tracebacks only.
    pub err_only: bool,
    /// The run flag as it is now.
    pub running: bool,
    /// The liveness flag of the pod's pane as it is now.
    pub alive: bool,
}

/// Starts the log worker of a pod.
pub trait LogStreamSpawner {
    fn spawn(&self, pod: &PodInfo, opts: LogStreamSpawnOpts);
}

/// Turns the user's pattern into a matcher.
pub trait PatternToRegex {
    fn build(&self, pattern: &str) -> Matcher;
}

/// Patterns as the pod tracker reads them: a regular expression, or its
/// text taken literally where it is none.
pub struct KubePatternToRegex;

impl PatternToRegex for KubePatternToRegex {
    fn build(&self, pattern: &str) -> (m: Matcher)
        ensures
            m@.source == source_for(pattern@, regex_valid(pattern@)),
            m@.literal == !regex_valid(pattern@),
    {
        pod_pattern_regex(pattern)
    }
}

} // verus!
