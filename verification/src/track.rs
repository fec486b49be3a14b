//! The entry into following pods: what to do once the first pod listing is
//! in, and when the periodic discovery runs.

use crate::discovery::{
    discovery_of, find_matching_pods, listing_error, DiscoveryError, DiscoveryErrorModel,
    ListOutcome,
};
use crate::pattern::{pod_pattern_regex, regex_valid, source_for, Matcher};
use crate::pod::{pods_of, PodInfo, PodModel};
use vstd::prelude::*;
use vstd::string::StringExecFns;

verus! {

/// The seconds between two periodic discoveries.
pub const POLL_INTERVAL_SECS: u64 = 5;

/// The seconds that warnings stay on screen before the dashboard covers
/// them.
pub const WARNING_DELAY_SECS: u64 = 2;

/// How the pods are shown.
#[derive(Clone, Copy, Debug, PartialEq, Eq, Structural)]
pub enum RunMode {
    /// No pattern matched a pod: there is nothing to follow.
    Nothing,
    /// Print the lines of all pods in one stream.
    Simple,
    /// Show the dashboard, after a pause of so many seconds.
    Dashboard { delay_secs: u64 },
}

/// What to do once the first discovery is in.
#[derive(Debug)]
pub struct RunPlan {
    /// The compiled patterns, in the user's order.
    pub regexes: Vec<Matcher>,
    /// The pods to follow.
    pub pods: Vec<PodInfo>,
    /// The indices of the patterns that matched no pod: each gets a
    /// warning.
    pub unmatched: Vec<usize>,
    pub mode: RunMode,
    pub err_only: bool,
}

/// Whether one of `pods[k..]` was found by pattern `index`.
pub open spec fn found_by(pods: Seq<PodModel>, index: usize, k: int) -> bool
    decreases pods.len() - k,
{
    if 0 <= k < pods.len() {
        pods[k].pattern_idx == index || found_by(pods, index, k + 1)
    } else {
        false
    }
}

/// The indices from `i` up to `count` of the patterns that found no pod.
pub open spec fn unmatched_from(pods: Seq<PodModel>, count: int, i: int) -> Seq<usize>
    decreases count - i,
{
    if 0 <= i < count {
        if found_by(pods, i as usize, 0) {
            unmatched_from(pods, count, i + 1)
        } else {
            seq![i as usize] + unmatched_from(pods, count, i + 1)
        }
    } else {
        Seq::<usize>::empty()
    }
}

/// How the pods are shown: not at all where none was found; else in the
/// plain stream if that was asked for; else on the dashboard, which waits
/// where there are warnings to read.
pub open spec fn mode_for(pod_count: int, unmatched_count: int, simple: bool) -> RunMode {
    if pod_count == 0 {
        RunMode::Nothing
    } else if simple {
        RunMode::Simple
    } else {
        RunMode::Dashboard {
            delay_secs: if unmatched_count > 0 {
                WARNING_DELAY_SECS
            } else {
                0
            },
        }
    }
}

/// The sources of the matchers for `patterns`.
pub open spec fn compiled(patterns: Seq<String>) -> Seq<Seq<char>> {
    Seq::new(patterns.len(), |i: int| source_for(patterns[i]@, regex_valid(patterns[i]@)))
}

/// Compiles each of `patterns`, in order.
pub fn compile_patterns(patterns: &Vec<String>) -> (regexes: Vec<Matcher>)
    ensures
        regexes@.len() == patterns@.len(),
        forall|i: int|
            0 <= i < patterns@.len() ==> (#[trigger] regexes@[i])@.source == compiled(
                patterns@,
            )[i] && regexes@[i]@.literal == !regex_valid(patterns@[i]@),
{
    let mut regexes: Vec<Matcher> = Vec::new();
    let mut i: usize = 0;
    while i < patterns.len()
        invariant
            i <= patterns.len(),
            regexes@.len() == i,
            forall|k: int|
                0 <= k < i ==> (#[trigger] regexes@[k])@.source == compiled(patterns@)[k]
                    && regexes@[k]@.literal == !regex_valid(patterns@[k]@),
        decreases patterns.len() - i,
    {
        regexes.push(pod_pattern_regex(patterns[i].as_str()));
        i += 1;
    }
    regexes
}

/// Whether one of `pods` was found by pattern `index`.
pub fn has_match(pods: &Vec<PodInfo>, index: usize) -> (found: bool)
    ensures
        found == found_by(pods_of(pods@), index, 0),
{
    let mut k: usize = 0;
    while k < pods.len()
        invariant
            k <= pods.len(),
            found_by(pods_of(pods@), index, 0) == found_by(pods_of(pods@), index, k as int),
        decreases pods.len() - k,
    {
        if pods[k].pattern_idx == index {
            return true;
        }
        k += 1;
    }
    false
}

/// The indices of the first `count` patterns that found none of `pods`.
pub fn unmatched_patterns(pods: &Vec<PodInfo>, count: usize) -> (unmatched: Vec<usize>)
    ensures
        unmatched@ == unmatched_from(pods_of(pods@), count as int, 0),
{
    let ghost all = pods_of(pods@);
    let mut unmatched: Vec<usize> = Vec::new();
    let mut i: usize = 0;
    while i < count
        invariant
            i <= count,
            all == pods_of(pods@),
            unmatched_from(all, count as int, 0) == unmatched@ + unmatched_from(
                all,
                count as int,
                i as int,
            ),
        decreases count - i,
    {
        if !has_match(pods, i) {
            unmatched.push(i);
        }
        i += 1;
    }
    unmatched
}

/// Plans the following of pods from the user's `patterns` and the outcome
/// of the first pod listing. A listing that did not start, timed out or
/// failed is an error. Else the plan names the pods to follow, the patterns that found
/// none, and how the pods are shown.
pub fn run(patterns: &Vec<String>, err_only: bool, simple: bool, outcome: &ListOutcome) -> (plan:
    Result<RunPlan, DiscoveryError>)
    ensures
        match plan {
            Ok(plan) => {
                &&& plan.regexes@.len() == patterns@.len()
                &&& forall|i: int|
                    0 <= i < patterns@.len() ==> (#[trigger] plan.regexes@[i])@.source
                        == compiled(patterns@)[i]
                &&& discovery_of(*outcome, plan.regexes@) == Ok::<
                    Seq<PodModel>,
                    DiscoveryErrorModel,
                >(pods_of(plan.pods@))
                &&& plan.unmatched@ == unmatched_from(
                    pods_of(plan.pods@),
                    patterns@.len() as int,
                    0,
                )
                &&& plan.mode == mode_for(
                    plan.pods@.len() as int,
                    plan.unmatched@.len() as int,
                    simple,
                )
                &&& plan.err_only == err_only
            },
            Err(error) => listing_error(*outcome) == Some(error@),
        },
{
    let regexes = compile_patterns(patterns);
    let pods = match find_matching_pods(outcome, &regexes) {
        Ok(pods) => pods,
        Err(error) => {
            return Err(error);
        },
    };
    let unmatched = unmatched_patterns(&pods, patterns.len());
    let mode = if pods.len() == 0 {
        RunMode::Nothing
    } else if simple {
        RunMode::Simple
    } else {
        RunMode::Dashboard { delay_secs: if unmatched.len() > 0 { WARNING_DELAY_SECS } else { 0 } }
    };
    Ok(RunPlan { regexes, pods, unmatched, mode, err_only })
}

/// The warning for a pattern that found no pod.
pub open spec fn no_match_warning_of(pattern: Seq<char>, use_color: bool) -> Seq<char> {
    if use_color {
        "\n\x1b[93m\x1b[1m\u{26a0}  No pods found matching pattern: \""@ + pattern
            + "\"\x1b[0m\n"@
    } else {
        "\nNo pods found matching pattern: \""@ + pattern + "\"\n"@
    }
}

/// The warning for a `pattern` that found no pod.
pub fn no_match_warning(pattern: &str, use_color: bool) -> (warning: String)
    ensures
        warning@ == no_match_warning_of(pattern@, use_color),
{
    if use_color {
        let mut warning = String::from_str(
            "\n\x1b[93m\x1b[1m\u{26a0}  No pods found matching pattern: \"",
        );
        warning.append(pattern);
        warning.append("\"\x1b[0m\n");
        warning
    } else {
        let mut warning = String::from_str("\nNo pods found matching pattern: \"");
        warning.append(pattern);
        warning.append("\"\n");
        warning
    }
}

/// What the discovery poller does next.
#[derive(Clone, Copy, Debug, PartialEq, Eq, Structural)]
pub enum PollAction {
    /// Sleep for the poll interval.
    Sleep,
    /// List the pods, match them against a copy of the pattern list, and
    /// ask for workers for the new ones. A failed listing is skipped.
    Discover,
    /// End.
    Stop,
}

/// What the poller does next: it sleeps, looks at the run flag again, and
/// discovers; a run flag that is down ends it before and after the sleep.
pub open spec fn poll_action(slept: bool, running: bool) -> PollAction {
    if !running {
        PollAction::Stop
    } else if slept {
        PollAction::Discover
    } else {
        PollAction::Sleep
    }
}

/// Decides what the discovery poller does next, given whether it has just
/// slept and the run flag as it is now.
pub fn poll_step(slept: bool, running: bool) -> (action: PollAction)
    ensures
        action == poll_action(slept, running),
{
    if !running {
        PollAction::Stop
    } else if slept {
        PollAction::Discover
    } else {
        PollAction::Sleep
    }
}

} // verus!
