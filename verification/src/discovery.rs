//! What a pod listing means for the dashboard: the pods to follow, or an
//! error that tells the user what went wrong and what to try.
//!
//! Running the listing is left to the caller, who hands over how it ended.

use crate::pattern::Matcher;
use crate::pod::{matching_rows, parse_pods, pods_of, PodInfo};
use crate::text::{contains, contains_seq, skip_spaces, skip_spaces_from, to_chars};
use vstd::prelude::*;
use vstd::string::StringExecFns;

verus! {

/// The seconds that a pod listing may take before it is given up. The
/// message of a timeout names them.
pub const LIST_TIMEOUT_SECS: u64 = 15;

/// How a pod listing ended.
pub enum ListOutcome {
    /// The listing could not be started, for the reason given.
    NotStarted { reason: String },
    /// The listing did not end within the bounded wait and was killed.
    /// `captured` holds what it had written to its error stream, if that
    /// was readable text.
    TimedOut { captured: Option<String> },
    /// The listing ended by itself. `stdout` is `None` where the output was
    /// no valid text.
    Exited { success: bool, stdout: Option<String>, stderr: String },
}

/// Why a discovery gave no pods.
#[derive(Clone, Debug)]
pub enum DiscoveryError {
    /// The listing could not be started.
    NotStarted { reason: String },
    /// The listing was killed after the bounded wait.
    TimedOut { diagnostics: String },
    /// The listing ended with a failure status.
    Failed { auth_hint: bool, diagnostics: String },
    /// The listing succeeded, but its output was no valid text.
    InvalidOutput,
}

/// Whether `s` holds nothing but white space.
pub open spec fn is_blank(s: Seq<char>) -> bool {
    skip_spaces(s, 0) >= s.len()
}

/// The diagnostics worth showing: `stderr`, unless it is blank.
pub open spec fn diagnostics_of(stderr: Seq<char>) -> Seq<char> {
    if is_blank(stderr) {
        Seq::<char>::empty()
    } else {
        stderr
    }
}

/// Whether `stderr` shows that the cluster asked the user to log in.
pub open spec fn asks_for_login(stderr: Seq<char>) -> bool {
    ||| contains_seq(stderr, "could not open the browser"@)
    ||| contains_seq(stderr, "Please visit the following URL"@)
    ||| contains_seq(stderr, "authenticate"@)
}

/// The note that carries captured diagnostics; empty without diagnostics.
pub open spec fn diagnostics_note(diagnostics: Seq<char>) -> Seq<char> {
    if diagnostics.len() == 0 {
        Seq::<char>::empty()
    } else {
        "\n\nkubectl stderr:\n"@ + diagnostics
    }
}

/// The message of a timed-out listing.
pub open spec fn timeout_text(diagnostics: Seq<char>) -> Seq<char> {
    "kubectl get pods timed out (15s). If your cluster requires authentication, run your auth command first (e.g. open the login URL in a browser or run the token command), then run track again."@
        + diagnostics_note(diagnostics)
}

/// The message of a failed listing.
pub open spec fn failure_text(auth_hint: bool, diagnostics: Seq<char>) -> Seq<char> {
    "kubectl get pods failed"@ + (if auth_hint {
        " Authenticate to your cluster first (e.g. open the login URL in a browser or run your auth command), then run track again."@
    } else {
        Seq::<char>::empty()
    }) + "."@ + diagnostics_note(diagnostics)
}

/// What a discovery error holds, as mathematical values.
pub enum DiscoveryErrorModel {
    NotStarted { reason: Seq<char> },
    TimedOut { diagnostics: Seq<char> },
    Failed { auth_hint: bool, diagnostics: Seq<char> },
    InvalidOutput,
}

impl DiscoveryErrorModel {
    /// The message for the user.
    pub open spec fn text(self) -> Seq<char> {
        match self {
            DiscoveryErrorModel::NotStarted { reason } => "Failed to run kubectl get pods: "@
                + reason,
            DiscoveryErrorModel::TimedOut { diagnostics } => timeout_text(diagnostics),
            DiscoveryErrorModel::Failed { auth_hint, diagnostics } => failure_text(
                auth_hint,
                diagnostics,
            ),
            DiscoveryErrorModel::InvalidOutput => "kubectl get pods wrote output that is not valid UTF-8"@,
        }
    }
}

impl View for DiscoveryError {
    type V = DiscoveryErrorModel;

    open spec fn view(&self) -> DiscoveryErrorModel {
        match self {
            DiscoveryError::NotStarted { reason } => DiscoveryErrorModel::NotStarted {
                reason: reason@,
            },
            DiscoveryError::TimedOut { diagnostics } => DiscoveryErrorModel::TimedOut {
                diagnostics: diagnostics@,
            },
            DiscoveryError::Failed { auth_hint, diagnostics } => DiscoveryErrorModel::Failed {
                auth_hint: *auth_hint,
                diagnostics: diagnostics@,
            },
            DiscoveryError::InvalidOutput => DiscoveryErrorModel::InvalidOutput,
        }
    }
}

/// The result that a listing which ended as `outcome` stands for.
pub open spec fn discovery_of(outcome: ListOutcome, patterns: Seq<Matcher>) -> Result<
    Seq<crate::pod::PodModel>,
    DiscoveryErrorModel,
> {
    match outcome {
        ListOutcome::NotStarted { reason } => Err(
            DiscoveryErrorModel::NotStarted { reason: reason@ },
        ),
        ListOutcome::TimedOut { captured } => Err(
            DiscoveryErrorModel::TimedOut {
                diagnostics: match captured {
                    Some(text) => diagnostics_of(text@),
                    None => Seq::<char>::empty(),
                },
            },
        ),
        ListOutcome::Exited { success, stdout, stderr } => if !success {
            Err(
                DiscoveryErrorModel::Failed {
                    auth_hint: asks_for_login(stderr@),
                    diagnostics: diagnostics_of(stderr@),
                },
            )
        } else {
            match stdout {
                Some(listing) => Ok(matching_rows(listing@, patterns)),
                None => Err(DiscoveryErrorModel::InvalidOutput),
            }
        },
    }
}

/// The error that a listing which ended as `outcome` stands for, whatever
/// the patterns are; `None` where it gives pods.
pub open spec fn listing_error(outcome: ListOutcome) -> Option<DiscoveryErrorModel> {
    match discovery_of(outcome, Seq::<Matcher>::empty()) {
        Ok(_) => None,
        Err(error) => Some(error),
    }
}

/// `stderr`, unless it is blank.
pub fn shown_diagnostics(stderr: &str) -> (shown: String)
    ensures
        shown@ == diagnostics_of(stderr@),
{
    let chars = to_chars(stderr);
    if skip_spaces_from(&chars, 0) >= chars.len() {
        String::new()
    } else {
        stderr.to_owned()
    }
}

/// Whether `stderr` shows that the cluster asked the user to log in.
pub fn needs_login(stderr: &str) -> (hint: bool)
    ensures
        hint == asks_for_login(stderr@),
{
    let chars = to_chars(stderr);
    contains(&chars, &to_chars("could not open the browser")) || contains(
        &chars,
        &to_chars("Please visit the following URL"),
    ) || contains(&chars, &to_chars("authenticate"))
}

/// Appends the note that carries `diagnostics` to `message`.
fn append_note(message: &mut String, diagnostics: &str)
    ensures
        final(message)@ == old(message)@ + diagnostics_note(diagnostics@),
{
    if diagnostics.unicode_len() > 0 {
        message.append("\n\nkubectl stderr:\n");
        message.append(diagnostics);
    }
}

impl DiscoveryError {
    /// The message for the user: what failed, a hint to log in where the
    /// cluster asked for it, and the captured diagnostics.
    pub fn message(&self) -> (text: String)
        ensures
            text@ == self@.text(),
    {
        match self {
            DiscoveryError::NotStarted { reason } => {
                let mut text = String::from_str("Failed to run kubectl get pods: ");
                text.append(reason.as_str());
                text
            },
            DiscoveryError::TimedOut { diagnostics } => {
                let mut text = String::from_str(
                    "kubectl get pods timed out (15s). If your cluster requires authentication, run your auth command first (e.g. open the login URL in a browser or run the token command), then run track again.",
                );
                append_note(&mut text, diagnostics.as_str());
                text
            },
            DiscoveryError::Failed { auth_hint, diagnostics } => {
                let mut text = String::from_str("kubectl get pods failed");
                if *auth_hint {
                    text.append(
                        " Authenticate to your cluster first (e.g. open the login URL in a browser or run your auth command), then run track again.",
                    );
                }
                text.append(".");
                append_note(&mut text, diagnostics.as_str());
                text
            },
            DiscoveryError::InvalidOutput => String::from_str(
                "kubectl get pods wrote output that is not valid UTF-8",
            ),
        }
    }
}

/// Turns the outcome of a pod listing into the pods to follow. A listing
/// that succeeded gives the pods that a pattern matches, each with the index
/// of the first pattern that matches; one that did not start, timed out or
/// failed gives the error with its diagnostics.
pub fn find_matching_pods(outcome: &ListOutcome, regexes: &Vec<Matcher>) -> (result: Result<
    Vec<PodInfo>,
    DiscoveryError,
>)
    ensures
        match result {
            Ok(pods) => discovery_of(*outcome, regexes@) == Ok::<
                Seq<crate::pod::PodModel>,
                DiscoveryErrorModel,
            >(pods_of(pods@)),
            Err(error) => discovery_of(*outcome, regexes@) == Err::<
                Seq<crate::pod::PodModel>,
                DiscoveryErrorModel,
            >(error@),
        },
{
    match outcome {
        ListOutcome::NotStarted { reason } => Err(
            DiscoveryError::NotStarted { reason: reason.clone() },
        ),
        ListOutcome::TimedOut { captured } => {
            let diagnostics = match captured {
                Some(text) => shown_diagnostics(text.as_str()),
                None => String::new(),
            };
            Err(DiscoveryError::TimedOut { diagnostics })
        },
        ListOutcome::Exited { success, stdout, stderr } => {
            if !*success {
                Err(
                    DiscoveryError::Failed {
                        auth_hint: needs_login(stderr.as_str()),
                        diagnostics: shown_diagnostics(stderr.as_str()),
                    },
                )
            } else {
                match stdout {
                    Some(listing) => Ok(parse_pods(listing.as_str(), regexes)),
                    None => Err(DiscoveryError::InvalidOutput),
                }
            }
        },
    }
}

} // verus!
