//! The commands of the command line, and the short forms that leave out
//! the name of a command group.

use vstd::prelude::*;

verus! {

/// The version of the program.
pub const CURRENT_VERSION: &'static str = "0.4.9";

/// The parsed command line.
pub struct BashersApp {
    pub command: Option<Commands>,
}

/// The commands.
#[allow(inconsistent_fields)]
pub enum Commands {
    /// Update dependencies.
    Update { package: Option<String>, dry_run: bool, auto_select: bool },
    /// Install project dependencies.
    Setup { frozen: bool, rm: bool, dry_run: bool },
    /// List installed packages.
    Show { patterns: Vec<String> },
    /// Git helpers.
    Git { command: GitCommands },
    /// Kubernetes helpers.
    Kube { command: KubeCommands },
    /// Docker helpers.
    Docker { command: DockerCommands },
    /// Print the version.
    Version,
    /// Run a command repeatedly and highlight what changed.
    Watch { interval: u64, no_diff: bool, command: Vec<String> },
    /// Self-management.
    SelfCmd { command: SelfCommands },
}

/// The Git helpers.
pub enum GitCommands {
    /// Check the default branch out, pull and fetch; with `current`, stay
    /// on the current branch.
    Sync { current: bool, dry_run: bool },
}

/// The Docker helpers.
pub enum DockerCommands {
    /// Build an image from a Dockerfile.
    Build { dockerfile: Option<String>, tag: Option<String>, no_cache: bool, context: Option<String> },
}

/// The Kubernetes helpers.
pub enum KubeCommands {
    /// Show the images of the pods that match.
    Kmg { pattern: String },
    /// Follow the logs of the pods that match.
    Track { patterns: Vec<String>, err_only: bool, simple: bool },
}

/// The self-management commands.
pub enum SelfCommands {
    /// Update the program to its latest version.
    Update,
}

/// The group that the command `word` belongs to, where `word` may be
/// written without its group.
pub open spec fn group_of(word: Seq<char>) -> Option<Seq<char>> {
    if word == "build"@ {
        Some("docker"@)
    } else if word == "sync"@ {
        Some("git"@)
    } else if word == "kmg"@ || word == "track"@ {
        Some("kube"@)
    } else {
        None
    }
}

/// The arguments with the group's name put in front of a command that was
/// written without it.
pub open spec fn expanded(args: Seq<Seq<char>>) -> Seq<Seq<char>> {
    if args.len() >= 2 && group_of(args[1]) is Some {
        args.insert(1, group_of(args[1])->Some_0)
    } else {
        args
    }
}

/// The texts of `args`.
pub open spec fn texts(args: Seq<String>) -> Seq<Seq<char>> {
    Seq::new(args.len(), |i: int| args[i]@)
}

/// Whether `a` and `b` hold the same text.
pub fn same_text(a: &str, b: &str) -> (same: bool)
    ensures
        same == (a@ == b@),
{
    a.to_owned() == b.to_owned()
}

/// The group that the command `word` belongs to, where `word` may be
/// written without its group: `build` is short for `docker build`, `sync`
/// for `git sync`, `kmg` and `track` for `kube kmg` and `kube track`.
pub fn toplevel_alias_parent(word: &str) -> (group: Option<&'static str>)
    ensures
        match group {
            Some(name) => group_of(word@) == Some(name@),
            None => group_of(word@) is None,
        },
{
    if same_text(word, "build") {
        Some("docker")
    } else if same_text(word, "sync") {
        Some("git")
    } else if same_text(word, "kmg") || same_text(word, "track") {
        Some("kube")
    } else {
        None
    }
}

/// Puts the name of the command group in front of a command that was
/// written without it. `args[0]` is the program's name.
pub fn expand_alias(args: Vec<String>) -> (full: Vec<String>)
    ensures
        texts(full@) == expanded(texts(args@)),
{
    let mut full = args;
    if full.len() >= 2 {
        if let Some(group) = toplevel_alias_parent(full[1].as_str()) {
            full.insert(1, group.to_owned());
        }
    }
    full
}

} // verus!
