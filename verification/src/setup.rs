//! The arguments of the commands that install a project's dependencies.

use crate::project::ProjectType;
use vstd::prelude::*;

verus! {

/// The views of `args`.
pub open spec fn words_of(args: Seq<&'static str>) -> Seq<Seq<char>> {
    Seq::new(args.len(), |i: int| args[i]@)
}

/// The words behind `first`, `second`.
pub open spec fn flags_of(first: Option<Seq<char>>, second: Option<Seq<char>>) -> Seq<Seq<char>> {
    (match first {
        Some(flag) => seq![flag],
        None => Seq::<Seq<char>>::empty(),
    }) + (match second {
        Some(flag) => seq![flag],
        None => Seq::<Seq<char>>::empty(),
    })
}

/// The arguments of `uv` for an install: locked where `frozen` is set,
/// without cache where the environment was removed.
pub fn build_uv_args(frozen: bool, rm: bool) -> (args: Vec<&'static str>)
    ensures
        words_of(args@) == seq!["sync"@, "--all-extras"@] + flags_of(
            if frozen {
                Some("--frozen"@)
            } else {
                None
            },
            if rm {
                Some("--no-cache"@)
            } else {
                None
            },
        ),
{
    let mut args: Vec<&'static str> = Vec::new();
    args.push("sync");
    args.push("--all-extras");
    if frozen {
        args.push("--frozen");
    }
    if rm {
        args.push("--no-cache");
    }
    args
}

/// The arguments of `poetry` for an install: synced where `frozen` is set,
/// without cache where the environment was removed.
pub fn build_poetry_args(frozen: bool, rm: bool) -> (args: Vec<&'static str>)
    ensures
        words_of(args@) == seq!["install"@, "--all-extras"@] + flags_of(
            if frozen {
                Some("--sync"@)
            } else {
                None
            },
            if rm {
                Some("--no-cache"@)
            } else {
                None
            },
        ),
{
    let mut args: Vec<&'static str> = Vec::new();
    args.push("install");
    args.push("--all-extras");
    if frozen {
        args.push("--sync");
    }
    if rm {
        args.push("--no-cache");
    }
    args
}

/// The arguments of `cargo` for a build: locked where `frozen` is set.
pub fn build_cargo_args(frozen: bool) -> (args: Vec<&'static str>)
    ensures
        words_of(args@) == seq!["build"@] + flags_of(
            if frozen {
                Some("--frozen"@)
            } else {
                None
            },
            None,
        ),
{
    let mut args: Vec<&'static str> = Vec::new();
    args.push("build");
    if frozen {
        args.push("--frozen");
    }
    args
}

/// Why nothing can be installed.
#[derive(Debug, Clone, Copy, PartialEq, Eq, Structural)]
pub enum SetupError {
    /// The directory holds no project that a known tool manages.
    NoProject,
}

impl SetupError {
    /// The message for the user.
    pub fn message(&self) -> (text: &'static str)
        ensures
            text@ == "No uv/poetry/cargo project found"@,
    {
        "No uv/poetry/cargo project found"
    }
}

/// What an install does.
#[derive(Debug, Clone)]
pub struct SetupPlan {
    /// Remove the virtual environment first.
    pub remove_venv: bool,
    pub program: &'static str,
    pub args: Vec<&'static str>,
    /// Print the commands and run none.
    pub dry_run: bool,
}

/// The words of the command that installs a project of `kind`.
pub open spec fn install_words(kind: ProjectType, frozen: bool, rm: bool) -> Seq<Seq<char>> {
    match kind {
        ProjectType::Uv => seq!["sync"@, "--all-extras"@] + flags_of(
            if frozen {
                Some("--frozen"@)
            } else {
                None
            },
            if rm {
                Some("--no-cache"@)
            } else {
                None
            },
        ),
        ProjectType::Poetry => seq!["install"@, "--all-extras"@] + flags_of(
            if frozen {
                Some("--sync"@)
            } else {
                None
            },
            if rm {
                Some("--no-cache"@)
            } else {
                None
            },
        ),
        ProjectType::Cargo => seq!["build"@] + flags_of(
            if frozen {
                Some("--frozen"@)
            } else {
                None
            },
            None,
        ),
    }
}

/// Plans the install of the project's dependencies. `project` is the kind
/// of project that was found. The environment is removed first where `rm`
/// is set; without a project there is nothing to install.
pub fn run(frozen: bool, rm: bool, dry_run: bool, project: Option<ProjectType>) -> (plan: Result<
    SetupPlan,
    SetupError,
>)
    ensures
        match plan {
            Ok(plan) => project matches Some(kind) && plan.remove_venv == rm && plan.dry_run
                == dry_run && plan.program@ == kind.tool_of() && words_of(plan.args@)
                == install_words(kind, frozen, rm),
            Err(error) => project is None && error == SetupError::NoProject,
        },
{
    match project {
        Some(kind) => Ok(
            SetupPlan {
                remove_venv: rm,
                program: kind.tool(),
                args: match kind {
                    ProjectType::Uv => build_uv_args(frozen, rm),
                    ProjectType::Poetry => build_poetry_args(frozen, rm),
                    ProjectType::Cargo => build_cargo_args(frozen),
                },
                dry_run,
            },
        ),
        None => Err(SetupError::NoProject),
    }
}

} // verus!
