//! The kind of project in a directory, told by the files that it holds.

use crate::text::{contains, contains_seq, to_chars};
use vstd::prelude::*;

verus! {

/// The tool that manages a project's dependencies.
#[derive(Debug, Clone, Copy, PartialEq, Eq, Structural)]
pub enum ProjectType {
    Uv,
    Poetry,
    Cargo,
}

impl ProjectType {
    /// Whether uv manages the project.
    pub fn is_uv(&self) -> (b: bool)
        ensures
            b == (*self == ProjectType::Uv),
    {
        matches!(self, ProjectType::Uv)
    }

    /// Whether Poetry manages the project.
    pub fn is_poetry(&self) -> (b: bool)
        ensures
            b == (*self == ProjectType::Poetry),
    {
        matches!(self, ProjectType::Poetry)
    }

    /// Whether Cargo manages the project.
    pub fn is_cargo(&self) -> (b: bool)
        ensures
            b == (*self == ProjectType::Cargo),
    {
        matches!(self, ProjectType::Cargo)
    }

    /// The name of the tool's program.
    pub open spec fn tool_of(self) -> Seq<char> {
        match self {
            ProjectType::Uv => "uv"@,
            ProjectType::Poetry => "poetry"@,
            ProjectType::Cargo => "cargo"@,
        }
    }

    /// The name of the tool's program.
    pub fn tool(&self) -> (name: &'static str)
        ensures
            name@ == self.tool_of(),
    {
        match self {
            ProjectType::Uv => "uv",
            ProjectType::Poetry => "poetry",
            ProjectType::Cargo => "cargo",
        }
    }
}

/// What was found in a project directory.
#[derive(Debug, Clone, Copy, PartialEq, Eq, Structural)]
pub struct ProjectFiles {
    /// `Cargo.toml` exists.
    pub cargo_toml: bool,
    /// `uv.lock` exists.
    pub uv_lock: bool,
    /// `pyproject.toml` has a `[project]` section.
    pub project_section: bool,
    /// `poetry.lock` exists.
    pub poetry_lock: bool,
    /// `pyproject.toml` has a `[tool.poetry]` section.
    pub poetry_section: bool,
}

/// The kind of the project that holds `files`: Cargo before uv before
/// Poetry.
pub open spec fn kind_of(files: ProjectFiles) -> Option<ProjectType> {
    if files.cargo_toml {
        Some(ProjectType::Cargo)
    } else if files.uv_lock || files.project_section {
        Some(ProjectType::Uv)
    } else if files.poetry_lock || files.poetry_section {
        Some(ProjectType::Poetry)
    } else {
        None
    }
}

/// The kind of the project that holds `files`, if they tell one.
pub fn detect(files: ProjectFiles) -> (kind: Option<ProjectType>)
    ensures
        kind == kind_of(files),
{
    if files.cargo_toml {
        Some(ProjectType::Cargo)
    } else if files.uv_lock || files.project_section {
        Some(ProjectType::Uv)
    } else if files.poetry_lock || files.poetry_section {
        Some(ProjectType::Poetry)
    } else {
        None
    }
}

/// Whether the text of a `pyproject.toml` has a `[project]` section.
pub fn has_project_section(content: &str) -> (found: bool)
    ensures
        found == contains_seq(content@, "[project]"@),
{
    contains(&to_chars(content), &to_chars("[project]"))
}

/// Whether the text of a `pyproject.toml` has a `[tool.poetry]` section.
pub fn has_poetry_section(content: &str) -> (found: bool)
    ensures
        found == contains_seq(content@, "[tool.poetry]"@),
{
    contains(&to_chars(content), &to_chars("[tool.poetry]"))
}

} // verus!
