//! Helpers for the command line, and at their heart a tracker for the logs
//! of cluster pods: it finds pods by name pattern, follows their logs and
//! shows them in a terminal dashboard of panes and tabs.
//!
//! The library holds the decisions and leaves the doing to a driver. The
//! driver lists pods, runs one worker per log feed, owns the terminal, and
//! hands what happens to the library as plain values:
//!
//! - [`pattern`] compiles pod-name patterns; [`pod`] and [`discovery`] read
//!   a pod listing; [`track`] plans a run.
//! - [`worker`] is the life of a log worker as a state machine, with the
//!   severity filter of [`filter`]; [`shared`] is the state that workers,
//!   poller and dashboard coordinate through.
//! - [`engine`], [`state`] and [`pane`] are the dashboard: events, keys
//!   and mouse move a state whose transitions are stated as a mathematical
//!   model; [`layout`] and [`render`] say what is drawn where; [`simple`]
//!   is the plain renderer.
//! - [`text`] holds the character-level helpers that every parser shares;
//!   [`git`], [`deps`], [`packages`], [`project`], [`setup`], [`version`],
//!   [`watch`], [`colors`], [`help`], [`cli`], [`page`] and [`gui_theme`]
//!   serve the other commands.

pub mod ansi_html;
pub mod cli;
pub mod colors;
pub mod deps;
pub mod discovery;
pub mod engine;
pub mod event;
pub mod filter;
pub mod git;
pub mod gui_theme;
pub mod help;
pub mod layout;
pub mod packages;
pub mod page;
pub mod pane;
pub mod pattern;
pub mod pod;
pub mod project;
pub mod render;
pub mod setup;
pub mod shared;
pub mod simple;
pub mod state;
pub mod term;
pub mod text;
pub mod theme;
pub mod track;
pub mod traits;
pub mod version;
pub mod watch;
pub mod worker;
