//! A workspace for running many isolated, resource-hungry build jobs over a
//! shared on-disk cache.
//!
//! The crate models the workspace lifecycle: a [`WorkspaceBuilder`] collects
//! configuration and assembles a [`Workspace`]; the workspace hands out
//! named build directories and carries the defaults (sandbox image, hard
//! timeout, no-output timeout) that every command derived from it inherits.

use vstd::prelude::*;

mod build_dir;
mod cmd;
mod errors;
mod net;
mod paths;
mod toolchain;
mod workspace;

pub use build_dir::BuildDirectory;
pub use cmd::{
    check_deadlines, classify_termination, Command, EnvVar, ExecState, ImageSource, ProcessOutput,
    ResolutionAction, SandboxImage, TimeoutKind,
};
pub use errors::{Error, InitFailure};
pub use paths::{valid_component, WsPath};
pub use toolchain::{
    contains_toolchain, install_plan, list_installed, parse_entry, uninstall_needed, DirEntry,
    DirEntryKind, Toolchain,
};
pub use workspace::{InitAction, PlannedStep, Workspace, WorkspaceBuilder};

verus! {

/// Default hard timeout for commands, in milliseconds (fifteen minutes).
pub const DEFAULT_COMMAND_TIMEOUT_MS: u64 = 15 * 60 * 1000;

} // verus!
