//! The error taxonomy: every failure the crate reports is one of these
//! variants, so callers can tell a timeout from a spawn failure from a
//! non-zero exit without parsing text.

use vstd::prelude::*;
use crate::cmd::ProcessOutput;

verus! {

/// The initialization step that failed, kept so an init error carries the
/// operation it came from rather than a raw low-level error.
#[derive(Debug, Clone, Copy, PartialEq, Eq, Structural)]
pub enum InitFailure {
    /// Creating the workspace directory tree.
    Directory,
    /// Registering or resolving the sandbox image.
    Image,
    /// Building the shared network client.
    HttpClient,
    /// Installing the helper tools the workspace needs.
    HelperTools,
    /// Priming the local registry cache.
    RegistryPriming,
}

/// Every error the crate reports.
#[derive(Debug)]
pub enum Error {
    /// The lock file guarding one-time initialization could not be created
    /// or opened.
    Lock,
    /// One-time workspace initialization failed at the given step.
    Init { step: InitFailure },
    /// The sandbox image or container lifecycle failed; host-mode execution
    /// stays usable.
    Sandbox,
    /// A command's process or container could not be spawned at all.
    CommandSpawn,
    /// A command overran its hard wall-clock timeout and was terminated.
    CommandTimeout,
    /// A command produced no output for its whole no-output window and was
    /// terminated.
    CommandNoOutputTimeout,
    /// A command ran to completion but exited unsuccessfully; the captured
    /// output is kept for diagnostics.
    CommandExit { output: ProcessOutput },
    /// A toolchain operation against the toolchain root failed.
    Toolchain,
}

} // verus!
