//! The two-layer error taxonomy: process-level failures of one spawned
//! command, and check-level failures of one configured check.

use vstd::prelude::*;

verus! {

/// What went wrong while running one external command.
#[derive(Debug)]
pub enum RunCommandError {
    /// The executable was not found on the search path.
    NotFound(String),
    /// The process exited with a status code outside the accepted set;
    /// `output` is the captured combined stdout/stderr stream.
    StatusCode { output: String, code: i32 },
    /// The process was terminated by a signal and has no exit code.
    Signal,
    /// The captured output was not valid UTF-8 text.
    Utf8,
    /// The command line could not be split into words, or held none.
    Split,
    /// Any other error while spawning or waiting, with its message.
    Other(String),
}

/// What went wrong while executing one check.
#[derive(Debug)]
pub enum CheckError {
    /// A command of the check failed.
    RunCommand(RunCommandError),
    /// Fix mode was requested but the check has no fix.
    NoFix,
    /// The configured execution folder does not exist.
    ExecutionFolder(String),
    /// The captured output could not be written to the configured file.
    WriteOutput(String),
    /// A `version` requirement was configured without a `version_command`.
    MissingVersionCommand,
    /// The tool's version does not meet the configured requirement.
    VersionReq { version_req: String, version: String },
    /// No token of the version command's output parsed as a version.
    VersionFind(String),
    /// The repository has uncommitted changes to tracked files.
    DirtyRepository,
    /// The local commit is not rebased on the upstream commit.
    NotRebased { local: String, origin: String },
}

} // verus!
