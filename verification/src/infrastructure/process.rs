//! Short-lived processes: what is run, and how it ended.

use vstd::prelude::*;
use vstd::string::*;

use crate::application::shell::{owned_texts, ProcessModel};
use crate::text::{trim, trimmed, views};

verus! {

/// A program and explicit argument list, never a shell command string.
#[derive(Debug, PartialEq, Eq)]
pub struct ProcessSpec {
    pub program: String,
    pub args: Vec<String>,
}

impl View for ProcessSpec {
    type V = ProcessModel;

    open spec fn view(&self) -> ProcessModel {
        ProcessModel { program: self.program@, args: views(self.args@) }
    }
}

impl ProcessSpec {
    pub fn new(program: &str, args: &[&str]) -> (process: Self)
        ensures
            process@ == (ProcessModel { program: program@, args: views(args@) }),
    {
        ProcessSpec { program: program.to_owned(), args: owned_texts(args) }
    }
}

/// Captured output of a process that exited with status 0.
///
/// Both streams are preserved verbatim; callers decide what to trim and parse.
#[derive(Debug, PartialEq, Eq)]
pub struct ProcessOutput {
    pub stdout: String,
    pub stderr: String,
}

/// What a process that succeeded wrote.
#[verifier::ext_equal]
pub struct OutputModel {
    pub stdout: Seq<char>,
    pub stderr: Seq<char>,
}

impl View for ProcessOutput {
    type V = OutputModel;

    open spec fn view(&self) -> OutputModel {
        OutputModel { stdout: self.stdout@, stderr: self.stderr@ }
    }
}

/// A process that ran to completion and reported failure.
#[derive(Debug, PartialEq, Eq)]
pub struct ProcessFailure {
    /// The exit code the process reported, or `None` when a signal ended it.
    pub exit_code: Option<i32>,
    pub stdout: String,
    pub stderr: String,
}

/// What a process that failed left behind.
#[verifier::ext_equal]
pub struct FailureModel {
    pub exit_code: Option<i32>,
    pub stdout: Seq<char>,
    pub stderr: Seq<char>,
}

impl View for ProcessFailure {
    type V = FailureModel;

    open spec fn view(&self) -> FailureModel {
        FailureModel { exit_code: self.exit_code, stdout: self.stdout@, stderr: self.stderr@ }
    }
}

/// The most specific text a failed process left behind: trimmed stderr, then
/// trimmed stdout, then the caller's own fallback prose.
pub open spec fn failure_message(failure: FailureModel, fallback: Seq<char>) -> Seq<char> {
    if trimmed(failure.stderr).len() > 0 {
        trimmed(failure.stderr)
    } else if trimmed(failure.stdout).len() > 0 {
        trimmed(failure.stdout)
    } else {
        fallback
    }
}

impl ProcessFailure {
    /// The most specific text the process left behind.
    ///
    /// The fallback carries the caller's meaning; this only decides which of
    /// the process's own streams, if any, said anything at all.
    pub fn message_or(&self, fallback: &str) -> (message: String)
        ensures
            message@ == failure_message(self@, fallback@),
    {
        let stderr = trim(self.stderr.as_str());
        if !stderr.as_str().is_empty() {
            return stderr;
        }
        let stdout = trim(self.stdout.as_str());
        if !stdout.as_str().is_empty() {
            return stdout;
        }
        fallback.to_owned()
    }
}

/// Why a process produced no successful output.
#[derive(Debug, PartialEq, Eq)]
pub enum ProcessError {
    /// The program is not installed, or is not on `PATH`.
    ExecutableNotFound,
    /// The process could not be started for any other reason.
    SpawnFailed(String),
    /// The process started and exited with a non-zero status.
    Exited(ProcessFailure),
}

/// What a [`ProcessError`] says.
#[verifier::ext_equal]
pub enum ProcessErrorModel {
    ExecutableNotFound,
    SpawnFailed(Seq<char>),
    Exited(FailureModel),
}

impl View for ProcessError {
    type V = ProcessErrorModel;

    open spec fn view(&self) -> ProcessErrorModel {
        match self {
            ProcessError::ExecutableNotFound => ProcessErrorModel::ExecutableNotFound,
            ProcessError::SpawnFailed(reason) => ProcessErrorModel::SpawnFailed(reason@),
            ProcessError::Exited(failure) => ProcessErrorModel::Exited(failure@),
        }
    }
}

/// How a process ended.
pub open spec fn ending(result: Result<ProcessOutput, ProcessError>) -> Result<
    OutputModel,
    ProcessErrorModel,
> {
    match result {
        Ok(output) => Ok(output@),
        Err(error) => Err(error@),
    }
}

/// What the status and the streams of a process amount to.
pub open spec fn exit_of(
    success: bool,
    exit_code: Option<i32>,
    stdout: Seq<char>,
    stderr: Seq<char>,
) -> Result<OutputModel, ProcessErrorModel> {
    if success {
        Ok(OutputModel { stdout, stderr })
    } else {
        Err(ProcessErrorModel::Exited(FailureModel { exit_code, stdout, stderr }))
    }
}

/// What a process that did not start amounts to.
pub open spec fn start_error(not_found: bool, reason: Seq<char>) -> ProcessErrorModel {
    if not_found {
        ProcessErrorModel::ExecutableNotFound
    } else {
        ProcessErrorModel::SpawnFailed(reason)
    }
}

/// The process that status, streams, and start failures amount to.
///
/// A process succeeds only on exit status 0.
pub fn captured(
    success: bool,
    exit_code: Option<i32>,
    stdout: String,
    stderr: String,
) -> (result: Result<ProcessOutput, ProcessError>)
    ensures
        ending(result) == exit_of(success, exit_code, stdout@, stderr@),
{
    if success {
        Ok(ProcessOutput { stdout, stderr })
    } else {
        Err(ProcessError::Exited(ProcessFailure { exit_code, stdout, stderr }))
    }
}

/// The error of a process that could not be started.
pub fn start_failure(not_found: bool, reason: String) -> (error: ProcessError)
    ensures
        error@ == start_error(not_found, reason@),
{
    if not_found {
        ProcessError::ExecutableNotFound
    } else {
        ProcessError::SpawnFailed(reason)
    }
}

} // verus!
