//! What one invocation takes in and what it yields.
//!
//! A run either completes — the program ran, and its exit status decides the
//! success flag — or fails on the way there with one of a closed set of
//! structured errors. Nothing here panics the host: every failure is a value
//! handed back to the caller.

use vstd::prelude::*;

verus! {

/// One run invocation: the source text and the tag naming its language.
pub struct ExecutionRequest {
    /// The program text; it may be empty.
    pub source: String,
    /// A free-text language tag, checked against the recognized set.
    pub language: String,
}

impl ExecutionRequest {
    /// Bundles source text and language tag into one request.
    pub fn new(source: String, language: String) -> (r: ExecutionRequest)
        ensures
            r.source@ == source@,
            r.language@ == language@,
    {
        ExecutionRequest { source, language }
    }
}

/// The captured outcome of a program that ran to completion.
#[derive(Debug)]
pub struct ExecutionResult {
    /// Decoded standard output; kept even when the program failed.
    pub stdout: String,
    /// Decoded standard error; kept even when the program succeeded.
    pub stderr: String,
    /// Wall-clock time the program took, in milliseconds.
    pub duration_ms: u64,
    /// True exactly when the program exited with status zero.
    pub success: bool,
}

/// A failure on the way to running the program. A program that ran but
/// exited non-zero is not an `ExecError`: it completes with
/// `success == false`.
#[derive(Debug)]
pub enum ExecError {
    /// The language tag is not in the recognized set; no process was spawned.
    UnsupportedLanguage,
    /// The operating system could not create the child process.
    SpawnFailure {
        /// The operating system's description of the failure.
        message: String,
    },
    /// The temporary source file could not be written.
    WriteFailure {
        /// The operating system's description of the failure.
        message: String,
    },
    /// The compiler exited non-zero.
    CompileFailure {
        /// The compiler's decoded diagnostics.
        diagnostics: String,
    },
    /// A captured stream was not valid text.
    DecodeFailure,
    /// The child process outlived the allowed duration and was killed.
    Timeout,
}

/// The taxonomy of everything that can go wrong during an invocation.
#[derive(Clone, Copy, Debug, PartialEq, Eq, Structural)]
pub enum ErrorKind {
    /// The language tag is not recognized.
    UnsupportedLanguage,
    /// A child process could not be created.
    SpawnFailure,
    /// The temporary source file could not be written.
    WriteFailure,
    /// The compiler rejected the source.
    CompileFailure,
    /// The program ran and exited non-zero.
    RuntimeFailure,
    /// A captured stream was not valid text.
    DecodeFailure,
    /// The child process was killed after the allowed duration.
    Timeout,
    /// A temporary file could not be removed; observed, never escalated.
    CleanupFailure,
}

/// The taxonomy tag of a finished invocation: nothing for a success, the
/// matching kind otherwise.
pub open spec fn spec_classify(o: Result<ExecutionResult, ExecError>) -> Option<ErrorKind> {
    match o {
        Ok(res) => if res.success {
            None
        } else {
            Some(ErrorKind::RuntimeFailure)
        },
        Err(ExecError::UnsupportedLanguage) => Some(ErrorKind::UnsupportedLanguage),
        Err(ExecError::SpawnFailure { .. }) => Some(ErrorKind::SpawnFailure),
        Err(ExecError::WriteFailure { .. }) => Some(ErrorKind::WriteFailure),
        Err(ExecError::CompileFailure { .. }) => Some(ErrorKind::CompileFailure),
        Err(ExecError::DecodeFailure) => Some(ErrorKind::DecodeFailure),
        Err(ExecError::Timeout) => Some(ErrorKind::Timeout),
    }
}

/// Tags a finished invocation's outcome: nothing for a success, the matching
/// error kind otherwise; a program that ran but exited non-zero counts as a
/// runtime failure.
pub fn classify(o: &Result<ExecutionResult, ExecError>) -> (k: Option<ErrorKind>)
    ensures
        k == spec_classify(*o),
{
    match o {
        Ok(res) => if res.success {
            None
        } else {
            Some(ErrorKind::RuntimeFailure)
        },
        Err(ExecError::UnsupportedLanguage) => Some(ErrorKind::UnsupportedLanguage),
        Err(ExecError::SpawnFailure { .. }) => Some(ErrorKind::SpawnFailure),
        Err(ExecError::WriteFailure { .. }) => Some(ErrorKind::WriteFailure),
        Err(ExecError::CompileFailure { .. }) => Some(ErrorKind::CompileFailure),
        Err(ExecError::DecodeFailure) => Some(ErrorKind::DecodeFailure),
        Err(ExecError::Timeout) => Some(ErrorKind::Timeout),
    }
}

} // verus!
