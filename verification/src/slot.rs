//! The single result slot the display path polls.
//!
//! The execution path publishes each finished invocation's outcome here,
//! tagged with the invocation's identifier so a reader can tell whose
//! result it is holding. The policy when a run finishes while an earlier
//! result is still unread is, explicitly, replace: last write wins. The
//! host is responsible for guarding the slot when the two paths run on
//! different threads.

use crate::outcome::ExecError;
use crate::outcome::ExecutionResult;
use vstd::prelude::*;

verus! {

/// Where the most recent finished invocation's outcome waits to be read.
pub struct ResultSlot {
    /// The most recently published invocation: its identifier and its
    /// outcome; nothing when the slot has been read or never filled.
    pub latest: Option<(String, Result<ExecutionResult, ExecError>)>,
}

impl ResultSlot {
    /// An empty slot: no run has been published yet.
    pub fn new() -> (s: ResultSlot)
        ensures
            s.latest is None,
    {
        ResultSlot { latest: None }
    }

    /// Publishes a finished invocation, replacing whatever was there.
    pub fn publish(&mut self, run_id: String, outcome: Result<ExecutionResult, ExecError>)
        ensures
            final(self).latest == Some((run_id, outcome)),
    {
        self.latest = Some((run_id, outcome));
    }

    /// Takes the published pair out, leaving the slot empty.
    pub fn take(&mut self) -> (r: Option<(String, Result<ExecutionResult, ExecError>)>)
        ensures
            r == old(self).latest,
            final(self).latest is None,
    {
        self.latest.take()
    }

    /// True when a result is waiting to be read.
    pub fn is_filled(&self) -> (r: bool)
        ensures
            r == (self.latest is Some),
    {
        match &self.latest {
            Some(_) => true,
            None => false,
        }
    }
}

} // verus!
