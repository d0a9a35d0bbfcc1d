//! The four roles of the assistant's pipeline: listen, think, execute, inform.
//! The traits carry no contracts: an implementation may do any outside work,
//! and the assistant's decisions hold whatever it returns.

use vstd::prelude::*;
use crate::types::{Action, Decision, ReplyKind, UserRequest};

verus! {

/// Reads the next request; `Ok(None)` means the input is closed.
pub trait Listener {
    fn listen(&mut self) -> Result<Option<UserRequest>, String>;
}

/// Decides what to answer and what to run for a request.
pub trait Brain {
    fn think(&mut self, request: &UserRequest) -> Decision;
}

/// Runs an allowed action and reports on it.
pub trait Executor {
    fn execute(&mut self, action: &Action) -> Result<String, String>;

    /// Cleanup when the assistant stops; by default there is nothing to do
    /// and it succeeds.
    fn shutdown(&mut self) -> (r: Result<(), String>)
        default_ensures
            r is Ok,
    {
        Ok(())
    }
}

/// Shows or speaks a reply.
pub trait Informer {
    fn inform(&mut self, kind: ReplyKind, message: &str) -> Result<(), String>;
}

} // verus!
