//! Typed dispatch of filesystem operations.
//!
//! Each operation kind fixes its own success and error types at compile time,
//! so callers that only depend on "give me a dispatcher for operation X" stay
//! untouched when new operation kinds are added.

use vstd::prelude::*;

verus! {

/// Execution of a filesystem operation.
///
/// An implementor states in [`Exec::exec_ensures`] what it promises of every
/// outcome of [`Exec::exec`]; the promise is checked against each
/// implementation.
pub trait Exec<Operation> {
    /// Success value produced by executing the operation.
    type Ok;

    /// Error value produced by a failed execution.
    type Err;

    /// The contract [`Exec::exec`] is held to.
    spec fn exec_ensures(&self, operation: Operation, outcome: Result<Self::Ok, Self::Err>) -> bool;

    /// Executes the provided `operation`.
    fn exec(&self, operation: Operation) -> (outcome: Result<Self::Ok, Self::Err>)
        ensures
            self.exec_ensures(operation, outcome),
    ;
}

} // verus!
