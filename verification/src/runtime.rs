//! Execution-mode configuration for hosts of the engine.
//!
//! The engine blocks in place on every filesystem call and needs no driver of
//! its own, so there is nothing to configure: [`Builder`] mirrors the shape
//! of an asynchronous runtime builder — a current-thread mode with every I/O
//! facility enabled — and each of its calls is provably the identity.

use vstd::prelude::*;

verus! {

/// Builder of the execution mode a host drives operations with.
#[derive(Clone, Copy, Debug, PartialEq, Eq, Structural)]
pub struct Builder;

impl Builder {
    /// Starts configuring a mode that drives operations on the caller's own
    /// thread — the only mode the engine has.
    pub fn new_current_thread() -> (r: Builder)
        ensures
            r == Builder,
    {
        Builder
    }

    /// Enables every I/O facility. Nothing is ever switched off, so the
    /// builder is returned unchanged.
    pub fn enable_all(self) -> (r: Builder)
        ensures
            r == self,
    {
        self
    }
}

} // verus!
