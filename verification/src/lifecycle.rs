//! The process-wide state of the native library, as the host may track it.
//!
//! The library starts out uninitialized, is initialized by an accepted
//! initialize request, and is shut down by a shutdown request. Initializing
//! again after a shutdown starts a fresh cycle.

use crate::codec::Bool_to_bool;
use vstd::prelude::*;

verus! {

/// State of the native library.
#[derive(Clone, Copy, Debug, PartialEq, Eq, Structural)]
pub enum Lifecycle {
    /// No initialize request was accepted yet.
    Uninitialized,
    /// The library is initialized; entities and settings can be used.
    Initialized,
    /// The library was initialized and has been shut down since.
    ShutDown,
}

impl Lifecycle {
    /// The state after the native side replied `raw` to an initialize
    /// request: initialized if it accepted, unchanged if it refused.
    pub open spec fn spec_after_initialize(self, raw: u8) -> Lifecycle {
        if raw != 0 {
            Lifecycle::Initialized
        } else {
            self
        }
    }

    /// The state after a shutdown request returned: an initialized library
    /// is shut down; shutting down again, or before any use, changes
    /// nothing.
    pub open spec fn spec_after_shutdown(self) -> Lifecycle {
        match self {
            Lifecycle::Uninitialized => Lifecycle::Uninitialized,
            Lifecycle::Initialized => Lifecycle::ShutDown,
            Lifecycle::ShutDown => Lifecycle::ShutDown,
        }
    }

    /// The state of a process that has not touched the library.
    pub fn new() -> (state: Lifecycle)
        ensures
            state == Lifecycle::Uninitialized,
    {
        Lifecycle::Uninitialized
    }

    /// The state after the native side replied `raw` to an initialize
    /// request.
    pub fn after_initialize(self, raw: u8) -> (state: Lifecycle)
        ensures
            state == self.spec_after_initialize(raw),
    {
        if Bool_to_bool(raw) {
            Lifecycle::Initialized
        } else {
            self
        }
    }

    /// The state after a shutdown request returned.
    pub fn after_shutdown(self) -> (state: Lifecycle)
        ensures
            state == self.spec_after_shutdown(),
    {
        match self {
            Lifecycle::Uninitialized => Lifecycle::Uninitialized,
            Lifecycle::Initialized => Lifecycle::ShutDown,
            Lifecycle::ShutDown => Lifecycle::ShutDown,
        }
    }

    /// Whether entities and settings can be used in this state.
    pub fn is_initialized(self) -> (b: bool)
        ensures
            b == (self == Lifecycle::Initialized),
    {
        match self {
            Lifecycle::Initialized => true,
            _ => false,
        }
    }
}

/// From any state, an accepted initialize followed by a shutdown leaves the
/// library shut down, and a second such cycle ends in the same state as the
/// first: nothing of a cycle is left over in the state.
pub proof fn lemma_cycles_leave_shut_down(state: Lifecycle, first: u8, second: u8)
    requires
        first != 0,
        second != 0,
    ensures
        state.spec_after_initialize(first).spec_after_shutdown() == Lifecycle::ShutDown,
        state.spec_after_initialize(first).spec_after_shutdown().spec_after_initialize(
            second,
        ).spec_after_shutdown() == state.spec_after_initialize(first).spec_after_shutdown(),
{
}

/// Shutting down twice is shutting down once.
pub proof fn lemma_shutdown_idempotent(state: Lifecycle)
    ensures
        state.spec_after_shutdown().spec_after_shutdown() == state.spec_after_shutdown(),
{
}

} // verus!
