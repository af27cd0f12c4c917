//! Explicit runtime lifecycle transitions.
use vstd::prelude::*;
use crate::shared::{lifecycle_label, LifecycleState, RuntimeError};

verus! {

/// The runtime lifecycle graph: initializing, ready, stopping, stopped.
pub open spec fn lifecycle_edge(from: LifecycleState, to: LifecycleState) -> bool {
    (from == LifecycleState::Initializing && to == LifecycleState::Ready) || (from
        == LifecycleState::Ready && to == LifecycleState::Stopping) || (from
        == LifecycleState::Stopping && to == LifecycleState::Stopped)
}

/// Lifecycle state machine for the runtime service.
#[derive(Clone, Debug, Eq, PartialEq)]
pub struct Lifecycle {
    state: LifecycleState,
}

impl View for Lifecycle {
    type V = LifecycleState;

    /// The current state.
    closed spec fn view(&self) -> LifecycleState {
        self.state
    }
}

impl Default for Lifecycle {
    fn default() -> (r: Self)
        ensures
            r@ == LifecycleState::Initializing,
    {
        Lifecycle { state: LifecycleState::Initializing }
    }
}

impl Lifecycle {
    /// Return the current state.
    pub fn state(&self) -> (s: LifecycleState)
        ensures
            s == self@,
    {
        self.state
    }

    /// Move to `next` when it follows the current state; otherwise the state
    /// is unchanged and the error names both states.
    pub fn transition(&mut self, next: LifecycleState) -> (r: Result<(), RuntimeError>)
        ensures
            lifecycle_edge(old(self)@, next) ==> r is Ok && final(self)@ == next,
            !lifecycle_edge(old(self)@, next) ==> final(self)@ == old(self)@ && (r matches Err(
                RuntimeError::InvalidLifecycleTransition { from, to },
            ) && from@ == lifecycle_label(old(self)@) && to@ == lifecycle_label(next)),
    {
        let s = self.state;
        let valid = (s == LifecycleState::Initializing && next == LifecycleState::Ready) || (s
            == LifecycleState::Ready && next == LifecycleState::Stopping) || (s
            == LifecycleState::Stopping && next == LifecycleState::Stopped);
        if !valid {
            return Err(
                RuntimeError::InvalidLifecycleTransition {
                    from: String::from_str(s.as_str()),
                    to: String::from_str(next.as_str()),
                },
            );
        }
        self.state = next;
        Ok(())
    }
}

/// The lifecycle runs one way: every transition moves one step along
/// initializing, ready, stopping, stopped, and nothing leaves `Stopped`.
pub proof fn lemma_lifecycle_is_linear(from: LifecycleState, to: LifecycleState)
    ensures
        lifecycle_edge(from, to) ==> lifecycle_rank(to) == lifecycle_rank(from) + 1,
        from == LifecycleState::Stopped ==> !lifecycle_edge(from, to),
{
}

/// Position of a state along the lifecycle.
pub open spec fn lifecycle_rank(s: LifecycleState) -> int {
    match s {
        LifecycleState::Initializing => 0,
        LifecycleState::Ready => 1,
        LifecycleState::Stopping => 2,
        LifecycleState::Stopped => 3,
    }
}

} // verus!
