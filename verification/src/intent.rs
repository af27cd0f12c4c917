//! Intent contracts and the explicit intent lifecycle.
use vstd::prelude::*;
use crate::common::{IntentId, OidError, OidErrorV};
use crate::shared::{EventLog, EventSink, RuntimeEvent};
use crate::text::{is_blank, str_is_blank};

verus! {

/// Explicit lifecycle states for a user intent.
#[derive(Clone, Copy, Debug, Eq, PartialEq, Structural)]
pub enum IntentState {
    /// The intent has been accepted but not authorized.
    Proposed,
    /// Policy has authorized the intent.
    Authorized,
    /// The operation is waiting for user approval.
    AwaitingApproval,
    /// The operation is executing.
    Executing,
    /// The operation is being validated.
    Verifying,
    /// The operation completed and its postconditions passed.
    Completed,
    /// Policy or the user rejected the intent.
    Rejected,
    /// Execution failed.
    Failed,
    /// Verification requested a rollback.
    RollbackRequired,
    /// Rollback completed and was verified.
    RolledBack,
    /// Rollback failed and requires operator attention.
    RollbackFailed,
}

/// The states from which no transition leads anywhere.
pub open spec fn intent_terminal(s: IntentState) -> bool {
    s == IntentState::Completed || s == IntentState::Rejected || s == IntentState::Failed || s
        == IntentState::RolledBack || s == IntentState::RollbackFailed
}

/// The lifecycle graph: which state may follow which.
pub open spec fn intent_edge(from: IntentState, to: IntentState) -> bool {
    match from {
        IntentState::Proposed => to == IntentState::Authorized || to == IntentState::Rejected,
        IntentState::Authorized => to == IntentState::AwaitingApproval || to == IntentState::Executing
            || to == IntentState::Rejected,
        IntentState::AwaitingApproval => to == IntentState::Executing || to == IntentState::Rejected,
        IntentState::Executing => to == IntentState::Verifying || to == IntentState::Failed,
        IntentState::Verifying => to == IntentState::Completed || to == IntentState::RollbackRequired
            || to == IntentState::Failed,
        IntentState::RollbackRequired => to == IntentState::RolledBack || to
            == IntentState::RollbackFailed,
        _ => false,
    }
}

/// Stable display label of an intent state.
pub open spec fn intent_state_label(s: IntentState) -> Seq<char> {
    match s {
        IntentState::Proposed => "proposed"@,
        IntentState::Authorized => "authorized"@,
        IntentState::AwaitingApproval => "awaiting-approval"@,
        IntentState::Executing => "executing"@,
        IntentState::Verifying => "verifying"@,
        IntentState::Completed => "completed"@,
        IntentState::Rejected => "rejected"@,
        IntentState::Failed => "failed"@,
        IntentState::RollbackRequired => "rollback-required"@,
        IntentState::RolledBack => "rolled-back"@,
        IntentState::RollbackFailed => "rollback-failed"@,
    }
}

impl IntentState {
    /// Return whether this is a terminal state.
    pub fn is_terminal(self) -> (b: bool)
        ensures
            b == intent_terminal(self),
    {
        match self {
            IntentState::Completed | IntentState::Rejected | IntentState::Failed
            | IntentState::RolledBack | IntentState::RollbackFailed => true,
            _ => false,
        }
    }

    /// Return a stable display label.
    pub fn as_str(self) -> (s: &'static str)
        ensures
            s@ == intent_state_label(self),
    {
        match self {
            IntentState::Proposed => "proposed",
            IntentState::Authorized => "authorized",
            IntentState::AwaitingApproval => "awaiting-approval",
            IntentState::Executing => "executing",
            IntentState::Verifying => "verifying",
            IntentState::Completed => "completed",
            IntentState::Rejected => "rejected",
            IntentState::Failed => "failed",
            IntentState::RollbackRequired => "rollback-required",
            IntentState::RolledBack => "rolled-back",
            IntentState::RollbackFailed => "rollback-failed",
        }
    }
}

/// Terminal states are exactly the states with no outgoing transition.
pub proof fn lemma_terminal_states_have_no_successor(s: IntentState)
    ensures
        intent_terminal(s) <==> forall|t: IntentState| !intent_edge(s, t),
{
    if !intent_terminal(s) {
        match s {
            IntentState::Proposed => assert(intent_edge(s, IntentState::Authorized)),
            IntentState::Authorized => assert(intent_edge(s, IntentState::Executing)),
            IntentState::AwaitingApproval => assert(intent_edge(s, IntentState::Executing)),
            IntentState::Executing => assert(intent_edge(s, IntentState::Verifying)),
            IntentState::Verifying => assert(intent_edge(s, IntentState::Completed)),
            IntentState::RollbackRequired => assert(intent_edge(s, IntentState::RolledBack)),
            _ => {},
        }
    }
}

/// No transition returns to `Proposed`, and no state leads to itself.
pub proof fn lemma_intent_graph_has_no_self_loops(s: IntentState, t: IntentState)
    requires
        intent_edge(s, t),
    ensures
        s != t,
        t != IntentState::Proposed,
{
}

/// An intent is completed only right after it was verified: `Completed`
/// follows `Verifying` and no other state. An executing intent goes on only
/// to verification or failure, so no execution completes without being
/// verified; and execution starts only from an authorized intent or one
/// that awaited approval.
pub proof fn lemma_completion_needs_verification(from: IntentState, to: IntentState)
    ensures
        intent_edge(from, IntentState::Completed) <==> from == IntentState::Verifying,
        intent_edge(IntentState::Executing, to) <==> (to == IntentState::Verifying || to == IntentState::Failed),
        intent_edge(from, IntentState::Executing) <==> (from == IntentState::Authorized || from
            == IntentState::AwaitingApproval),
{
}

/// An intent and its current lifecycle state.
#[derive(Clone, Debug, Eq, PartialEq)]
pub struct Intent {
    /// Stable intent identity.
    pub id: IntentId,
    /// User-visible description.
    pub description: String,
    /// Current state.
    pub state: IntentState,
}

impl Intent {
    /// Create a proposed intent; a blank description is refused with
    /// `InvalidInput("intent description")`.
    pub fn new(id: IntentId, description: &str) -> (r: Result<Self, OidError>)
        ensures
            if is_blank(description@) {
                r matches Err(e) && e@ == OidErrorV::InvalidInput("intent description"@)
            } else {
                r matches Ok(i) && i.id == id && i.description@ == description@ && i.state
                    == IntentState::Proposed
            },
    {
        if str_is_blank(description) {
            return Err(OidError::InvalidInput(String::from_str("intent description")));
        }
        Ok(Intent { id, description: String::from_str(description), state: IntentState::Proposed })
    }

    /// Move to `next` when the lifecycle graph has that edge; otherwise the
    /// intent is unchanged and the error names both states.
    pub fn transition(&mut self, next: IntentState) -> (r: Result<(), OidError>)
        ensures
            final(self).id == old(self).id,
            final(self).description == old(self).description,
            intent_edge(old(self).state, next) ==> r is Ok && final(self).state == next,
            !intent_edge(old(self).state, next) ==> final(self).state == old(self).state && (r matches Err(
                e,
            ) && e@ == OidErrorV::InvalidTransition {
                from: intent_state_label(old(self).state),
                to: intent_state_label(next),
            }),
    {
        let s = self.state;
        let valid = match s {
            IntentState::Proposed => next == IntentState::Authorized || next == IntentState::Rejected,
            IntentState::Authorized => next == IntentState::AwaitingApproval || next
                == IntentState::Executing || next == IntentState::Rejected,
            IntentState::AwaitingApproval => next == IntentState::Executing || next
                == IntentState::Rejected,
            IntentState::Executing => next == IntentState::Verifying || next == IntentState::Failed,
            IntentState::Verifying => next == IntentState::Completed || next
                == IntentState::RollbackRequired || next == IntentState::Failed,
            IntentState::RollbackRequired => next == IntentState::RolledBack || next
                == IntentState::RollbackFailed,
            _ => false,
        };
        if !valid {
            return Err(
                OidError::InvalidTransition {
                    from: String::from_str(s.as_str()),
                    to: String::from_str(next.as_str()),
                },
            );
        }
        self.state = next;
        Ok(())
    }
}

/// Whether `e` announces that the intent `id` entered `state`.
pub open spec fn is_state_event(e: RuntimeEvent, id: Seq<char>, state: IntentState) -> bool {
    e matches RuntimeEvent::IntentStateChanged { intent_id, state: label } && intent_id@ == id
        && label@ == intent_state_label(state)
}

/// `after` is `before` with one more event: the intent `id` entered `state`.
pub open spec fn appended_state(
    before: Seq<RuntimeEvent>,
    after: Seq<RuntimeEvent>,
    id: Seq<char>,
    state: IntentState,
) -> bool {
    &&& after.len() == before.len() + 1
    &&& after.subrange(0, before.len() as int) == before
    &&& is_state_event(after.last(), id, state)
}

/// Intent lifecycle controller that mirrors transitions onto an event log.
#[derive(Clone, Debug)]
pub struct IntentSession {
    intent: Intent,
    events: EventLog,
}

impl IntentSession {
    /// The current intent.
    pub closed spec fn current(self) -> Intent {
        self.intent
    }

    /// The events published so far, the session's own among them.
    pub closed spec fn sink(self) -> Seq<RuntimeEvent> {
        self.events@
    }

    /// Create a session and publish its proposed state; a blank description
    /// is refused as by `Intent::new`.
    pub fn new(id: IntentId, description: &str, events: EventLog) -> (r: Result<Self, OidError>)
        ensures
            if is_blank(description@) {
                r matches Err(e) && e@ == OidErrorV::InvalidInput("intent description"@)
            } else {
                r matches Ok(s) && s.current().id == id && s.current().description@ == description@
                    && s.current().state == IntentState::Proposed && appended_state(
                    events@,
                    s.sink(),
                    id@,
                    IntentState::Proposed,
                )
            },
    {
        let intent = match Intent::new(id, description) {
            Err(e) => {
                return Err(e);
            },
            Ok(i) => i,
        };
        let mut session = IntentSession { intent, events };
        session.publish_state();
        Ok(session)
    }

    /// Return the current intent snapshot.
    pub fn intent(&self) -> (r: &Intent)
        ensures
            *r == self.current(),
    {
        &self.intent
    }

    /// Return the event log.
    pub fn events(&self) -> (r: &EventLog)
        ensures
            r@ == self.sink(),
    {
        &self.events
    }

    /// Transition the intent and, when the transition is allowed, publish
    /// the new state.
    pub fn transition(&mut self, next: IntentState) -> (r: Result<(), OidError>)
        ensures
            final(self).current().id == old(self).current().id,
            final(self).current().description == old(self).current().description,
            intent_edge(old(self).current().state, next) ==> r is Ok && final(self).current().state
                == next && appended_state(old(self).sink(), final(self).sink(), old(self).current().id@, next),
            !intent_edge(old(self).current().state, next) ==> r is Err && final(self).current()
                == old(self).current() && final(self).sink() == old(self).sink(),
    {
        match self.intent.transition(next) {
            Err(e) => {
                return Err(e);
            },
            Ok(()) => {},
        }
        self.publish_state();
        Ok(())
    }

    /// Publish another event on the session's log.
    pub fn publish(&mut self, event: RuntimeEvent)
        ensures
            final(self).current() == old(self).current(),
            final(self).sink() == old(self).sink().push(event),
    {
        self.events.publish(event);
    }

    /// End the session, giving back its event log.
    pub fn into_events(self) -> (r: EventLog)
        ensures
            r@ == self.sink(),
    {
        self.events
    }

    fn publish_state(&mut self)
        ensures
            final(self).current() == old(self).current(),
            appended_state(old(self).sink(), final(self).sink(), old(self).current().id@, old(self).current().state),
    {
        let event = RuntimeEvent::IntentStateChanged {
            intent_id: self.intent.id.to_text(),
            state: String::from_str(self.intent.state.as_str()),
        };
        let ghost before = self.events@;
        self.events.publish(event);
        proof {
            assert(self.events@.subrange(0, before.len() as int) =~= before);
        }
    }
}

/// Name of the lifecycle boundary.
pub fn boundary_name() -> (s: &'static str)
    ensures
        s@ == "intent-runtime"@,
{
    "intent-runtime"
}

} // verus!
