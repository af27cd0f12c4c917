//! The lifecycle of one coordinated operation: plan, journal, record,
//! authorize, approve, execute, verify. The decisions are a state machine;
//! the caller performs each action (asking the skill, appending to the
//! journal and the evidence store, using the approval store) and feeds the
//! outcome back as the next event.
use vstd::prelude::*;
use crate::common::{error_text, EvidenceId, IntentId, OidError, OidErrorV, OperationId};
use crate::coordinator::{OperationRecord, OperationStatus};
use crate::evidence::EvidenceRecord;
use crate::operation::{plan_json, plan_violation, ApprovalRequirement, ApprovedOperationPlan, ExecutionResult, OperationPlan, VerificationResult};
use crate::policy::Approval;
use crate::text::{concat, concat3, is_blank, str_is_blank};

verus! {

/// The evidence id for a category of an operation.
pub open spec fn evidence_id_text(operation: Seq<char>, category: Seq<char>) -> Seq<char> {
    operation + "-"@ + category
}

/// The intent an operation's evidence belongs to: its plan's intent, or the
/// synthetic intent `operation-<id>`.
pub open spec fn evidence_intent(operation: Seq<char>, intent: Option<Seq<char>>) -> Seq<char> {
    match intent {
        Some(i) => i,
        None => "operation-"@ + operation,
    }
}

/// The evidence record for a category of an operation, or why it cannot be
/// made.
pub open spec fn evidence_spec(
    operation: Seq<char>,
    intent: Option<Seq<char>>,
    category: Seq<char>,
    details: Seq<char>,
) -> Result<(Seq<char>, Seq<char>, Seq<char>, Seq<char>, Seq<char>), OidErrorV> {
    if is_blank(evidence_id_text(operation, category)) {
        Err(OidErrorV::Evidence(error_text(OidErrorV::InvalidInput("EvidenceId"@))))
    } else {
        Ok((evidence_id_text(operation, category), evidence_intent(operation, intent), operation, category, details))
    }
}

/// The synthetic intent id is never blank.
proof fn lemma_operation_intent_not_blank(operation: Seq<char>)
    ensures
        !is_blank("operation-"@ + operation),
{
    reveal_strlit("operation-");
    assert(("operation-"@ + operation)[0] == 'o');
}

/// Build the evidence record for a category of an operation.
pub fn evidence_for(
    operation_id: &OperationId,
    intent: &Option<IntentId>,
    category: &str,
    details: &str,
) -> (r: Result<EvidenceRecord, OidError>)
    ensures
        match evidence_spec(
            operation_id@,
            match intent {
                Some(i) => Some(i@),
                None => None,
            },
            category@,
            details@,
        ) {
            Ok(v) => r matches Ok(rec) && crate::evidence::evidence_view(rec) == v,
            Err(e) => r matches Err(x) && x@ == e,
        },
{
    let id_text = concat3(operation_id.as_str(), "-", category);
    let id = match EvidenceId::new(id_text.as_str()) {
        Ok(id) => id,
        Err(e) => {
            return Err(OidError::Evidence(e.to_text()));
        },
    };
    let intent_id = match intent {
        Some(i) => i.copy(),
        None => {
            let text = concat("operation-", operation_id.as_str());
            proof {
                lemma_operation_intent_not_blank(operation_id@);
            }
            match IntentId::new(text.as_str()) {
                Ok(i) => i,
                Err(_) => vstd::pervasive::unreached(),
            }
        },
    };
    Ok(
        EvidenceRecord {
            id,
            intent_id,
            operation_id: operation_id.copy(),
            category: String::from_str(category),
            details: String::from_str(details),
        },
    )
}

/// Where a run stands: the outcome the machine waits for next.
#[derive(Clone, Copy, Debug, Eq, PartialEq, Structural)]
pub enum RunStage {
    /// Waiting for the skill's plan.
    Planning,
    /// The `Planned` transition is being journaled.
    JournalPlanned,
    /// The plan is being recorded as evidence.
    RecordPlan,
    /// The approval store is asked whether the operation is approved.
    CheckApproval,
    /// An approval is being requested.
    RequestApproval,
    /// The `AwaitingApproval` transition is being journaled.
    JournalAwaiting,
    /// The approval is being granted.
    GrantApproval,
    /// The approval is being consumed.
    ConsumeApproval,
    /// The `Approved` transition is being journaled.
    JournalApproved,
    /// The approval is being recorded as evidence.
    RecordApproval,
    /// The `Executing` transition is being journaled.
    JournalExecuting,
    /// The skill is executing.
    Executing,
    /// The `Executed` transition is being journaled.
    JournalExecuted,
    /// The execution is being recorded as evidence.
    RecordExecution,
    /// The skill is verifying.
    Verifying,
    /// The verification is being recorded as evidence.
    RecordVerification,
    /// The `Verified` transition is being journaled.
    JournalVerified,
    /// The `Failed` transition is being journaled before the failure is returned.
    JournalFailed,
    /// The run is over.
    Done,
}

/// The position of a stage in the lifecycle; every step moves forward.
pub open spec fn stage_rank(s: RunStage) -> nat {
    match s {
        RunStage::Planning => 0,
        RunStage::JournalPlanned => 1,
        RunStage::RecordPlan => 2,
        RunStage::CheckApproval => 3,
        RunStage::RequestApproval => 4,
        RunStage::JournalAwaiting => 5,
        RunStage::GrantApproval => 6,
        RunStage::ConsumeApproval => 7,
        RunStage::JournalApproved => 8,
        RunStage::RecordApproval => 9,
        RunStage::JournalExecuting => 10,
        RunStage::Executing => 11,
        RunStage::JournalExecuted => 12,
        RunStage::RecordExecution => 13,
        RunStage::Verifying => 14,
        RunStage::RecordVerification => 15,
        RunStage::JournalVerified => 16,
        RunStage::JournalFailed => 17,
        RunStage::Done => 18,
    }
}

/// The outcome of an action, fed back to the machine.
#[derive(Debug)]
pub enum RunEvent {
    /// The skill's plan and whether the skill mutates the system, or why
    /// there is none (an unknown skill included).
    Planned(Result<(OperationPlan, bool), OidError>),
    /// The outcome of a journal append, an evidence append, or a change of
    /// the approval store.
    Stored(Result<(), OidError>),
    /// Whether the operation was already approved.
    ApprovalChecked(Result<bool, OidError>),
    /// The skill's execution outcome.
    Executed(Result<ExecutionResult, OidError>),
    /// The skill's verification outcome.
    Verified(Result<VerificationResult, OidError>),
}

/// What the machine asks the caller to do next.
#[derive(Debug)]
pub enum RunAction {
    /// Append a transition to the operation journal.
    Journal(OperationRecord),
    /// Append an evidence record.
    Record(EvidenceRecord),
    /// Ask the approval store whether the operation is approved.
    CheckApproval(OperationId),
    /// Ask the approval store for a new approval request.
    RequestApproval(OperationId),
    /// Record an approval in the approval store.
    Approve(Approval),
    /// Consume the operation's approval.
    Consume(OperationId),
    /// Execute the approved plan with the skill.
    Execute(ApprovedOperationPlan),
    /// Verify an execution with the skill.
    Verify(ExecutionResult),
    /// The run is over, with this result.
    Finish(Result<ExecutionResult, OidError>),
}

/// Whether a stage waits for the outcome of an action: a check of the
/// approval store, an execution, a verification, the end of the run, or
/// else the outcome of a store change.
pub open spec fn awaits(a: RunAction, s: RunStage) -> bool {
    match a {
        RunAction::CheckApproval(_) => s == RunStage::CheckApproval,
        RunAction::Execute(_) => s == RunStage::Executing,
        RunAction::Verify(_) => s == RunStage::Verifying,
        RunAction::Finish(_) => s == RunStage::Done,
        _ => s != RunStage::Planning && s != RunStage::CheckApproval && s != RunStage::Executing && s
            != RunStage::Verifying && s != RunStage::Done,
    }
}

/// Whether an action appends this transition.
pub open spec fn journals(a: RunAction, id: Seq<char>, status: OperationStatus, detail: Seq<char>) -> bool {
    a matches RunAction::Journal(rec) && rec.operation_id@ == id && rec.status == status && rec.detail@ == detail
}

/// Whether an action records this evidence, or finishes with the error that
/// building it gives.
pub open spec fn records(a: RunAction, id: Seq<char>, intent: Option<Seq<char>>, category: Seq<char>, details: Seq<char>) -> bool {
    match evidence_spec(id, intent, category, details) {
        Ok(v) => a matches RunAction::Record(rec) && crate::evidence::evidence_view(rec) == v,
        Err(e) => a matches RunAction::Finish(Err(x)) && x@ == e,
    }
}

/// Whether an action finishes with this error.
pub open spec fn fails_with(a: RunAction, e: OidErrorV) -> bool {
    a matches RunAction::Finish(Err(x)) && x@ == e
}

/// Whether a plan needs approval: by its own declaration, or because the
/// read-only policy asks it of every skill that mutates the system.
pub open spec fn needs_approval(plan: OperationPlan, mutates: bool) -> bool {
    plan.approval != ApprovalRequirement::NotRequired || mutates
}


/// The machine's data other than its stage is the same in both.
pub open spec fn unchanged_data(m: RunMachine, n: RunMachine) -> bool {
    &&& m.approve_flag() == n.approve_flag()
    &&& m.pending_plan() == n.pending_plan()
    &&& m.has_operation() == n.has_operation()
    &&& m.operation() == n.operation()
    &&& m.intent_of() == n.intent_of()
    &&& m.requires_approval() == n.requires_approval()
    &&& m.was_approved() == n.was_approved()
    &&& m.approved_plan() == n.approved_plan()
    &&& m.execution() == n.execution()
    &&& m.verification() == n.verification()
    &&& m.pending_failure() == n.pending_failure()
}

/// The machine moved to `s`, keeping its data.
pub open spec fn moved(m: RunMachine, n: RunMachine, s: RunStage) -> bool {
    n.stage() == s && unchanged_data(m, n)
}

/// The machine's data is what its stage needs: once planned it knows the
/// operation; it holds the plan until approval, the approved plan until
/// execution, the result until the end, and the failure it must return.
pub open spec fn run_wf(m: RunMachine) -> bool {
    run_wf_shape(m) && gated(m)
}

/// The data the machine holds at each stage.
pub open spec fn run_wf_shape(m: RunMachine) -> bool {
    &&& (m.stage() != RunStage::Planning && m.stage() != RunStage::Done ==> m.has_operation())
    &&& (m.stage() == RunStage::JournalPlanned || m.stage() == RunStage::RecordPlan || m.stage() == RunStage::CheckApproval
        || m.stage() == RunStage::RequestApproval || m.stage() == RunStage::JournalAwaiting || m.stage()
        == RunStage::GrantApproval ==> m.pending_plan() is Some)
    &&& (m.stage() == RunStage::ConsumeApproval || m.stage() == RunStage::JournalApproved || m.stage()
        == RunStage::RecordApproval || m.stage() == RunStage::JournalExecuting ==> m.approved_plan() is Some)
    &&& (m.stage() == RunStage::JournalExecuted || m.stage() == RunStage::RecordExecution || m.stage()
        == RunStage::Verifying || m.stage() == RunStage::RecordVerification || m.stage() == RunStage::JournalVerified
        ==> m.execution() is Some)
    &&& (m.stage() == RunStage::JournalFailed ==> m.pending_failure() is Some)
}

/// The approval gate: a run reaches approval of its plan, and everything
/// after it (execution included), only when the plan needs no approval,
/// the caller approved it, or it was approved before; a new approval is
/// granted only when the caller approved.
pub open spec fn gated(m: RunMachine) -> bool {
    &&& (m.stage() == RunStage::GrantApproval ==> m.approve_flag())
    &&& (stage_rank(m.stage()) >= stage_rank(RunStage::ConsumeApproval) && m.stage() != RunStage::Done ==> (
    !m.requires_approval() || m.approve_flag() || m.was_approved()))
}

/// The approval step after the approval was checked, asked for and
/// journaled: a run the caller did not approve stops with
/// `ApprovalRequired(<id>)`; otherwise a new approval is granted, or the
/// plan is approved and the existing approval consumed.
pub open spec fn after_awaiting(m: RunMachine, n: RunMachine, a: RunAction) -> bool {
    if !m.approve_flag() && !m.was_approved() {
        fails_with(a, OidErrorV::ApprovalRequired(m.operation())) && n.stage() == RunStage::Done
    } else if m.approve_flag() && !m.was_approved() {
        &&& a matches RunAction::Approve(ap) && ap.operation_id@ == m.operation() && ap.note@ == "approved by coordinator"@
        &&& moved(m, n, RunStage::GrantApproval)
    } else {
        approves_and(m, n, a, true)
    }
}

/// Approving the pending plan as the coordinator: an invalid plan stops the
/// run with the error `validate` gives; otherwise the approved plan is kept
/// and the approval is consumed (when one was needed) or the `Approved`
/// transition journaled.
pub open spec fn approves_and(m: RunMachine, n: RunMachine, a: RunAction, consume: bool) -> bool {
    match m.pending_plan() {
        None => false,
        Some(plan) => match plan_violation(plan) {
            Some(v) => fails_with(a, OidErrorV::InvalidInput(v)) && n.stage() == RunStage::Done,
            None => {
                &&& (n.approved_plan() matches Some(ap) && ap.plan == plan && ap.approved_by@ == "coordinator"@)
                &&& n.pending_plan() is None
                &&& if consume {
                    &&& a matches RunAction::Consume(id) && id@ == m.operation()
                    &&& n.stage() == RunStage::ConsumeApproval
                } else {
                    &&& journals(a, m.operation(), OperationStatus::Approved, "approval complete"@)
                    &&& n.stage() == RunStage::JournalApproved
                }
                &&& n.operation() == m.operation()
                &&& n.intent_of() == m.intent_of()
                &&& n.has_operation() == m.has_operation()
            },
        },
    }
}

/// What one step of the machine does with the outcome it waited for. Every
/// failed action ends the run with its error.
pub open spec fn step_relation(m: RunMachine, e: RunEvent, n: RunMachine, a: RunAction) -> bool {
    match e {
        RunEvent::Planned(Err(x)) => fails_with(a, x@) && n.stage() == RunStage::Done,
        RunEvent::Stored(Err(x)) => fails_with(a, x@) && n.stage() == RunStage::Done,
        RunEvent::ApprovalChecked(Err(x)) => fails_with(a, x@) && n.stage() == RunStage::Done,
        RunEvent::Verified(Err(x)) => fails_with(a, x@) && n.stage() == RunStage::Done,
        RunEvent::Planned(Ok((plan, mutates))) => {
            &&& journals(a, plan.id@, OperationStatus::Planned, plan.summary@)
            &&& n.stage() == RunStage::JournalPlanned
            &&& n.pending_plan() == Some(plan)
            &&& n.operation() == plan.id@
            &&& n.intent_of() == (match plan.intent {
                Some(i) => Some(i.id@),
                None => None,
            })
            &&& n.requires_approval() == needs_approval(plan, mutates)
            &&& n.approve_flag() == m.approve_flag()
        },
        RunEvent::ApprovalChecked(Ok(already)) => {
            &&& n.was_approved() == already
            &&& if already {
                &&& journals(a, m.operation(), OperationStatus::AwaitingApproval, "approval required"@)
                &&& n.stage() == RunStage::JournalAwaiting
            } else {
                &&& a matches RunAction::RequestApproval(id) && id@ == m.operation()
                &&& n.stage() == RunStage::RequestApproval
            }
            &&& n.approve_flag() == m.approve_flag()
            &&& n.pending_plan() == m.pending_plan()
            &&& n.operation() == m.operation()
            &&& n.intent_of() == m.intent_of()
        },
        RunEvent::Executed(Err(x)) => {
            &&& journals(a, m.operation(), OperationStatus::Failed, error_text(x@))
            &&& n.stage() == RunStage::JournalFailed
            &&& n.pending_failure() == Some(x@)
        },
        RunEvent::Executed(Ok(result)) => {
            &&& journals(a, m.operation(), OperationStatus::Executed, result.summary@)
            &&& n.stage() == RunStage::JournalExecuted
            &&& n.execution() == Some(result)
            &&& n.operation() == m.operation()
            &&& n.intent_of() == m.intent_of()
        },
        RunEvent::Verified(Ok(v)) => {
            &&& records(a, m.operation(), m.intent_of(), "verification"@, v.summary@)
            &&& (a is Record ==> n.stage() == RunStage::RecordVerification && n.verification() == (v.passed, v.summary@)
                && n.execution() == m.execution() && n.operation() == m.operation())
            &&& (a is Finish ==> n.stage() == RunStage::Done)
        },
        RunEvent::Stored(Ok(())) => match m.stage() {
            RunStage::JournalPlanned => match m.pending_plan() {
                None => false,
                Some(plan) => match plan_violation(plan) {
                    Some(v) => fails_with(a, OidErrorV::InvalidInput(v)) && n.stage() == RunStage::Done,
                    None => {
                        &&& records(a, m.operation(), m.intent_of(), "plan"@, plan_json(plan))
                        &&& (a is Record ==> moved(m, n, RunStage::RecordPlan))
                        &&& (a is Finish ==> n.stage() == RunStage::Done)
                    },
                },
            },
            RunStage::RecordPlan => if m.requires_approval() {
                &&& a matches RunAction::CheckApproval(id) && id@ == m.operation()
                &&& moved(m, n, RunStage::CheckApproval)
            } else {
                approves_and(m, n, a, false)
            },
            RunStage::RequestApproval => {
                &&& journals(a, m.operation(), OperationStatus::AwaitingApproval, "approval required"@)
                &&& moved(m, n, RunStage::JournalAwaiting)
            },
            RunStage::JournalAwaiting => after_awaiting(m, n, a),
            RunStage::GrantApproval => approves_and(m, n, a, true),
            RunStage::ConsumeApproval => {
                &&& journals(a, m.operation(), OperationStatus::Approved, "approval complete"@)
                &&& moved(m, n, RunStage::JournalApproved)
            },
            RunStage::JournalApproved => {
                &&& records(a, m.operation(), m.intent_of(), "approval"@, "user approval recorded"@)
                &&& (a is Record ==> moved(m, n, RunStage::RecordApproval))
                &&& (a is Finish ==> n.stage() == RunStage::Done)
            },
            RunStage::RecordApproval => {
                &&& journals(a, m.operation(), OperationStatus::Executing, "skill execution started"@)
                &&& moved(m, n, RunStage::JournalExecuting)
            },
            RunStage::JournalExecuting => {
                &&& a matches RunAction::Execute(ap) && Some(ap) == m.approved_plan()
                &&& n.stage() == RunStage::Executing
                &&& n.operation() == m.operation()
                &&& n.intent_of() == m.intent_of()
            },
            RunStage::JournalExecuted => match m.execution() {
                None => false,
                Some(result) => {
                    &&& records(a, m.operation(), m.intent_of(), "execution"@, result.summary@)
                    &&& (a is Record ==> moved(m, n, RunStage::RecordExecution))
                    &&& (a is Finish ==> n.stage() == RunStage::Done)
                },
            },
            RunStage::RecordExecution => match m.execution() {
                None => false,
                Some(result) => {
                    &&& a matches RunAction::Verify(r) && r == result
                    &&& moved(m, n, RunStage::Verifying)
                },
            },
            RunStage::RecordVerification => if m.verification().0 {
                &&& journals(a, m.operation(), OperationStatus::Verified, m.verification().1)
                &&& moved(m, n, RunStage::JournalVerified)
            } else {
                &&& journals(a, m.operation(), OperationStatus::Failed, m.verification().1)
                &&& n.stage() == RunStage::JournalFailed
                &&& n.pending_failure() == Some(OidErrorV::Verification(m.verification().1))
            },
            RunStage::JournalVerified => match m.execution() {
                None => false,
                Some(result) => a == RunAction::Finish(Ok(result)) && n.stage() == RunStage::Done,
            },
            RunStage::JournalFailed => match m.pending_failure() {
                None => false,
                Some(f) => fails_with(a, f) && n.stage() == RunStage::Done,
            },
            _ => false,
        },
    }
}

/// The machine that drives one run of a skill.
#[derive(Debug)]
pub struct RunMachine {
    stage: RunStage,
    approve: bool,
    plan: Option<OperationPlan>,
    operation_id: Option<OperationId>,
    intent: Option<IntentId>,
    approval_required: bool,
    already_approved: bool,
    approved: Option<ApprovedOperationPlan>,
    result: Option<ExecutionResult>,
    passed: bool,
    summary: String,
    failure: Option<OidError>,
}

impl RunMachine {
    /// The stage the run is at.
    pub closed spec fn stage(self) -> RunStage {
        self.stage
    }

    /// Whether the caller approved the run.
    pub closed spec fn approve_flag(self) -> bool {
        self.approve
    }

    /// The plan, until it is approved.
    pub closed spec fn pending_plan(self) -> Option<OperationPlan> {
        self.plan
    }

    /// Whether the machine knows the operation's id.
    pub closed spec fn has_operation(self) -> bool {
        self.operation_id is Some
    }

    /// The operation's id, once planned.
    pub closed spec fn operation(self) -> Seq<char> {
        match self.operation_id {
            Some(id) => id@,
            None => Seq::empty(),
        }
    }

    /// The operation's intent, once planned.
    pub closed spec fn intent_of(self) -> Option<Seq<char>> {
        match self.intent {
            Some(i) => Some(i@),
            None => None,
        }
    }

    /// Whether the run needs approval.
    pub closed spec fn requires_approval(self) -> bool {
        self.approval_required
    }

    /// Whether the operation was approved before the run.
    pub closed spec fn was_approved(self) -> bool {
        self.already_approved
    }

    /// The approved plan, until it is executed.
    pub closed spec fn approved_plan(self) -> Option<ApprovedOperationPlan> {
        self.approved
    }

    /// The execution result, once executed.
    pub closed spec fn execution(self) -> Option<ExecutionResult> {
        self.result
    }

    /// Whether verification passed, and its summary.
    pub closed spec fn verification(self) -> (bool, Seq<char>) {
        (self.passed, self.summary@)
    }

    /// The failure to return once it is journaled.
    pub closed spec fn pending_failure(self) -> Option<OidErrorV> {
        match self.failure {
            Some(e) => Some(e@),
            None => None,
        }
    }

    /// Whether the event is the outcome the machine waits for.
    pub open spec fn accepts(self, event: RunEvent) -> bool {
        match self.stage() {
            RunStage::Planning => event is Planned,
            RunStage::CheckApproval => event is ApprovalChecked,
            RunStage::Executing => event is Executed,
            RunStage::Verifying => event is Verified,
            RunStage::Done => false,
            _ => event is Stored,
        }
    }

    /// A machine for a run; `approve` is the caller's approval of a plan
    /// that needs one. The first action is to ask the skill for its plan.
    pub fn new(approve: bool) -> (r: Self)
        ensures
            r.stage() == RunStage::Planning,
            r.approve_flag() == approve,
            !r.was_approved(),
    {
        RunMachine {
            stage: RunStage::Planning,
            approve,
            plan: None,
            operation_id: None,
            intent: None,
            approval_required: false,
            already_approved: false,
            approved: None,
            result: None,
            passed: false,
            summary: String::new(),
            failure: None,
        }
    }

    /// Whether the run is over.
    pub fn is_done(&self) -> (b: bool)
        ensures
            b == (self.stage() == RunStage::Done),
    {
        self.stage == RunStage::Done
    }

    /// Ends the run with a result.
    fn finish(&mut self, result: Result<ExecutionResult, OidError>) -> (a: RunAction)
        ensures
            *final(self) == (RunMachine { stage: RunStage::Done, ..*old(self) }),
            a == RunAction::Finish(result),
    {
        self.stage = RunStage::Done;
        RunAction::Finish(result)
    }

    /// Journals a transition of the operation and moves to `next`.
    fn journal(&mut self, status: OperationStatus, detail: &str, next: RunStage) -> (a: RunAction)
        requires
            old(self).operation_id is Some,
        ensures
            journals(a, old(self).operation(), status, detail@),
            final(self).stage() == next,
            *final(self) == (RunMachine { stage: next, ..*old(self) }),
    {
        let id = match &self.operation_id {
            Some(id) => id.copy(),
            None => vstd::pervasive::unreached(),
        };
        self.stage = next;
        RunAction::Journal(OperationRecord { operation_id: id, status, detail: String::from_str(detail) })
    }

    /// Records evidence of the operation and moves to `next`, or finishes
    /// with the error building the record gives.
    fn record(&mut self, category: &str, details: &str, next: RunStage) -> (a: RunAction)
        requires
            old(self).operation_id is Some,
        ensures
            records(a, old(self).operation(), old(self).intent_of(), category@, details@),
            a is Record ==> *final(self) == (RunMachine { stage: next, ..*old(self) }),
            a is Finish ==> *final(self) == (RunMachine { stage: RunStage::Done, ..*old(self) }),
    {
        let id = match &self.operation_id {
            Some(id) => id.copy(),
            None => vstd::pervasive::unreached(),
        };
        match evidence_for(&id, &self.intent, category, details) {
            Ok(rec) => {
                self.stage = next;
                RunAction::Record(rec)
            },
            Err(e) => self.finish(Err(e)),
        }
    }
}

impl RunMachine {
    /// Approves the pending plan as the coordinator, then consumes the
    /// approval or journals `Approved`.
    fn approve_plan(&mut self, consume: bool) -> (a: RunAction)
        requires
            old(self).pending_plan() is Some,
            old(self).has_operation(),
        ensures
            approves_and(*old(self), *final(self), a, consume),
            final(self).approve_flag() == old(self).approve_flag(),
            final(self).requires_approval() == old(self).requires_approval(),
            final(self).was_approved() == old(self).was_approved(),
            final(self).operation() == old(self).operation(),
            !old(self).requires_approval() || old(self).approve_flag() || old(self).was_approved() ==> gated(
                *final(self),
            ),
            run_wf_shape(*final(self)),
            stage_rank(final(self).stage()) > stage_rank(RunStage::GrantApproval),
    {
        let mut taken: Option<OperationPlan> = None;
        std::mem::swap(&mut taken, &mut self.plan);
        let plan = match taken {
            Some(p) => p,
            None => vstd::pervasive::unreached(),
        };
        proof {
            reveal_strlit("coordinator");
            assert(!is_blank("coordinator"@)) by {
                assert("coordinator"@[0] == 'c');
            }
        }
        match ApprovedOperationPlan::new(plan, "coordinator") {
            Err(e) => self.finish(Err(e)),
            Ok(approved) => {
                self.approved = Some(approved);
                if consume {
                    let id = match &self.operation_id {
                        Some(id) => id.copy(),
                        None => vstd::pervasive::unreached(),
                    };
                    self.stage = RunStage::ConsumeApproval;
                    RunAction::Consume(id)
                } else {
                    self.journal(OperationStatus::Approved, "approval complete", RunStage::JournalApproved)
                }
            },
        }
    }

    /// Take the outcome of the last action and decide the next one.
    #[verifier::rlimit(60)]
    pub fn step(&mut self, event: RunEvent) -> (a: RunAction)
        requires
            run_wf(*old(self)),
            old(self).accepts(event),
        ensures
            step_relation(*old(self), event, *final(self), a),
            run_wf(*final(self)),
            stage_rank(final(self).stage()) > stage_rank(old(self).stage()),
            a is Finish <==> final(self).stage() == RunStage::Done,
            awaits(a, final(self).stage()),
            final(self).approve_flag() == old(self).approve_flag(),
            old(self).stage() != RunStage::Planning ==> final(self).requires_approval() == old(self).requires_approval(),
            old(self).stage() != RunStage::CheckApproval ==> final(self).was_approved() == old(self).was_approved(),
            old(self).stage() != RunStage::Planning ==> final(self).operation() == old(self).operation(),
            a matches RunAction::CheckApproval(id) ==> id@ == final(self).operation() && final(self).requires_approval(),
            a matches RunAction::Finish(Ok(_)) ==> old(self).stage() == RunStage::JournalVerified,
            final(self).stage() == RunStage::JournalVerified ==> (a matches RunAction::Journal(rec) && rec.status
                == OperationStatus::Verified && rec.operation_id@ == final(self).operation()),
    {
        match event {
            RunEvent::Planned(Err(x)) => self.finish(Err(x)),
            RunEvent::Stored(Err(x)) => self.finish(Err(x)),
            RunEvent::ApprovalChecked(Err(x)) => self.finish(Err(x)),
            RunEvent::Verified(Err(x)) => self.finish(Err(x)),
            RunEvent::Planned(Ok((plan, mutates))) => {
                self.operation_id = Some(plan.id.copy());
                self.intent = match &plan.intent {
                    Some(i) => Some(i.id.copy()),
                    None => None,
                };
                self.approval_required = plan.approval != ApprovalRequirement::NotRequired || mutates;
                let summary = plan.summary.clone();
                self.plan = Some(plan);
                self.journal(OperationStatus::Planned, summary.as_str(), RunStage::JournalPlanned)
            },
            RunEvent::ApprovalChecked(Ok(already)) => {
                self.already_approved = already;
                if already {
                    self.journal(OperationStatus::AwaitingApproval, "approval required", RunStage::JournalAwaiting)
                } else {
                    let id = match &self.operation_id {
                        Some(id) => id.copy(),
                        None => vstd::pervasive::unreached(),
                    };
                    self.stage = RunStage::RequestApproval;
                    RunAction::RequestApproval(id)
                }
            },
            RunEvent::Executed(Err(x)) => {
                let detail = x.to_text();
                self.failure = Some(x);
                self.journal(OperationStatus::Failed, detail.as_str(), RunStage::JournalFailed)
            },
            RunEvent::Executed(Ok(result)) => {
                let summary = result.summary.clone();
                self.result = Some(result);
                self.journal(OperationStatus::Executed, summary.as_str(), RunStage::JournalExecuted)
            },
            RunEvent::Verified(Ok(v)) => {
                let id = match &self.operation_id {
                    Some(id) => id.copy(),
                    None => vstd::pervasive::unreached(),
                };
                match evidence_for(&id, &self.intent, "verification", v.summary.as_str()) {
                    Err(e) => self.finish(Err(e)),
                    Ok(rec) => {
                        self.passed = v.passed;
                        self.summary = v.summary;
                        self.stage = RunStage::RecordVerification;
                        RunAction::Record(rec)
                    },
                }
            },
            RunEvent::Stored(Ok(())) => self.stored(),
        }
    }

    /// The next action after a successful journal, evidence or approval
    /// store change.
    fn stored(&mut self) -> (a: RunAction)
        requires
            run_wf(*old(self)),
            old(self).stage() != RunStage::Planning,
            old(self).stage() != RunStage::CheckApproval,
            old(self).stage() != RunStage::Executing,
            old(self).stage() != RunStage::Verifying,
            old(self).stage() != RunStage::Done,
        ensures
            step_relation(*old(self), RunEvent::Stored(Ok(())), *final(self), a),
            run_wf(*final(self)),
            stage_rank(final(self).stage()) > stage_rank(old(self).stage()),
            a is Finish <==> final(self).stage() == RunStage::Done,
            final(self).approve_flag() == old(self).approve_flag(),
            final(self).requires_approval() == old(self).requires_approval(),
            final(self).was_approved() == old(self).was_approved(),
            final(self).operation() == old(self).operation(),
            a matches RunAction::CheckApproval(id) ==> id@ == final(self).operation() && final(self).requires_approval(),
            a matches RunAction::Finish(Ok(_)) ==> old(self).stage() == RunStage::JournalVerified,
            final(self).stage() == RunStage::JournalVerified ==> (a matches RunAction::Journal(rec) && rec.status
                == OperationStatus::Verified && rec.operation_id@ == final(self).operation()),
    {
        match self.stage {
            RunStage::JournalPlanned => {
                let json = match &self.plan {
                    Some(plan) => plan.to_json(),
                    None => vstd::pervasive::unreached(),
                };
                match json {
                    Err(e) => self.finish(Err(e)),
                    Ok(json) => self.record("plan", json.as_str(), RunStage::RecordPlan),
                }
            },
            RunStage::RecordPlan => {
                if self.approval_required {
                    let id = match &self.operation_id {
                        Some(id) => id.copy(),
                        None => vstd::pervasive::unreached(),
                    };
                    self.stage = RunStage::CheckApproval;
                    RunAction::CheckApproval(id)
                } else {
                    self.approve_plan(false)
                }
            },
            RunStage::RequestApproval => {
                self.journal(OperationStatus::AwaitingApproval, "approval required", RunStage::JournalAwaiting)
            },
            RunStage::JournalAwaiting => {
                if !self.approve && !self.already_approved {
                    let id = match &self.operation_id {
                        Some(id) => id.to_text(),
                        None => vstd::pervasive::unreached(),
                    };
                    self.finish(Err(OidError::ApprovalRequired(id)))
                } else if self.approve && !self.already_approved {
                    let id = match &self.operation_id {
                        Some(id) => id.copy(),
                        None => vstd::pervasive::unreached(),
                    };
                    self.stage = RunStage::GrantApproval;
                    RunAction::Approve(Approval { operation_id: id, note: String::from_str("approved by coordinator") })
                } else {
                    self.approve_plan(true)
                }
            },
            RunStage::GrantApproval => self.approve_plan(true),
            RunStage::ConsumeApproval => {
                self.journal(OperationStatus::Approved, "approval complete", RunStage::JournalApproved)
            },
            RunStage::JournalApproved => self.record("approval", "user approval recorded", RunStage::RecordApproval),
            RunStage::RecordApproval => {
                self.journal(OperationStatus::Executing, "skill execution started", RunStage::JournalExecuting)
            },
            RunStage::JournalExecuting => {
                let mut taken: Option<ApprovedOperationPlan> = None;
                std::mem::swap(&mut taken, &mut self.approved);
                let approved = match taken {
                    Some(ap) => ap,
                    None => vstd::pervasive::unreached(),
                };
                self.stage = RunStage::Executing;
                RunAction::Execute(approved)
            },
            RunStage::JournalExecuted => {
                let summary = match &self.result {
                    Some(r) => r.summary.clone(),
                    None => vstd::pervasive::unreached(),
                };
                self.record("execution", summary.as_str(), RunStage::RecordExecution)
            },
            RunStage::RecordExecution => {
                let result = match &self.result {
                    Some(r) => duplicate_result(r),
                    None => vstd::pervasive::unreached(),
                };
                self.stage = RunStage::Verifying;
                RunAction::Verify(result)
            },
            RunStage::RecordVerification => {
                let summary = self.summary.clone();
                if self.passed {
                    self.journal(OperationStatus::Verified, summary.as_str(), RunStage::JournalVerified)
                } else {
                    self.failure = Some(OidError::Verification(summary.clone()));
                    self.journal(OperationStatus::Failed, summary.as_str(), RunStage::JournalFailed)
                }
            },
            RunStage::JournalVerified => {
                let mut taken: Option<ExecutionResult> = None;
                std::mem::swap(&mut taken, &mut self.result);
                let result = match taken {
                    Some(r) => r,
                    None => vstd::pervasive::unreached(),
                };
                self.finish(Ok(result))
            },
            RunStage::JournalFailed => {
                let mut taken: Option<OidError> = None;
                std::mem::swap(&mut taken, &mut self.failure);
                let failure = match taken {
                    Some(f) => f,
                    None => vstd::pervasive::unreached(),
                };
                self.finish(Err(failure))
            },
            _ => vstd::pervasive::unreached(),
        }
    }
}

/// When a run needs approval, the `Approved` transition is journaled only
/// right after the approval was consumed, so execution never starts on an
/// unconsumed approval.
pub proof fn lemma_approved_only_after_consume(m: RunMachine, e: RunEvent, n: RunMachine, a: RunAction)
    requires
        step_relation(m, e, n, a),
        m.requires_approval(),
        n.stage() == RunStage::JournalApproved,
    ensures
        m.stage() == RunStage::ConsumeApproval,
{
}

/// A run that needs approval, was not approved before, and that the caller
/// did not approve stops at the approval step with `ApprovalRequired`.
pub proof fn lemma_unapproved_run_stops(m: RunMachine, n: RunMachine, a: RunAction)
    requires
        step_relation(m, RunEvent::Stored(Ok(())), n, a),
        m.stage() == RunStage::JournalAwaiting,
        !m.approve_flag(),
        !m.was_approved(),
    ensures
        fails_with(a, OidErrorV::ApprovalRequired(m.operation())),
        n.stage() == RunStage::Done,
{
}

/// The evidence id of a category of an operation is never blank: it holds
/// the `-` between the two.
proof fn lemma_evidence_id_not_blank(operation: Seq<char>, category: Seq<char>)
    ensures
        !is_blank(evidence_id_text(operation, category)),
{
    reveal_strlit("-");
    let s = evidence_id_text(operation, category);
    assert(s[operation.len() as int] == '-');
}

/// Whether an outcome is a success: a valid plan, a store change that went
/// through, an answer of the approval store, an execution, or a
/// verification that passed.
pub open spec fn succeeded(e: RunEvent) -> bool {
    match e {
        RunEvent::Planned(Ok((plan, _))) => plan_violation(plan) is None,
        RunEvent::Stored(Ok(())) => true,
        RunEvent::ApprovalChecked(Ok(_)) => true,
        RunEvent::Executed(Ok(_)) => true,
        RunEvent::Verified(Ok(v)) => v.passed,
        _ => false,
    }
}

/// The stages at which the machine holds the plan awaiting approval.
pub open spec fn holds_plan(s: RunStage) -> bool {
    s == RunStage::JournalPlanned || s == RunStage::RecordPlan || s == RunStage::CheckApproval || s
        == RunStage::RequestApproval || s == RunStage::JournalAwaiting || s == RunStage::GrantApproval
}

/// A run on its way to success: the plan it holds is valid, the
/// verification it recorded passed, and no failure is pending.
pub open spec fn on_track(m: RunMachine) -> bool {
    &&& (holds_plan(m.stage()) ==> (m.pending_plan() matches Some(p) && plan_violation(p) is None))
    &&& (m.stage() == RunStage::RecordVerification ==> m.verification().0)
    &&& m.stage() != RunStage::JournalFailed
}

/// A run on its way to success that is fed a successful outcome stays on its
/// way. It finishes only after the last journal write, with success, or at
/// the approval step, when neither the caller nor an earlier approval
/// approved the plan, with `ApprovalRequired(<operation>)`.
pub proof fn lemma_successful_step_continues(m: RunMachine, e: RunEvent, n: RunMachine, a: RunAction)
    requires
        run_wf(m),
        m.accepts(e),
        step_relation(m, e, n, a),
        succeeded(e),
        on_track(m),
    ensures
        a is Finish ==> (m.stage() == RunStage::JournalVerified && a matches RunAction::Finish(Ok(_))) || (m.stage()
            == RunStage::JournalAwaiting && !m.approve_flag() && !m.was_approved() && fails_with(
            a,
            OidErrorV::ApprovalRequired(m.operation()),
        )),
        n.stage() != RunStage::Done ==> on_track(n),
{
    lemma_evidence_id_not_blank(m.operation(), "plan"@);
    lemma_evidence_id_not_blank(m.operation(), "approval"@);
    lemma_evidence_id_not_blank(m.operation(), "execution"@);
    lemma_evidence_id_not_blank(m.operation(), "verification"@);
}

/// A copy of an execution result.
pub fn duplicate_result(r: &ExecutionResult) -> (c: ExecutionResult)
    ensures
        c == *r,
{
    ExecutionResult { operation_id: r.operation_id.copy(), summary: r.summary.clone(), changed: r.changed }
}

} // verus!
