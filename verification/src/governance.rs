//! The operation coordinator: the registry of governed skills and dynamic
//! commands, and the driver that takes one operation from plan to verified
//! result through the approval, journal and evidence stores.
use vstd::prelude::*;
use crate::common::{OidError, OidErrorV, OperationId, PluginId, error_text};
use crate::coordinator::{OperationRecord, OperationStatus, OperationJournal, SkillRequest};
use crate::evidence::{EvidenceRecord, EvidenceStore};
use crate::keyed::{Keyed, find_key, latest_map, lists_map, upsert};
use crate::operation::{ApprovedOperationPlan, ExecutionResult, OperationPlan, RollbackResult, VerificationResult};
use crate::plugin::{CapabilityCommand, CapabilityDescriptor, CapabilityRegistry, RegisteredCapability, register_spec, same_command};
use crate::policy::{Approval, ApprovalLifecycle, ApprovalRecord, ReadOnlyPolicy};
use crate::run::{
    RunAction, RunEvent, RunMachine, RunStage, run_wf, stage_rank, duplicate_result, evidence_for, needs_approval,
    succeeded, on_track, lemma_successful_step_continues,
};
use crate::skills::SkillDescriptor;
use crate::text::{concat, str_eq};

verus! {

/// A skill that plans, executes, verifies and rolls back one kind of
/// governed operation.
pub trait GovernedSkill {
    /// `d` is the descriptor this skill reports. A skill that keeps no
    /// record relates itself to every descriptor.
    closed spec fn described_by(&self, d: SkillDescriptor) -> bool {
        true
    }

    /// `outcome` is what planning `request` gave, for this skill.
    closed spec fn planned(&self, request: SkillRequest, outcome: Result<OperationPlan, OidError>) -> bool {
        true
    }

    /// `outcome` is what executing `approved` gave, for this skill.
    closed spec fn executed(&self, approved: ApprovedOperationPlan, outcome: Result<ExecutionResult, OidError>) -> bool {
        true
    }

    /// `outcome` is what verifying `execution` gave, for this skill.
    closed spec fn verified(&self, execution: ExecutionResult, outcome: Result<VerificationResult, OidError>) -> bool {
        true
    }

    /// Capability metadata.
    fn descriptor(&self) -> (d: &SkillDescriptor)
        ensures
            self.described_by(*d),
    ;
    /// Plan an operation without changing the system.
    fn plan(&self, request: &SkillRequest) -> (r: Result<OperationPlan, OidError>)
        ensures
            self.planned(*request, r),
    ;
    /// Execute an approved plan.
    fn execute(&self, approved: &ApprovedOperationPlan) -> (r: Result<ExecutionResult, OidError>)
        ensures
            self.executed(*approved, r),
    ;
    /// Verify an execution's postconditions.
    fn verify(&self, execution: &ExecutionResult) -> (r: Result<VerificationResult, OidError>)
        ensures
            self.verified(*execution, r),
    ;
    /// Undo an execution.
    fn rollback(&self, execution: &ExecutionResult) -> Result<RollbackResult, OidError>;
}

/// Durable lifecycle journal of operations.
pub trait OperationLog {
    /// Append one lifecycle transition.
    fn append(&mut self, record: &OperationRecord) -> Result<(), OidError>;
    /// All transitions in append order.
    fn records(&self) -> Result<Vec<OperationRecord>, OidError>;
}

/// A registered skill under its identifier.
struct SkillEntry<S> {
    id: String,
    skill: S,
}

impl<S> Keyed for SkillEntry<S> {
    closed spec fn key(&self) -> Seq<char> {
        self.id@
    }

    fn key_str(&self) -> (s: &str) {
        self.id.as_str()
    }
}

/// A dynamic command and the skill that executes it.
struct DynamicEntry {
    command: String,
    skill_id: String,
}

impl Keyed for DynamicEntry {
    closed spec fn key(&self) -> Seq<char> {
        self.command@
    }

    fn key_str(&self) -> (s: &str) {
        self.command.as_str()
    }
}

/// A completed operation: the skill that ran it and its execution.
struct CompletedEntry {
    operation_id: OperationId,
    skill_id: String,
    execution: ExecutionResult,
}

impl Keyed for CompletedEntry {
    closed spec fn key(&self) -> Seq<char> {
        self.operation_id@
    }

    fn key_str(&self) -> (s: &str) {
        self.operation_id.as_str()
    }
}

/// Coordinates complete governed operation lifecycles.
pub struct OperationCoordinator<A: ApprovalLifecycle, E: EvidenceStore, J: OperationLog, S: GovernedSkill> {
    policy: ReadOnlyPolicy,
    approvals: A,
    evidence: E,
    journal: J,
    skills: Vec<SkillEntry<S>>,
    skill_map: Ghost<Map<Seq<char>, SkillEntry<S>>>,
    dynamic: Vec<DynamicEntry>,
    dynamic_map: Ghost<Map<Seq<char>, DynamicEntry>>,
    registry: CapabilityRegistry,
    completed: Vec<CompletedEntry>,
    completed_map: Ghost<Map<Seq<char>, CompletedEntry>>,
    executions: Ghost<Seq<(OperationPlan, bool)>>,
    answers: Ghost<Seq<(Seq<char>, Result<bool, OidError>)>>,
    outcomes: Ghost<Seq<RunEvent>>,
    journaled: Ghost<Seq<OperationRecord>>,
}

/// `found` is the last record of the operation among `records`, if any.
pub open spec fn latest_in(records: Seq<OperationRecord>, id: Seq<char>, found: Option<OperationRecord>) -> bool {
    match found {
        Some(rec) => latest_map(records).dom().contains(id) && rec == latest_map(records)[id],
        None => !latest_map(records).dom().contains(id),
    }
}

/// The skill reports a descriptor with this identifier.
pub open spec fn reports_id<S: GovernedSkill>(skill: S, id: crate::common::SkillId) -> bool {
    exists|d: SkillDescriptor| #[trigger] skill.described_by(d) && d.id == id
}

/// The approval gate of a run: a plan that needs approval is executed only
/// when the caller approved it, or when the approval store, asked during the
/// run, answered that the operation is approved (the one answer the run
/// added to `answers`, from `before` to `after`).
pub open spec fn run_gate(
    plan: OperationPlan,
    mutates: bool,
    approve: bool,
    before: Seq<(Seq<char>, Result<bool, OidError>)>,
    after: Seq<(Seq<char>, Result<bool, OidError>)>,
) -> bool {
    needs_approval(plan, mutates) ==> approve || after == before.push((plan.id@, Ok::<bool, OidError>(true)))
}

/// The skill planned `request` as a plan that was then handed to it for
/// execution once, past the approval gate: `after` is `before` with that
/// plan appended, beside whether the skill reported that it mutates the
/// system, and the approval store's answers went from `answers_before` to
/// `answers_after`.
pub open spec fn ran_gated<S: GovernedSkill>(
    skill: S,
    request: SkillRequest,
    approve: bool,
    before: Seq<(OperationPlan, bool)>,
    after: Seq<(OperationPlan, bool)>,
    answers_before: Seq<(Seq<char>, Result<bool, OidError>)>,
    answers_after: Seq<(Seq<char>, Result<bool, OidError>)>,
) -> bool {
    exists|p: OperationPlan, d: SkillDescriptor|
        #![trigger skill.planned(request, Ok::<OperationPlan, OidError>(p)), skill.described_by(d)]
        skill.planned(request, Ok::<OperationPlan, OidError>(p)) && skill.described_by(d) && after == before.push(
            (p, d.mutates_system),
        )
            && run_gate(p, d.mutates_system, approve, answers_before, answers_after)
}

/// A gated run appends exactly one operation.
proof fn lemma_ran_gated_grows<S: GovernedSkill>(
    skill: S,
    request: SkillRequest,
    approve: bool,
    before: Seq<(OperationPlan, bool)>,
    after: Seq<(OperationPlan, bool)>,
    answers_before: Seq<(Seq<char>, Result<bool, OidError>)>,
    answers_after: Seq<(Seq<char>, Result<bool, OidError>)>,
)
    requires
        ran_gated(skill, request, approve, before, after, answers_before, answers_after),
    ensures
        after.len() == before.len() + 1,
{
}

/// A run the caller did not approve executes a plan that needs approval only
/// when the approval store, asked during that run, answered that the
/// operation is approved: the executed plan is the last one in the record,
/// and the store's answer the last one among its answers.
pub proof fn lemma_unapproved_run_needs_store_approval<S: GovernedSkill>(
    skill: S,
    request: SkillRequest,
    before: Seq<(OperationPlan, bool)>,
    after: Seq<(OperationPlan, bool)>,
    answers_before: Seq<(Seq<char>, Result<bool, OidError>)>,
    answers_after: Seq<(Seq<char>, Result<bool, OidError>)>,
)
    requires
        ran_gated(skill, request, false, before, after, answers_before, answers_after),
        needs_approval(after.last().0, after.last().1),
    ensures
        answers_after == answers_before.push((after.last().0.id@, Ok::<bool, OidError>(true))),
        after.len() == before.len() + 1,
{
}

/// Every outcome a run added, from `before` to `after`, is a success.
pub open spec fn all_succeeded(before: Seq<RunEvent>, after: Seq<RunEvent>) -> bool {
    forall|i: int| before.len() <= i < after.len() ==> succeeded(#[trigger] after[i])
}

/// The approval step of a run is open: the caller approved, the approval
/// store was not asked, or its answer was that the operation is approved.
pub open spec fn approval_open(
    approve: bool,
    before: Seq<(Seq<char>, Result<bool, OidError>)>,
    after: Seq<(Seq<char>, Result<bool, OidError>)>,
) -> bool {
    approve || after == before || after.last().1 == Ok::<bool, OidError>(true)
}

/// The outcomes of a run succeed when those with one more appended do.
proof fn lemma_all_succeeded_push(before: Seq<RunEvent>, log: Seq<RunEvent>, e: RunEvent)
    requires
        before.len() <= log.len(),
    ensures
        all_succeeded(before, log.push(e)) ==> all_succeeded(before, log),
{
    if all_succeeded(before, log.push(e)) {
        assert forall|i: int| before.len() <= i < log.len() implies succeeded(#[trigger] log[i]) by {
            assert(log.push(e)[i] == log[i]);
        }
    }
}

/// The error for an unknown skill.
pub open spec fn unknown_skill(id: Seq<char>) -> OidErrorV {
    OidErrorV::NotFound("skill: "@ + id)
}

impl<A: ApprovalLifecycle, E: EvidenceStore, J: OperationLog, S: GovernedSkill> OperationCoordinator<A, E, J, S> {
    /// Identifiers of the registered skills.
    pub closed spec fn skill_ids(self) -> Set<Seq<char>> {
        self.skill_map@.dom()
    }

    /// The skill registered under an identifier.
    pub closed spec fn skill_of(self, id: Seq<char>) -> S {
        self.skill_map@[id].skill
    }

    /// Dynamic commands and the identifiers of their skills.
    pub closed spec fn commands(self) -> Map<Seq<char>, Seq<char>> {
        self.dynamic_map@.map_values(|d: DynamicEntry| d.skill_id@)
    }

    /// Operations completed in this session, by identifier, with the skill
    /// that ran each.
    pub closed spec fn completed_ops(self) -> Map<Seq<char>, Seq<char>> {
        self.completed_map@.map_values(|c: CompletedEntry| c.skill_id@)
    }

    /// The plans handed to a skill for execution, in order, each with
    /// whether its skill reported that it mutates the system.
    pub closed spec fn executed_ops(self) -> Seq<(OperationPlan, bool)> {
        self.executions@
    }

    /// The answers the approval store gave when runs asked whether an
    /// operation is approved, in order.
    pub closed spec fn approval_answers(self) -> Seq<(Seq<char>, Result<bool, OidError>)> {
        self.answers@
    }

    /// The outcomes of the actions of runs (plans, store changes, approval
    /// answers, executions, verifications), in order.
    pub closed spec fn run_outcomes(self) -> Seq<RunEvent> {
        self.outcomes@
    }

    /// The transitions runs handed to the operation journal, in order.
    pub closed spec fn journaled_records(self) -> Seq<OperationRecord> {
        self.journaled@
    }

    /// The registry of dynamic capabilities.
    pub closed spec fn capabilities(self) -> CapabilityRegistry {
        self.registry
    }

    /// The registers list their maps.
    pub closed spec fn wf(self) -> bool {
        &&& lists_map(self.skills@, self.skill_map@)
        &&& lists_map(self.dynamic@, self.dynamic_map@)
        &&& lists_map(self.completed@, self.completed_map@)
    }

    /// A coordinator over the given stores, with nothing registered.
    pub fn new(approvals: A, evidence: E, journal: J) -> (r: Self)
        ensures
            r.wf(),
            r.skill_ids() == Set::<Seq<char>>::empty(),
            r.commands() == Map::<Seq<char>, Seq<char>>::empty(),
            r.completed_ops() == Map::<Seq<char>, Seq<char>>::empty(),
            r.capabilities().listing() == Seq::<RegisteredCapability>::empty(),
            r.executed_ops() == Seq::<(OperationPlan, bool)>::empty(),
            r.approval_answers() == Seq::<(Seq<char>, Result<bool, OidError>)>::empty(),
            r.run_outcomes() == Seq::<RunEvent>::empty(),
            r.journaled_records() == Seq::<OperationRecord>::empty(),
    {
        let r = OperationCoordinator {
            policy: ReadOnlyPolicy,
            approvals,
            evidence,
            journal,
            skills: Vec::new(),
            skill_map: Ghost(Map::empty()),
            dynamic: Vec::new(),
            dynamic_map: Ghost(Map::empty()),
            registry: CapabilityRegistry::new(),
            completed: Vec::new(),
            completed_map: Ghost(Map::empty()),
            executions: Ghost(Seq::empty()),
            answers: Ghost(Seq::empty()),
            outcomes: Ghost(Seq::empty()),
            journaled: Ghost(Seq::empty()),
        };
        proof {
            assert(r.commands() =~= Map::<Seq<char>, Seq<char>>::empty());
            assert(r.completed_ops() =~= Map::<Seq<char>, Seq<char>>::empty());
        }
        r
    }

    /// Register a skill under an identifier. While another skill owns the
    /// identifier the registration is refused and nothing changes.
    fn register_skill_as(&mut self, id: String, skill: S) -> (r: Result<(), OidError>)
        requires
            old(self).wf(),
        ensures
            final(self).wf(),
            final(self).commands() == old(self).commands(),
            final(self).completed_ops() == old(self).completed_ops(),
            final(self).capabilities() == old(self).capabilities(),
            old(self).skill_ids().contains(id@) ==> (r matches Err(e) && e@ == OidErrorV::InvalidInput(
                "skill already registered: "@ + id@,
            )) && final(self).skill_ids() == old(self).skill_ids() && (forall|k: Seq<char>|
                #[trigger] old(self).skill_ids().contains(k) ==> final(self).skill_of(k) == old(self).skill_of(k)),
            !old(self).skill_ids().contains(id@) ==> r is Ok && final(self).skill_ids() == old(self).skill_ids().insert(
                id@,
            ) && final(self).skill_of(id@) == skill,
    {
        let ghost k = id@;
        if find_key(&self.skills, id.as_str(), Ghost(self.skill_map@)).is_some() {
            return Err(OidError::InvalidInput(concat("skill already registered: ", id.as_str())));
        }
        let ghost m = self.skill_map@;
        let entry = SkillEntry { id: id.clone(), skill };
        let ghost e = entry;
        upsert(&mut self.skills, entry, Ghost(m));
        self.skill_map = Ghost(m.insert(k, e));
        proof {
            assert(self.skill_map@.dom() =~= m.dom().insert(k));
        }
        Ok(())
    }

    /// Register a skill under its descriptor's identifier. While another
    /// skill owns that identifier the registration is refused with
    /// "skill already registered: <id>" and nothing changes.
    pub fn register_skill(&mut self, skill: S) -> (r: Result<(), OidError>)
        requires
            old(self).wf(),
        ensures
            final(self).wf(),
            final(self).commands() == old(self).commands(),
            final(self).completed_ops() == old(self).completed_ops(),
            final(self).capabilities() == old(self).capabilities(),
            exists|d: SkillDescriptor| {
                &&& skill.described_by(d)
                &&& (old(self).skill_ids().contains(d.id@) ==> (r matches Err(e) && e@ == OidErrorV::InvalidInput(
                    "skill already registered: "@ + d.id@,
                )) && final(self).skill_ids() == old(self).skill_ids() && (forall|k: Seq<char>|
                    #[trigger] old(self).skill_ids().contains(k) ==> final(self).skill_of(k) == old(self).skill_of(k)))
                &&& (!old(self).skill_ids().contains(d.id@) ==> r is Ok && final(self).skill_ids()
                    == old(self).skill_ids().insert(d.id@) && final(self).skill_of(d.id@) == skill)
            },
    {
        let descriptor = skill.descriptor();
        let ghost d = *descriptor;
        let id = descriptor.id.as_str().to_string();
        let r = self.register_skill_as(id, skill);
        r
    }

    /// Position of a registered skill.
    fn skill_index(&self, skill_id: &str) -> (r: Option<usize>)
        requires
            self.wf(),
        ensures
            match r {
                Some(i) => i < self.skills@.len() && self.skill_ids().contains(skill_id@) && self.skills@[i as int].skill
                    == self.skill_of(skill_id@),
                None => !self.skill_ids().contains(skill_id@),
            },
    {
        find_key(&self.skills, skill_id, Ghost(self.skill_map@))
    }

    /// The registry used to discover dynamic commands.
    pub fn registry(&self) -> (r: &CapabilityRegistry)
        ensures
            *r == self.capabilities(),
    {
        &self.registry
    }

    /// A plan for a registered skill, without changing state; an unknown
    /// skill is refused.
    pub fn preview(&self, skill_id: &str, request: &SkillRequest) -> (r: Result<OperationPlan, OidError>)
        requires
            self.wf(),
        ensures
            !self.skill_ids().contains(skill_id@) ==> (r matches Err(e) && e@ == unknown_skill(skill_id@)),
    {
        match self.skill_index(skill_id) {
            None => Err(OidError::NotFound(concat("skill: ", skill_id))),
            Some(i) => self.skills[i].skill.plan(request),
        }
    }

    /// Persist explicit approval for a recoverable operation, then journal
    /// that it is approved.
    pub fn approve(&mut self, operation_id: &OperationId) -> (r: Result<(), OidError>)
        requires
            old(self).wf(),
        ensures
            final(self).wf(),
            final(self).skill_ids() == old(self).skill_ids(),
            final(self).commands() == old(self).commands(),
            final(self).completed_ops() == old(self).completed_ops(),
    {
        let approval = Approval { operation_id: operation_id.copy(), note: "approved by console".to_string() };
        match self.approvals.approve(approval) {
            Err(e) => Err(e),
            Ok(()) => self.transition(operation_id, OperationStatus::Approved, "approved by console"),
        }
    }

    /// Whether an operation has a durable approval.
    pub fn is_approved(&self, operation_id: &OperationId) -> (r: Result<bool, OidError>) {
        self.approvals.is_approved(operation_id)
    }

    /// Journal a lifecycle transition.
    fn transition(&mut self, id: &OperationId, status: OperationStatus, detail: &str) -> (r: Result<(), OidError>)
        requires
            old(self).wf(),
        ensures
            final(self).wf(),
            final(self).skill_ids() == old(self).skill_ids(),
            final(self).commands() == old(self).commands(),
            final(self).completed_ops() == old(self).completed_ops(),
            final(self).capabilities() == old(self).capabilities(),
    {
        let record = OperationRecord { operation_id: id.copy(), status, detail: detail.to_string() };
        self.journal.append(&record)
    }

    /// Plan, authorize, execute, verify and record one operation of a
    /// registered skill, driving the run machine: each of its actions is
    /// carried out on the stores or the skill and its outcome fed back, until
    /// the machine finishes. An unknown skill is refused before anything is
    /// journaled; a verified result is kept for rollback.
    ///
    /// The plan the skill gave is handed for execution at most once, and a
    /// plan that needs approval only when the caller approved it or the
    /// approval store answered that it is approved; a success means it was
    /// executed. When the caller did not approve and the store answered
    /// otherwise, the run fails with nothing executed. When every outcome of
    /// the run succeeds (a valid plan, each store change, the execution, a
    /// passing verification) and the approval step is open, the run succeeds;
    /// when every outcome succeeds but the approval step is closed, the run
    /// fails with `ApprovalRequired(<operation>)`;
    /// a successful run journaled `Planned` first and `Verified` last for the
    /// operation it executed.
    pub fn run(&mut self, skill_id: &str, request: &SkillRequest, approve: bool) -> (r: Result<ExecutionResult, OidError>)
        requires
            old(self).wf(),
        ensures
            final(self).wf(),
            final(self).skill_ids() == old(self).skill_ids(),
            final(self).commands() == old(self).commands(),
            final(self).capabilities() == old(self).capabilities(),
            !old(self).skill_ids().contains(skill_id@) ==> (r matches Err(e) && e@ == unknown_skill(skill_id@)),
            r is Err ==> final(self).completed_ops() == old(self).completed_ops(),
            r is Ok ==> exists|op: Seq<char>| final(self).completed_ops() == old(self).completed_ops().insert(op, skill_id@),
            final(self).executed_ops() == old(self).executed_ops() || ran_gated(
                old(self).skill_of(skill_id@),
                *request,
                approve,
                old(self).executed_ops(),
                final(self).executed_ops(),
                old(self).approval_answers(),
                final(self).approval_answers(),
            ),
            r is Ok ==> final(self).executed_ops() != old(self).executed_ops(),
            !approve && final(self).approval_answers() != old(self).approval_answers()
                && final(self).approval_answers().last().1 != Ok::<bool, OidError>(true)
                ==> r is Err && final(self).executed_ops() == old(self).executed_ops(),
            old(self).skill_ids().contains(skill_id@) && all_succeeded(old(self).run_outcomes(), final(self).run_outcomes())
                && approval_open(approve, old(self).approval_answers(), final(self).approval_answers()) ==> r is Ok,
            old(self).skill_ids().contains(skill_id@) && all_succeeded(old(self).run_outcomes(), final(self).run_outcomes())
                && !approval_open(approve, old(self).approval_answers(), final(self).approval_answers()) ==> (r matches Err(
                e,
            ) && e@ == OidErrorV::ApprovalRequired(final(self).approval_answers().last().0)),
            r is Ok ==> final(self).journaled_records().len() > old(self).journaled_records().len()
                && final(self).journaled_records().last().status == OperationStatus::Verified
                && final(self).journaled_records().last().operation_id@ == final(self).executed_ops().last().0.id@
                && final(self).journaled_records()[old(self).journaled_records().len() as int].status
                == OperationStatus::Planned
                && final(self).journaled_records()[old(self).journaled_records().len() as int].operation_id@
                == final(self).executed_ops().last().0.id@,
    {
        let idx = match self.skill_index(skill_id) {
            None => {
                return Err(OidError::NotFound(concat("skill: ", skill_id)));
            },
            Some(i) => i,
        };
        let ghost skill = self.skills@[idx as int].skill;
        let ghost mut gp: OperationPlan = vstd::pervasive::arbitrary();
        let ghost mut gd: SkillDescriptor = vstd::pervasive::arbitrary();
        let plan_result = self.skills[idx].skill.plan(request);
        let planned = match plan_result {
            Ok(plan) => {
                let d = self.skills[idx].skill.descriptor();
                proof {
                    gp = plan;
                    gd = *d;
                }
                Ok((plan, d.mutates_system))
            },
            Err(e) => Err(e),
        };
        let op_id: Option<OperationId> = match &planned {
            Ok((plan, _)) => Some(plan.id.copy()),
            Err(_) => None,
        };
        let mut machine = RunMachine::new(approve);
        let mut event = RunEvent::Planned(planned);
        proof {
            self.outcomes@ = self.outcomes@.push(event);
        }
        loop
            invariant
                self.wf(),
                run_wf(machine),
                machine.accepts(event),
                idx < self.skills@.len(),
                self.skills == old(self).skills,
                self.skill_map == old(self).skill_map,
                self.dynamic == old(self).dynamic,
                self.dynamic_map == old(self).dynamic_map,
                self.registry == old(self).registry,
                self.completed == old(self).completed,
                self.completed_map == old(self).completed_map,
                old(self).skill_ids().contains(skill_id@),
                op_id is None ==> event matches RunEvent::Planned(Err(_)),
                skill == old(self).skill_of(skill_id@),
                skill == self.skills@[idx as int].skill,
                machine.approve_flag() == approve,
                stage_rank(machine.stage()) <= stage_rank(RunStage::CheckApproval) ==> !machine.was_approved(),
                stage_rank(machine.stage()) < stage_rank(RunStage::CheckApproval) ==> self.answers@ == old(
                    self,
                ).answers@,
                machine.stage() == RunStage::Planning ==> (event matches RunEvent::Planned(Ok((p, mm))) ==> (p == gp
                    && mm == gd.mutates_system && skill.planned(*request, Ok::<OperationPlan, OidError>(gp))
                    && skill.described_by(gd))),
                machine.stage() != RunStage::Planning && machine.stage() != RunStage::Done ==> (skill.planned(
                    *request,
                    Ok::<OperationPlan, OidError>(gp),
                ) && skill.described_by(gd) && machine.operation() == gp.id@ && machine.requires_approval()
                    == needs_approval(gp, gd.mutates_system)),
                self.answers@ != old(self).answers@ ==> machine.requires_approval(),
                self.outcomes@.len() > old(self).outcomes@.len(),
                self.journaled@.len() >= old(self).journaled@.len(),
                machine.stage() == RunStage::Planning ==> self.journaled@.len() == old(self).journaled@.len(),
                machine.stage() != RunStage::Planning && machine.stage() != RunStage::Done ==> (self.journaled@.len()
                    > old(self).journaled@.len() && self.journaled@[old(self).journaled@.len() as int].status
                    == OperationStatus::Planned && self.journaled@[old(self).journaled@.len() as int].operation_id@
                    == gp.id@),
                machine.stage() == RunStage::JournalVerified ==> (self.journaled@.len() > old(self).journaled@.len()
                    && self.journaled@.last().status == OperationStatus::Verified
                    && self.journaled@.last().operation_id@ == machine.operation()),
                stage_rank(machine.stage()) >= stage_rank(RunStage::Executing) && machine.stage() != RunStage::Done
                    ==> self.executions@ == old(self).executions@.push((gp, gd.mutates_system)),
                self.outcomes@.last() == event,
                machine.stage() == RunStage::CheckApproval || machine.stage() == RunStage::RequestApproval
                    || machine.stage() == RunStage::JournalAwaiting || machine.stage() == RunStage::GrantApproval
                    ==> machine.requires_approval(),
                stage_rank(machine.stage()) > stage_rank(RunStage::CheckApproval) && machine.stage() != RunStage::Done
                    && machine.requires_approval() ==> (self.answers@.len() == old(self).answers@.len() + 1
                    && self.answers@.last().0 == machine.operation() && (machine.was_approved()
                    <==> self.answers@.last().1 == Ok::<bool, OidError>(true))),
                machine.stage() != RunStage::Done && all_succeeded(old(self).outcomes@, self.outcomes@) ==> on_track(
                    machine,
                ),
                !approve && self.answers@ != old(self).answers@ && self.answers@.last().1 != Ok::<bool, OidError>(
                    true,
                ) ==> self.executions@ == old(self).executions@,
                machine.was_approved() ==> self.answers@ == old(self).answers@.push(
                    (machine.operation(), Ok::<bool, OidError>(true)),
                ),
                machine.stage() == RunStage::CheckApproval ==> (event matches RunEvent::ApprovalChecked(res)
                    && self.answers@ == old(self).answers@.push((machine.operation(), res))),
                stage_rank(machine.stage()) < stage_rank(RunStage::Executing) ==> self.executions@ == old(
                    self,
                ).executions@,
                stage_rank(machine.stage()) >= stage_rank(RunStage::Executing) && machine.stage() != RunStage::Done
                    ==> ran_gated(
                    skill,
                    *request,
                    approve,
                    old(self).executions@,
                    self.executions@,
                    old(self).answers@,
                    self.answers@,
                ),
            decreases 18 - stage_rank(machine.stage()),
        {
            let ghost prev = machine;
            let ghost fed = event;
            let action = machine.step(event);
            proof {
                if all_succeeded(old(self).outcomes@, self.outcomes@) {
                    lemma_successful_step_continues(prev, fed, machine, action);
                }
            }
            let ghost fed_log = self.outcomes@;
            assert(stage_rank(machine.stage()) <= 18);
            match action {
                RunAction::Journal(record) => {
                    proof {
                        self.journaled@ = self.journaled@.push(record);
                    }
                    event = RunEvent::Stored(self.journal.append(&record));
                    proof {
                        self.outcomes@ = self.outcomes@.push(event);
                    }
                },
                RunAction::Record(record) => {
                    event = RunEvent::Stored(self.evidence.append(record));
                    proof {
                        self.outcomes@ = self.outcomes@.push(event);
                    }
                },
                RunAction::CheckApproval(id) => {
                    let checked = self.approvals.is_approved(&id);
                    proof {
                        self.answers@ = self.answers@.push((id@, checked));
                    }
                    event = RunEvent::ApprovalChecked(checked);
                    proof {
                        self.outcomes@ = self.outcomes@.push(event);
                    }
                },
                RunAction::RequestApproval(id) => {
                    event = RunEvent::Stored(self.approvals.request(id));
                    proof {
                        self.outcomes@ = self.outcomes@.push(event);
                    }
                },
                RunAction::Approve(approval) => {
                    event = RunEvent::Stored(self.approvals.approve(approval));
                    proof {
                        self.outcomes@ = self.outcomes@.push(event);
                    }
                },
                RunAction::Consume(id) => {
                    event = RunEvent::Stored(self.approvals.consume(&id));
                    proof {
                        self.outcomes@ = self.outcomes@.push(event);
                    }
                },
                RunAction::Execute(approved) => {
                    proof {
                        self.executions@ = self.executions@.push((gp, gd.mutates_system));
                        assert(skill.planned(*request, Ok::<OperationPlan, OidError>(gp)) && skill.described_by(gd));
                    }
                    event = RunEvent::Executed(self.skills[idx].skill.execute(&approved));
                    proof {
                        self.outcomes@ = self.outcomes@.push(event);
                    }
                },
                RunAction::Verify(execution) => {
                    event = RunEvent::Verified(self.skills[idx].skill.verify(&execution));
                    proof {
                        self.outcomes@ = self.outcomes@.push(event);
                    }
                },
                RunAction::Finish(result) => {
                    match result {
                        Err(e) => {
                            return Err(e);
                        },
                        Ok(execution) => {
                            proof {
                                lemma_ran_gated_grows(
                                    skill,
                                    *request,
                                    approve,
                                    old(self).executions@,
                                    self.executions@,
                                    old(self).answers@,
                                    self.answers@,
                                );
                            }
                            let id = match op_id {
                                Some(id) => id,
                                None => {
                                    return Ok(execution);
                                },
                            };
                            let ghost m = self.completed_map@;
                            let entry = CompletedEntry {
                                operation_id: id,
                                skill_id: skill_id.to_string(),
                                execution: duplicate_result(&execution),
                            };
                            let ghost e = entry;
                            upsert(&mut self.completed, entry, Ghost(m));
                            self.completed_map = Ghost(m.insert(e.key(), e));
                            proof {
                                assert(self.completed_ops() =~= old(self).completed_ops().insert(e.key(), skill_id@));
                            }
                            return Ok(execution);
                        },
                    }
                },
            }
            proof {
                lemma_all_succeeded_push(old(self).outcomes@, fed_log, event);
            }
        }
    }

    /// Register a dynamic command and the skill that executes it: the
    /// capability (the skill's identifier, the plugin and the one command)
    /// is registered first and a refusal returned; then the skill is
    /// registered under its identifier, a collision being returned; then
    /// the command is routed to the skill.
    pub fn register_dynamic(&mut self, command: CapabilityCommand, plugin_id: PluginId, skill: S) -> (r: Result<(), OidError>)
        requires
            old(self).wf(),
        ensures
            final(self).wf(),
            final(self).completed_ops() == old(self).completed_ops(),
            final(self).capabilities().natives() == old(self).capabilities().natives(),
            r is Err ==> final(self).commands() == old(self).commands(),
            exists|d: CapabilityDescriptor| {
                &&& reports_id(skill, d.id)
                &&& d.plugin_id == plugin_id
                &&& d.commands@.len() == 1
                &&& same_command(d.commands@[0], command)
                &&& match register_spec(old(self).capabilities().natives(), old(self).capabilities().listing(), d) {
                    Err(e) => {
                        &&& r matches Err(x) && x@ == e
                        &&& final(self).capabilities().listing() == old(self).capabilities().listing()
                        &&& final(self).skill_ids() == old(self).skill_ids()
                    },
                    Ok(()) => {
                        &&& exists|p: int|
                            0 <= p <= old(self).capabilities().listing().len() && final(self).capabilities().listing()
                                == old(self).capabilities().listing().insert(p, RegisteredCapability { descriptor: d })
                        &&& old(self).skill_ids().contains(d.id@) ==> (r matches Err(x) && x@ == OidErrorV::InvalidInput(
                            "skill already registered: "@ + d.id@,
                        )) && final(self).skill_ids() == old(self).skill_ids()
                        &&& !old(self).skill_ids().contains(d.id@) ==> r is Ok && final(self).commands()
                            == old(self).commands().insert(command.name@, d.id@) && final(self).skill_ids()
                            == old(self).skill_ids().insert(d.id@) && final(self).skill_of(d.id@) == skill
                    },
                }
            },
    {
        let reported = skill.descriptor();
        let skill_id = reported.id.copy();
        proof {
            assert(skill.described_by(*reported));
        }
        let mut commands: Vec<CapabilityCommand> = Vec::new();
        commands.push(command.duplicate());
        let descriptor = CapabilityDescriptor { id: skill_id.copy(), plugin_id, commands };
        let ghost d = descriptor;
        proof {
            assert(reports_id(skill, d.id));
        }
        match self.registry.register(descriptor) {
            Err(e) => {
                return Err(e);
            },
            Ok(()) => {},
        }
        match self.register_skill_as(skill_id.as_str().to_string(), skill) {
            Err(e) => {
                return Err(e);
            },
            Ok(()) => {},
        }
        let ghost m = self.dynamic_map@;
        let entry = DynamicEntry { command: command.name, skill_id: skill_id.as_str().to_string() };
        let ghost e = entry;
        upsert(&mut self.dynamic, entry, Ghost(m));
        self.dynamic_map = Ghost(m.insert(e.key(), e));
        proof {
            assert(self.commands() =~= old(self).commands().insert(command.name@, e.skill_id@));
            assert(e.skill_id@ == skill_id@);
            assert(self.skill_ids() == old(self).skill_ids().insert(skill_id@));
            assert(self.skill_of(skill_id@) == skill);
        }
        Ok(())
    }

    /// Roll back an execution with a skill: on success the operation is
    /// journaled as rolled back and the rollback recorded as evidence; on
    /// failure it is journaled as a failed rollback and the error returned.
    fn rollback_with(&mut self, idx: usize, operation_id: &OperationId, execution: &ExecutionResult) -> (r: Result<RollbackResult, OidError>)
        requires
            old(self).wf(),
            idx < old(self).skills@.len(),
        ensures
            final(self).wf(),
            final(self).skill_ids() == old(self).skill_ids(),
            final(self).commands() == old(self).commands(),
            final(self).completed_ops() == old(self).completed_ops(),
            final(self).capabilities() == old(self).capabilities(),
    {
        match self.skills[idx].skill.rollback(execution) {
            Ok(result) => {
                match self.transition(operation_id, OperationStatus::RolledBack, result.summary.as_str()) {
                    Err(e) => {
                        return Err(e);
                    },
                    Ok(()) => {},
                }
                match self.record_operation_event(operation_id, "rollback", result.summary.as_str()) {
                    Err(e) => Err(e),
                    Ok(()) => Ok(result),
                }
            },
            Err(error) => {
                let text = error.to_text();
                match self.transition(operation_id, OperationStatus::RollbackFailed, text.as_str()) {
                    Err(e) => Err(e),
                    Ok(()) => Err(error),
                }
            },
        }
    }

    /// Roll back an operation completed in this session with the skill that
    /// ran it; an operation this session did not complete is refused.
    pub fn rollback(&mut self, operation_id: &OperationId) -> (r: Result<RollbackResult, OidError>)
        requires
            old(self).wf(),
        ensures
            final(self).wf(),
            final(self).skill_ids() == old(self).skill_ids(),
            final(self).commands() == old(self).commands(),
            final(self).completed_ops() == old(self).completed_ops(),
            !old(self).completed_ops().dom().contains(operation_id@) ==> (r matches Err(e) && e@ == OidErrorV::NotFound(
                "completed operation: "@ + operation_id@,
            )),
            old(self).completed_ops().dom().contains(operation_id@) && !old(self).skill_ids().contains(
                old(self).completed_ops()[operation_id@],
            ) ==> (r matches Err(e) && e@ == unknown_skill(old(self).completed_ops()[operation_id@])),
    {
        let c = match find_key(&self.completed, operation_id.as_str(), Ghost(self.completed_map@)) {
            None => {
                return Err(OidError::NotFound(concat("completed operation: ", operation_id.as_str())));
            },
            Some(c) => c,
        };
        let skill_id = self.completed[c].skill_id.clone();
        let execution = duplicate_result(&self.completed[c].execution);
        match self.skill_index(skill_id.as_str()) {
            None => Err(OidError::NotFound(concat("skill: ", skill_id.as_str()))),
            Some(i) => self.rollback_with(i, operation_id, &execution),
        }
    }

    /// Roll back an operation reconstructed after a restart, from the skill
    /// and execution recovered from durable evidence; an unknown skill is
    /// refused.
    pub fn rollback_recovered(&mut self, operation_id: &OperationId, skill_id: &str, execution: &ExecutionResult) -> (r: Result<RollbackResult, OidError>)
        requires
            old(self).wf(),
        ensures
            final(self).wf(),
            final(self).skill_ids() == old(self).skill_ids(),
            final(self).commands() == old(self).commands(),
            final(self).completed_ops() == old(self).completed_ops(),
            !old(self).skill_ids().contains(skill_id@) ==> (r matches Err(e) && e@ == unknown_skill(skill_id@)),
    {
        match self.skill_index(skill_id) {
            None => Err(OidError::NotFound(concat("skill: ", skill_id))),
            Some(i) => self.rollback_with(i, operation_id, execution),
        }
    }

    /// Run a dynamic command through the skill registered for it; an unknown
    /// command is refused.
    pub fn run_dynamic(&mut self, command: &str, request: &SkillRequest, approve: bool) -> (r: Result<ExecutionResult, OidError>)
        requires
            old(self).wf(),
        ensures
            final(self).wf(),
            final(self).skill_ids() == old(self).skill_ids(),
            final(self).commands() == old(self).commands(),
            !old(self).commands().dom().contains(command@) ==> (r matches Err(e) && e@ == OidErrorV::NotFound(
                "dynamic command: "@ + command@,
            )) && final(self).completed_ops() == old(self).completed_ops(),
            old(self).commands().dom().contains(command@) && !old(self).skill_ids().contains(
                old(self).commands()[command@],
            ) ==> (r matches Err(e) && e@ == unknown_skill(old(self).commands()[command@])),
    {
        let skill_id = match find_key(&self.dynamic, command, Ghost(self.dynamic_map@)) {
            None => {
                return Err(OidError::NotFound(concat("dynamic command: ", command)));
            },
            Some(d) => self.dynamic[d].skill_id.clone(),
        };
        self.run(skill_id.as_str(), request, approve)
    }

    /// Latest journaled state of each operation that has not finished.
    pub fn recoverable(&self) -> (r: Result<Vec<OperationRecord>, OidError>)
        ensures
            r matches Ok(v) ==> exists|records: Seq<OperationRecord>| lists_map(v@, crate::coordinator::unfinished_map(records)),
    {
        match self.journal.records() {
            Err(e) => Err(e),
            Ok(records) => {
                let v = OperationJournal::recoverable(&records);
                assert(lists_map(v@, crate::coordinator::unfinished_map(records@)));
                Ok(v)
            },
        }
    }

    /// Latest journaled state of one operation: of the records the journal
    /// gives back, the last one of the operation, if any; the journal's
    /// error is passed on.
    pub fn latest(&self, operation_id: &OperationId) -> (r: Result<Option<OperationRecord>, OidError>)
        ensures
            r matches Ok(Some(rec)) ==> rec.operation_id@ == operation_id@,
            r matches Ok(found) ==> exists|records: Seq<OperationRecord>| #[trigger] latest_in(records, operation_id@, found),
    {
        match self.journal.records() {
            Err(e) => Err(e),
            Ok(records) => {
                let found = OperationJournal::latest_of(&records, operation_id);
                proof {
                    if found is Some {
                        crate::keyed::lemma_latest_map_key(records@, operation_id@);
                    }
                    assert(latest_in(records@, operation_id@, found));
                }
                Ok(found)
            },
        }
    }

    /// The append-only evidence history of one operation.
    pub fn evidence_history(&self, operation_id: &OperationId) -> (r: Result<Vec<EvidenceRecord>, OidError>) {
        self.evidence.history(operation_id)
    }

    /// Record an evidence event of an operation under its synthetic intent.
    fn record_operation_event(&mut self, operation_id: &OperationId, category: &str, details: &str) -> (r: Result<(), OidError>)
        requires
            old(self).wf(),
        ensures
            final(self).wf(),
            final(self).skill_ids() == old(self).skill_ids(),
            final(self).commands() == old(self).commands(),
            final(self).completed_ops() == old(self).completed_ops(),
            final(self).capabilities() == old(self).capabilities(),
    {
        match evidence_for(operation_id, &None, category, details) {
            Err(e) => Err(e),
            Ok(record) => self.evidence.append(record),
        }
    }
}

} // verus!
