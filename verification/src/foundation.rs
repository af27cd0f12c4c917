//! Terminal rendering of governed operation plans and the reports of the
//! system-health and directory flows.
use vstd::prelude::*;
use crate::operation::{OperationPlan, RollbackPlan, OperationStep, VerificationCheck, risk_label, approval_label, join, join_strings};
use crate::text::{append_lines, concat, concat3, decimal, u32_to_string, usize_to_string, views, is_blank, is_ws};
use crate::common::{EvidenceId, IntentId, OidError, OidErrorV, OperationId};
use crate::coordinator::SkillRequest;
use crate::evidence::{EvidenceRecord, EvidenceStore, InMemoryEvidenceStore, records_of};
use crate::governance::GovernedSkill;
use crate::intent::{IntentSession, IntentState, is_state_event, appended_state};
use crate::operation::{ApprovedOperationPlan, ExecutionResult, IntentContext, VerificationResult, plan_violation};
use crate::policy::{Approval, ApprovalStore, AuthorizationDecision, AuthorizationRequest, InMemoryApprovalStore, PolicyEvaluator, ReadOnlyPolicy, mutation_reason};
use crate::shared::{EventLog, RuntimeEvent};

verus! {

/// The numbered line of a plan step.
pub open spec fn step_line(s: OperationStep) -> Seq<char> {
    decimal(s.order as nat) + ". "@ + s.description@
}

/// The bulleted line of a verification check.
pub open spec fn check_line(c: VerificationCheck) -> Seq<char> {
    "- "@ + c.description@
}

/// The rollback line of a plan.
pub open spec fn rollback_line(r: Option<RollbackPlan>) -> Seq<char> {
    match r {
        Some(p) => p.description@,
        None => "Not applicable"@,
    }
}

/// A plan in the standard terminal format, with its status.
pub open spec fn plan_text(plan: OperationPlan, status: Seq<char>) -> Seq<Seq<char>> {
    plan_head(plan) + plan.steps@.map_values(|s: OperationStep| step_line(s)) + seq!["Verification"@]
        + plan.verification.checks@.map_values(|c: VerificationCheck| check_line(c)) + seq![
        "Rollback"@,
        rollback_line(plan.rollback),
        "Status\n"@ + status,
    ]
}

/// The plan's head lines, up to `Steps`.
pub open spec fn plan_head(plan: OperationPlan) -> Seq<Seq<char>> {
    seq![
        "Operation Plan"@,
        "──────────────────────────"@,
        ""@,
        "Summary\n"@ + plan.summary@,
        "Rationale\n"@ + plan.rationale@,
        "Risk\n"@ + risk_label(plan.risk),
        "Approval\n"@ + approval_label(plan.approval),
        "Steps"@,
    ]
}

/// The numbered step lines.
fn step_lines(steps: &Vec<OperationStep>) -> (r: Vec<String>)
    ensures
        views(r@) == steps@.map_values(|s: OperationStep| step_line(s)),
{
    let mut r: Vec<String> = Vec::new();
    let mut i: usize = 0;
    while i < steps.len()
        invariant
            i <= steps@.len(),
            r@.len() == i,
            forall|j: int| 0 <= j < i ==> (#[trigger] r@[j])@ == step_line(steps@[j]),
        decreases steps@.len() - i,
    {
        r.push(concat3(u32_to_string(steps[i].order).as_str(), ". ", steps[i].description.as_str()));
        i = i + 1;
    }
    proof {
        assert(views(r@) =~= steps@.map_values(|s: OperationStep| step_line(s)));
    }
    r
}

/// The bulleted check lines.
fn check_lines(checks: &Vec<VerificationCheck>) -> (r: Vec<String>)
    ensures
        views(r@) == checks@.map_values(|c: VerificationCheck| check_line(c)),
{
    let mut r: Vec<String> = Vec::new();
    let mut i: usize = 0;
    while i < checks.len()
        invariant
            i <= checks@.len(),
            r@.len() == i,
            forall|j: int| 0 <= j < i ==> (#[trigger] r@[j])@ == check_line(checks@[j]),
        decreases checks@.len() - i,
    {
        r.push(concat("- ", checks[i].description.as_str()));
        i = i + 1;
    }
    proof {
        assert(views(r@) =~= checks@.map_values(|c: VerificationCheck| check_line(c)));
    }
    r
}

/// Render the canonical plan in the standard terminal format.
pub fn render_plan(plan: &OperationPlan, status: &str) -> (r: Vec<String>)
    ensures
        views(r@) == plan_text(*plan, status@),
{
    let mut lines: Vec<String> = Vec::new();
    lines.push("Operation Plan".to_string());
    lines.push("──────────────────────────".to_string());
    lines.push("".to_string());
    lines.push(concat("Summary\n", plan.summary.as_str()));
    lines.push(concat("Rationale\n", plan.rationale.as_str()));
    lines.push(concat("Risk\n", plan.risk.as_str()));
    lines.push(concat("Approval\n", plan.approval.as_str()));
    lines.push("Steps".to_string());
    proof {
        assert(views(lines@) =~= plan_head(*plan));
    }
    append_lines(&mut lines, step_lines(&plan.steps));
    let mut middle: Vec<String> = Vec::new();
    middle.push("Verification".to_string());
    append_lines(&mut lines, middle);
    append_lines(&mut lines, check_lines(&plan.verification.checks));
    let mut tail: Vec<String> = Vec::new();
    tail.push("Rollback".to_string());
    let rollback = match &plan.rollback {
        Some(r) => r.description.clone(),
        None => "Not applicable".to_string(),
    };
    tail.push(rollback);
    tail.push(concat("Status\n", status));
    proof {
        assert(views(middle@) =~= seq!["Verification"@]);
        assert(views(tail@) =~= seq!["Rollback"@, rollback_line(plan.rollback), "Status\n"@ + status@]);
    }
    append_lines(&mut lines, tail);
    proof {
        assert(views(lines@) =~= plan_text(*plan, status@));
    }
    lines
}

/// The report of the system-health flow.
pub open spec fn health_report_text(
    description: Seq<char>,
    state: Seq<char>,
    plan: OperationPlan,
    result: Seq<char>,
    verification: Seq<char>,
    record_count: nat,
    evidence_ids: Seq<Seq<char>>,
) -> Seq<Seq<char>> {
    seq!["Intent: "@ + description + " ["@ + state + "]"@] + plan_text(plan, "Executing"@) + seq![
        "Policy: allowed (read-only operation; approval not required)"@,
        "Result: "@ + result,
        "Verification: "@ + verification,
        "Evidence: "@ + decimal(record_count) + " append-only records ("@ + join(evidence_ids, ", "@) + ")"@,
        "Rollback: not applicable (read-only operation)"@,
    ]
}

/// The lines of a report: the intent line, then the others.
fn intent_line(description: &str, state: &str) -> (s: String)
    ensures
        s@ == "Intent: "@ + description@ + " ["@ + state@ + "]"@,
{
    let a = concat3("Intent: ", description, " [");
    concat3(a.as_str(), state, "]")
}

/// The report of a completed system-health flow: the intent, the executed
/// plan, the policy, result and verification, and the evidence written.
pub fn health_report(
    description: &str,
    state: &str,
    plan: &OperationPlan,
    result: &str,
    verification: &str,
    record_count: usize,
    evidence_ids: &Vec<String>,
) -> (r: Vec<String>)
    ensures
        views(r@) == health_report_text(
            description@,
            state@,
            *plan,
            result@,
            verification@,
            record_count as nat,
            views(evidence_ids@),
        ),
{
    let mut out: Vec<String> = Vec::new();
    out.push(intent_line(description, state));
    append_lines(&mut out, render_plan(plan, "Executing"));
    let mut tail: Vec<String> = Vec::new();
    tail.push("Policy: allowed (read-only operation; approval not required)".to_string());
    tail.push(concat("Result: ", result));
    tail.push(concat("Verification: ", verification));
    let count = concat3("Evidence: ", usize_to_string(record_count).as_str(), " append-only records (");
    tail.push(concat3(count.as_str(), join_strings(evidence_ids, ", ").as_str(), ")"));
    tail.push("Rollback: not applicable (read-only operation)".to_string());
    append_lines(&mut out, tail);
    proof {
        assert(views(out@) =~= health_report_text(
            description@,
            state@,
            *plan,
            result@,
            verification@,
            record_count as nat,
            views(evidence_ids@),
        ));
    }
    out
}

/// The answer of the directory flow without approval: the plan awaiting
/// approval, the reason, how to approve, and where evidence is logged.
pub open spec fn approval_request_text(plan: OperationPlan, reason: Seq<char>, path: Seq<char>, log: Seq<char>) -> Seq<
    Seq<char>,
> {
    plan_text(plan, "Awaiting approval"@) + seq![
        "Why: "@ + reason,
        "Run again with:"@,
        "create directory "@ + path + " --approve"@,
        "Evidence log: "@ + log,
    ]
}

/// The answer lines of the directory flow without approval.
pub fn approval_request_report(plan: &OperationPlan, reason: &str, path: &str, log: &str) -> (r: Vec<String>)
    ensures
        views(r@) == approval_request_text(*plan, reason@, path@, log@),
{
    let mut out = render_plan(plan, "Awaiting approval");
    let mut tail: Vec<String> = Vec::new();
    tail.push(concat("Why: ", reason));
    tail.push("Run again with:".to_string());
    tail.push(concat3("create directory ", path, " --approve"));
    tail.push(concat("Evidence log: ", log));
    append_lines(&mut out, tail);
    proof {
        assert(views(out@) =~= approval_request_text(*plan, reason@, path@, log@));
    }
    out
}

/// The report of a completed, approved directory flow.
pub open spec fn directory_report_text(
    description: Seq<char>,
    state: Seq<char>,
    plan: OperationPlan,
    result: Seq<char>,
    verification: Seq<char>,
    log: Seq<char>,
) -> Seq<Seq<char>> {
    seq!["Intent: "@ + description + " ["@ + state + "]"@] + plan_text(plan, "Executing"@) + seq![
        "Result: "@ + result,
        "Verification: "@ + verification,
        "Evidence log: "@ + log,
        "Rollback: available with the same operation instance while the directory remains empty"@,
    ]
}

/// The report lines of a completed, approved directory flow.
pub fn directory_report(
    description: &str,
    state: &str,
    plan: &OperationPlan,
    result: &str,
    verification: &str,
    log: &str,
) -> (r: Vec<String>)
    ensures
        views(r@) == directory_report_text(description@, state@, *plan, result@, verification@, log@),
{
    let mut out: Vec<String> = Vec::new();
    out.push(intent_line(description, state));
    append_lines(&mut out, render_plan(plan, "Executing"));
    let mut tail: Vec<String> = Vec::new();
    tail.push(concat("Result: ", result));
    tail.push(concat("Verification: ", verification));
    tail.push(concat("Evidence log: ", log));
    tail.push("Rollback: available with the same operation instance while the directory remains empty".to_string());
    append_lines(&mut out, tail);
    proof {
        assert(views(out@) =~= directory_report_text(description@, state@, *plan, result@, verification@, log@));
    }
    out
}

/// The evidence ids the system-health flow writes, in order.
pub open spec fn health_evidence_ids() -> Seq<Seq<char>> {
    seq!["evidence-plan"@, "evidence-authorization"@, "evidence-execution"@, "evidence-verification"@]
}

/// The first events of a completed system-health flow of the intent and
/// operation: the intent proposed, authorized and executing, the operation
/// completed, the intent verifying and completed.
pub open spec fn health_lifecycle_events(e: Seq<RuntimeEvent>, intent: Seq<char>, operation: Seq<char>) -> bool {
    &&& e.len() >= 6
    &&& is_state_event(e[0], intent, IntentState::Proposed)
    &&& is_state_event(e[1], intent, IntentState::Authorized)
    &&& is_state_event(e[2], intent, IntentState::Executing)
    &&& (e[3] matches RuntimeEvent::OperationCompleted(o) && o@ == operation)
    &&& is_state_event(e[4], intent, IntentState::Verifying)
    &&& is_state_event(e[5], intent, IntentState::Completed)
}

/// The events of a completed system-health flow: its lifecycle, then one
/// event per evidence record.
pub open spec fn health_events(e: Seq<RuntimeEvent>, intent: Seq<char>, operation: Seq<char>) -> bool {
    &&& e.len() == 10
    &&& health_lifecycle_events(e, intent, operation)
    &&& is_evidence_event(e[6], health_evidence_ids()[0])
    &&& is_evidence_event(e[7], health_evidence_ids()[1])
    &&& is_evidence_event(e[8], health_evidence_ids()[2])
    &&& is_evidence_event(e[9], health_evidence_ids()[3])
}

/// Whether `e` announces the evidence record `id`.
pub open spec fn is_evidence_event(e: RuntimeEvent, id: Seq<char>) -> bool {
    e matches RuntimeEvent::EvidenceRecorded(x) && x@ == id
}

/// The record a flow keeps of one of its steps: its id is `evidence-` and
/// the category.
fn flow_record(intent_id: &IntentId, operation_id: &OperationId, category: &str, details: &str) -> (r: EvidenceRecord)
    ensures
        r.id@ == "evidence-"@ + category@,
        r.intent_id == *intent_id,
        r.operation_id == *operation_id,
        r.category@ == category@,
        r.details@ == details@,
{
    let id_text = concat("evidence-", category);
    proof {
        reveal_strlit("evidence-");
        assert(!is_ws(id_text@[0]));
    }
    let id = match EvidenceId::new(id_text.as_str()) {
        Ok(id) => id,
        Err(_) => vstd::pervasive::unreached(),
    };
    EvidenceRecord {
        id,
        intent_id: intent_id.copy(),
        operation_id: operation_id.copy(),
        category: String::from_str(category),
        details: String::from_str(details),
    }
}

/// Append one record of the flow: its id is `evidence-` and the category.
fn append_evidence(
    store: &mut InMemoryEvidenceStore,
    intent_id: &IntentId,
    operation_id: &OperationId,
    category: &str,
    details: &str,
) -> (r: Result<(), OidError>)
    ensures
        r is Ok,
        final(store)@ == old(store)@.push(final(store)@.last()),
        final(store)@.last().id@ == "evidence-"@ + category@,
        final(store)@.last().operation_id == *operation_id,
{
    store.append(flow_record(intent_id, operation_id, category, details))
}

/// The records of an operation are all of a log whose records all belong to it.
proof fn lemma_records_of_all(records: Seq<EvidenceRecord>, operation: Seq<char>)
    requires
        forall|i: int| 0 <= i < records.len() ==> (#[trigger] records[i]).operation_id@ == operation,
    ensures
        records_of(records, operation) == records,
    decreases records.len(),
{
    reveal(Seq::filter);
    if records.len() > 0 {
        lemma_records_of_all(records.drop_last(), operation);
        assert(records.drop_last().push(records.last()) =~= records);
    }
}

/// The plain values of a flow's answer: its lines, or its error.
pub open spec fn lines_view(r: Result<Vec<String>, OidError>) -> Result<Seq<Seq<char>>, OidErrorV> {
    match r {
        Ok(lines) => Ok(views(lines@)),
        Err(e) => Err(e@),
    }
}

/// The steps of the system-health flow and where it ends, from what the
/// skill gave: the skill was asked to plan `request`; its plan, tied to the
/// intent (`ctx`), must be valid; the approved plan (`approved`, with the
/// authority) was handed to the skill to execute, and the execution to
/// verify. A failed step ends the flow with its error; a verification that
/// does not pass ends it with a `Verification` error; otherwise it ends
/// with the report of the intent, completed, the approved plan, the
/// execution's and the verification's summaries and the four evidence
/// records.
pub open spec fn health_steps_spec<S: GovernedSkill>(
    skill: S,
    request: SkillRequest,
    ctx: IntentContext,
    approved: ApprovedOperationPlan,
    p: Result<OperationPlan, OidError>,
    e: Result<ExecutionResult, OidError>,
    v: Result<VerificationResult, OidError>,
    authority: Seq<char>,
    outcome: Result<Seq<Seq<char>>, OidErrorV>,
) -> bool {
    &&& skill.planned(request, p)
    &&& match p {
        Err(x) => outcome == Err::<Seq<Seq<char>>, OidErrorV>(x@),
        Ok(planned) => {
            let plan = OperationPlan { intent: Some(ctx), ..planned };
            match plan_violation(plan) {
                Some(m) => outcome == Err::<Seq<Seq<char>>, OidErrorV>(OidErrorV::InvalidInput(m)),
                None => {
                    &&& approved.plan == plan
                    &&& approved.approved_by@ == authority
                    &&& skill.executed(approved, e)
                    &&& match e {
                        Err(x) => outcome == Err::<Seq<Seq<char>>, OidErrorV>(x@),
                        Ok(execution) => {
                            &&& skill.verified(execution, v)
                            &&& match v {
                                Err(x) => outcome == Err::<Seq<Seq<char>>, OidErrorV>(x@),
                                Ok(report) => if report.passed {
                                    outcome == Ok::<Seq<Seq<char>>, OidErrorV>(
                                        health_report_text(
                                            ctx.description@,
                                            "completed"@,
                                            approved.plan,
                                            execution.summary@,
                                            report.summary@,
                                            4,
                                            health_evidence_ids(),
                                        ),
                                    )
                                } else {
                                    outcome == Err::<Seq<Seq<char>>, OidErrorV>(OidErrorV::Verification(report.summary@))
                                },
                            }
                        },
                    }
                },
            }
        },
    }
}

/// How the system-health flow of the intent and operation ended, from what
/// the skill gave: the skill was asked to plan the operation with no
/// arguments, for the intent "inspect system health", and the plan runs
/// under the authority `policy:none`.
pub open spec fn health_flow_outcome<S: GovernedSkill>(
    skill: S,
    intent: IntentId,
    operation: OperationId,
    outcome: Result<Seq<Seq<char>>, OidErrorV>,
) -> bool {
    exists|
        request: SkillRequest,
        ctx: IntentContext,
        approved: ApprovedOperationPlan,
        p: Result<OperationPlan, OidError>,
        e: Result<ExecutionResult, OidError>,
        v: Result<VerificationResult, OidError>,
    |
        {
            &&& request.id == operation
            &&& request.arguments@ == Seq::<char>::empty()
            &&& ctx.id == intent
            &&& ctx.description@ == "inspect system health"@
            &&& #[trigger] health_steps_spec(skill, request, ctx, approved, p, e, v, "policy:none"@, outcome)
        }
}

/// The governed steps of the system-health flow after its intent was
/// proposed: plan, authorization, execution and verification, each recorded
/// as evidence. Gives the approved plan, the execution and verification
/// results and the evidence.
#[verifier::rlimit(80)]
fn health_governed<S: GovernedSkill>(
    skill: &S,
    session: &mut IntentSession,
    intent_id: &IntentId,
    operation_id: &OperationId,
) -> (r: Result<(ApprovedOperationPlan, ExecutionResult, VerificationResult, InMemoryEvidenceStore), OidError>)
    requires
        old(session).current().id == *intent_id,
        old(session).current().state == IntentState::Proposed,
        old(session).sink().len() == 1,
        is_state_event(old(session).sink()[0], intent_id@, IntentState::Proposed),
    ensures
        r matches Ok((approved, result, report, evidence)) ==> {
            &&& evidence@.len() == 4
            &&& forall|k: int| 0 <= k < 4 ==> (#[trigger] evidence@[k]).id@ == health_evidence_ids()[k]
                && evidence@[k].operation_id == *operation_id
            &&& final(session).sink().len() == 6
            &&& health_lifecycle_events(final(session).sink(), intent_id@, operation_id@)
            &&& final(session).current().state == IntentState::Completed
            &&& final(session).current().description == old(session).current().description
        },
        old(session).current().description@ == "inspect system health"@ ==> match r {
            Err(x) => health_flow_outcome(*skill, *intent_id, *operation_id, Err(x@)),
            Ok((approved, result, report, _)) => health_flow_outcome(
                *skill,
                *intent_id,
                *operation_id,
                Ok(
                    health_report_text(
                        "inspect system health"@,
                        "completed"@,
                        approved.plan,
                        result.summary@,
                        report.summary@,
                        4,
                        health_evidence_ids(),
                    ),
                ),
            ),
        },
{
    let ghost s0 = session.sink();
    let request = SkillRequest { id: operation_id.copy(), arguments: String::new() };
    let planned = skill.plan(&request);
    let ghost pv = planned;
    let ctx = IntentContext {
        id: intent_id.copy(),
        description: String::from_str(session.intent().description.as_str()),
    };
    let ghost g_ctx = ctx;
    let ghost any_a: ApprovedOperationPlan = arbitrary();
    let ghost any_e: Result<ExecutionResult, OidError> = arbitrary();
    let ghost any_v: Result<VerificationResult, OidError> = arbitrary();
    let mut plan = match planned {
        Ok(p) => p,
        Err(e) => {
            assert(health_steps_spec(*skill, request, g_ctx, any_a, pv, any_e, any_v, "policy:none"@, Err(e@)));
            return Err(e);
        },
    };
    let ghost g_planned = plan;
    plan.intent = Some(ctx);
    assert(plan == OperationPlan { intent: Some(g_ctx), ..g_planned });
    match plan.validate() {
        Err(e) => {
            assert(health_steps_spec(*skill, request, g_ctx, any_a, pv, any_e, any_v, "policy:none"@, Err(e@)));
            return Err(e);
        },
        Ok(()) => {},
    }
    let json = match plan.to_json() {
        Err(e) => {
            return Err(e);
        },
        Ok(j) => j,
    };
    let mut evidence = InMemoryEvidenceStore::default();
    let _ = append_evidence(&mut evidence, intent_id, operation_id, "plan", json.as_str());
    match session.transition(IntentState::Authorized) {
        Err(e) => {
            return Err(e);
        },
        Ok(()) => {},
    }
    let ghost s1 = session.sink();
    let authorization = AuthorizationRequest {
        operation_id: operation_id.copy(),
        skill_id: plan.skill.copy(),
        mutates_system: false,
    };
    let decision = match ReadOnlyPolicy.evaluate(&authorization) {
        Err(e) => {
            return Err(e);
        },
        Ok(d) => d,
    };
    let _ = append_evidence(&mut evidence, intent_id, operation_id, "authorization", decision.debug_text().as_str());
    match session.transition(IntentState::Executing) {
        Err(e) => {
            return Err(e);
        },
        Ok(()) => {},
    }
    let ghost s2 = session.sink();
    proof {
        reveal_strlit("policy:none");
        assert(!is_ws("policy:none"@[0]));
    }
    let approved = match ApprovedOperationPlan::new(plan, "policy:none") {
        Err(e) => {
            return Err(e);
        },
        Ok(a) => a,
    };
    let executed = skill.execute(&approved);
    let ghost ev = executed;
    let result = match executed {
        Err(e) => {
            assert(health_steps_spec(*skill, request, g_ctx, approved, pv, ev, any_v, "policy:none"@, Err(e@)));
            return Err(e);
        },
        Ok(r) => r,
    };
    let _ = append_evidence(&mut evidence, intent_id, operation_id, "execution", result.summary.as_str());
    session.publish(RuntimeEvent::OperationCompleted(operation_id.to_text()));
    let ghost s3 = session.sink();
    match session.transition(IntentState::Verifying) {
        Err(e) => {
            return Err(e);
        },
        Ok(()) => {},
    }
    let ghost s4 = session.sink();
    let verified = skill.verify(&result);
    let ghost vv = verified;
    let report = match verified {
        Err(e) => {
            assert(health_steps_spec(*skill, request, g_ctx, approved, pv, ev, vv, "policy:none"@, Err(e@)));
            return Err(e);
        },
        Ok(v) => v,
    };
    if !report.passed {
        let _ = session.transition(IntentState::Failed);
        assert(health_steps_spec(
            *skill,
            request,
            g_ctx,
            approved,
            pv,
            ev,
            vv,
            "policy:none"@,
            Err(OidErrorV::Verification(report.summary@)),
        ));
        return Err(OidError::Verification(report.summary));
    }
    match session.transition(IntentState::Completed) {
        Err(e) => {
            return Err(e);
        },
        Ok(()) => {},
    }
    let ghost s5 = session.sink();
    let _ = append_evidence(&mut evidence, intent_id, operation_id, "verification", report.summary.as_str());
    proof {
        reveal_strlit("evidence-");
        reveal_strlit("plan");
        reveal_strlit("authorization");
        reveal_strlit("execution");
        reveal_strlit("verification");
        reveal_strlit("evidence-plan");
        reveal_strlit("evidence-authorization");
        reveal_strlit("evidence-execution");
        reveal_strlit("evidence-verification");
        assert(s1 =~= s0.push(s1.last()));
        assert(s2 =~= s1.push(s2.last()));
        assert(s4 =~= s3.push(s4.last()));
        assert(s5 =~= s4.push(s5.last()));
        assert(evidence@[0].id@ == health_evidence_ids()[0]);
        assert(evidence@[1].id@ == health_evidence_ids()[1]);
        assert(evidence@[2].id@ == health_evidence_ids()[2]);
        assert(evidence@[3].id@ == health_evidence_ids()[3]);
        assert(health_steps_spec(
            *skill,
            request,
            g_ctx,
            approved,
            pv,
            ev,
            vv,
            "policy:none"@,
            Ok(
                health_report_text(
                    g_ctx.description@,
                    "completed"@,
                    approved.plan,
                    result.summary@,
                    report.summary@,
                    4,
                    health_evidence_ids(),
                ),
            ),
        ));
    }
    Ok((approved, result, report, evidence))
}

/// The steps of the system-health flow after its intent was proposed: the
/// governed steps, then the evidence records announced and the report.
fn health_steps<S: GovernedSkill>(
    skill: &S,
    session: &mut IntentSession,
    intent_id: &IntentId,
    operation_id: &OperationId,
) -> (r: Result<Vec<String>, OidError>)
    requires
        old(session).current().id == *intent_id,
        old(session).current().state == IntentState::Proposed,
        old(session).current().description@ == "inspect system health"@,
        old(session).sink().len() == 1,
        is_state_event(old(session).sink()[0], intent_id@, IntentState::Proposed),
    ensures
        r is Ok ==> health_events(final(session).sink(), intent_id@, operation_id@),
        health_flow_outcome(*skill, *intent_id, *operation_id, lines_view(r)),
{
    let governed = health_governed(skill, session, intent_id, operation_id);
    let (approved, result, report, evidence) = match governed {
        Err(e) => {
            return Err(e);
        },
        Ok(t) => t,
    };
    let ghost s5 = session.sink();
    proof {
        lemma_records_of_all(evidence@, operation_id@);
    }
    let record_count = evidence.records().len();
    let history = match evidence.history(operation_id) {
        Err(e) => {
            return Err(e);
        },
        Ok(h) => h,
    };
    let mut ids: Vec<String> = Vec::new();
    let mut i: usize = 0;
    while i < history.len()
        invariant
            history@ == evidence@,
            evidence@.len() == 4,
            forall|k: int| 0 <= k < 4 ==> (#[trigger] evidence@[k]).id@ == health_evidence_ids()[k],
            i <= history@.len(),
            views(ids@) == health_evidence_ids().subrange(0, i as int),
            session.sink().len() == s5.len() + i,
            session.sink().subrange(0, s5.len() as int) == s5,
            forall|k: int| 0 <= k < i ==> is_evidence_event(
                #[trigger] session.sink().subrange(s5.len() as int, session.sink().len() as int)[k],
                health_evidence_ids()[k],
            ),
            session.current().state == IntentState::Completed,
            session.current().description@ == "inspect system health"@,
        decreases history@.len() - i,
    {
        let ghost before = session.sink();
        let ghost before_ids = ids@;
        let id = history[i].id.to_text();
        session.publish(RuntimeEvent::EvidenceRecorded(history[i].id.to_text()));
        ids.push(id);
        proof {
            assert(history@[i as int] == evidence@[i as int]);
            assert(views(ids@) =~= views(before_ids).push(id@));
            assert(views(ids@) =~= health_evidence_ids().subrange(0, i + 1));
            assert(session.sink().subrange(0, s5.len() as int) =~= before.subrange(0, s5.len() as int));
            let tail = session.sink().subrange(s5.len() as int, session.sink().len() as int);
            let old_tail = before.subrange(s5.len() as int, before.len() as int);
            assert(tail =~= old_tail.push(session.sink().last()));
            assert forall|k: int| 0 <= k < i + 1 implies is_evidence_event(
                #[trigger] session.sink().subrange(s5.len() as int, session.sink().len() as int)[k],
                health_evidence_ids()[k],
            ) by {
                if k < i {
                    assert(tail[k] == old_tail[k]);
                }
            }
        }
        i = i + 1;
    }
    let description = session.intent().description.as_str();
    let state = session.intent().state.as_str();
    let lines = health_report(description, state, &approved.plan, result.summary.as_str(), report.summary.as_str(), record_count, &ids);
    proof {
        reveal_strlit("completed");
        assert(views(ids@) =~= health_evidence_ids());
        let f = session.sink();
        let tail = f.subrange(s5.len() as int, f.len() as int);
        assert(f[0] == s5[0]);
        assert(f[1] == s5[1]);
        assert(f[2] == s5[2]);
        assert(f[3] == s5[3]);
        assert(f[4] == s5[4]);
        assert(f[5] == s5[5]);
        assert(tail[0] == f[6]);
        assert(tail[1] == f[7]);
        assert(tail[2] == f[8]);
        assert(tail[3] == f[9]);
    }
    Ok(lines)
}

/// Run the read-only system-health flow with the skill: the intent is
/// proposed and authorized, the skill's plan (tied to the intent) is
/// recorded and allowed by the read-only policy, executed and verified,
/// each step recorded as evidence, and every intent state, the completed
/// operation and each evidence record published on `events`. A failed step
/// ends the flow with its error; a verification that does not pass fails
/// the intent with a `Verification` error.
pub fn run_system_health<S: GovernedSkill>(skill: &S, events: &mut EventLog) -> (r: Result<Vec<String>, OidError>)
    ensures
        final(events)@.len() >= old(events)@.len(),
        final(events)@.subrange(0, old(events)@.len() as int) == old(events)@,
        r is Ok ==> health_events(
            final(events)@.subrange(old(events)@.len() as int, final(events)@.len() as int),
            "intent-system-health"@,
            "operation-system-health"@,
        ),
        exists|intent: IntentId, operation: OperationId|
            intent@ == "intent-system-health"@ && operation@ == "operation-system-health"@ && #[trigger] health_flow_outcome(
                *skill,
                intent,
                operation,
                lines_view(r),
            ),
{
    proof {
        reveal_strlit("intent-system-health");
        reveal_strlit("operation-system-health");
        reveal_strlit("inspect system health");
        assert(!is_ws("intent-system-health"@[0]));
        assert(!is_ws("operation-system-health"@[0]));
        assert(!is_ws("inspect system health"@[0]));
    }
    let intent_id = match IntentId::new("intent-system-health") {
        Ok(id) => id,
        Err(e) => {
            return Err(e);
        },
    };
    let operation_id = match OperationId::new("operation-system-health") {
        Ok(id) => id,
        Err(e) => {
            return Err(e);
        },
    };
    let mut session = match IntentSession::new(intent_id.copy(), "inspect system health", EventLog::new()) {
        Ok(s) => s,
        Err(e) => {
            return Err(e);
        },
    };
    let r = health_steps(skill, &mut session, &intent_id, &operation_id);
    assert(health_flow_outcome(*skill, intent_id, operation_id, lines_view(r)));
    let ghost before = events@;
    let published = session.into_events();
    events.extend(published);
    proof {
        assert(events@.subrange(0, before.len() as int) =~= before);
        assert(events@.subrange(before.len() as int, events@.len() as int) =~= published@);
    }
    r
}

/// Append one record of the flow to a store (the record `flow_record`
/// makes); whether the store keeps it is the store's: its own error is
/// passed on.
fn append_evidence_store<V: EvidenceStore>(
    store: &mut V,
    intent_id: &IntentId,
    operation_id: &OperationId,
    category: &str,
    details: &str,
) -> (r: Result<(), OidError>) {
    store.append(flow_record(intent_id, operation_id, category, details))
}

/// The events of a directory flow that stopped to ask for approval: the
/// intent proposed, authorized and awaiting approval, then the request.
pub open spec fn approval_request_events(e: Seq<RuntimeEvent>, intent: Seq<char>) -> bool {
    &&& e.len() == 4
    &&& is_state_event(e[0], intent, IntentState::Proposed)
    &&& is_state_event(e[1], intent, IntentState::Authorized)
    &&& is_state_event(e[2], intent, IntentState::AwaitingApproval)
    &&& e[3] is ApprovalRequested
}

/// The events of an approved, completed directory flow: the intent proposed
/// and authorized, the approval granted, the intent executing, the
/// operation completed, the intent verifying and completed.
pub open spec fn directory_events(e: Seq<RuntimeEvent>, intent: Seq<char>, operation: Seq<char>) -> bool {
    &&& e.len() == 7
    &&& is_state_event(e[0], intent, IntentState::Proposed)
    &&& is_state_event(e[1], intent, IntentState::Authorized)
    &&& e[2] is ApprovalGranted
    &&& is_state_event(e[3], intent, IntentState::Executing)
    &&& (e[4] matches RuntimeEvent::OperationCompleted(o) && o@ == operation)
    &&& is_state_event(e[5], intent, IntentState::Verifying)
    &&& is_state_event(e[6], intent, IntentState::Completed)
}

/// How the directory flow for `path` of the intent and operation ended,
/// from what the skill and the evidence store gave: the skill was asked to
/// plan the operation with the path as its argument, for the intent
/// "create directory <path>"; the plan must be valid. Without approval the
/// flow ends there, having handed nothing to execute and appended nothing.
/// With it, the plan and authorization records are appended (`a1`, `a2`),
/// the plan approved by "user (--approve)" is handed to the skill to
/// execute, the execution record appended (`a3`), the execution verified,
/// and, when it passes, the verification record appended (`a4`). A failed
/// step ends the flow with its error; a verification that does not pass
/// ends it with a `Verification` error. The flow's answer is the plan with
/// the reason for approval and how to give it, or the report of the
/// completed intent with the approved plan and the summaries of the
/// execution and verification, naming the evidence log `log`.
pub open spec fn directory_steps_spec<S: GovernedSkill>(
    skill: S,
    request: SkillRequest,
    ctx: IntentContext,
    approved_plan: ApprovedOperationPlan,
    p: Result<OperationPlan, OidError>,
    a1: Result<(), OidError>,
    a2: Result<(), OidError>,
    e: Result<ExecutionResult, OidError>,
    a3: Result<(), OidError>,
    v: Result<VerificationResult, OidError>,
    a4: Result<(), OidError>,
    approved: bool,
    log: Seq<char>,
    outcome: Result<Seq<Seq<char>>, OidErrorV>,
) -> bool {
    &&& skill.planned(request, p)
    &&& match p {
        Err(x) => outcome == Err::<Seq<Seq<char>>, OidErrorV>(x@),
        Ok(planned) => {
            let plan = OperationPlan { intent: Some(ctx), ..planned };
            match plan_violation(plan) {
                Some(m) => outcome == Err::<Seq<Seq<char>>, OidErrorV>(OidErrorV::InvalidInput(m)),
                None => if !approved {
                    outcome == Ok::<Seq<Seq<char>>, OidErrorV>(
                        approval_request_text(plan, mutation_reason(plan.skill@), request.arguments@, log),
                    )
                } else {
                    match (a1, a2) {
                        (Err(x), _) => outcome == Err::<Seq<Seq<char>>, OidErrorV>(x@),
                        (Ok(()), Err(x)) => outcome == Err::<Seq<Seq<char>>, OidErrorV>(x@),
                        (Ok(()), Ok(())) => {
                            &&& approved_plan.plan == plan
                            &&& approved_plan.approved_by@ == "user (--approve)"@
                            &&& skill.executed(approved_plan, e)
                            &&& match e {
                                Err(x) => outcome == Err::<Seq<Seq<char>>, OidErrorV>(x@),
                                Ok(execution) => match a3 {
                                    Err(x) => outcome == Err::<Seq<Seq<char>>, OidErrorV>(x@),
                                    Ok(()) => {
                                        &&& skill.verified(execution, v)
                                        &&& match v {
                                            Err(x) => outcome == Err::<Seq<Seq<char>>, OidErrorV>(x@),
                                            Ok(report) => if !report.passed {
                                                outcome == Err::<Seq<Seq<char>>, OidErrorV>(OidErrorV::Verification(report.summary@))
                                            } else {
                                                match a4 {
                                                    Err(x) => outcome == Err::<Seq<Seq<char>>, OidErrorV>(x@),
                                                    Ok(()) => outcome == Ok::<Seq<Seq<char>>, OidErrorV>(
                                                        directory_report_text(
                                                            ctx.description@,
                                                            "completed"@,
                                                            approved_plan.plan,
                                                            execution.summary@,
                                                            report.summary@,
                                                            log,
                                                        ),
                                                    ),
                                                }
                                            },
                                        }
                                    },
                                },
                            }
                        },
                    }
                },
            }
        },
    }
}

/// How the directory flow of the intent and operation for `path` ended, from
/// what the skill and the evidence store gave.
pub open spec fn directory_flow_outcome<S: GovernedSkill>(
    skill: S,
    intent: IntentId,
    operation: OperationId,
    path: Seq<char>,
    approved: bool,
    log: Seq<char>,
    outcome: Result<Seq<Seq<char>>, OidErrorV>,
) -> bool {
    exists|
        request: SkillRequest,
        ctx: IntentContext,
        approved_plan: ApprovedOperationPlan,
        p: Result<OperationPlan, OidError>,
        a1: Result<(), OidError>,
        a2: Result<(), OidError>,
        e: Result<ExecutionResult, OidError>,
        a3: Result<(), OidError>,
        v: Result<VerificationResult, OidError>,
        a4: Result<(), OidError>,
    |
        {
            &&& request.id == operation
            &&& request.arguments@ == path
            &&& ctx.id == intent
            &&& ctx.description@ == "create directory "@ + path
            &&& #[trigger] directory_steps_spec(skill, request, ctx, approved_plan, p, a1, a2, e, a3, v, a4, approved, log, outcome)
        }
}

/// The steps of the directory flow after its intent was proposed.
fn directory_steps<S: GovernedSkill, V: EvidenceStore>(
    skill: &S,
    session: &mut IntentSession,
    intent_id: &IntentId,
    operation_id: &OperationId,
    path: &str,
    approved: bool,
    evidence: &mut V,
    evidence_path: &str,
) -> (r: Result<Vec<String>, OidError>)
    requires
        old(session).current().id == *intent_id,
        old(session).current().state == IntentState::Proposed,
        old(session).current().description@ == "create directory "@ + path@,
        old(session).sink().len() == 1,
        is_state_event(old(session).sink()[0], intent_id@, IntentState::Proposed),
    ensures
        r is Ok && approved ==> directory_events(final(session).sink(), intent_id@, operation_id@),
        r is Ok && !approved ==> approval_request_events(final(session).sink(), intent_id@),
        directory_flow_outcome(*skill, *intent_id, *operation_id, path@, approved, evidence_path@, lines_view(r)),
        !approved ==> *final(evidence) == *old(evidence),
{
    let ghost s0 = session.sink();
    let request = SkillRequest { id: operation_id.copy(), arguments: String::from_str(path) };
    let planned = skill.plan(&request);
    let ghost pv = planned;
    let ctx = IntentContext {
        id: intent_id.copy(),
        description: String::from_str(session.intent().description.as_str()),
    };
    let ghost g_ctx = ctx;
    let ghost any_a: ApprovedOperationPlan = arbitrary();
    let ghost any_u: Result<(), OidError> = arbitrary();
    let ghost any_e: Result<ExecutionResult, OidError> = arbitrary();
    let ghost any_v: Result<VerificationResult, OidError> = arbitrary();
    let mut plan = match planned {
        Ok(p) => p,
        Err(e) => {
            assert(directory_steps_spec(*skill, request, g_ctx, any_a, pv, any_u, any_u, any_e, any_u, any_v, any_u, approved, evidence_path@, Err(e@)));
            return Err(e);
        },
    };
    let ghost g_planned = plan;
    plan.intent = Some(ctx);
    assert(plan == OperationPlan { intent: Some(g_ctx), ..g_planned });
    match plan.validate() {
        Err(e) => {
            assert(directory_steps_spec(*skill, request, g_ctx, any_a, pv, any_u, any_u, any_e, any_u, any_v, any_u, approved, evidence_path@, Err(e@)));
            return Err(e);
        },
        Ok(()) => {},
    }
    let json = match plan.to_json() {
        Err(e) => {
            return Err(e);
        },
        Ok(j) => j,
    };
    let authorization = AuthorizationRequest {
        operation_id: operation_id.copy(),
        skill_id: plan.skill.copy(),
        mutates_system: true,
    };
    let decision = match ReadOnlyPolicy.evaluate(&authorization) {
        Err(e) => {
            return Err(e);
        },
        Ok(d) => d,
    };
    let decision_text = decision.debug_text();
    let reason = match decision {
        AuthorizationDecision::ApprovalRequired { reason } => reason,
        _ => {
            return Err(OidError::Unauthorized(String::from_str("mutating directory operation was not gated")));
        },
    };
    match session.transition(IntentState::Authorized) {
        Err(e) => {
            return Err(e);
        },
        Ok(()) => {},
    }
    let ghost s1 = session.sink();
    if !approved {
        match session.transition(IntentState::AwaitingApproval) {
            Err(e) => {
                return Err(e);
            },
            Ok(()) => {},
        }
        let ghost s2 = session.sink();
        session.publish(RuntimeEvent::ApprovalRequested);
        let lines = approval_request_report(&plan, reason.as_str(), path, evidence_path);
        proof {
            assert(s1 =~= s0.push(s1.last()));
            assert(s2 =~= s1.push(s2.last()));
            assert(directory_steps_spec(
                *skill,
                request,
                g_ctx,
                any_a,
                pv,
                any_u,
                any_u,
                any_e,
                any_u,
                any_v,
                any_u,
                approved,
                evidence_path@,
                Ok(views(lines@)),
            ));
        }
        return Ok(lines);
    }
    let appended_plan = append_evidence_store(evidence, intent_id, operation_id, "plan", json.as_str());
    let ghost a1 = appended_plan;
    match appended_plan {
        Err(e) => {
            assert(directory_steps_spec(*skill, request, g_ctx, any_a, pv, a1, any_u, any_e, any_u, any_v, any_u, approved, evidence_path@, Err(e@)));
            return Err(e);
        },
        Ok(()) => {},
    }
    let appended_decision = append_evidence_store(evidence, intent_id, operation_id, "authorization", decision_text.as_str());
    let ghost a2 = appended_decision;
    match appended_decision {
        Err(e) => {
            assert(directory_steps_spec(*skill, request, g_ctx, any_a, pv, a1, a2, any_e, any_u, any_v, any_u, approved, evidence_path@, Err(e@)));
            return Err(e);
        },
        Ok(()) => {},
    }
    let mut approvals = InMemoryApprovalStore::default();
    let _ = approvals.approve(Approval { operation_id: operation_id.copy(), note: String::from_str("explicit --approve flag") });
    match approvals.is_approved(operation_id) {
        Ok(true) => {},
        _ => {
            return Err(OidError::Unauthorized(String::from_str("approval was not recorded")));
        },
    }
    session.publish(RuntimeEvent::ApprovalGranted);
    let ghost s2 = session.sink();
    match session.transition(IntentState::Executing) {
        Err(e) => {
            return Err(e);
        },
        Ok(()) => {},
    }
    let ghost s3 = session.sink();
    proof {
        reveal_strlit("user (--approve)");
        assert(!is_ws("user (--approve)"@[0]));
    }
    let approved_plan = match ApprovedOperationPlan::new(plan, "user (--approve)") {
        Err(e) => {
            return Err(e);
        },
        Ok(a) => a,
    };
    let executed = skill.execute(&approved_plan);
    let ghost ev = executed;
    let result = match executed {
        Err(e) => {
            assert(directory_steps_spec(*skill, request, g_ctx, approved_plan, pv, a1, a2, ev, any_u, any_v, any_u, approved, evidence_path@, Err(e@)));
            return Err(e);
        },
        Ok(r) => r,
    };
    let appended_execution = append_evidence_store(evidence, intent_id, operation_id, "execution", result.summary.as_str());
    let ghost a3 = appended_execution;
    match appended_execution {
        Err(e) => {
            assert(directory_steps_spec(*skill, request, g_ctx, approved_plan, pv, a1, a2, ev, a3, any_v, any_u, approved, evidence_path@, Err(e@)));
            return Err(e);
        },
        Ok(()) => {},
    }
    session.publish(RuntimeEvent::OperationCompleted(operation_id.to_text()));
    let ghost s4 = session.sink();
    match session.transition(IntentState::Verifying) {
        Err(e) => {
            return Err(e);
        },
        Ok(()) => {},
    }
    let ghost s5 = session.sink();
    let verified = skill.verify(&result);
    let ghost vv = verified;
    let report = match verified {
        Err(e) => {
            assert(directory_steps_spec(*skill, request, g_ctx, approved_plan, pv, a1, a2, ev, a3, vv, any_u, approved, evidence_path@, Err(e@)));
            return Err(e);
        },
        Ok(v) => v,
    };
    if !report.passed {
        let _ = session.transition(IntentState::Failed);
        assert(directory_steps_spec(
            *skill,
            request,
            g_ctx,
            approved_plan,
            pv,
            a1,
            a2,
            ev,
            a3,
            vv,
            any_u,
            approved,
            evidence_path@,
            Err(OidErrorV::Verification(report.summary@)),
        ));
        return Err(OidError::Verification(report.summary));
    }
    match session.transition(IntentState::Completed) {
        Err(e) => {
            return Err(e);
        },
        Ok(()) => {},
    }
    let ghost s6 = session.sink();
    let appended_verification = append_evidence_store(evidence, intent_id, operation_id, "verification", report.summary.as_str());
    let ghost a4 = appended_verification;
    match appended_verification {
        Err(e) => {
            assert(directory_steps_spec(*skill, request, g_ctx, approved_plan, pv, a1, a2, ev, a3, vv, a4, approved, evidence_path@, Err(e@)));
            return Err(e);
        },
        Ok(()) => {},
    }
    let lines = directory_report(
        session.intent().description.as_str(),
        session.intent().state.as_str(),
        &approved_plan.plan,
        result.summary.as_str(),
        report.summary.as_str(),
        evidence_path,
    );
    proof {
        reveal_strlit("completed");
        assert(s1 =~= s0.push(s1.last()));
        assert(s3 =~= s2.push(s3.last()));
        assert(s5 =~= s4.push(s5.last()));
        assert(s6 =~= s5.push(s6.last()));
        assert(directory_steps_spec(
            *skill,
            request,
            g_ctx,
            approved_plan,
            pv,
            a1,
            a2,
            ev,
            a3,
            vv,
            a4,
            approved,
            evidence_path@,
            Ok(views(lines@)),
        ));
    }
    Ok(lines)
}

/// Run the directory-creation flow with the skill. The skill plans the
/// directory (tied to the intent "create directory <path>") and the policy
/// decides that the mutation needs approval. Without `approved` the flow
/// stops there and touches nothing: the intent awaits approval, an approval
/// request is published, and the plan is shown with the reason and how to
/// approve. With it, the plan and the decision are recorded as evidence,
/// the approval is recorded, the plan is executed and verified, each step
/// recorded, and the report names the evidence log. A failed step ends the
/// flow with its error; a verification that does not pass fails the intent
/// with a `Verification` error.
pub fn run_create_directory<S: GovernedSkill, V: EvidenceStore>(
    skill: &S,
    events: &mut EventLog,
    path: &str,
    approved: bool,
    evidence: &mut V,
    evidence_path: &str,
) -> (r: Result<Vec<String>, OidError>)
    ensures
        final(events)@.len() >= old(events)@.len(),
        final(events)@.subrange(0, old(events)@.len() as int) == old(events)@,
        r is Ok && approved ==> directory_events(
            final(events)@.subrange(old(events)@.len() as int, final(events)@.len() as int),
            "intent-create-directory"@,
            "operation-create-directory"@,
        ),
        r is Ok && !approved ==> approval_request_events(
            final(events)@.subrange(old(events)@.len() as int, final(events)@.len() as int),
            "intent-create-directory"@,
        ),
        exists|intent: IntentId, operation: OperationId|
            intent@ == "intent-create-directory"@ && operation@ == "operation-create-directory"@
                && #[trigger] directory_flow_outcome(*skill, intent, operation, path@, approved, evidence_path@, lines_view(r)),
        !approved ==> *final(evidence) == *old(evidence),
{
    proof {
        reveal_strlit("intent-create-directory");
        reveal_strlit("operation-create-directory");
        reveal_strlit("create directory ");
        assert(!is_ws("intent-create-directory"@[0]));
        assert(!is_ws("operation-create-directory"@[0]));
    }
    let intent_id = match IntentId::new("intent-create-directory") {
        Ok(id) => id,
        Err(e) => {
            return Err(e);
        },
    };
    let operation_id = match OperationId::new("operation-create-directory") {
        Ok(id) => id,
        Err(e) => {
            return Err(e);
        },
    };
    let description = concat("create directory ", path);
    assert(!is_ws(description@[0]));
    let mut session = match IntentSession::new(intent_id.copy(), description.as_str(), EventLog::new()) {
        Ok(s) => s,
        Err(e) => {
            return Err(e);
        },
    };
    let r = directory_steps(skill, &mut session, &intent_id, &operation_id, path, approved, evidence, evidence_path);
    assert(directory_flow_outcome(*skill, intent_id, operation_id, path@, approved, evidence_path@, lines_view(r)));
    let ghost before = events@;
    let published = session.into_events();
    events.extend(published);
    proof {
        assert(events@.subrange(0, before.len() as int) =~= before);
        assert(events@.subrange(before.len() as int, events@.len() as int) =~= published@);
    }
    r
}

} // verus!
