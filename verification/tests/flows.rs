use oid::common::{OidError, OperationId, SkillId};
use oid::coordinator::{OperationRecord, OperationStatus, SkillRequest};
use oid::daemon::{
    done_reply, generate_request, parse_control, parse_request, read_reply, read_stream_line,
    result_reply, socket_path_from, status_reply, ControlCommand, MarinaRequest, ReplyLine,
    StreamLine,
};
use oid::evidence::{EvidenceRecord, InMemoryEvidenceStore};
use oid::foundation::{render_plan, run_create_directory, run_system_health};
use oid::governance::{GovernedSkill, OperationCoordinator, OperationLog};
use oid::operation::{
    ActionType, ApprovalRequirement, ApprovedOperationPlan, ExecutionResult, OperationPlan,
    OperationStep, RiskLevel, RollbackResult, VerificationCheck, VerificationPlan,
    VerificationResult,
};
use oid::policy::InMemoryApprovalStore;
use oid::session::{
    directory_operation_id, parse_pending, pending_log_line, pending_path, recover_report,
    recovered_execution, render_record, title,
};
use oid::shared::{EventLog, RuntimeError, RuntimeEvent};
use oid::skills::SkillDescriptor;

#[derive(Default)]
struct MemoryJournal {
    records: Vec<OperationRecord>,
}

impl OperationLog for MemoryJournal {
    fn append(&mut self, record: &OperationRecord) -> Result<(), OidError> {
        self.records.push(record.clone());
        Ok(())
    }
    fn records(&self) -> Result<Vec<OperationRecord>, OidError> {
        Ok(self.records.clone())
    }
}

struct ProbeSkill {
    descriptor: SkillDescriptor,
}

impl ProbeSkill {
    fn new(id: &str, mutates_system: bool) -> Self {
        Self {
            descriptor: SkillDescriptor {
                id: SkillId::new(id).expect("skill id"),
                description: "probe".to_owned(),
                mutates_system,
            },
        }
    }
}

impl GovernedSkill for ProbeSkill {
    fn descriptor(&self) -> &SkillDescriptor {
        &self.descriptor
    }
    fn plan(&self, request: &SkillRequest) -> Result<OperationPlan, OidError> {
        Ok(OperationPlan {
            id: request.id.clone(),
            intent: None,
            skill: self.descriptor.id.clone(),
            summary: "Inspect".to_owned(),
            rationale: "Read-only probe".to_owned(),
            risk: if self.descriptor.mutates_system {
                RiskLevel::Medium
            } else {
                RiskLevel::NoRisk
            },
            approval: if self.descriptor.mutates_system {
                ApprovalRequirement::User
            } else {
                ApprovalRequirement::NotRequired
            },
            steps: vec![OperationStep {
                order: 1,
                description: "Read".to_owned(),
                action: ActionType::InspectSystemHealth,
                affects_system_state: self.descriptor.mutates_system,
            }],
            verification: VerificationPlan {
                checks: vec![VerificationCheck {
                    description: "Value read".to_owned(),
                    kind: "read".to_owned(),
                }],
            },
            rollback: None,
        })
    }
    fn execute(&self, approved: &ApprovedOperationPlan) -> Result<ExecutionResult, OidError> {
        Ok(ExecutionResult {
            operation_id: approved.plan.id.clone(),
            summary: "probe ran".to_owned(),
            changed: self.descriptor.mutates_system,
        })
    }
    fn verify(&self, execution: &ExecutionResult) -> Result<VerificationResult, OidError> {
        Ok(VerificationResult {
            operation_id: execution.operation_id.clone(),
            passed: true,
            summary: "probe verified".to_owned(),
        })
    }
    fn rollback(&self, execution: &ExecutionResult) -> Result<RollbackResult, OidError> {
        Ok(RollbackResult {
            operation_id: execution.operation_id.clone(),
            changed: true,
            summary: "probe undone".to_owned(),
        })
    }
}

type Coordinator =
    OperationCoordinator<InMemoryApprovalStore, InMemoryEvidenceStore, MemoryJournal, ProbeSkill>;

fn coordinator() -> Coordinator {
    OperationCoordinator::new(
        InMemoryApprovalStore::new(),
        InMemoryEvidenceStore::default(),
        MemoryJournal::default(),
    )
}

fn request(id: &str) -> SkillRequest {
    SkillRequest {
        id: OperationId::new(id).expect("id"),
        arguments: String::new(),
    }
}

#[test]
fn coordinates_read_only_execution_and_evidence() {
    let mut coordinator = coordinator();
    coordinator
        .register_skill(ProbeSkill::new("system-health", false))
        .expect("register");
    let result = coordinator
        .run("system-health", &request("operation-coordinator"), false)
        .expect("run");
    assert!(!result.changed);
    assert!(coordinator.recoverable().expect("recovery").is_empty());
    let history = coordinator
        .evidence_history(&OperationId::new("operation-coordinator").expect("id"))
        .expect("history");
    let categories: Vec<&str> = history.iter().map(|r| r.category.as_str()).collect();
    assert_eq!(categories, vec!["plan", "approval", "execution", "verification"]);
    let latest = coordinator
        .latest(&OperationId::new("operation-coordinator").expect("id"))
        .expect("journal")
        .expect("record");
    assert_eq!(latest.status, OperationStatus::Verified);
}

#[test]
fn mutating_runs_wait_for_approval() {
    let mut coordinator = coordinator();
    coordinator
        .register_skill(ProbeSkill::new("create-directory", true))
        .expect("register");
    let error = coordinator
        .run("create-directory", &request("op-2"), false)
        .expect_err("approval required");
    assert_eq!(error, OidError::ApprovalRequired("op-2".to_owned()));
    let pending = coordinator.recoverable().expect("recovery");
    assert_eq!(pending.len(), 1);
    assert_eq!(pending[0].status, OperationStatus::AwaitingApproval);
    let result = coordinator
        .run("create-directory", &request("op-2"), true)
        .expect("approved run");
    assert!(result.changed);
    let rollback = coordinator
        .rollback(&OperationId::new("op-2").expect("id"))
        .expect("rollback");
    assert_eq!(rollback.summary, "probe undone");
}

#[test]
fn unknown_skills_and_commands_are_refused() {
    let mut coordinator = coordinator();
    assert_eq!(
        coordinator.run("missing", &request("op-3"), true),
        Err(OidError::NotFound("skill: missing".to_owned()))
    );
    assert_eq!(
        coordinator.run_dynamic("pg", &request("op-3"), true),
        Err(OidError::NotFound("dynamic command: pg".to_owned()))
    );
    assert_eq!(
        coordinator.rollback(&OperationId::new("op-3").expect("id")),
        Err(OidError::NotFound("completed operation: op-3".to_owned()))
    );
    coordinator
        .register_skill(ProbeSkill::new("probe", false))
        .expect("register");
    assert_eq!(
        coordinator.register_skill(ProbeSkill::new("probe", false)),
        Err(OidError::InvalidInput("skill already registered: probe".to_owned()))
    );
}

fn plan() -> OperationPlan {
    ProbeSkill::new("create-directory", true)
        .plan(&request("op-9"))
        .expect("plan")
}

#[test]
fn renders_plans_in_terminal_format() {
    let lines = render_plan(&plan(), "Executing");
    assert_eq!(lines[0], "Operation Plan");
    assert_eq!(lines[3], "Summary\nInspect");
    assert_eq!(lines[5], "Risk\nMedium");
    assert_eq!(lines[6], "Approval\nUser");
    assert_eq!(lines[8], "1. Read");
    assert_eq!(lines[9], "Verification");
    assert_eq!(lines[10], "- Value read");
    assert_eq!(lines[12], "Not applicable");
    assert_eq!(lines[13], "Status\nExecuting");
    assert_eq!(lines.len(), 14);
}

#[test]
fn recovery_reports_interrupted_and_pending_operations() {
    assert_eq!(
        recover_report(&Vec::new(), &Vec::new()),
        vec!["No recoverable operations."]
    );
    let record = OperationRecord {
        operation_id: OperationId::new("op-1").expect("id"),
        status: OperationStatus::Executing,
        detail: "skill execution started".to_owned(),
    };
    assert_eq!(
        render_record(&record),
        "op-1  skill execution started\n        State: EXECUTION_INTERRUPTED"
    );
    let pending = vec![(OperationId::new("op-2").expect("id"), "/tmp/x".to_owned())];
    let report = recover_report(&vec![record], &pending);
    assert_eq!(report[0], "OID detected 2 interrupted operation(s).");
    assert_eq!(
        report[2],
        "op-2  Create directory /tmp/x\n        State: AWAITING_APPROVAL"
    );
    assert_eq!(report.len(), 4);
}

#[test]
fn pending_log_lines_read_back() {
    let id = OperationId::new("op-7").expect("id");
    let line = pending_log_line(&id, "/tmp/demo").expect("line");
    assert_eq!(line, "op-7\t/tmp/demo");
    assert!(pending_log_line(&id, "bad\tpath").is_err());
    let log = format!("{line}\nnot a pending line\nop-8\t/tmp/other\n");
    let entries = parse_pending(&log).expect("parse");
    assert_eq!(entries.len(), 2);
    assert_eq!(pending_path(&entries, &id).as_deref(), Some("/tmp/demo"));
    assert!(parse_pending(" \t/tmp/x\n").is_err());
    assert_eq!(
        directory_operation_id(42).as_str(),
        "op-create-directory-42"
    );
    assert_eq!(title("approval"), "Approval");
    assert_eq!(title(""), "");
}

#[test]
fn daemon_reads_the_requests_the_client_writes() {
    let line = generate_request("qwen", "say\thello\nworld");
    assert_eq!(
        parse_request(&line),
        MarinaRequest::Generate {
            model: "qwen".to_owned(),
            max_tokens: 128,
            prompt: "say\thello\nworld".to_owned(),
        }
    );
    assert_eq!(parse_request("status\n"), MarinaRequest::Status);
    assert_eq!(
        parse_request("model_load\tdemo\n"),
        MarinaRequest::ModelLoad("demo".to_owned())
    );
    assert_eq!(parse_request("model_load\ta\tb"), MarinaRequest::Unknown);
    assert_eq!(
        parse_request("generate\tm\tlots\tp"),
        MarinaRequest::Generate {
            model: "m".to_owned(),
            max_tokens: 128,
            prompt: "p".to_owned(),
        }
    );
    assert_eq!(parse_request(""), MarinaRequest::Unknown);
}

#[test]
fn daemon_replies_and_client_reading() {
    assert_eq!(result_reply(&Ok(())), "OK");
    assert_eq!(
        result_reply(&Err(RuntimeError::ModelNotFound("x".to_owned()))),
        "ERROR\tmodel not found: x"
    );
    assert_eq!(done_reply(true, 5), "DONE\tcancelled\t5");
    assert_eq!(
        read_reply("OK\thealthy"),
        ReplyLine::Print {
            text: "healthy".to_owned(),
            last: false
        }
    );
    assert_eq!(
        read_reply("ERROR\tnope"),
        ReplyLine::Failed("nope".to_owned())
    );
    assert_eq!(
        read_stream_line("TOKEN\ta\\nb"),
        StreamLine::Token("a\nb".to_owned())
    );
    assert_eq!(read_stream_line("noise"), StreamLine::Other);
    assert_eq!(socket_path_from(None, Some("/home/ada")), "/home/ada/.marina/marina.sock");
    assert_eq!(socket_path_from(None, None), "/tmp/marina.sock");
    let snapshot = oid::runtime::RuntimeSnapshot {
        health: "Healthy",
        backend: "mock".to_owned(),
        models: 0,
        memory: "--".to_owned(),
        loaded_model: None,
        uptime_seconds: 1,
        backend_version: None,
        model_memory_bytes: None,
        loaded_context: None,
    };
    assert_eq!(status_reply(&snapshot), "OK status\tHealthy\tmock\t");
}

#[test]
fn control_client_arguments() {
    let args = |items: &[&str]| items.iter().map(|s| (*s).to_owned()).collect::<Vec<String>>();
    assert_eq!(
        parse_control(&args(&["model", "load", "demo"])),
        Ok(ControlCommand::Request("model_load\tdemo".to_owned()))
    );
    assert_eq!(
        parse_control(&args(&["generate", "m", "hello", "there"])),
        Ok(ControlCommand::Generate {
            model: "m".to_owned(),
            prompt: "hello there".to_owned()
        })
    );
    assert_eq!(
        parse_control(&args(&["generate", "m"])),
        Err("prompt required".to_owned())
    );
    assert_eq!(parse_control(&args(&["wat"])), Err("unknown command".to_owned()));
    assert!(parse_control(&args(&[])).is_err());
}

#[test]
fn evidence_records_compare_by_value() {
    let record = EvidenceRecord {
        id: oid::common::EvidenceId::new("e").expect("id"),
        intent_id: oid::common::IntentId::new("i").expect("id"),
        operation_id: OperationId::new("o").expect("id"),
        category: "plan".to_owned(),
        details: "d".to_owned(),
    };
    assert_eq!(record.duplicate(), record);
}

#[test]
fn vertical_slice_publishes_lifecycle_and_evidence_events() {
    let mut bus = EventLog::new();
    let skill = ProbeSkill::new("system-health", false);
    let output = run_system_health(&skill, &mut bus).expect("foundation flow succeeds");
    assert!(output.iter().any(|line| line.starts_with("Verification:")));
    let events = bus.events();
    assert!(events.iter().any(|event| matches!(event, RuntimeEvent::IntentStateChanged { state, .. } if state == "completed")));
    assert!(events
        .iter()
        .any(|event| matches!(event, RuntimeEvent::EvidenceRecorded(_))));
}

#[test]
fn system_health_flow_reports_and_announces_each_step() {
    let mut bus = EventLog::new();
    let skill = ProbeSkill::new("system-health", false);
    let output = run_system_health(&skill, &mut bus).expect("flow");
    assert_eq!(output[0], "Intent: inspect system health [completed]");
    assert_eq!(output[output.len() - 5], "Policy: allowed (read-only operation; approval not required)");
    assert_eq!(output[output.len() - 4], "Result: probe ran");
    assert_eq!(output[output.len() - 3], "Verification: probe verified");
    assert_eq!(
        output[output.len() - 2],
        "Evidence: 4 append-only records (evidence-plan, evidence-authorization, evidence-execution, evidence-verification)"
    );
    assert_eq!(output[output.len() - 1], "Rollback: not applicable (read-only operation)");
    let states: Vec<String> = bus
        .events()
        .iter()
        .filter_map(|event| match event {
            RuntimeEvent::IntentStateChanged { state, .. } => Some(state.clone()),
            _ => None,
        })
        .collect();
    assert_eq!(states, ["proposed", "authorized", "executing", "verifying", "completed"]);
    assert_eq!(bus.events().len(), 10);
    assert_eq!(
        bus.events()[3],
        RuntimeEvent::OperationCompleted("operation-system-health".to_owned())
    );
    assert_eq!(
        bus.events()[9],
        RuntimeEvent::EvidenceRecorded("evidence-verification".to_owned())
    );
}

#[test]
fn system_health_flow_fails_an_unverified_result() {
    struct Failing(ProbeSkill);
    impl GovernedSkill for Failing {
        fn descriptor(&self) -> &SkillDescriptor {
            self.0.descriptor()
        }
        fn plan(&self, request: &SkillRequest) -> Result<OperationPlan, OidError> {
            self.0.plan(request)
        }
        fn execute(&self, approved: &ApprovedOperationPlan) -> Result<ExecutionResult, OidError> {
            self.0.execute(approved)
        }
        fn verify(&self, execution: &ExecutionResult) -> Result<VerificationResult, OidError> {
            Ok(VerificationResult {
                operation_id: execution.operation_id.clone(),
                passed: false,
                summary: "probe mismatch".to_owned(),
            })
        }
        fn rollback(&self, execution: &ExecutionResult) -> Result<RollbackResult, OidError> {
            self.0.rollback(execution)
        }
    }
    let mut bus = EventLog::new();
    let error = run_system_health(&Failing(ProbeSkill::new("system-health", false)), &mut bus)
        .expect_err("verification fails");
    assert_eq!(error, OidError::Verification("probe mismatch".to_owned()));
    assert!(matches!(
        bus.events().last(),
        Some(RuntimeEvent::IntentStateChanged { state, .. }) if state == "failed"
    ));
}

#[test]
fn directory_flow_without_approval_only_plans() {
    let mut bus = EventLog::new();
    let mut evidence = InMemoryEvidenceStore::default();
    let skill = ProbeSkill::new("create-directory", true);
    let output = run_create_directory(&skill, &mut bus, "demo", false, &mut evidence, "/var/log/oid.log")
        .expect("plan");
    let n = output.len();
    assert_eq!(output[n - 5], "Status\nAwaiting approval");
    assert_eq!(output[n - 4], "Why: skill create-directory can change system state");
    assert_eq!(output[n - 3], "Run again with:");
    assert_eq!(output[n - 2], "create directory demo --approve");
    assert_eq!(output[n - 1], "Evidence log: /var/log/oid.log");
    // Without approval nothing is recorded.
    assert!(evidence.records().is_empty());
    assert_eq!(bus.events().len(), 4);
    assert_eq!(bus.events()[3], RuntimeEvent::ApprovalRequested);
}

#[test]
fn directory_flow_with_approval_executes_and_verifies() {
    let mut bus = EventLog::new();
    let mut evidence = InMemoryEvidenceStore::default();
    let skill = ProbeSkill::new("create-directory", true);
    let output = run_create_directory(&skill, &mut bus, "demo", true, &mut evidence, "/var/log/oid.log")
        .expect("run");
    let n = output.len();
    assert_eq!(output[0], "Intent: create directory demo [completed]");
    assert_eq!(output[n - 4], "Result: probe ran");
    assert_eq!(output[n - 3], "Verification: probe verified");
    assert_eq!(output[n - 2], "Evidence log: /var/log/oid.log");
    assert_eq!(
        output[n - 1],
        "Rollback: available with the same operation instance while the directory remains empty"
    );
    let categories: Vec<&str> = evidence.records().iter().map(|r| r.category.as_str()).collect();
    assert_eq!(categories, ["plan", "authorization", "execution", "verification"]);
    assert_eq!(
        evidence.records()[1].details,
        "ApprovalRequired { reason: \"skill create-directory can change system state\" }"
    );
    assert_eq!(bus.events().len(), 7);
    assert_eq!(bus.events()[2], RuntimeEvent::ApprovalGranted);
    assert_eq!(
        bus.events()[4],
        RuntimeEvent::OperationCompleted("operation-create-directory".to_owned())
    );
}

#[test]
fn recovered_execution_comes_from_the_first_execution_record() {
    let id = OperationId::new("operation-r").expect("id");
    let record = |category: &str, details: &str| EvidenceRecord {
        id: oid::common::EvidenceId::new(&format!("evidence-{category}")).expect("id"),
        intent_id: oid::common::IntentId::new("intent-r").expect("id"),
        operation_id: id.clone(),
        category: category.to_owned(),
        details: details.to_owned(),
    };
    let history = vec![
        record("plan", "{}"),
        record("execution", "created demo"),
        record("execution", "created again"),
    ];
    let execution = recovered_execution(&history, &id).expect("execution");
    assert_eq!(execution.summary, "created demo");
    assert!(execution.changed);
    assert_eq!(execution.operation_id, id);
    assert!(recovered_execution(&history[..1].to_vec(), &id).is_none());
}
