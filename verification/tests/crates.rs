use oid::common::{EvidenceId, IntentId, OperationId, PluginId, SkillId};
use oid::desktop::{InputRoute, InputRouter, PathLookup};
use oid::evidence::{EvidenceRecord, EvidenceStore, FileEvidenceStore, InMemoryEvidenceStore};
use oid::intent::{Intent, IntentState};
use oid::model::{generation_end, CancellationToken, GenerationEnd, ModelPath, ModelRunnerError};
use oid::operation::{
    ActionType, ApprovalRequirement, IntentContext, OperationPlan, OperationStep, RiskLevel,
    RollbackPlan, RollbackStep, VerificationCheck, VerificationPlan,
};
use oid::plugin::{CapabilityCommand, CapabilityDescriptor, CapabilityRegistry};
use oid::policy::{
    Approval, ApprovalLifecycle, ApprovalStore, AuthorizationDecision, AuthorizationRequest,
    FileApprovalStore, InMemoryApprovalStore, PolicyEvaluator, ReadOnlyPolicy,
};
use oid::coordinator::SkillRequest;
use oid::skills::{
    created_path, directory_precheck, health_plan, no_rollback, parse_directory_path,
    planned_directory, verification_of, CreateDirectorySkill, SystemHealthSkill,
};

fn plan() -> OperationPlan {
    OperationPlan {
        id: OperationId::new("operation-1").expect("valid id"),
        intent: Some(IntentContext {
            id: IntentId::new("intent-1").expect("valid id"),
            description: "create a directory".to_owned(),
        }),
        skill: SkillId::new("create-directory").expect("valid id"),
        summary: "Create directory".to_owned(),
        rationale: "User requested it".to_owned(),
        risk: RiskLevel::Low,
        approval: ApprovalRequirement::User,
        steps: vec![OperationStep {
            order: 1,
            description: "Create directory".to_owned(),
            action: ActionType::CreateDirectory {
                path: "/tmp/example".to_owned(),
            },
            affects_system_state: true,
        }],
        verification: VerificationPlan {
            checks: vec![VerificationCheck {
                description: "Directory exists".to_owned(),
                kind: "directory-exists".to_owned(),
            }],
        },
        rollback: Some(RollbackPlan {
            supported: true,
            description: "Delete if empty".to_owned(),
            steps: vec![RollbackStep {
                order: 1,
                description: "Delete directory".to_owned(),
                action: ActionType::RemoveDirectory {
                    path: "/tmp/example".to_owned(),
                },
            }],
        }),
    }
}

#[test]
fn plan_serialization_contains_intent_and_rollback_steps() {
    let serialized = plan().to_json().expect("valid plan serializes");
    assert!(serialized.contains("\"intent\""));
    assert!(serialized.contains("remove-directory:/tmp/example"));
    assert!(serialized.contains("\"supported\":true"));
}

#[test]
fn mutating_plan_requires_approval() {
    let mut plan = plan();
    plan.approval = ApprovalRequirement::NotRequired;
    assert!(plan.validate().is_err());
}

#[test]
fn plan_without_steps_is_refused_first() {
    let mut plan = plan();
    plan.steps.clear();
    plan.verification.checks.clear();
    let error = plan.validate().expect_err("no steps");
    assert_eq!(error.to_text(), "invalid input: operation plan requires a step");
}

fn request(mutates_system: bool) -> AuthorizationRequest {
    AuthorizationRequest {
        operation_id: OperationId::new("operation-1").expect("valid id"),
        skill_id: SkillId::new("skill-1").expect("valid id"),
        mutates_system,
    }
}

#[test]
fn read_only_operations_are_allowed() {
    assert_eq!(
        ReadOnlyPolicy
            .evaluate(&request(false))
            .expect("policy works"),
        AuthorizationDecision::Allowed
    );
}

#[test]
fn mutating_operations_require_approval() {
    assert!(matches!(
        ReadOnlyPolicy
            .evaluate(&request(true))
            .expect("policy works"),
        AuthorizationDecision::ApprovalRequired { .. }
    ));
}

#[test]
fn in_memory_approvals_are_consumed_once() {
    let operation_id = OperationId::new("operation-durable").expect("operation id");
    let mut store = InMemoryApprovalStore::new();
    store.request(operation_id.clone()).expect("request");
    store
        .approve(Approval {
            operation_id: operation_id.clone(),
            note: "approved in test".to_owned(),
        })
        .expect("approve");
    assert!(store.is_approved(&operation_id).expect("approval lookup"));
    store.consume(&operation_id).expect("consume");
    assert!(!store.is_approved(&operation_id).expect("approval lookup"));
    assert!(store.consume(&operation_id).is_err());
}

#[test]
fn evidence_is_append_only_and_filterable() {
    let intent_id = IntentId::new("intent-1").expect("valid id");
    let operation_id = OperationId::new("operation-1").expect("valid id");
    let mut store = InMemoryEvidenceStore::default();
    store
        .append(EvidenceRecord {
            id: EvidenceId::new("evidence-1").expect("valid id"),
            intent_id,
            operation_id: operation_id.clone(),
            category: "plan".to_owned(),
            details: "inspect".to_owned(),
        })
        .expect("append works");
    assert_eq!(
        store.history(&operation_id).expect("history works").len(),
        1
    );
    assert_eq!(store.records().len(), 1);
}

#[test]
fn evidence_lines_round_trip_multiline_details() {
    let record = EvidenceRecord {
        id: EvidenceId::new("evidence-file").expect("valid id"),
        intent_id: IntentId::new("intent-file").expect("valid id"),
        operation_id: OperationId::new("operation-file").expect("valid id"),
        category: "details".to_owned(),
        details: "line one\nline two".to_owned(),
    };
    let line = FileEvidenceStore::record_line(&record);
    assert!(!line.contains('\n'));
    let back = FileEvidenceStore::parse_line(&line).expect("parses");
    assert_eq!(back.details, "line one\nline two");
    assert_eq!(back.operation_id.as_str(), "operation-file");
}

#[test]
fn accepts_the_happy_path_through_verification() {
    let id = IntentId::new("intent-1").expect("valid id");
    let mut intent = Intent::new(id, "inspect system health").expect("valid intent");
    for state in [
        IntentState::Authorized,
        IntentState::Executing,
        IntentState::Verifying,
        IntentState::Completed,
    ] {
        intent
            .transition(state)
            .expect("valid lifecycle transition");
    }
    assert!(intent.state.is_terminal());
}

#[test]
fn rejects_skipping_authorization() {
    let id = IntentId::new("intent-2").expect("valid id");
    let mut intent = Intent::new(id, "change configuration").expect("valid intent");
    assert!(intent.transition(IntentState::Executing).is_err());
    assert_eq!(intent.state, IntentState::Proposed);
}

#[test]
fn blank_intent_descriptions_are_refused() {
    let id = IntentId::new("intent-3").expect("valid id");
    assert!(Intent::new(id, "   ").is_err());
    assert!(IntentId::new(" ").is_err());
}

#[test]
fn directory_skill_rejects_unsafe_paths() {
    let skill = CreateDirectorySkill::new();
    assert!(skill.descriptor.mutates_system);
    assert!(parse_directory_path("../outside").is_err());
}

#[test]
fn directory_paths_keep_safe_relative_segments() {
    assert_eq!(parse_directory_path("./a/b").expect("safe"), "./a/b");
    assert!(parse_directory_path("   ").is_err());
    assert!(parse_directory_path("/").is_err());
}

fn descriptor(id: &str, command: &str) -> CapabilityDescriptor {
    CapabilityDescriptor {
        id: SkillId::new(id).expect("skill id"),
        plugin_id: PluginId::new("test-plugin").expect("plugin id"),
        commands: vec![CapabilityCommand {
            name: command.to_owned(),
            description: "test command".to_owned(),
            aliases: vec![],
            skill_id: SkillId::new(id).expect("skill id"),
            mutates_system: false,
            completion: vec!["status".to_owned()],
        }],
    }
}

#[test]
fn registry_rejects_native_shadowing_and_supports_lifecycle() {
    let mut registry = CapabilityRegistry::new();
    registry.reserve_native(&["git"]).expect("reserve native");
    assert!(registry.register(descriptor("postgres", "git")).is_err());
    registry
        .register(descriptor("postgres", "postgres"))
        .expect("register capability");
    assert_eq!(registry.complete("post"), vec!["postgres"]);
    assert!(registry.find_command("postgres").is_some());
    registry
        .unregister(&SkillId::new("postgres").expect("skill id"))
        .expect("unregister capability");
    assert!(registry.find_command("postgres").is_none());
}

#[test]
fn registry_refuses_a_second_capability_with_the_same_id() {
    let mut registry = CapabilityRegistry::new();
    registry
        .register(descriptor("postgres", "postgres"))
        .expect("register capability");
    assert!(registry.register(descriptor("postgres", "pg2")).is_err());
    assert!(registry.register(descriptor("other", "postgres")).is_err());
    assert_eq!(registry.list().len(), 1);
}

/// A host whose `PATH` holds the usual shells and nothing named like the
/// words of the intent.
struct SystemPath;

impl PathLookup for SystemPath {
    fn command_on_path(&self, command: &str) -> bool {
        matches!(command, "sh" | "bash" | "ls" | "git")
    }
}

fn router() -> InputRouter {
    let mut registry = CapabilityRegistry::new();
    registry
        .register(CapabilityDescriptor {
            id: SkillId::new("postgres").expect("skill id"),
            plugin_id: PluginId::new("test-plugin").expect("plugin id"),
            commands: vec![CapabilityCommand {
                name: "postgres".to_owned(),
                description: "Diagnose PostgreSQL".to_owned(),
                aliases: vec!["pg".to_owned()],
                skill_id: SkillId::new("postgres").expect("skill id"),
                mutates_system: false,
                completion: vec!["status".to_owned()],
            }],
        })
        .expect("capability");
    InputRouter::new(registry)
}

#[test]
fn routes_native_dynamic_and_intent_inputs() {
    let router = router();
    assert!(matches!(
        router.route("git status", &SystemPath),
        InputRoute::NativeCli { .. }
    ));
    assert!(matches!(
        router.route("postgres status", &SystemPath),
        InputRoute::DynamicCapability { .. }
    ));
    assert!(matches!(
        router.route("fix postgres won't start", &SystemPath),
        InputRoute::Intent { .. }
    ));
    assert!(matches!(
        router.route("sh -c true", &SystemPath),
        InputRoute::NativeCli { .. }
    ));
}

#[test]
fn exposes_help_and_completion_for_loaded_capabilities() {
    let router = router();
    assert_eq!(router.complete("po"), vec!["postgres"]);
    assert!(router
        .help_lines()
        .iter()
        .any(|line| line.contains("postgres")));
}

#[test]
fn integration_crate_boundary_is_reachable() {
    assert!(!oid::desktop::boundary_name().is_empty());
    assert!(!oid::docs::crate_name().is_empty());
    assert!(!oid::intent::boundary_name().is_empty());
    assert!(!oid::skills::boundary_name().is_empty());
    assert!(!oid::model::boundary_name().is_empty());
    assert!(!oid::plugin::boundary_name().is_empty());
    assert!(!oid::policy::boundary_name().is_empty());
    assert!(!oid::verification::boundary_name().is_empty());
}

#[test]
fn model_paths_are_limited_to_gguf() {
    assert!(ModelPath::new("model.gguf").is_ok());
    assert_eq!(
        ModelPath::new("model.safetensors"),
        Err(ModelRunnerError::UnsupportedFormat(
            "model.safetensors".to_owned()
        ))
    );
}

#[test]
fn cancellation_token_is_shared_by_clones() {
    let token = CancellationToken::new();
    let other = token.clone();
    assert!(!other.is_cancelled());
    token.cancel();
    assert!(other.is_cancelled());
}

#[test]
fn durable_approval_journal_recovers_pending_and_approved_operations() {
    // The journal as its file holds it: one line per record.
    let mut journal: Vec<String> = Vec::new();
    let records = |journal: &Vec<String>| FileApprovalStore::parse_lines(journal).expect("parse");
    let operation_id = OperationId::new("operation-durable").expect("operation id");
    journal.push(FileApprovalStore::record_line(&FileApprovalStore::request_record(
        operation_id.clone(),
    )));
    assert_eq!(FileApprovalStore::recoverable_in(&records(&journal)).len(), 1);
    journal.push(FileApprovalStore::record_line(&FileApprovalStore::approval_record(
        Approval {
            operation_id: operation_id.clone(),
            note: "approved in test".to_owned(),
        },
    )));
    assert!(FileApprovalStore::is_approved_in(&records(&journal), &operation_id));
    let consumed =
        FileApprovalStore::consume_record(&records(&journal), &operation_id).expect("consume");
    journal.push(FileApprovalStore::record_line(&consumed));
    assert!(FileApprovalStore::recoverable_in(&records(&journal)).is_empty());
    assert!(!FileApprovalStore::is_approved_in(&records(&journal), &operation_id));
}

#[test]
fn skills_plan_health_and_directory_operations() {
    let request = SkillRequest {
        id: OperationId::new("operation-plan").expect("id"),
        arguments: "  demo/new  ".to_owned(),
    };
    let health = health_plan(&SkillId::new("system-health").expect("skill"), &request);
    assert_eq!(health.risk, RiskLevel::NoRisk);
    assert_eq!(health.approval, ApprovalRequirement::NotRequired);
    assert!(health.validate().is_ok());
    assert!(health.rollback.is_none());
    let skill = CreateDirectorySkill::new();
    let plan = skill.plan(&request).expect("plan");
    assert_eq!(plan.summary, "Create directory demo/new");
    assert_eq!(plan.steps[0].action, ActionType::CreateDirectory { path: "demo/new".to_owned() });
    assert!(plan.steps[0].affects_system_state);
    assert_eq!(plan.approval, ApprovalRequirement::User);
    let rollback = plan.rollback.clone().expect("rollback");
    assert_eq!(rollback.steps[0].description, "Remove demo/new");
    assert!(plan_json_has_id(&plan));
    let refused = skill.plan(&SkillRequest {
        id: OperationId::new("operation-plan").expect("id"),
        arguments: "../outside".to_owned(),
    });
    assert!(refused.is_err());
    assert_eq!(created_path("created demo/new"), Some("demo/new".to_owned()));
    assert_eq!(created_path("removed demo/new"), None);
}

fn plan_json_has_id(plan: &OperationPlan) -> bool {
    plan.to_json().expect("json").contains("\"id\":\"operation-plan\"")
}

#[test]
fn system_health_is_read_only_and_has_no_rollback() {
    let skill = SystemHealthSkill::default();
    assert!(!skill.descriptor.mutates_system);
    let request = SkillRequest {
        id: OperationId::new("operation-1").expect("valid id"),
        arguments: String::new(),
    };
    let plan = health_plan(&skill.descriptor.id, &request);
    assert!(plan.steps.iter().all(|step| !step.affects_system_state));
    assert!(plan.rollback.is_none());
    assert!(matches!(no_rollback(), oid::common::OidError::NotFound(_)));
}

#[test]
fn plan_json_escapes_control_characters() {
    let mut plan = plan();
    plan.summary = "tab\there\r\u{1}".to_owned();
    let json = plan.to_json().expect("json");
    assert!(json.contains("\"summary\":\"tab\\there\\r\\u0001\""));
    assert!(!json.contains('\t'));
}

#[test]
fn generation_end_classifies_the_last_event() {
    assert!(matches!(generation_end(Ok(()), false), GenerationEnd::Completed));
    assert!(matches!(generation_end(Ok(()), true), GenerationEnd::Cancelled));
    assert!(matches!(
        generation_end(Err("generation cancelled".to_owned()), false),
        GenerationEnd::Cancelled
    ));
    assert!(matches!(
        generation_end(Err("decode failed".to_owned()), true),
        GenerationEnd::Cancelled
    ));
    match generation_end(Err("decode failed".to_owned()), false) {
        GenerationEnd::Failed(message) => assert_eq!(message, "decode failed"),
        other => panic!("unexpected end: {other:?}"),
    }
}

#[test]
fn directory_execution_decisions() {
    let mut directory_plan = plan();
    assert_eq!(planned_directory(&directory_plan).expect("path"), "/tmp/example");
    directory_plan.steps.clear();
    match planned_directory(&directory_plan) {
        Err(oid::common::OidError::Execution(message)) => {
            assert_eq!(message, "plan has no directory step")
        }
        other => panic!("unexpected: {other:?}"),
    }
    assert!(directory_precheck(false, false).is_ok());
    match directory_precheck(true, true) {
        Err(oid::common::OidError::InvalidInput(message)) => {
            assert_eq!(message, "directory path already exists")
        }
        other => panic!("unexpected: {other:?}"),
    }
    match directory_precheck(false, true) {
        Err(oid::common::OidError::InvalidInput(message)) => {
            assert_eq!(message, "directory parent must already exist")
        }
        other => panic!("unexpected: {other:?}"),
    }
    let id = OperationId::new("operation-1").expect("valid id");
    let passed = verification_of(&id, true);
    assert!(passed.passed);
    assert_eq!(passed.summary, "verification passed");
    assert_eq!(verification_of(&id, false).summary, "verification failed");
}
