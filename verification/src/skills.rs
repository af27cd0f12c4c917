//! Typed Linux operation and skill contracts.
//!
//! The decisions of the skills are here: their metadata, which directory
//! paths they accept, and how they read and report system values. Touching
//! the filesystem is left to the skill implementations.
use vstd::prelude::*;
use crate::common::{OidError, OidErrorV, OperationId, SkillId};
use crate::coordinator::SkillRequest;
use crate::operation::{ActionType, ApprovalRequirement, OperationPlan, OperationStep, RiskLevel, RollbackPlan,
    RollbackStep, VerificationCheck, VerificationPlan, VerificationResult, plan_violation, plan_mutates};
use crate::text::{concat, first_word, first_word_of, is_blank, lines_of, lines_spec, split_char, split_spec, starts_with, str_starts_with, to_chars, trim, trim_str};

verus! {

/// Metadata describing a capability exposed by a skill.
#[derive(Clone, Debug, Eq, PartialEq)]
pub struct SkillDescriptor {
    /// Stable skill identity.
    pub id: SkillId,
    /// Human-readable summary.
    pub description: String,
    /// Whether the skill can alter system state.
    pub mutates_system: bool,
}

/// Input passed to a skill adapter.
#[derive(Clone, Debug, Eq, PartialEq)]
pub struct OperationRequest {
    /// Stable operation identity.
    pub id: OperationId,
    /// Serialized, skill-specific arguments.
    pub arguments: String,
}

/// Result returned by a skill adapter.
#[derive(Clone, Debug, Eq, PartialEq)]
pub struct OperationResult {
    /// Human-readable summary of the observed change.
    pub summary: String,
    /// Whether the adapter reports that a change occurred.
    pub changed: bool,
}

/// Typed boundary for a Linux operation.
pub trait Skill {
    /// Return the capability metadata.
    fn descriptor(&self) -> &SkillDescriptor;

    /// Execute the operation after policy and approval have succeeded.
    fn execute(&self, request: &OperationRequest) -> Result<OperationResult, OidError>;

    /// Attempt a rollback when the operation provides one.
    fn rollback(&self, request: &OperationRequest) -> Result<OperationResult, OidError>;
}

/// The error of a skill without a rollback.
pub fn no_rollback() -> (e: OidError)
    ensures
        e@ == OidErrorV::NotFound("rollback implementation"@),
{
    OidError::NotFound(String::from_str("rollback implementation"))
}

/// The directory an approved plan creates: the path of its first step when
/// that step creates a directory; otherwise the execution fails with "plan
/// has no directory step".
pub fn planned_directory(plan: &OperationPlan) -> (r: Result<String, OidError>)
    ensures
        if plan.steps@.len() > 0 && plan.steps@[0].action is CreateDirectory {
            r matches Ok(p) && p@ == plan.steps@[0].action->CreateDirectory_path@
        } else {
            r matches Err(e) && e@ == OidErrorV::Execution("plan has no directory step"@)
        },
{
    if plan.steps.len() > 0 {
        match &plan.steps[0].action {
            ActionType::CreateDirectory { path } => {
                return Ok(path.clone());
            },
            _ => {},
        }
    }
    Err(OidError::Execution(String::from_str("plan has no directory step")))
}

/// Whether a new directory may be created where its path points: not when
/// something already exists there ("directory path already exists"), nor
/// when the path names a parent that does not exist ("directory parent must
/// already exist").
pub fn directory_precheck(target_exists: bool, parent_missing: bool) -> (r: Result<(), OidError>)
    ensures
        target_exists ==> (r matches Err(e) && e@ == OidErrorV::InvalidInput("directory path already exists"@)),
        !target_exists && parent_missing ==> (r matches Err(e) && e@ == OidErrorV::InvalidInput(
            "directory parent must already exist"@,
        )),
        !target_exists && !parent_missing ==> r is Ok,
{
    if target_exists {
        Err(OidError::InvalidInput(String::from_str("directory path already exists")))
    } else if parent_missing {
        Err(OidError::InvalidInput(String::from_str("directory parent must already exist")))
    } else {
        Ok(())
    }
}

/// The result of verifying an execution of the operation: whether it
/// passed, summarized as "verification passed" or "verification failed".
pub fn verification_of(operation_id: &OperationId, passed: bool) -> (r: VerificationResult)
    ensures
        r.operation_id == *operation_id,
        r.passed == passed,
        r.summary@ == (if passed {
            "verification passed"@
        } else {
            "verification failed"@
        }),
{
    VerificationResult {
        operation_id: operation_id.copy(),
        passed,
        summary: String::from_str(if passed {
            "verification passed"
        } else {
            "verification failed"
        }),
    }
}

/// Builds a descriptor from constant metadata.
fn descriptor(id: &str, description: &str, mutates_system: bool) -> (d: SkillDescriptor)
    requires
        !is_blank(id@),
    ensures
        d.id@ == id@,
        d.description@ == description@,
        d.mutates_system == mutates_system,
{
    let id = match SkillId::new(id) {
        Ok(v) => v,
        Err(_) => vstd::pervasive::unreached(),
    };
    SkillDescriptor { id, description: String::from_str(description), mutates_system }
}

/// Read-only system health inspection skill.
#[derive(Clone, Debug)]
pub struct SystemHealthSkill {
    /// Fixed capability metadata.
    pub descriptor: SkillDescriptor,
}

impl Default for SystemHealthSkill {
    fn default() -> (r: Self)
        ensures
            r.descriptor.id@ == "system-health"@,
            r.descriptor.description@ == "Inspect portable system health information"@,
            !r.descriptor.mutates_system,
    {
        proof {
            reveal_strlit("system-health");
            assert(!crate::text::is_ws("system-health"@[0]));
        }
        SystemHealthSkill {
            descriptor: descriptor("system-health", "Inspect portable system health information", false),
        }
    }
}

/// Linux-specific read-only health adapter backed by `/proc`.
#[derive(Clone, Debug)]
pub struct LinuxSystemHealthSkill {
    /// Fixed capability metadata.
    pub descriptor: SkillDescriptor,
}

impl Default for LinuxSystemHealthSkill {
    fn default() -> (r: Self)
        ensures
            r.descriptor.id@ == "linux-system-health"@,
            r.descriptor.description@ == "Inspect Linux /proc health information"@,
            !r.descriptor.mutates_system,
    {
        proof {
            reveal_strlit("linux-system-health");
            assert(!crate::text::is_ws("linux-system-health"@[0]));
        }
        LinuxSystemHealthSkill {
            descriptor: descriptor("linux-system-health", "Inspect Linux /proc health information", false),
        }
    }
}

/// Explicitly approved operation that creates one new directory; the
/// directory it created is remembered so that rollback removes only it.
#[derive(Clone, Debug)]
pub struct CreateDirectorySkill {
    /// Fixed capability metadata.
    pub descriptor: SkillDescriptor,
    /// Directory created by this skill instance, if any.
    pub created: Option<String>,
}

impl CreateDirectorySkill {
    /// Construct the directory skill with its fixed capability metadata.
    pub fn new() -> (r: Self)
        ensures
            r.descriptor.id@ == "create-directory"@,
            r.descriptor.description@ == "Create one explicitly approved empty directory"@,
            r.descriptor.mutates_system,
            r.created is None,
    {
        proof {
            reveal_strlit("create-directory");
            assert(!crate::text::is_ws("create-directory"@[0]));
        }
        CreateDirectorySkill {
            descriptor: descriptor("create-directory", "Create one explicitly approved empty directory", true),
            created: None,
        }
    }
}

impl Default for CreateDirectorySkill {
    fn default() -> (r: Self)
        ensures
            r.descriptor.id@ == "create-directory"@,
            r.descriptor.mutates_system,
            r.created is None,
    {
        CreateDirectorySkill::new()
    }
}

/// A path segment that path normalization drops (empty or `.`).
pub open spec fn skippable(seg: Seq<char>) -> bool {
    seg.len() == 0 || seg == seq!['.']
}

/// The path is the root directory alone (`/`, `//`, `/.` ...).
pub open spec fn names_root(t: Seq<char>) -> bool {
    let segs = split_spec(t, '/');
    t.len() > 0 && t[0] == '/' && forall|i: int| 1 <= i < segs.len() ==> skippable(#[trigger] segs[i])
}

/// The path is the current directory alone (`.`, `./`, `././` ...).
pub open spec fn names_current(t: Seq<char>) -> bool {
    let segs = split_spec(t, '/');
    t.len() > 0 && t[0] != '/' && segs[0] == seq!['.'] && forall|i: int|
        1 <= i < segs.len() ==> skippable(#[trigger] segs[i])
}

/// Some component of the path is `..`.
pub open spec fn has_parent_component(t: Seq<char>) -> bool {
    let segs = split_spec(t, '/');
    exists|i: int| 0 <= i < segs.len() && #[trigger] segs[i] == seq!['.', '.']
}

/// What a directory argument names: the trimmed path, or why it is refused.
pub open spec fn directory_target(raw: Seq<char>) -> Result<Seq<char>, OidErrorV> {
    let t = trim(raw);
    if t.len() == 0 || names_current(t) || names_root(t) {
        Err(OidErrorV::InvalidInput("directory path must name a new directory"@))
    } else if has_parent_component(t) {
        Err(OidErrorV::InvalidInput("directory path must not contain '..'"@))
    } else {
        Ok(t)
    }
}

/// Interpret a directory argument: the trimmed path, refused when it is
/// empty, names the current or root directory, or climbs with `..`.
pub fn parse_directory_path(raw: &str) -> (r: Result<String, OidError>)
    ensures
        match directory_target(raw@) {
            Ok(t) => r matches Ok(p) && p@ == t,
            Err(e) => r matches Err(x) && x@ == e,
        },
{
    let t = trim_str(raw);
    let segs = split_char(t.as_str(), '/');
    proof {
        crate::text::lemma_split_nonempty(t@, '/');
    }
    let chars = to_chars(t.as_str());
    let mut rest_skippable = true;
    let mut parent = false;
    let mut i: usize = 0;
    while i < segs.len()
        invariant
            segs@.len() == split_spec(t@, '/').len(),
            forall|k: int| 0 <= k < segs@.len() ==> (#[trigger] segs@[k])@ == split_spec(t@, '/')[k],
            i <= segs@.len(),
            rest_skippable == forall|k: int| 1 <= k < i ==> skippable(#[trigger] split_spec(t@, '/')[k]),
            parent == exists|k: int| 0 <= k < i && #[trigger] split_spec(t@, '/')[k] == seq!['.', '.'],
        decreases segs@.len() - i,
    {
        let seg = to_chars(segs[i].as_str());
        if i >= 1 && !(seg.len() == 0 || (seg.len() == 1 && seg[0] == '.')) {
            rest_skippable = false;
            proof {
                assert(!skippable(split_spec(t@, '/')[i as int])) by {
                    if seg@ == seq!['.'] {
                        assert(seg@.len() == 1);
                    }
                }
            }
        }
        if seg.len() == 2 && seg[0] == '.' && seg[1] == '.' {
            parent = true;
            proof {
                assert(seg@ =~= seq!['.', '.']);
            }
        } else {
            proof {
                if seg@ == seq!['.', '.'] {
                    assert(seg@.len() == 2);
                }
            }
        }
        proof {
            if i >= 1 && (seg@.len() == 0 || (seg@.len() == 1 && seg@[0] == '.')) {
                if seg@.len() == 1 {
                    assert(seg@ =~= seq!['.']);
                }
            }
        }
        i = i + 1;
    }
    let n = chars.len();
    let first = to_chars(segs[0].as_str());
    let current = n > 0 && chars[0] != '/' && first.len() == 1 && first[0] == '.' && rest_skippable;
    let root = n > 0 && chars[0] == '/' && rest_skippable;
    proof {
        if n > 0 && chars@[0] != '/' && rest_skippable {
            if first@ == seq!['.'] {
                assert(first@.len() == 1);
            }
            if first@.len() == 1 && first@[0] == '.' {
                assert(first@ =~= seq!['.']);
            }
        }
    }
    if n == 0 || current || root {
        return Err(
            OidError::InvalidInput(String::from_str("directory path must name a new directory")),
        );
    }
    if parent {
        return Err(OidError::InvalidInput(String::from_str("directory path must not contain '..'")));
    }
    Ok(t)
}

/// The first word of a `/proc` file, or why there is none.
pub open spec fn proc_value(path: Seq<char>, contents: Seq<char>) -> Result<Seq<char>, OidErrorV> {
    match first_word(contents) {
        Some(w) => Ok(w),
        None => Err(OidErrorV::Execution("empty "@ + path)),
    }
}

/// The first whitespace-separated value of a `/proc` file's contents; empty
/// contents are refused with `Execution("empty <path>")`.
pub fn read_proc_value(path: &str, contents: &str) -> (r: Result<String, OidError>)
    ensures
        match proc_value(path@, contents@) {
            Ok(w) => r matches Ok(x) && x@ == w,
            Err(e) => r matches Err(x) && x@ == e,
        },
{
    match first_word_of(contents) {
        Some(w) => Ok(w),
        None => Err(OidError::Execution(concat("empty ", path))),
    }
}

/// The `MemAvailable:` line of `/proc/meminfo`, or a placeholder.
pub open spec fn mem_available_line(meminfo: Seq<char>) -> Seq<char> {
    let ls = lines_spec(meminfo);
    if exists|i: int| 0 <= i < ls.len() && starts_with(#[trigger] ls[i], "MemAvailable:"@) {
        ls[choose|i: int| 0 <= i < ls.len() && starts_with(#[trigger] ls[i], "MemAvailable:"@) && forall|j: int|
            0 <= j < i ==> !starts_with(#[trigger] ls[j], "MemAvailable:"@)]
    } else {
        "MemAvailable: unavailable"@
    }
}

/// The first line of `/proc/meminfo` that starts with `MemAvailable:`, or
/// `MemAvailable: unavailable`.
pub fn find_mem_available(meminfo: &str) -> (r: String)
    ensures
        r@ == mem_available_line(meminfo@),
{
    let ls = lines_of(meminfo);
    let ghost spec_lines = lines_spec(meminfo@);
    let mut i: usize = 0;
    while i < ls.len()
        invariant
            ls@.len() == spec_lines.len(),
            spec_lines == lines_spec(meminfo@),
            forall|k: int| 0 <= k < ls@.len() ==> (#[trigger] ls@[k])@ == spec_lines[k],
            i <= ls@.len(),
            forall|j: int| 0 <= j < i ==> !starts_with(#[trigger] spec_lines[j], "MemAvailable:"@),
        decreases ls@.len() - i,
    {
        if str_starts_with(ls[i].as_str(), "MemAvailable:") {
            proof {
                let w = choose|k: int| 0 <= k < spec_lines.len() && starts_with(#[trigger] spec_lines[k], "MemAvailable:"@) && forall|j: int|
                    0 <= j < k ==> !starts_with(#[trigger] spec_lines[j], "MemAvailable:"@);
                assert(0 <= i < spec_lines.len() && starts_with(spec_lines[i as int], "MemAvailable:"@));
                if w < i {
                } else if w > i {
                    assert(!starts_with(spec_lines[i as int], "MemAvailable:"@));
                }
            }
            return ls[i].clone();
        }
        i = i + 1;
    }
    String::from_str("MemAvailable: unavailable")
}

/// Summary reported by a health inspection.
pub open spec fn health_summary_text(platform: Seq<char>, uptime: Seq<char>, load: Seq<char>) -> Seq<char> {
    "platform="@ + platform + "; uptime_seconds="@ + uptime + "; load_1m="@ + load
}

/// `platform=<p>; uptime_seconds=<u>; load_1m=<l>`.
pub fn health_summary(platform: &str, uptime: &str, load: &str) -> (s: String)
    ensures
        s@ == health_summary_text(platform@, uptime@, load@),
{
    let mut s = String::from_str("platform=");
    s.append(platform);
    s.append("; uptime_seconds=");
    s.append(uptime);
    s.append("; load_1m=");
    s.append(load);
    s
}

/// Identifies the Linux operations boundary.
pub fn boundary_name() -> (s: &'static str)
    ensures
        s@ == "linux-skills"@,
{
    "linux-skills"
}

/// The plan of a read-only health inspection: one step that reads the
/// health values and changes nothing, checked by the summary being
/// collected, with no risk, no approval and no rollback.
pub open spec fn is_health_plan(p: OperationPlan, skill: SkillId, request: SkillRequest) -> bool {
    &&& p.id == request.id
    &&& p.intent is None
    &&& p.skill == skill
    &&& p.summary@ == "Inspect system health"@
    &&& p.rationale@ == "Read-only inspection of uptime, load and memory"@
    &&& p.risk == RiskLevel::NoRisk
    &&& p.approval == ApprovalRequirement::NotRequired
    &&& p.steps@.len() == 1
    &&& p.steps@[0].order == 1
    &&& p.steps@[0].description@ == "Read system health values"@
    &&& p.steps@[0].action == ActionType::InspectSystemHealth
    &&& !p.steps@[0].affects_system_state
    &&& p.verification.checks@.len() == 1
    &&& p.verification.checks@[0].description@ == "Health summary collected"@
    &&& p.verification.checks@[0].kind@ == "summary-present"@
    &&& p.rollback is None
}

/// The plan of a health inspection for a request; it is a valid plan.
pub fn health_plan(skill: &SkillId, request: &SkillRequest) -> (p: OperationPlan)
    ensures
        is_health_plan(p, *skill, *request),
        plan_violation(p) is None,
{
    let mut steps: Vec<OperationStep> = Vec::new();
    steps.push(
        OperationStep {
            order: 1,
            description: String::from_str("Read system health values"),
            action: ActionType::InspectSystemHealth,
            affects_system_state: false,
        },
    );
    let mut checks: Vec<VerificationCheck> = Vec::new();
    checks.push(
        VerificationCheck {
            description: String::from_str("Health summary collected"),
            kind: String::from_str("summary-present"),
        },
    );
    let p = OperationPlan {
        id: request.id.copy(),
        intent: None,
        skill: skill.copy(),
        summary: String::from_str("Inspect system health"),
        rationale: String::from_str("Read-only inspection of uptime, load and memory"),
        risk: RiskLevel::NoRisk,
        approval: ApprovalRequirement::NotRequired,
        steps,
        verification: VerificationPlan { checks },
        rollback: None,
    };
    proof {
        assert(!plan_mutates(p));
    }
    p
}

/// The plan of creating one directory: a step that creates it, changing
/// the system, checked by the directory existing, of low risk, approved by
/// the user, and undone by removing the directory while it is empty.
pub open spec fn is_directory_plan(p: OperationPlan, skill: SkillId, request: SkillRequest, path: Seq<char>) -> bool {
    &&& p.id == request.id
    &&& p.intent is None
    &&& p.skill == skill
    &&& p.summary@ == "Create directory "@ + path
    &&& p.rationale@ == "The user asked for a new, empty directory"@
    &&& p.risk == RiskLevel::Low
    &&& p.approval == ApprovalRequirement::User
    &&& p.steps@.len() == 1
    &&& p.steps@[0].order == 1
    &&& p.steps@[0].description@ == "Create "@ + path
    &&& (p.steps@[0].action matches ActionType::CreateDirectory { path: q } && q@ == path)
    &&& p.steps@[0].affects_system_state
    &&& p.verification.checks@.len() == 1
    &&& p.verification.checks@[0].description@ == "Directory exists"@
    &&& p.verification.checks@[0].kind@ == "directory-exists"@
    &&& p.rollback matches Some(r) && {
        &&& r.supported
        &&& r.description@ == "Remove the directory while it is still empty"@
        &&& r.steps@.len() == 1
        &&& r.steps@[0].order == 1
        &&& r.steps@[0].description@ == "Remove "@ + path
        &&& (r.steps@[0].action matches ActionType::RemoveDirectory { path: q } && q@ == path)
    }
}

/// The plan of creating the directory at a path; it is a valid plan.
pub fn directory_plan(skill: &SkillId, request: &SkillRequest, path: &str) -> (p: OperationPlan)
    ensures
        is_directory_plan(p, *skill, *request, path@),
        plan_violation(p) is None,
{
    let mut steps: Vec<OperationStep> = Vec::new();
    steps.push(
        OperationStep {
            order: 1,
            description: concat("Create ", path),
            action: ActionType::CreateDirectory { path: String::from_str(path) },
            affects_system_state: true,
        },
    );
    let mut checks: Vec<VerificationCheck> = Vec::new();
    checks.push(
        VerificationCheck {
            description: String::from_str("Directory exists"),
            kind: String::from_str("directory-exists"),
        },
    );
    let mut undo: Vec<RollbackStep> = Vec::new();
    undo.push(
        RollbackStep {
            order: 1,
            description: concat("Remove ", path),
            action: ActionType::RemoveDirectory { path: String::from_str(path) },
        },
    );
    OperationPlan {
        id: request.id.copy(),
        intent: None,
        skill: skill.copy(),
        summary: concat("Create directory ", path),
        rationale: String::from_str("The user asked for a new, empty directory"),
        risk: RiskLevel::Low,
        approval: ApprovalRequirement::User,
        steps,
        verification: VerificationPlan { checks },
        rollback: Some(
            RollbackPlan {
                supported: true,
                description: String::from_str("Remove the directory while it is still empty"),
                steps: undo,
            },
        ),
    }
}

impl CreateDirectorySkill {
    /// Plan the creation of the directory a request names: a refused path
    /// is refused as by `parse_directory_path`, else the directory plan of
    /// the trimmed path.
    pub fn plan(&self, request: &SkillRequest) -> (r: Result<OperationPlan, OidError>)
        ensures
            match directory_target(request.arguments@) {
                Ok(t) => r matches Ok(p) && is_directory_plan(p, self.descriptor.id, *request, t),
                Err(e) => r matches Err(x) && x@ == e,
            },
    {
        match parse_directory_path(request.arguments.as_str()) {
            Err(e) => Err(e),
            Ok(path) => Ok(directory_plan(&self.descriptor.id, request, path.as_str())),
        }
    }
}

/// The directory an execution summary says was created: the text after
/// `created `, if the summary starts with it.
pub fn created_path(summary: &str) -> (r: Option<String>)
    ensures
        match r {
            Some(p) => summary@ == "created "@ + p@,
            None => !starts_with(summary@, "created "@),
        },
{
    crate::text::strip_prefix(summary, "created ")
}

} // verus!
