//! Durable operation orchestration: the lifecycle states of an operation, the
//! append-only journal that records them, and the native command adapter.
use vstd::prelude::*;
use crate::common::{OidError, OidErrorV, OperationId, SkillId};
use crate::operation::{plan_violation, ActionType, ApprovalRequirement, ApprovedOperationPlan, ExecutionResult, OperationPlan, OperationStep, RiskLevel, RollbackResult, VerificationCheck, VerificationPlan, VerificationResult};
use crate::skills::SkillDescriptor;
use crate::escape::{decode_all, decode_all_spec, decode_error_message, decode_error_text, encode, encode_spec, Scheme};
use crate::keyed::{Keyed, KeyedCopy, filtered_map, latest_by_key, latest_map, lists_map};
use crate::order::{lex_lt, strictly_sorted};
use crate::text::{concat, is_blank, split_char, split_spec, str_eq, views};

verus! {

/// Durable lifecycle state for one coordinated operation.
#[derive(Clone, Copy, Debug, Eq, PartialEq, Structural)]
pub enum OperationStatus {
    /// Plan was created and is inspectable.
    Planned,
    /// Approval is required before execution.
    AwaitingApproval,
    /// Approval was recorded.
    Approved,
    /// Skill execution has started.
    Executing,
    /// Skill execution completed.
    Executed,
    /// Verification completed successfully.
    Verified,
    /// A lifecycle stage failed.
    Failed,
    /// Execution was explicitly rolled back.
    RolledBack,
    /// Rollback was attempted but failed.
    RollbackFailed,
}

/// Journal label of an operation status.
pub open spec fn status_label(s: OperationStatus) -> Seq<char> {
    match s {
        OperationStatus::Planned => "planned"@,
        OperationStatus::AwaitingApproval => "awaiting-approval"@,
        OperationStatus::Approved => "approved"@,
        OperationStatus::Executing => "executing"@,
        OperationStatus::Executed => "executed"@,
        OperationStatus::Verified => "verified"@,
        OperationStatus::Failed => "failed"@,
        OperationStatus::RolledBack => "rolled-back"@,
        OperationStatus::RollbackFailed => "rollback-failed"@,
    }
}

/// The status a journal label names, if any.
pub open spec fn status_from_label(v: Seq<char>) -> Option<OperationStatus> {
    if v == "planned"@ {
        Some(OperationStatus::Planned)
    } else if v == "awaiting-approval"@ {
        Some(OperationStatus::AwaitingApproval)
    } else if v == "approved"@ {
        Some(OperationStatus::Approved)
    } else if v == "executing"@ {
        Some(OperationStatus::Executing)
    } else if v == "executed"@ {
        Some(OperationStatus::Executed)
    } else if v == "verified"@ {
        Some(OperationStatus::Verified)
    } else if v == "failed"@ {
        Some(OperationStatus::Failed)
    } else if v == "rolled-back"@ {
        Some(OperationStatus::RolledBack)
    } else if v == "rollback-failed"@ {
        Some(OperationStatus::RollbackFailed)
    } else {
        None
    }
}

/// Whether an operation in this state is finished: verified, failed, rolled
/// back, or failed to roll back. Any other state may need recovery.
pub open spec fn status_is_final(s: OperationStatus) -> bool {
    s == OperationStatus::Verified || s == OperationStatus::Failed || s == OperationStatus::RolledBack
        || s == OperationStatus::RollbackFailed
}

impl OperationStatus {
    /// The journal label.
    pub fn as_str(self) -> (s: &'static str)
        ensures
            s@ == status_label(self),
    {
        match self {
            OperationStatus::Planned => "planned",
            OperationStatus::AwaitingApproval => "awaiting-approval",
            OperationStatus::Approved => "approved",
            OperationStatus::Executing => "executing",
            OperationStatus::Executed => "executed",
            OperationStatus::Verified => "verified",
            OperationStatus::Failed => "failed",
            OperationStatus::RolledBack => "rolled-back",
            OperationStatus::RollbackFailed => "rollback-failed",
        }
    }

    /// Read a journal label; an unknown label is refused with
    /// `Execution("unknown operation status: <label>")`.
    pub fn parse(value: &str) -> (r: Result<Self, OidError>)
        ensures
            match status_from_label(value@) {
                Some(s) => r == Ok::<OperationStatus, OidError>(s),
                None => r matches Err(e) && e@ == OidErrorV::Execution("unknown operation status: "@ + value@),
            },
    {
        if str_eq(value, "planned") {
            Ok(OperationStatus::Planned)
        } else if str_eq(value, "awaiting-approval") {
            Ok(OperationStatus::AwaitingApproval)
        } else if str_eq(value, "approved") {
            Ok(OperationStatus::Approved)
        } else if str_eq(value, "executing") {
            Ok(OperationStatus::Executing)
        } else if str_eq(value, "executed") {
            Ok(OperationStatus::Executed)
        } else if str_eq(value, "verified") {
            Ok(OperationStatus::Verified)
        } else if str_eq(value, "failed") {
            Ok(OperationStatus::Failed)
        } else if str_eq(value, "rolled-back") {
            Ok(OperationStatus::RolledBack)
        } else if str_eq(value, "rollback-failed") {
            Ok(OperationStatus::RollbackFailed)
        } else {
            Err(OidError::Execution(concat("unknown operation status: ", value)))
        }
    }

    /// Whether the operation is finished and needs no recovery.
    pub fn is_final(self) -> (b: bool)
        ensures
            b == status_is_final(self),
    {
        match self {
            OperationStatus::Verified | OperationStatus::Failed | OperationStatus::RolledBack
            | OperationStatus::RollbackFailed => true,
            _ => false,
        }
    }
}

/// Reading back the label of a status gives the status.
pub proof fn lemma_status_round_trip(s: OperationStatus)
    ensures
        status_from_label(status_label(s)) == Some(s),
{
    reveal_strlit("planned");
    reveal_strlit("awaiting-approval");
    reveal_strlit("approved");
    reveal_strlit("executing");
    reveal_strlit("executed");
    reveal_strlit("verified");
    reveal_strlit("failed");
    reveal_strlit("rolled-back");
    reveal_strlit("rollback-failed");
    let labels = seq![
        "planned"@, "awaiting-approval"@, "approved"@, "executing"@, "executed"@, "verified"@,
        "failed"@, "rolled-back"@, "rollback-failed"@,
    ];
    assert(labels[0].len() == 7 && labels[1].len() == 17 && labels[2].len() == 8);
    assert(labels[3].len() == 9 && labels[4].len() == 8 && labels[5].len() == 8);
    assert(labels[6].len() == 6 && labels[7].len() == 11 && labels[8].len() == 15);
    assert(labels[2][0] == 'a' && labels[4][0] == 'e' && labels[5][0] == 'v');
    assert(labels[2] != labels[4] && labels[2] != labels[5] && labels[4] != labels[5]);
}

/// Labels hold neither tab nor backslash.
proof fn lemma_status_label_plain(s: OperationStatus)
    ensures
        crate::journal::no_char(status_label(s), '\t'),
        crate::journal::no_char(status_label(s), '\\'),
{
    reveal_strlit("planned");
    reveal_strlit("awaiting-approval");
    reveal_strlit("approved");
    reveal_strlit("executing");
    reveal_strlit("executed");
    reveal_strlit("verified");
    reveal_strlit("failed");
    reveal_strlit("rolled-back");
    reveal_strlit("rollback-failed");
}

/// Durable operation journal record.
#[derive(Clone, Debug, Eq, PartialEq)]
pub struct OperationRecord {
    /// Operation identity.
    pub operation_id: OperationId,
    /// Latest lifecycle state.
    pub status: OperationStatus,
    /// Human-readable state detail.
    pub detail: String,
}

/// The plain values of an operation record.
pub open spec fn operation_record_view(r: OperationRecord) -> (Seq<char>, OperationStatus, Seq<char>) {
    (r.operation_id@, r.status, r.detail@)
}

impl KeyedCopy for OperationRecord {
    fn duplicate(&self) -> (r: Self) {
        OperationRecord { operation_id: self.operation_id.copy(), status: self.status, detail: self.detail.clone() }
    }
}

impl Keyed for OperationRecord {
    open spec fn key(&self) -> Seq<char> {
        self.operation_id@
    }

    fn key_str(&self) -> (s: &str) {
        self.operation_id.as_str()
    }

}

/// Plain values of one journal line, or the error the line gives.
pub open spec fn parse_operation_line(line: Seq<char>) -> Result<(Seq<char>, OperationStatus, Seq<char>), OidErrorV> {
    match decode_all_spec(Scheme::Journal, split_spec(line, '\t')) {
        Err(e) => Err(OidErrorV::Evidence(decode_error_text(e, "trailing escape"@))),
        Ok(fs) => if fs.len() != 3 {
            Err(OidErrorV::Evidence("malformed operation journal record"@))
        } else if is_blank(fs[0]) {
            Err(OidErrorV::Evidence(crate::common::error_text(OidErrorV::InvalidInput("OperationId"@))))
        } else {
            match status_from_label(fs[1]) {
                None => Err(OidErrorV::Execution("unknown operation status: "@ + fs[1])),
                Some(s) => Ok((fs[0], s, fs[2])),
            }
        },
    }
}

/// Plain values of every journal line, or the error of the first bad one.
pub open spec fn parse_operation_lines(lines: Seq<Seq<char>>) -> Result<Seq<(Seq<char>, OperationStatus, Seq<char>)>, OidErrorV>
    decreases lines.len(),
{
    if lines.len() == 0 {
        Ok(Seq::empty())
    } else {
        match parse_operation_lines(lines.drop_last()) {
            Err(e) => Err(e),
            Ok(done) => match parse_operation_line(lines.last()) {
                Err(e) => Err(e),
                Ok(x) => Ok(done.push(x)),
            },
        }
    }
}

/// The journal line of a record: escaped id, status label and escaped
/// detail, separated by tabs.
pub open spec fn operation_line(r: OperationRecord) -> Seq<char> {
    encode_spec(Scheme::Journal, r.operation_id@) + "\t"@ + status_label(r.status) + "\t"@ + encode_spec(
        Scheme::Journal,
        r.detail@,
    )
}

/// The latest record of every operation that is not finished.
pub open spec fn unfinished_map(records: Seq<OperationRecord>) -> Map<Seq<char>, OperationRecord> {
    filtered_map(latest_map(records), |x: OperationRecord| !status_is_final(x.status))
}

/// Once a line fails to parse, reading more lines keeps that error.
proof fn lemma_parse_operation_error_persists(lines: Seq<Seq<char>>, k: int, e: OidErrorV)
    requires
        0 <= k <= lines.len(),
        parse_operation_lines(lines.subrange(0, k)) == Err::<Seq<(Seq<char>, OperationStatus, Seq<char>)>, OidErrorV>(e),
    ensures
        parse_operation_lines(lines) == Err::<Seq<(Seq<char>, OperationStatus, Seq<char>)>, OidErrorV>(e),
    decreases lines.len() - k,
{
    if k < lines.len() {
        assert(lines.subrange(0, k + 1).drop_last() =~= lines.subrange(0, k));
        lemma_parse_operation_error_persists(lines, k + 1, e);
    } else {
        assert(lines.subrange(0, k) =~= lines);
    }
}

/// A journal line reads back as the record it was written from.
pub proof fn lemma_operation_line_round_trip(r: OperationRecord)
    requires
        !is_blank(r.operation_id@),
    ensures
        parse_operation_line(operation_line(r)) == Ok::<(Seq<char>, OperationStatus, Seq<char>), OidErrorV>(
            operation_record_view(r),
        ),
{
    let a = encode_spec(Scheme::Journal, r.operation_id@);
    let b = status_label(r.status);
    let c = encode_spec(Scheme::Journal, r.detail@);
    crate::journal::lemma_tab_literal();
    crate::journal::lemma_encoded_has_no_tab(r.operation_id@);
    crate::journal::lemma_encoded_has_no_tab(r.detail@);
    lemma_status_label_plain(r.status);
    crate::journal::lemma_split_no_sep(a, '\t');
    crate::journal::lemma_split_append(a, b, '\t');
    crate::journal::lemma_split_append(a + seq!['\t'] + b, c, '\t');
    assert(operation_line(r) =~= (a + seq!['\t'] + b) + seq!['\t'] + c);
    let fields = split_spec(operation_line(r), '\t');
    assert(fields =~= seq![a, b, c]);
    crate::escape::lemma_decode_encode(Scheme::Journal, r.operation_id@);
    crate::escape::lemma_decode_encode(Scheme::Journal, r.detail@);
    crate::journal::lemma_decode_plain(Scheme::Journal, b);
    lemma_status_round_trip(r.status);
    assert(fields.drop_last() =~= seq![a, b]);
    assert(fields.drop_last().drop_last() =~= seq![a]);
    assert(fields.drop_last().drop_last().drop_last() =~= Seq::<Seq<char>>::empty());
    reveal_with_fuel(decode_all_spec, 4);
    let d = decode_all_spec(Scheme::Journal, fields);
    assert(d == Ok::<Seq<Seq<char>>, crate::escape::DecodeError>(seq![r.operation_id@, b, r.detail@])) by {
        assert(Seq::<Seq<char>>::empty().push(r.operation_id@).push(b).push(r.detail@) =~= seq![
            r.operation_id@,
            b,
            r.detail@,
        ]);
    }
}

/// Append-only operation state journal. The journal holds its path; reading
/// and appending lines is the caller's I/O, and the functions here compute
/// what the lines are and what they mean.
#[derive(Clone, Debug)]
pub struct OperationJournal {
    path: String,
}

impl View for OperationJournal {
    type V = Seq<char>;

    /// The journal's path.
    closed spec fn view(&self) -> Seq<char> {
        self.path@
    }
}

impl OperationJournal {
    /// Create a journal at a path.
    pub fn new(path: &str) -> (r: Self)
        ensures
            r@ == path@,
    {
        OperationJournal { path: String::from_str(path) }
    }

    /// Return the journal path.
    pub fn path(&self) -> (s: &str)
        ensures
            s@ == self@,
    {
        self.path.as_str()
    }

    /// The line that records a state transition.
    pub fn record_line(record: &OperationRecord) -> (s: String)
        ensures
            s@ == operation_line(*record),
    {
        let mut s = encode(Scheme::Journal, record.operation_id.as_str());
        s.append("\t");
        s.append(record.status.as_str());
        s.append("\t");
        s.append(encode(Scheme::Journal, record.detail.as_str()).as_str());
        s
    }

    /// Read one journal line: three tab-separated, escaped fields holding the
    /// operation id, the status label and the detail.
    pub fn parse_line(line: &str) -> (r: Result<OperationRecord, OidError>)
        ensures
            match parse_operation_line(line@) {
                Ok(t) => r matches Ok(rec) && operation_record_view(rec) == t,
                Err(e) => r matches Err(x) && x@ == e,
            },
    {
        let pieces = split_char(line, '\t');
        proof {
            assert(views(pieces@) =~= split_spec(line@, '\t'));
        }
        let fields = match decode_all(Scheme::Journal, &pieces) {
            Err(e) => {
                return Err(OidError::Evidence(decode_error_message(e, "trailing escape")));
            },
            Ok(f) => f,
        };
        if fields.len() != 3 {
            return Err(OidError::Evidence(String::from_str("malformed operation journal record")));
        }
        let operation_id = match OperationId::new(fields[0].as_str()) {
            Err(e) => {
                return Err(OidError::Evidence(e.to_text()));
            },
            Ok(id) => id,
        };
        let status = match OperationStatus::parse(fields[1].as_str()) {
            Err(e) => {
                return Err(e);
            },
            Ok(s) => s,
        };
        Ok(OperationRecord { operation_id, status, detail: fields[2].clone() })
    }

    /// Read every journal line, stopping at the first bad one.
    pub fn parse_lines(lines: &Vec<String>) -> (r: Result<Vec<OperationRecord>, OidError>)
        ensures
            match parse_operation_lines(views(lines@)) {
                Ok(ts) => r matches Ok(v) && v@.len() == ts.len() && forall|i: int|
                    0 <= i < ts.len() ==> operation_record_view(#[trigger] v@[i]) == ts[i],
                Err(e) => r matches Err(x) && x@ == e,
            },
    {
        let ghost vs = views(lines@);
        let mut out: Vec<OperationRecord> = Vec::new();
        let mut i: usize = 0;
        while i < lines.len()
            invariant
                vs == views(lines@),
                i <= lines@.len(),
                parse_operation_lines(vs.subrange(0, i as int)) matches Ok(ts) && out@.len() == ts.len()
                    && forall|k: int| 0 <= k < ts.len() ==> operation_record_view(#[trigger] out@[k]) == ts[k],
            decreases lines@.len() - i,
        {
            proof {
                assert(vs.subrange(0, i + 1).drop_last() =~= vs.subrange(0, i as int));
                assert(vs.subrange(0, i + 1).last() == lines@[i as int]@);
            }
            match OperationJournal::parse_line(lines[i].as_str()) {
                Err(e) => {
                    proof {
                        lemma_parse_operation_error_persists(vs, i as int + 1, e@);
                    }
                    return Err(e);
                },
                Ok(rec) => {
                    out.push(rec);
                },
            }
            i = i + 1;
        }
        proof {
            assert(vs.subrange(0, lines@.len() as int) =~= vs);
        }
        Ok(out)
    }

    /// The latest record for each operation, in id order.
    pub fn latest(records: &Vec<OperationRecord>) -> (r: Vec<OperationRecord>)
        ensures
            lists_map(r@, latest_map(records@)),
    {
        latest_by_key(records)
    }

    /// The latest record of one operation, if it has any.
    pub fn latest_of(records: &Vec<OperationRecord>, operation_id: &OperationId) -> (r: Option<OperationRecord>)
        ensures
            match r {
                Some(rec) => latest_map(records@).dom().contains(operation_id@) && rec == latest_map(
                    records@,
                )[operation_id@],
                None => !latest_map(records@).dom().contains(operation_id@),
            },
    {
        let latest = latest_by_key(records);
        let mut i: usize = 0;
        while i < latest.len()
            invariant
                lists_map(latest@, latest_map(records@)),
                i <= latest@.len(),
                forall|k: int| 0 <= k < i ==> (#[trigger] latest@[k]).key() != operation_id@,
            decreases latest@.len() - i,
        {
            if str_eq(latest[i].operation_id.as_str(), operation_id.as_str()) {
                return Some(latest[i].duplicate());
            }
            i = i + 1;
        }
        None
    }

    /// Operations that may need recovery after an interruption: those whose
    /// latest state is not final, in id order.
    pub fn recoverable(records: &Vec<OperationRecord>) -> (r: Vec<OperationRecord>)
        ensures
            lists_map(r@, unfinished_map(records@)),
    {
        let latest = latest_by_key(records);
        let ghost m = latest_map(records@);
        let mut out: Vec<OperationRecord> = Vec::new();
        let mut i: usize = 0;
        while i < latest.len()
            invariant
                lists_map(latest@, m),
                m == latest_map(records@),
                i <= latest@.len(),
                out@ == latest@.subrange(0, i as int).filter(|x: OperationRecord| !status_is_final(x.status)),
            decreases latest@.len() - i,
        {
            proof {
                reveal(Seq::filter);
                assert(latest@.subrange(0, i + 1).drop_last() =~= latest@.subrange(0, i as int));
            }
            if !latest[i].status.is_final() {
                out.push(latest[i].duplicate());
            }
            i = i + 1;
        }
        proof {
            assert(latest@.subrange(0, latest@.len() as int) =~= latest@);
            crate::keyed::lemma_filter_lists(latest@, m, |x: OperationRecord| !status_is_final(x.status));
        }
        out
    }
}


/// A request handed to a skill: the operation it belongs to and the
/// skill-specific arguments.
#[derive(Clone, Debug, Eq, PartialEq)]
pub struct SkillRequest {
    /// Stable operation identity.
    pub id: OperationId,
    /// Serialized, skill-specific arguments.
    pub arguments: String,
}

/// Whether a text holds a character.
pub open spec fn has_char(s: Seq<char>, c: char) -> bool {
    exists|i: int| 0 <= i < s.len() && s[i] == c
}

/// Whether a string holds a character.
fn str_has_char(s: &str, c: char) -> (b: bool)
    ensures
        b == has_char(s@, c),
{
    let v = crate::text::to_chars(s);
    let mut i: usize = 0;
    while i < v.len()
        invariant
            v@ == s@,
            i <= v@.len(),
            forall|k: int| 0 <= k < i ==> v@[k] != c,
        decreases v@.len() - i,
    {
        if v[i] == c {
            return true;
        }
        i = i + 1;
    }
    false
}

/// Native command adapter that executes only the command declared at
/// construction, always under explicit approval.
#[derive(Debug)]
pub struct NativeCommandSkill {
    descriptor: SkillDescriptor,
    command: String,
    args: Vec<String>,
}

impl NativeCommandSkill {
    /// The command the adapter runs.
    pub closed spec fn program(self) -> Seq<char> {
        self.command@
    }

    /// The arguments the adapter passes.
    pub closed spec fn arguments(self) -> Seq<Seq<char>> {
        views(self.args@)
    }

    /// The adapter's metadata.
    pub closed spec fn metadata(self) -> SkillDescriptor {
        self.descriptor
    }

    /// Construct a governed native command adapter; a blank command or one
    /// with a path (`/`) is refused with
    /// `InvalidInput("native command must be a PATH command")`. The skill is
    /// `native-<command>`, described as "Execute native command <command>",
    /// and mutates the system.
    pub fn new(command: &str, args: Vec<String>) -> (r: Result<Self, OidError>)
        ensures
            is_blank(command@) || has_char(command@, '/') ==> (r matches Err(e) && e@ == OidErrorV::InvalidInput(
                "native command must be a PATH command"@,
            )),
            !(is_blank(command@) || has_char(command@, '/')) ==> (r matches Ok(skill) && {
                &&& skill.program() == command@
                &&& skill.arguments() == views(args@)
                &&& skill.metadata().id@ == "native-"@ + command@
                &&& skill.metadata().description@ == "Execute native command "@ + command@
                &&& skill.metadata().mutates_system
            }),
    {
        if crate::text::str_is_blank(command) || str_has_char(command, '/') {
            return Err(OidError::InvalidInput(String::from_str("native command must be a PATH command")));
        }
        let id_text = concat("native-", command);
        let id = match SkillId::new(id_text.as_str()) {
            Ok(id) => id,
            Err(e) => {
                proof {
                    assert(!is_blank(id_text@)) by {
                        reveal_strlit("native-");
                        assert(id_text@[0] == 'n');
                    }
                }
                return Err(OidError::InvalidInput(e.to_text()));
            },
        };
        let descriptor = SkillDescriptor {
            id,
            description: concat("Execute native command ", command),
            mutates_system: true,
        };
        Ok(NativeCommandSkill { descriptor, command: String::from_str(command), args })
    }

    /// Return the capability metadata.
    pub fn descriptor(&self) -> (d: &SkillDescriptor)
        ensures
            *d == self.metadata(),
    {
        &self.descriptor
    }

    /// The plan for running the command: one approved, state-changing
    /// `NativeCommand` step of medium risk, verified by a successful exit,
    /// without rollback.
    pub fn plan(&self, request: &SkillRequest) -> (r: Result<OperationPlan, OidError>)
        ensures
            r matches Ok(plan) && {
                &&& plan.id == request.id
                &&& plan.intent is None
                &&& plan.skill == self.metadata().id
                &&& plan.summary@ == "Execute "@ + self.program()
                &&& plan.rationale@ == "Native command execution requires explicit approval"@
                &&& plan.risk == RiskLevel::Medium
                &&& plan.approval == ApprovalRequirement::User
                &&& plan.steps@.len() == 1
                &&& plan.steps@[0].order == 1
                &&& plan.steps@[0].description@ == "Run "@ + self.program()
                &&& plan.steps@[0].affects_system_state
                &&& (plan.steps@[0].action matches ActionType::NativeCommand { command, args } && command@
                    == self.program() && views(args@) == self.arguments())
                &&& plan.verification.checks@.len() == 1
                &&& plan.verification.checks@[0].description@ == "Native command exits successfully"@
                &&& plan.verification.checks@[0].kind@ == "exit-success"@
                &&& plan.rollback is None
                &&& plan_violation(plan) is None
            },
    {
        let mut steps: Vec<OperationStep> = Vec::new();
        steps.push(
            OperationStep {
                order: 1,
                description: concat("Run ", self.command.as_str()),
                action: ActionType::NativeCommand {
                    command: self.command.clone(),
                    args: crate::text::clone_strings(&self.args),
                },
                affects_system_state: true,
            },
        );
        let mut checks: Vec<VerificationCheck> = Vec::new();
        checks.push(
            VerificationCheck {
                description: String::from_str("Native command exits successfully"),
                kind: String::from_str("exit-success"),
            },
        );
        let plan = OperationPlan {
            id: request.id.copy(),
            intent: None,
            skill: self.descriptor.id.copy(),
            summary: concat("Execute ", self.command.as_str()),
            rationale: String::from_str("Native command execution requires explicit approval"),
            risk: RiskLevel::Medium,
            approval: ApprovalRequirement::User,
            steps,
            verification: VerificationPlan { checks },
            rollback: None,
        };
        match plan.validate() {
            Err(e) => {
                return Err(e);
            },
            Ok(()) => {},
        }
        Ok(plan)
    }

    /// A successful run: the operation changed the system, and its summary is
    /// the command's trimmed standard output.
    pub fn execution_result(&self, approved: &ApprovedOperationPlan, stdout: &str) -> (r: ExecutionResult)
        ensures
            r.operation_id == approved.plan.id,
            r.summary@ == crate::text::trim(stdout@),
            r.changed,
    {
        ExecutionResult { operation_id: approved.plan.id.copy(), summary: crate::text::trim_str(stdout), changed: true }
    }

    /// A run that exited unsuccessfully:
    /// `Execution("<command> exited with <status>")`.
    pub fn exit_failure(&self, status: &str) -> (e: OidError)
        ensures
            e@ == OidErrorV::Execution(self.program() + " exited with "@ + status@),
    {
        OidError::Execution(crate::text::concat3(self.command.as_str(), " exited with ", status))
    }

    /// A native command that exited successfully passes verification.
    pub fn verify(&self, execution: &ExecutionResult) -> (r: Result<VerificationResult, OidError>)
        ensures
            r matches Ok(v) && v.operation_id == execution.operation_id && v.passed && v.summary@
                == "native command exited successfully"@,
    {
        Ok(
            VerificationResult {
                operation_id: execution.operation_id.copy(),
                passed: true,
                summary: String::from_str("native command exited successfully"),
            },
        )
    }

    /// A native command cannot be rolled back.
    pub fn rollback(&self, execution: &ExecutionResult) -> (r: Result<RollbackResult, OidError>)
        ensures
            r matches Err(e) && e@ == OidErrorV::NotFound("rollback implementation"@),
    {
        Err(crate::skills::no_rollback())
    }
}

/// Identifies the coordinator boundary.
pub fn boundary_name() -> (s: &'static str)
    ensures
        s@ == "operation-coordinator"@,
{
    "operation-coordinator"
}

} // verus!
