//! Authorization and approval contracts.
//!
//! Policy decisions stay explicit: a read-only request is allowed, a mutating
//! one waits for approval. Approvals live in memory or in an append-only
//! journal whose latest record per operation is its current state.
use vstd::prelude::*;
use crate::common::{OidError, OidErrorV, OperationId, SkillId};
use crate::escape::{decode_all, decode_all_spec, decode_error_message, decode_error_text, encode, encode_spec, Scheme};
use crate::keyed::{Keyed, KeyedCopy, filtered_map, latest_by_key, latest_map, lists_map};
use crate::opset::OperationSet;
use crate::order::{lex_lt, strictly_sorted};
use crate::text::{concat, concat3, debug_quoted, quote_debug, is_blank, split_char, split_spec, str_eq, str_is_blank};

verus! {

/// Result of evaluating whether an operation may proceed.
#[derive(Clone, Debug, Eq, PartialEq)]
pub enum AuthorizationDecision {
    /// Proceed without interactive approval.
    Allowed,
    /// Pause until the user explicitly approves.
    ApprovalRequired {
        /// Explanation shown to the user.
        reason: String,
    },
    /// Refuse the operation.
    Denied {
        /// Explanation for the denial.
        reason: String,
    },
}

/// The text `Debug` gives a decision: the variant's name, with the reason
/// quoted as `Debug` quotes a string.
pub open spec fn decision_debug_text(d: AuthorizationDecision) -> Seq<char> {
    match d {
        AuthorizationDecision::Allowed => "Allowed"@,
        AuthorizationDecision::ApprovalRequired { reason } => "ApprovalRequired { reason: "@ + debug_quoted(
            reason@,
        ) + " }"@,
        AuthorizationDecision::Denied { reason } => "Denied { reason: "@ + debug_quoted(reason@) + " }"@,
    }
}

impl AuthorizationDecision {
    /// The decision as `Debug` writes it, as evidence records it.
    pub fn debug_text(&self) -> (s: String)
        ensures
            s@ == decision_debug_text(*self),
    {
        match self {
            AuthorizationDecision::Allowed => String::from_str("Allowed"),
            AuthorizationDecision::ApprovalRequired { reason } => {
                let q = quote_debug(reason.as_str());
                concat3("ApprovalRequired { reason: ", q.as_str(), " }")
            },
            AuthorizationDecision::Denied { reason } => {
                let q = quote_debug(reason.as_str());
                concat3("Denied { reason: ", q.as_str(), " }")
            },
        }
    }
}

/// Context supplied to a policy evaluator.
#[derive(Clone, Debug, Eq, PartialEq)]
pub struct AuthorizationRequest {
    /// Operation being evaluated.
    pub operation_id: OperationId,
    /// Skill requested by the operation.
    pub skill_id: SkillId,
    /// Whether the operation mutates system state.
    pub mutates_system: bool,
}

/// A user approval that can be attached to one operation.
#[derive(Clone, Debug, Eq, PartialEq)]
pub struct Approval {
    /// Operation approved by the user.
    pub operation_id: OperationId,
    /// Human-readable approval note.
    pub note: String,
}

/// Durable state of an approval lifecycle.
#[derive(Clone, Copy, Debug, Eq, PartialEq, Structural)]
pub enum ApprovalStatus {
    /// A plan was shown and is awaiting a decision.
    Pending,
    /// The user explicitly approved the plan.
    Approved,
    /// The approval was consumed by execution.
    Consumed,
    /// The approval was rejected or invalidated.
    Rejected,
}

/// Journal label of an approval status.
pub open spec fn approval_status_label(s: ApprovalStatus) -> Seq<char> {
    match s {
        ApprovalStatus::Pending => "pending"@,
        ApprovalStatus::Approved => "approved"@,
        ApprovalStatus::Consumed => "consumed"@,
        ApprovalStatus::Rejected => "rejected"@,
    }
}

/// The status a journal label names, if any.
pub open spec fn approval_status_from_label(v: Seq<char>) -> Option<ApprovalStatus> {
    if v == "pending"@ {
        Some(ApprovalStatus::Pending)
    } else if v == "approved"@ {
        Some(ApprovalStatus::Approved)
    } else if v == "consumed"@ {
        Some(ApprovalStatus::Consumed)
    } else if v == "rejected"@ {
        Some(ApprovalStatus::Rejected)
    } else {
        None
    }
}

/// Whether an approval in this state must be offered for recovery.
pub open spec fn approval_recoverable(s: ApprovalStatus) -> bool {
    s == ApprovalStatus::Pending || s == ApprovalStatus::Approved
}

impl ApprovalStatus {
    /// The journal label.
    pub fn as_str(self) -> (s: &'static str)
        ensures
            s@ == approval_status_label(self),
    {
        match self {
            ApprovalStatus::Pending => "pending",
            ApprovalStatus::Approved => "approved",
            ApprovalStatus::Consumed => "consumed",
            ApprovalStatus::Rejected => "rejected",
        }
    }

    /// Read a journal label; an unknown label is refused with
    /// `Execution("unknown approval status: <label>")`.
    pub fn parse(value: &str) -> (r: Result<Self, OidError>)
        ensures
            match approval_status_from_label(value@) {
                Some(s) => r == Ok::<ApprovalStatus, OidError>(s),
                None => r matches Err(e) && e@ == OidErrorV::Execution(
                    "unknown approval status: "@ + value@,
                ),
            },
    {
        if str_eq(value, "pending") {
            Ok(ApprovalStatus::Pending)
        } else if str_eq(value, "approved") {
            Ok(ApprovalStatus::Approved)
        } else if str_eq(value, "consumed") {
            Ok(ApprovalStatus::Consumed)
        } else if str_eq(value, "rejected") {
            Ok(ApprovalStatus::Rejected)
        } else {
            Err(OidError::Execution(concat("unknown approval status: ", value)))
        }
    }
}

/// Reading back the label of a status gives the status.
pub proof fn lemma_approval_status_round_trip(s: ApprovalStatus)
    ensures
        approval_status_from_label(approval_status_label(s)) == Some(s),
{
    reveal_strlit("pending");
    reveal_strlit("approved");
    reveal_strlit("consumed");
    reveal_strlit("rejected");
    assert("pending"@[0] == 'p');
    assert("approved"@[0] == 'a');
    assert("consumed"@[0] == 'c');
    assert("rejected"@[0] == 'r');
}

/// A journal entry describing the latest known approval state for an operation.
#[derive(Clone, Debug, Eq, PartialEq)]
pub struct ApprovalRecord {
    /// Operation whose approval changed.
    pub operation_id: OperationId,
    /// Current lifecycle state represented by this record.
    pub status: ApprovalStatus,
    /// User or system note associated with the state change.
    pub note: String,
}

/// The plain values of an approval record.
pub open spec fn approval_record_view(r: ApprovalRecord) -> (Seq<char>, ApprovalStatus, Seq<char>) {
    (r.operation_id@, r.status, r.note@)
}

impl KeyedCopy for ApprovalRecord {
    fn duplicate(&self) -> (r: Self) {
        ApprovalRecord {
            operation_id: self.operation_id.copy(),
            status: self.status,
            note: self.note.clone(),
        }
    }
}

impl Keyed for ApprovalRecord {
    open spec fn key(&self) -> Seq<char> {
        self.operation_id@
    }

    fn key_str(&self) -> (s: &str) {
        self.operation_id.as_str()
    }

}

/// Policy evaluation boundary.
pub trait PolicyEvaluator {
    /// Evaluate authorization without executing the operation.
    fn evaluate(&self, request: &AuthorizationRequest) -> Result<AuthorizationDecision, OidError>;
}

/// Approval persistence boundary.
pub trait ApprovalStore {
    /// Record explicit user approval.
    fn approve(&mut self, approval: Approval) -> Result<(), OidError>;

    /// Check whether an operation has approval.
    fn is_approved(&self, operation_id: &OperationId) -> Result<bool, OidError>;
}

/// Approval lifecycle boundary used for recovery-aware execution.
pub trait ApprovalLifecycle: ApprovalStore {
    /// Persist a pending approval request.
    fn request(&mut self, operation_id: OperationId) -> Result<(), OidError>;

    /// Consume an approval when execution begins.
    fn consume(&mut self, operation_id: &OperationId) -> Result<(), OidError>;

    /// Return operations that were pending or approved when the process stopped.
    fn recoverable(&self) -> Result<Vec<ApprovalRecord>, OidError>;
}

/// Deterministic policy that allows read-only skills and requires approval
/// for mutations.
#[derive(Clone, Debug, Default)]
pub struct ReadOnlyPolicy;

/// The reason given when a mutating skill needs approval.
pub open spec fn mutation_reason(skill: Seq<char>) -> Seq<char> {
    "skill "@ + skill + " can change system state"@
}

impl PolicyEvaluator for ReadOnlyPolicy {
    /// A read-only request is `Allowed`; a mutating one requires approval
    /// with the reason "skill <id> can change system state".
    fn evaluate(&self, request: &AuthorizationRequest) -> (r: Result<AuthorizationDecision, OidError>)
        ensures
            if request.mutates_system {
                r matches Ok(AuthorizationDecision::ApprovalRequired { reason }) && reason@
                    == mutation_reason(request.skill_id@)
            } else {
                r == Ok::<AuthorizationDecision, OidError>(AuthorizationDecision::Allowed)
            },
    {
        if request.mutates_system {
            Ok(
                AuthorizationDecision::ApprovalRequired {
                    reason: concat3("skill ", request.skill_id.as_str(), " can change system state"),
                },
            )
        } else {
            Ok(AuthorizationDecision::Allowed)
        }
    }
}

/// The message when an operation has no approval to consume.
pub open spec fn no_approval_text(id: Seq<char>) -> Seq<char> {
    "operation "@ + id + " has no approval"@
}

/// In-memory approval store for deterministic tests and the reference
/// client: the set of approved operations, kept in id order.
#[derive(Debug)]
pub struct InMemoryApprovalStore {
    approvals: OperationSet,
}

impl InMemoryApprovalStore {
    /// The approved operation ids, in increasing order.
    pub closed spec fn listing(self) -> Seq<Seq<char>> {
        self.approvals.listing()
    }

    /// The set of approved operation ids.
    pub open spec fn approved(self) -> Set<Seq<char>> {
        self.listing().to_set()
    }

    /// An empty store.
    pub fn new() -> (r: Self)
        ensures
            r.listing() == Seq::<Seq<char>>::empty(),
            r.approved() == Set::<Seq<char>>::empty(),
    {
        InMemoryApprovalStore { approvals: OperationSet::new() }
    }
}

impl Default for InMemoryApprovalStore {
    fn default() -> (r: Self)
        ensures
            r.approved() == Set::<Seq<char>>::empty(),
    {
        InMemoryApprovalStore::new()
    }
}

impl ApprovalStore for InMemoryApprovalStore {
    /// Adds the operation to the approved set.
    fn approve(&mut self, approval: Approval) -> (r: Result<(), OidError>)
        ensures
            r is Ok,
            final(self).approved() == old(self).approved().insert(approval.operation_id@),
    {
        self.approvals.insert(approval.operation_id);
        Ok(())
    }

    /// Whether the operation is in the approved set.
    fn is_approved(&self, operation_id: &OperationId) -> (r: Result<bool, OidError>)
        ensures
            r == Ok::<bool, OidError>(self.approved().contains(operation_id@)),
    {
        Ok(self.approvals.contains(operation_id))
    }
}

impl ApprovalLifecycle for InMemoryApprovalStore {
    /// A new request withdraws any earlier approval of the operation.
    fn request(&mut self, operation_id: OperationId) -> (r: Result<(), OidError>)
        ensures
            r is Ok,
            final(self).approved() == old(self).approved().remove(operation_id@),
    {
        self.approvals.remove(&operation_id);
        Ok(())
    }

    /// Removes the operation's approval; an operation without one is refused
    /// with `ApprovalRequired("operation <id> has no approval")`.
    fn consume(&mut self, operation_id: &OperationId) -> (r: Result<(), OidError>)
        ensures
            old(self).approved().contains(operation_id@) ==> r is Ok,
            !old(self).approved().contains(operation_id@) ==> (r matches Err(e) && e@
                == OidErrorV::ApprovalRequired(no_approval_text(operation_id@))),
            final(self).approved() == old(self).approved().remove(operation_id@),
    {
        if self.approvals.remove(operation_id) {
            Ok(())
        } else {
            Err(OidError::ApprovalRequired(concat3("operation ", operation_id.as_str(), " has no approval")))
        }
    }

    /// Every approved operation, in id order, as an `Approved` record with
    /// the note "in-memory approval".
    fn recoverable(&self) -> (r: Result<Vec<ApprovalRecord>, OidError>)
        ensures
            strictly_sorted(self.listing()),
            r matches Ok(v) && v@.len() == self.listing().len() && forall|i: int| 0 <= i < v@.len() ==> {
                &&& (#[trigger] v@[i]).operation_id@ == self.listing()[i]
                &&& v@[i].status == ApprovalStatus::Approved
                &&& v@[i].note@ == "in-memory approval"@
            },
    {
        let n = self.approvals.len();
        let mut out: Vec<ApprovalRecord> = Vec::new();
        let mut i: usize = 0;
        while i < n
            invariant
                n == self.approvals.listing().len(),
                i <= n,
                out@.len() == i,
                forall|k: int| 0 <= k < i ==> {
                    &&& (#[trigger] out@[k]).operation_id@ == self.approvals.listing()[k]
                    &&& out@[k].status == ApprovalStatus::Approved
                    &&& out@[k].note@ == "in-memory approval"@
                },
            decreases n - i,
        {
            out.push(
                ApprovalRecord {
                    operation_id: self.approvals.get(i).copy(),
                    status: ApprovalStatus::Approved,
                    note: String::from_str("in-memory approval"),
                },
            );
            i = i + 1;
        }
        Ok(out)
    }
}

/// Durable append-only approval journal. The store holds the journal's path;
/// reading and appending lines is the caller's I/O, and the functions here
/// compute what those lines mean.
#[derive(Clone, Debug)]
pub struct FileApprovalStore {
    path: String,
}

/// Plain values of one journal line, or the error the line gives.
pub open spec fn parse_approval_line(line: Seq<char>) -> Result<(Seq<char>, ApprovalStatus, Seq<char>), OidErrorV> {
    match decode_all_spec(Scheme::Journal, split_spec(line, '\t')) {
        Err(e) => Err(OidErrorV::Evidence(decode_error_text(e, "trailing escape"@))),
        Ok(fs) => if fs.len() != 3 {
            Err(OidErrorV::Evidence("malformed approval record"@))
        } else if is_blank(fs[0]) {
            Err(OidErrorV::Evidence(crate::common::error_text(OidErrorV::InvalidInput("OperationId"@))))
        } else {
            match approval_status_from_label(fs[1]) {
                None => Err(OidErrorV::Execution("unknown approval status: "@ + fs[1])),
                Some(s) => Ok((fs[0], s, fs[2])),
            }
        },
    }
}

/// Plain values of every journal line, or the error of the first bad one.
pub open spec fn parse_approval_lines(lines: Seq<Seq<char>>) -> Result<Seq<(Seq<char>, ApprovalStatus, Seq<char>)>, OidErrorV>
    decreases lines.len(),
{
    if lines.len() == 0 {
        Ok(Seq::empty())
    } else {
        match parse_approval_lines(lines.drop_last()) {
            Err(e) => Err(e),
            Ok(done) => match parse_approval_line(lines.last()) {
                Err(e) => Err(e),
                Ok(x) => Ok(done.push(x)),
            },
        }
    }
}

/// The journal line of a record.
pub open spec fn approval_line(r: ApprovalRecord) -> Seq<char> {
    encode_spec(Scheme::Journal, r.operation_id@) + "\t"@ + approval_status_label(r.status) + "\t"@
        + encode_spec(Scheme::Journal, r.note@)
}

/// The latest record of every operation whose state is recoverable.
pub open spec fn recoverable_map(records: Seq<ApprovalRecord>) -> Map<Seq<char>, ApprovalRecord> {
    filtered_map(latest_map(records), |x: ApprovalRecord| approval_recoverable(x.status))
}

/// The last journal record of an operation decides whether it is offered
/// for recovery: one whose last record is pending, or approved and not yet
/// consumed, is listed with that record; one whose last record is consumed
/// or rejected is not listed. `listing` is any listing of the recoverable
/// operations, such as `recoverable_in` gives.
pub proof fn lemma_recovery_follows_latest(records: Seq<ApprovalRecord>, listing: Seq<ApprovalRecord>)
    requires
        records.len() > 0,
        lists_map(listing, recoverable_map(records)),
    ensures
        records.last().status == ApprovalStatus::Pending || records.last().status == ApprovalStatus::Approved
            ==> exists|i: int| 0 <= i < listing.len() && listing[i] == records.last(),
        records.last().status == ApprovalStatus::Consumed || records.last().status == ApprovalStatus::Rejected
            ==> forall|i: int| 0 <= i < listing.len() ==> listing[i].operation_id@ != records.last().operation_id@,
{
    let k = records.last().key();
    let m = recoverable_map(records);
    assert(latest_map(records) == latest_map(records.drop_last()).insert(k, records.last()));
    if approval_recoverable(records.last().status) {
        assert(m.dom().contains(k));
        let i = choose|i: int| 0 <= i < listing.len() && (#[trigger] listing[i]).key() == k;
        assert(listing[i] == m[k]);
    } else {
        assert(!m.dom().contains(k));
        assert forall|i: int| 0 <= i < listing.len() implies listing[i].operation_id@ != records.last().operation_id@ by {
            assert(m.dom().contains(listing[i].key()));
        }
    }
}

impl View for FileApprovalStore {
    type V = Seq<char>;

    /// The journal's path.
    closed spec fn view(&self) -> Seq<char> {
        self.path@
    }
}

impl FileApprovalStore {
    /// Create a journal at the supplied path.
    pub fn new(path: &str) -> (r: Self)
        ensures
            r@ == path@,
    {
        FileApprovalStore { path: String::from_str(path) }
    }

    /// Return the configured journal path.
    pub fn path(&self) -> (s: &str)
        ensures
            s@ == self@,
    {
        self.path.as_str()
    }

    /// The record a new approval request appends.
    pub fn request_record(operation_id: OperationId) -> (r: ApprovalRecord)
        ensures
            r.operation_id == operation_id,
            r.status == ApprovalStatus::Pending,
            r.note@ == "awaiting user approval"@,
    {
        ApprovalRecord { operation_id, status: ApprovalStatus::Pending, note: String::from_str("awaiting user approval") }
    }

    /// The record an explicit approval appends.
    pub fn approval_record(approval: Approval) -> (r: ApprovalRecord)
        ensures
            r.operation_id == approval.operation_id,
            r.status == ApprovalStatus::Approved,
            r.note == approval.note,
    {
        ApprovalRecord { operation_id: approval.operation_id, status: ApprovalStatus::Approved, note: approval.note }
    }

    /// The record that consuming an approval appends, given the journal's
    /// records; an operation whose latest state is not approved is refused
    /// with `ApprovalRequired("operation <id> has no approval")`.
    pub fn consume_record(records: &Vec<ApprovalRecord>, operation_id: &OperationId) -> (r: Result<ApprovalRecord, OidError>)
        ensures
            match r {
                Ok(rec) => rec.operation_id == *operation_id && rec.status == ApprovalStatus::Consumed && rec.note@
                    == "approval consumed by execution"@,
                Err(e) => e@ == OidErrorV::ApprovalRequired(no_approval_text(operation_id@)),
            },
            r is Ok <==> (latest_map(records@).dom().contains(operation_id@) && latest_map(records@)[operation_id@].status
                == ApprovalStatus::Approved),
    {
        if FileApprovalStore::is_approved_in(records, operation_id) {
            Ok(
                ApprovalRecord {
                    operation_id: operation_id.copy(),
                    status: ApprovalStatus::Consumed,
                    note: String::from_str("approval consumed by execution"),
                },
            )
        } else {
            Err(OidError::ApprovalRequired(concat3("operation ", operation_id.as_str(), " has no approval")))
        }
    }

    /// The line that records a state change.
    pub fn record_line(record: &ApprovalRecord) -> (s: String)
        ensures
            s@ == approval_line(*record),
    {
        let mut s = encode(Scheme::Journal, record.operation_id.as_str());
        s.append("\t");
        s.append(record.status.as_str());
        s.append("\t");
        s.append(encode(Scheme::Journal, record.note.as_str()).as_str());
        s
    }

    /// Read one journal line: three tab-separated, escaped fields holding the
    /// operation id, the status label and the note.
    pub fn parse_line(line: &str) -> (r: Result<ApprovalRecord, OidError>)
        ensures
            match parse_approval_line(line@) {
                Ok(t) => r matches Ok(rec) && approval_record_view(rec) == t,
                Err(e) => r matches Err(x) && x@ == e,
            },
    {
        let pieces = split_char(line, '\t');
        proof {
            assert(pieces@.map_values(|f: String| f@) =~= split_spec(line@, '\t'));
        }
        let fields = match decode_all(Scheme::Journal, &pieces) {
            Err(e) => {
                return Err(OidError::Evidence(decode_error_message(e, "trailing escape")));
            },
            Ok(f) => f,
        };
        if fields.len() != 3 {
            return Err(OidError::Evidence(String::from_str("malformed approval record")));
        }
        let operation_id = match OperationId::new(fields[0].as_str()) {
            Err(e) => {
                return Err(OidError::Evidence(e.to_text()));
            },
            Ok(id) => id,
        };
        let status = match ApprovalStatus::parse(fields[1].as_str()) {
            Err(e) => {
                return Err(e);
            },
            Ok(s) => s,
        };
        Ok(ApprovalRecord { operation_id, status, note: fields[2].clone() })
    }

    /// Read every journal line, stopping at the first bad one.
    pub fn parse_lines(lines: &Vec<String>) -> (r: Result<Vec<ApprovalRecord>, OidError>)
        ensures
            match parse_approval_lines(lines@.map_values(|l: String| l@)) {
                Ok(ts) => r matches Ok(v) && v@.len() == ts.len() && forall|i: int| 0 <= i < ts.len() ==> approval_record_view(#[trigger] v@[i]) == ts[i],
                Err(e) => r matches Err(x) && x@ == e,
            },
    {
        let ghost views = lines@.map_values(|l: String| l@);
        let mut out: Vec<ApprovalRecord> = Vec::new();
        let mut i: usize = 0;
        while i < lines.len()
            invariant
                views == lines@.map_values(|l: String| l@),
                i <= lines@.len(),
                parse_approval_lines(views.subrange(0, i as int)) matches Ok(ts) && out@.len() == ts.len()
                    && forall|k: int| 0 <= k < ts.len() ==> approval_record_view(#[trigger] out@[k]) == ts[k],
            decreases lines@.len() - i,
        {
            proof {
                assert(views.subrange(0, i + 1).drop_last() =~= views.subrange(0, i as int));
                assert(views.subrange(0, i + 1).last() == lines@[i as int]@);
            }
            match FileApprovalStore::parse_line(lines[i].as_str()) {
                Err(e) => {
                    proof {
                        lemma_parse_approval_error_persists(views, i as int + 1, e@);
                    }
                    return Err(e);
                },
                Ok(rec) => {
                    out.push(rec);
                },
            }
            i = i + 1;
        }
        proof {
            assert(views.subrange(0, lines@.len() as int) =~= views);
        }
        Ok(out)
    }

    /// The latest record per operation, in id order.
    pub fn latest(records: &Vec<ApprovalRecord>) -> (r: Vec<ApprovalRecord>)
        ensures
            lists_map(r@, latest_map(records@)),
    {
        latest_by_key(records)
    }

    /// Whether the latest record of the operation says `Approved`.
    pub fn is_approved_in(records: &Vec<ApprovalRecord>, operation_id: &OperationId) -> (b: bool)
        ensures
            b == (latest_map(records@).dom().contains(operation_id@) && latest_map(records@)[operation_id@].status
                == ApprovalStatus::Approved),
    {
        let latest = latest_by_key(records);
        let mut i: usize = 0;
        while i < latest.len()
            invariant
                lists_map(latest@, latest_map(records@)),
                i <= latest@.len(),
                forall|k: int| 0 <= k < i ==> (#[trigger] latest@[k]).key() != operation_id@,
            decreases latest@.len() - i,
        {
            if str_eq(latest[i].operation_id.as_str(), operation_id.as_str()) {
                return latest[i].status == ApprovalStatus::Approved;
            }
            i = i + 1;
        }
        false
    }

    /// Operations whose latest record is `Pending` or `Approved`, in id order.
    pub fn recoverable_in(records: &Vec<ApprovalRecord>) -> (r: Vec<ApprovalRecord>)
        ensures
            lists_map(r@, recoverable_map(records@)),
    {
        let latest = latest_by_key(records);
        let ghost m = latest_map(records@);
        let ghost rm = recoverable_map(records@);
        let mut out: Vec<ApprovalRecord> = Vec::new();
        let mut i: usize = 0;
        while i < latest.len()
            invariant
                lists_map(latest@, m),
                m == latest_map(records@),
                rm == recoverable_map(records@),
                i <= latest@.len(),
                out@ == latest@.subrange(0, i as int).filter(|x: ApprovalRecord| approval_recoverable(x.status)),
            decreases latest@.len() - i,
        {
            proof {
                reveal(Seq::filter);
                assert(latest@.subrange(0, i + 1).drop_last() =~= latest@.subrange(0, i as int));
            }
            let st = latest[i].status;
            if st == ApprovalStatus::Pending || st == ApprovalStatus::Approved {
                out.push(latest[i].duplicate());
            }
            i = i + 1;
        }
        proof {
            assert(latest@.subrange(0, latest@.len() as int) =~= latest@);
            crate::keyed::lemma_filter_lists(latest@, m, |x: ApprovalRecord| approval_recoverable(x.status));
        }
        out
    }
}

/// Once a line fails to parse, reading more lines keeps that error.
proof fn lemma_parse_approval_error_persists(lines: Seq<Seq<char>>, k: int, e: OidErrorV)
    requires
        0 <= k <= lines.len(),
        parse_approval_lines(lines.subrange(0, k)) == Err::<Seq<(Seq<char>, ApprovalStatus, Seq<char>)>, OidErrorV>(e),
    ensures
        parse_approval_lines(lines) == Err::<Seq<(Seq<char>, ApprovalStatus, Seq<char>)>, OidErrorV>(e),
    decreases lines.len() - k,
{
    if k < lines.len() {
        assert(lines.subrange(0, k + 1).drop_last() =~= lines.subrange(0, k));
        lemma_parse_approval_error_persists(lines, k + 1, e);
    } else {
        assert(lines.subrange(0, k) =~= lines);
    }
}

/// Labels hold neither tab nor backslash.
proof fn lemma_approval_label_plain(s: ApprovalStatus)
    ensures
        crate::journal::no_char(approval_status_label(s), '\t'),
        crate::journal::no_char(approval_status_label(s), '\\'),
{
    reveal_strlit("pending");
    reveal_strlit("approved");
    reveal_strlit("consumed");
    reveal_strlit("rejected");
}

/// A journal line reads back as the record it was written from.
pub proof fn lemma_approval_line_round_trip(r: ApprovalRecord)
    requires
        !is_blank(r.operation_id@),
    ensures
        parse_approval_line(approval_line(r)) == Ok::<(Seq<char>, ApprovalStatus, Seq<char>), OidErrorV>(
            approval_record_view(r),
        ),
{
    let a = encode_spec(Scheme::Journal, r.operation_id@);
    let b = approval_status_label(r.status);
    let c = encode_spec(Scheme::Journal, r.note@);
    crate::journal::lemma_tab_literal();
    crate::journal::lemma_encoded_has_no_tab(r.operation_id@);
    crate::journal::lemma_encoded_has_no_tab(r.note@);
    lemma_approval_label_plain(r.status);
    crate::journal::lemma_split_no_sep(a, '\t');
    crate::journal::lemma_split_append(a, b, '\t');
    crate::journal::lemma_split_append(a + seq!['\t'] + b, c, '\t');
    assert(approval_line(r) =~= (a + seq!['\t'] + b) + seq!['\t'] + c);
    let fields = split_spec(approval_line(r), '\t');
    assert(fields =~= seq![a, b, c]);
    crate::escape::lemma_decode_encode(Scheme::Journal, r.operation_id@);
    crate::escape::lemma_decode_encode(Scheme::Journal, r.note@);
    crate::journal::lemma_decode_plain(Scheme::Journal, b);
    lemma_approval_status_round_trip(r.status);
    assert(fields.drop_last() =~= seq![a, b]);
    assert(fields.drop_last().drop_last() =~= seq![a]);
    assert(fields.drop_last().drop_last().drop_last() =~= Seq::<Seq<char>>::empty());
    reveal_with_fuel(decode_all_spec, 4);
    let d = decode_all_spec(Scheme::Journal, fields);
    assert(d == Ok::<Seq<Seq<char>>, crate::escape::DecodeError>(seq![r.operation_id@, b, r.note@])) by {
        assert(Seq::<Seq<char>>::empty().push(r.operation_id@).push(b).push(r.note@) =~= seq![r.operation_id@, b, r.note@]);
    }
}

/// Identifies the policy boundary.
pub fn boundary_name() -> (s: &'static str)
    ensures
        s@ == "policy-engine"@,
{
    "policy-engine"
}

} // verus!
