//! Canonical operation planning and execution models.
use vstd::prelude::*;
use crate::common::{IntentId, OidError, OidErrorV, OperationId, SkillId};
use crate::text::{concat, decimal, is_blank, push_char, str_is_blank, to_chars, u32_to_string};

verus! {

/// Minimal intent context embedded in a plan.
#[derive(Clone, Debug, Eq, PartialEq)]
pub struct IntentContext {
    /// Intent identity.
    pub id: IntentId,
    /// User-visible intent description.
    pub description: String,
}

/// Relative risk of an operation.
#[derive(Clone, Copy, Debug, Eq, Ord, PartialEq, PartialOrd, Structural)]
pub enum RiskLevel {
    /// No system state is changed (label `None`).
    NoRisk,
    /// A reversible, low-impact change.
    Low,
    /// A material but bounded change.
    Medium,
    /// A high-impact or broad change.
    High,
    /// A potentially catastrophic change.
    Critical,
}

/// Display label of a risk level.
pub open spec fn risk_label(r: RiskLevel) -> Seq<char> {
    match r {
        RiskLevel::NoRisk => "None"@,
        RiskLevel::Low => "Low"@,
        RiskLevel::Medium => "Medium"@,
        RiskLevel::High => "High"@,
        RiskLevel::Critical => "Critical"@,
    }
}

impl RiskLevel {
    /// Return the stable display label.
    pub fn as_str(self) -> (s: &'static str)
        ensures
            s@ == risk_label(self),
    {
        match self {
            RiskLevel::NoRisk => "None",
            RiskLevel::Low => "Low",
            RiskLevel::Medium => "Medium",
            RiskLevel::High => "High",
            RiskLevel::Critical => "Critical",
        }
    }
}

/// Approval authority required before execution.
#[derive(Clone, Copy, Debug, Eq, PartialEq, Structural)]
pub enum ApprovalRequirement {
    /// The operation may execute without interactive approval (label `None`).
    NotRequired,
    /// The user must explicitly approve.
    User,
    /// An administrator must approve.
    Administrator,
    /// A policy engine must issue an approval decision.
    Policy,
}

/// Display label of an approval requirement.
pub open spec fn approval_label(a: ApprovalRequirement) -> Seq<char> {
    match a {
        ApprovalRequirement::NotRequired => "None"@,
        ApprovalRequirement::User => "User"@,
        ApprovalRequirement::Administrator => "Administrator"@,
        ApprovalRequirement::Policy => "Policy"@,
    }
}

impl ApprovalRequirement {
    /// Return the stable display label.
    pub fn as_str(self) -> (s: &'static str)
        ensures
            s@ == approval_label(self),
    {
        match self {
            ApprovalRequirement::NotRequired => "None",
            ApprovalRequirement::User => "User",
            ApprovalRequirement::Administrator => "Administrator",
            ApprovalRequirement::Policy => "Policy",
        }
    }
}

/// Operation action represented by a plan step.
#[derive(Clone, Debug, Eq, PartialEq)]
pub enum ActionType {
    /// Inspect system health without mutation.
    InspectSystemHealth,
    /// Create one directory at a validated path.
    CreateDirectory {
        /// Directory target.
        path: String,
    },
    /// Remove an empty directory created by a governed operation.
    RemoveDirectory {
        /// Directory target.
        path: String,
    },
    /// Execute a native executable through the governed native boundary.
    NativeCommand {
        /// Executable name.
        command: String,
        /// Arguments passed to the executable.
        args: Vec<String>,
    },
    /// A provider-defined action.
    Capability {
        /// Provider-defined action name.
        name: String,
    },
}

/// The stable label of an action.
pub open spec fn action_label(a: ActionType) -> Seq<char> {
    match a {
        ActionType::InspectSystemHealth => "inspect-system-health"@,
        ActionType::CreateDirectory { path } => "create-directory:"@ + path@,
        ActionType::RemoveDirectory { path } => "remove-directory:"@ + path@,
        ActionType::NativeCommand { command, .. } => "native-command:"@ + command@,
        ActionType::Capability { name } => "capability:"@ + name@,
    }
}

impl ActionType {
    /// Return a stable action label.
    pub fn label(&self) -> (s: String)
        ensures
            s@ == action_label(*self),
    {
        match self {
            ActionType::InspectSystemHealth => String::from_str("inspect-system-health"),
            ActionType::CreateDirectory { path } => concat("create-directory:", path.as_str()),
            ActionType::RemoveDirectory { path } => concat("remove-directory:", path.as_str()),
            ActionType::NativeCommand { command, .. } => concat(
                "native-command:",
                command.as_str(),
            ),
            ActionType::Capability { name } => concat("capability:", name.as_str()),
        }
    }
}

/// One ordered action in an operation plan.
#[derive(Clone, Debug, Eq, PartialEq)]
pub struct OperationStep {
    /// Caller-defined order, stable within a plan.
    pub order: u32,
    /// User-visible explanation of the action.
    pub description: String,
    /// Typed action to be performed.
    pub action: ActionType,
    /// Whether the step can alter system state.
    pub affects_system_state: bool,
}

/// A check that must be evaluated after execution.
#[derive(Clone, Debug, Eq, PartialEq)]
pub struct VerificationCheck {
    /// User-visible check description.
    pub description: String,
    /// Stable check kind.
    pub kind: String,
}

/// Checks that define successful execution before it begins.
#[derive(Clone, Debug, Eq, PartialEq, Default)]
pub struct VerificationPlan {
    /// Ordered postcondition checks.
    pub checks: Vec<VerificationCheck>,
}

/// One rollback action.
#[derive(Clone, Debug, Eq, PartialEq)]
pub struct RollbackStep {
    /// Ordered rollback step number.
    pub order: u32,
    /// User-visible explanation.
    pub description: String,
    /// Typed inverse action.
    pub action: ActionType,
}

/// Rollback capability declared by a plan.
#[derive(Clone, Debug, Eq, PartialEq)]
pub struct RollbackPlan {
    /// Whether rollback is supported for this plan.
    pub supported: bool,
    /// User-visible rollback behavior.
    pub description: String,
    /// Ordered inverse steps.
    pub steps: Vec<RollbackStep>,
}

/// Canonical, inspectable operation plan.
#[derive(Clone, Debug, Eq, PartialEq)]
pub struct OperationPlan {
    /// Stable operation identity.
    pub id: OperationId,
    /// Optional intent context snapshot.
    pub intent: Option<IntentContext>,
    /// Skill or capability that owns execution.
    pub skill: SkillId,
    /// Short summary shown in the terminal.
    pub summary: String,
    /// Rationale shown before approval.
    pub rationale: String,
    /// Declared operation risk.
    pub risk: RiskLevel,
    /// Required approval authority.
    pub approval: ApprovalRequirement,
    /// Ordered execution steps.
    pub steps: Vec<OperationStep>,
    /// Postconditions defined before execution.
    pub verification: VerificationPlan,
    /// Optional rollback declaration.
    pub rollback: Option<RollbackPlan>,
}

/// Whether some step of a plan can alter system state.
pub open spec fn plan_mutates(plan: OperationPlan) -> bool {
    exists|i: int| 0 <= i < plan.steps@.len() && (#[trigger] plan.steps@[i]).affects_system_state
}

/// The first invariant a plan breaks, as the message `validate` reports.
pub open spec fn plan_violation(plan: OperationPlan) -> Option<Seq<char>> {
    if plan.steps@.len() == 0 {
        Some("operation plan requires a step"@)
    } else if plan.verification.checks@.len() == 0 {
        Some("operation plan requires verification checks"@)
    } else if plan_mutates(plan) && plan.risk == RiskLevel::NoRisk {
        Some("mutating plan cannot have None risk"@)
    } else if plan_mutates(plan) && plan.approval == ApprovalRequirement::NotRequired {
        Some("mutating plan requires approval"@)
    } else {
        None
    }
}

/// JSON string literal for a value: quoted, its characters escaped as
/// `json_escape_char` says.
pub open spec fn json_string_spec(s: Seq<char>) -> Seq<char> {
    seq!['"'] + json_escape(s) + seq!['"']
}

/// The lowercase hexadecimal digit of a number below 16.
pub open spec fn hex_digit(n: u32) -> char {
    if n == 0 {
        '0'
    } else if n == 1 {
        '1'
    } else if n == 2 {
        '2'
    } else if n == 3 {
        '3'
    } else if n == 4 {
        '4'
    } else if n == 5 {
        '5'
    } else if n == 6 {
        '6'
    } else if n == 7 {
        '7'
    } else if n == 8 {
        '8'
    } else if n == 9 {
        '9'
    } else if n == 10 {
        'a'
    } else if n == 11 {
        'b'
    } else if n == 12 {
        'c'
    } else if n == 13 {
        'd'
    } else if n == 14 {
        'e'
    } else {
        'f'
    }
}

/// The lowercase hexadecimal digit of a number below 16.
fn hex_digit_of(n: u32) -> (c: char)
    ensures
        c == hex_digit(n),
{
    if n == 0 {
        '0'
    } else if n == 1 {
        '1'
    } else if n == 2 {
        '2'
    } else if n == 3 {
        '3'
    } else if n == 4 {
        '4'
    } else if n == 5 {
        '5'
    } else if n == 6 {
        '6'
    } else if n == 7 {
        '7'
    } else if n == 8 {
        '8'
    } else if n == 9 {
        '9'
    } else if n == 10 {
        'a'
    } else if n == 11 {
        'b'
    } else if n == 12 {
        'c'
    } else if n == 13 {
        'd'
    } else if n == 14 {
        'e'
    } else {
        'f'
    }
}

/// The JSON escaping of a character: backslash and quote are escaped, the
/// line feed, carriage return and tab get their short escapes, every other
/// control character below U+0020 is written `\u00XX`, and anything else
/// stands as it is.
pub open spec fn json_escape_char(c: char) -> Seq<char> {
    if c == '\\' {
        seq!['\\', '\\']
    } else if c == '"' {
        seq!['\\', '"']
    } else if c == '\n' {
        seq!['\\', 'n']
    } else if c == '\r' {
        seq!['\\', 'r']
    } else if c == '\t' {
        seq!['\\', 't']
    } else if (c as u32) < 32 {
        seq!['\\', 'u', '0', '0', hex_digit((c as u32) / 16), hex_digit((c as u32) % 16)]
    } else {
        seq![c]
    }
}

/// The JSON escaping of a sequence.
pub open spec fn json_escape(s: Seq<char>) -> Seq<char>
    decreases s.len(),
{
    if s.len() == 0 {
        Seq::empty()
    } else {
        json_escape(s.drop_last()) + json_escape_char(s.last())
    }
}

/// The value of a hexadecimal digit, in either case; 16 for any other
/// character.
pub open spec fn hex_value(c: char) -> u32 {
    let n = c as u32;
    if 48 <= n && n <= 57 {
        (n - 48) as u32
    } else if 97 <= n && n <= 102 {
        (n - 87) as u32
    } else if 65 <= n && n <= 70 {
        (n - 55) as u32
    } else {
        16
    }
}

/// The character a short JSON escape `\c` stands for.
pub open spec fn json_short_escape(c: char) -> Option<char> {
    if c == '"' {
        Some('"')
    } else if c == '\\' {
        Some('\\')
    } else if c == '/' {
        Some('/')
    } else if c == 'b' {
        Some('\x08')
    } else if c == 'f' {
        Some('\x0c')
    } else if c == 'n' {
        Some('\n')
    } else if c == 'r' {
        Some('\r')
    } else if c == 't' {
        Some('\t')
    } else {
        None
    }
}

/// The code unit of a `\uXXXX` escape whose four hexadecimal digits start at
/// `i`, if they are digits.
pub open spec fn json_unicode_unit(t: Seq<char>, i: int) -> Option<u32> {
    if hex_value(t[i]) < 16 && hex_value(t[i + 1]) < 16 && hex_value(t[i + 2]) < 16 && hex_value(t[i + 3]) < 16 {
        Some(
            (hex_value(t[i]) * 4096 + hex_value(t[i + 1]) * 256 + hex_value(t[i + 2]) * 16 + hex_value(
                t[i + 3],
            )) as u32,
        )
    } else {
        None
    }
}

/// Reading the body of a JSON string literal (RFC 8259, section 7): the
/// characters it stands for, or `None` where the body is not a valid one (a
/// raw quote or control character, or an unknown escape). A `\uXXXX`
/// escape is read when it stands for a character by itself; the surrogate
/// pairs that spell characters beyond U+FFFF are not read.
pub open spec fn json_unescape(t: Seq<char>) -> Option<Seq<char>>
    decreases t.len(),
{
    if t.len() == 0 {
        Some(Seq::empty())
    } else if t[0] == '\\' {
        if t.len() >= 2 && json_short_escape(t[1]) is Some {
            match json_unescape(t.subrange(2, t.len() as int)) {
                Some(r) => Some(seq![json_short_escape(t[1])->0] + r),
                None => None,
            }
        } else if t.len() >= 6 && t[1] == 'u' && json_unicode_unit(t, 2) is Some && (json_unicode_unit(t, 2)->0 < 0xD800
            || json_unicode_unit(t, 2)->0 >= 0xE000) {
            match json_unescape(t.subrange(6, t.len() as int)) {
                Some(r) => Some(seq![(json_unicode_unit(t, 2)->0) as char] + r),
                None => None,
            }
        } else {
            None
        }
    } else if t[0] == '"' || (t[0] as u32) < 32 {
        None
    } else {
        match json_unescape(t.subrange(1, t.len() as int)) {
            Some(r) => Some(seq![t[0]] + r),
            None => None,
        }
    }
}

/// The escaping of a sequence, read from its front.
proof fn lemma_json_escape_front(s: Seq<char>)
    requires
        s.len() > 0,
    ensures
        json_escape(s) == json_escape_char(s[0]) + json_escape(s.subrange(1, s.len() as int)),
    decreases s.len(),
{
    if s.len() == 1 {
        assert(s.drop_last() =~= Seq::<char>::empty());
        assert(s.subrange(1, s.len() as int) =~= Seq::<char>::empty());
        assert(json_escape(Seq::<char>::empty()) =~= Seq::<char>::empty());
        assert(json_escape(s) =~= json_escape_char(s[0]));
    } else {
        let d = s.drop_last();
        lemma_json_escape_front(d);
        let t = s.subrange(1, s.len() as int);
        assert(t.drop_last() =~= d.subrange(1, d.len() as int));
        assert(t.last() == s.last());
        assert(d[0] == s[0]);
        assert(json_escape(s) =~= json_escape_char(s[0]) + json_escape(t));
    }
}

/// A hexadecimal digit reads back as its value.
proof fn lemma_hex_digit_value(n: u32)
    requires
        n < 16,
    ensures
        hex_value(hex_digit(n)) == n,
{
}

/// Reading an escaped character followed by more text gives the character
/// followed by what the rest reads as.
proof fn lemma_json_unescape_char(c: char, rest: Seq<char>)
    ensures
        json_unescape(json_escape_char(c) + rest) == match json_unescape(rest) {
            Some(r) => Some(seq![c] + r),
            None => None::<Seq<char>>,
        },
{
    let t = json_escape_char(c) + rest;
    let k = json_escape_char(c).len();
    assert(t.subrange(k as int, t.len() as int) =~= rest);
    if (c as u32) < 32 && c != '\n' && c != '\r' && c != '\t' {
        let n = c as u32;
        lemma_hex_digit_value(n / 16);
        lemma_hex_digit_value(n % 16);
        assert(t[2] == '0' && t[3] == '0');
        assert(hex_value('0') == 0);
        assert(t[4] == hex_digit(n / 16) && t[5] == hex_digit(n % 16));
        assert(json_unicode_unit(t, 2) == Some((n / 16 * 16 + n % 16) as u32));
        assert(n / 16 * 16 + n % 16 == n);
        assert((n as char) == c);
    }
}

/// Every text read back from its JSON escaping is the text itself: the
/// string literals that `json_string` writes are valid JSON strings that
/// stand for exactly the characters they were made from.
pub proof fn lemma_json_round_trip(s: Seq<char>)
    ensures
        json_unescape(json_escape(s)) == Some(s),
    decreases s.len(),
{
    if s.len() == 0 {
        assert(json_escape(s) =~= Seq::<char>::empty());
    } else {
        let t = s.subrange(1, s.len() as int);
        lemma_json_escape_front(s);
        lemma_json_round_trip(t);
        lemma_json_unescape_char(s[0], json_escape(t));
        assert(seq![s[0]] + t =~= s);
    }
}

/// Text of a boolean as JSON writes it.
pub open spec fn bool_text(b: bool) -> Seq<char> {
    if b {
        "true"@
    } else {
        "false"@
    }
}

/// Elements joined by a separator.
pub open spec fn join(parts: Seq<Seq<char>>, sep: Seq<char>) -> Seq<char>
    decreases parts.len(),
{
    if parts.len() == 0 {
        Seq::empty()
    } else if parts.len() == 1 {
        parts[0]
    } else {
        join(parts.drop_last(), sep) + sep + parts.last()
    }
}

/// JSON object of one plan step.
pub open spec fn step_json(step: OperationStep) -> Seq<char> {
    "{\"order\":"@ + decimal(step.order as nat) + ",\"description\":"@ + json_string_spec(
        step.description@,
    ) + ",\"action\":"@ + json_string_spec(action_label(step.action))
        + ",\"affects_system_state\":"@ + bool_text(step.affects_system_state) + "}"@
}

/// JSON object of one verification check.
pub open spec fn check_json(check: VerificationCheck) -> Seq<char> {
    "{\"description\":"@ + json_string_spec(check.description@) + ",\"kind\":"@
        + json_string_spec(check.kind@) + "}"@
}

/// JSON object of one rollback step.
pub open spec fn rollback_step_json(step: RollbackStep) -> Seq<char> {
    "{\"order\":"@ + decimal(step.order as nat) + ",\"description\":"@ + json_string_spec(
        step.description@,
    ) + ",\"action\":"@ + json_string_spec(action_label(step.action)) + "}"@
}

/// JSON value of the intent context.
pub open spec fn intent_json(intent: Option<IntentContext>) -> Seq<char> {
    match intent {
        None => "null"@,
        Some(i) => "{\"id\":"@ + json_string_spec(i.id@) + ",\"description\":"@
            + json_string_spec(i.description@) + "}"@,
    }
}

/// JSON value of the rollback declaration.
pub open spec fn rollback_json(rollback: Option<RollbackPlan>) -> Seq<char> {
    match rollback {
        None => "null"@,
        Some(r) => "{\"supported\":"@ + bool_text(r.supported) + ",\"description\":"@
            + json_string_spec(r.description@) + ",\"steps\":["@ + join(
            r.steps@.map_values(|s: RollbackStep| rollback_step_json(s)),
            ","@,
        ) + "]}"@,
    }
}

/// The deterministic JSON document of a plan.
pub open spec fn plan_json(plan: OperationPlan) -> Seq<char> {
    "{\"id\":"@ + json_string_spec(plan.id@) + ",\"intent\":"@ + intent_json(plan.intent)
        + ",\"skill\":"@ + json_string_spec(plan.skill@) + ",\"summary\":"@ + json_string_spec(
        plan.summary@,
    ) + ",\"rationale\":"@ + json_string_spec(plan.rationale@) + ",\"risk\":"@
        + json_string_spec(risk_label(plan.risk)) + ",\"approval\":"@ + json_string_spec(
        approval_label(plan.approval),
    ) + ",\"steps\":["@ + join(plan.steps@.map_values(|s: OperationStep| step_json(s)), ","@)
        + "],\"verification\":["@ + join(
        plan.verification.checks@.map_values(|c: VerificationCheck| check_json(c)),
        ","@,
    ) + "],\"rollback\":"@ + rollback_json(plan.rollback) + "}"@
}

/// Joining one more element onto a joined prefix.
pub proof fn lemma_join_push(parts: Seq<Seq<char>>, sep: Seq<char>, x: Seq<char>)
    ensures
        join(parts.push(x), sep) == if parts.len() == 0 {
            x
        } else {
            join(parts, sep) + sep + x
        },
{
    assert(parts.push(x).drop_last() =~= parts);
}

/// Strings joined by a separator.
pub fn join_strings(parts: &Vec<String>, sep: &str) -> (s: String)
    ensures
        s@ == join(crate::text::views(parts@), sep@),
{
    let mut out = String::new();
    let mut i: usize = 0;
    while i < parts.len()
        invariant
            i <= parts@.len(),
            out@ == join(crate::text::views(parts@).subrange(0, i as int), sep@),
        decreases parts@.len() - i,
    {
        let ghost before = crate::text::views(parts@).subrange(0, i as int);
        proof {
            assert(crate::text::views(parts@).subrange(0, i + 1) =~= before.push(parts@[i as int]@));
            lemma_join_push(before, sep@, parts@[i as int]@);
        }
        if i > 0 {
            out.append(sep);
        }
        out.append(parts[i].as_str());
        i = i + 1;
    }
    proof {
        assert(crate::text::views(parts@).subrange(0, parts@.len() as int) =~= crate::text::views(parts@));
    }
    out
}

/// Quoted and escaped JSON string.
pub fn json_string(value: &str) -> (s: String)
    ensures
        s@ == json_string_spec(value@),
{
    let v = to_chars(value);
    let mut out = String::new();
    push_char(&mut out, '"');
    let ghost start = out@;
    let mut i: usize = 0;
    while i < v.len()
        invariant
            v@ == value@,
            i <= v@.len(),
            start == seq!['"'],
            out@ == start + json_escape(v@.subrange(0, i as int)),
        decreases v@.len() - i,
    {
        let c = v[i];
        proof {
            assert(v@.subrange(0, i + 1).drop_last() =~= v@.subrange(0, i as int));
        }
        if c == '\\' {
            push_char(&mut out, '\\');
            push_char(&mut out, '\\');
        } else if c == '"' {
            push_char(&mut out, '\\');
            push_char(&mut out, '"');
        } else if c == '\n' {
            push_char(&mut out, '\\');
            push_char(&mut out, 'n');
        } else if c == '\r' {
            push_char(&mut out, '\\');
            push_char(&mut out, 'r');
        } else if c == '\t' {
            push_char(&mut out, '\\');
            push_char(&mut out, 't');
        } else if (c as u32) < 32 {
            let code = c as u32;
            push_char(&mut out, '\\');
            push_char(&mut out, 'u');
            push_char(&mut out, '0');
            push_char(&mut out, '0');
            push_char(&mut out, hex_digit_of(code / 16));
            push_char(&mut out, hex_digit_of(code % 16));
        } else {
            push_char(&mut out, c);
        }
        proof {
            assert(out@ =~= start + json_escape(v@.subrange(0, i as int)) + json_escape_char(c));
        }
        i = i + 1;
    }
    proof {
        assert(v@.subrange(0, v@.len() as int) =~= v@);
    }
    push_char(&mut out, '"');
    proof {
        assert(out@ =~= json_string_spec(value@));
    }
    out
}

fn bool_json(b: bool) -> (s: &'static str)
    ensures
        s@ == bool_text(b),
{
    if b {
        "true"
    } else {
        "false"
    }
}

fn step_to_json(step: &OperationStep) -> (s: String)
    ensures
        s@ == step_json(*step),
{
    let mut out = String::from_str("{\"order\":");
    out.append(u32_to_string(step.order).as_str());
    out.append(",\"description\":");
    out.append(json_string(step.description.as_str()).as_str());
    out.append(",\"action\":");
    out.append(json_string(step.action.label().as_str()).as_str());
    out.append(",\"affects_system_state\":");
    out.append(bool_json(step.affects_system_state));
    out.append("}");
    out
}

fn check_to_json(check: &VerificationCheck) -> (s: String)
    ensures
        s@ == check_json(*check),
{
    let mut out = String::from_str("{\"description\":");
    out.append(json_string(check.description.as_str()).as_str());
    out.append(",\"kind\":");
    out.append(json_string(check.kind.as_str()).as_str());
    out.append("}");
    out
}

fn rollback_step_to_json(step: &RollbackStep) -> (s: String)
    ensures
        s@ == rollback_step_json(*step),
{
    let mut out = String::from_str("{\"order\":");
    out.append(u32_to_string(step.order).as_str());
    out.append(",\"description\":");
    out.append(json_string(step.description.as_str()).as_str());
    out.append(",\"action\":");
    out.append(json_string(step.action.label().as_str()).as_str());
    out.append("}");
    out
}

fn steps_json(steps: &Vec<OperationStep>) -> (s: String)
    ensures
        s@ == join(steps@.map_values(|x: OperationStep| step_json(x)), ","@),
{
    let ghost parts = steps@.map_values(|x: OperationStep| step_json(x));
    let mut out = String::new();
    let mut i: usize = 0;
    while i < steps.len()
        invariant
            parts == steps@.map_values(|x: OperationStep| step_json(x)),
            i <= steps@.len(),
            out@ == join(parts.subrange(0, i as int), ","@),
        decreases steps@.len() - i,
    {
        proof {
            assert(parts.subrange(0, i + 1) =~= parts.subrange(0, i as int).push(parts[i as int]));
            lemma_join_push(parts.subrange(0, i as int), ","@, parts[i as int]);
        }
        if i > 0 {
            out.append(",");
        }
        out.append(step_to_json(&steps[i]).as_str());
        i = i + 1;
    }
    proof {
        assert(parts.subrange(0, steps@.len() as int) =~= parts);
    }
    out
}

fn checks_json(checks: &Vec<VerificationCheck>) -> (s: String)
    ensures
        s@ == join(checks@.map_values(|x: VerificationCheck| check_json(x)), ","@),
{
    let ghost parts = checks@.map_values(|x: VerificationCheck| check_json(x));
    let mut out = String::new();
    let mut i: usize = 0;
    while i < checks.len()
        invariant
            parts == checks@.map_values(|x: VerificationCheck| check_json(x)),
            i <= checks@.len(),
            out@ == join(parts.subrange(0, i as int), ","@),
        decreases checks@.len() - i,
    {
        proof {
            assert(parts.subrange(0, i + 1) =~= parts.subrange(0, i as int).push(parts[i as int]));
            lemma_join_push(parts.subrange(0, i as int), ","@, parts[i as int]);
        }
        if i > 0 {
            out.append(",");
        }
        out.append(check_to_json(&checks[i]).as_str());
        i = i + 1;
    }
    proof {
        assert(parts.subrange(0, checks@.len() as int) =~= parts);
    }
    out
}

fn rollback_steps_json(steps: &Vec<RollbackStep>) -> (s: String)
    ensures
        s@ == join(steps@.map_values(|x: RollbackStep| rollback_step_json(x)), ","@),
{
    let ghost parts = steps@.map_values(|x: RollbackStep| rollback_step_json(x));
    let mut out = String::new();
    let mut i: usize = 0;
    while i < steps.len()
        invariant
            parts == steps@.map_values(|x: RollbackStep| rollback_step_json(x)),
            i <= steps@.len(),
            out@ == join(parts.subrange(0, i as int), ","@),
        decreases steps@.len() - i,
    {
        proof {
            assert(parts.subrange(0, i + 1) =~= parts.subrange(0, i as int).push(parts[i as int]));
            lemma_join_push(parts.subrange(0, i as int), ","@, parts[i as int]);
        }
        if i > 0 {
            out.append(",");
        }
        out.append(rollback_step_to_json(&steps[i]).as_str());
        i = i + 1;
    }
    proof {
        assert(parts.subrange(0, steps@.len() as int) =~= parts);
    }
    out
}

fn intent_to_json(intent: &Option<IntentContext>) -> (s: String)
    ensures
        s@ == intent_json(*intent),
{
    match intent {
        None => String::from_str("null"),
        Some(i) => {
            let mut out = String::from_str("{\"id\":");
            out.append(json_string(i.id.as_str()).as_str());
            out.append(",\"description\":");
            out.append(json_string(i.description.as_str()).as_str());
            out.append("}");
            out
        },
    }
}

fn rollback_to_json(rollback: &Option<RollbackPlan>) -> (s: String)
    ensures
        s@ == rollback_json(*rollback),
{
    match rollback {
        None => String::from_str("null"),
        Some(r) => {
            let mut out = String::from_str("{\"supported\":");
            out.append(bool_json(r.supported));
            out.append(",\"description\":");
            out.append(json_string(r.description.as_str()).as_str());
            out.append(",\"steps\":[");
            out.append(rollback_steps_json(&r.steps).as_str());
            out.append("]}");
            out
        },
    }
}

impl OperationPlan {
    /// Validate plan invariants before presenting or executing a plan: a plan
    /// needs a step and a verification check, and a plan that changes system
    /// state needs a risk other than `None` and an approval requirement.
    pub fn validate(&self) -> (r: Result<(), OidError>)
        ensures
            match plan_violation(*self) {
                None => r is Ok,
                Some(m) => r matches Err(e) && e@ == OidErrorV::InvalidInput(m),
            },
    {
        if self.steps.len() == 0 {
            return Err(OidError::InvalidInput(String::from_str("operation plan requires a step")));
        }
        if self.verification.checks.len() == 0 {
            return Err(
                OidError::InvalidInput(
                    String::from_str("operation plan requires verification checks"),
                ),
            );
        }
        let mut mutates = false;
        let mut i: usize = 0;
        while i < self.steps.len()
            invariant
                i <= self.steps@.len(),
                mutates == exists|k: int|
                    0 <= k < i && (#[trigger] self.steps@[k]).affects_system_state,
            decreases self.steps@.len() - i,
        {
            if self.steps[i].affects_system_state {
                mutates = true;
            }
            i = i + 1;
        }
        if mutates && self.risk == RiskLevel::NoRisk {
            return Err(
                OidError::InvalidInput(String::from_str("mutating plan cannot have None risk")),
            );
        }
        if mutates && self.approval == ApprovalRequirement::NotRequired {
            return Err(
                OidError::InvalidInput(String::from_str("mutating plan requires approval")),
            );
        }
        Ok(())
    }

    /// Serialize the plan into deterministic JSON; an invalid plan is refused
    /// with the error `validate` gives.
    pub fn to_json(&self) -> (r: Result<String, OidError>)
        ensures
            match plan_violation(*self) {
                None => r matches Ok(s) && s@ == plan_json(*self),
                Some(m) => r matches Err(e) && e@ == OidErrorV::InvalidInput(m),
            },
    {
        match self.validate() {
            Err(e) => {
                return Err(e);
            },
            Ok(()) => {},
        }
        let mut out = String::from_str("{\"id\":");
        out.append(json_string(self.id.as_str()).as_str());
        out.append(",\"intent\":");
        out.append(intent_to_json(&self.intent).as_str());
        out.append(",\"skill\":");
        out.append(json_string(self.skill.as_str()).as_str());
        out.append(",\"summary\":");
        out.append(json_string(self.summary.as_str()).as_str());
        out.append(",\"rationale\":");
        out.append(json_string(self.rationale.as_str()).as_str());
        out.append(",\"risk\":");
        out.append(json_string(self.risk.as_str()).as_str());
        out.append(",\"approval\":");
        out.append(json_string(self.approval.as_str()).as_str());
        out.append(",\"steps\":[");
        out.append(steps_json(&self.steps).as_str());
        out.append("],\"verification\":[");
        out.append(checks_json(&self.verification.checks).as_str());
        out.append("],\"rollback\":");
        out.append(rollback_to_json(&self.rollback).as_str());
        out.append("}");
        Ok(out)
    }
}

/// A plan that has passed approval and is allowed to execute.
#[derive(Clone, Debug, Eq, PartialEq)]
pub struct ApprovedOperationPlan {
    /// The validated plan.
    pub plan: OperationPlan,
    /// Human-readable authority that approved execution.
    pub approved_by: String,
}

impl ApprovedOperationPlan {
    /// Construct an approved plan after validating it; a blank approver is
    /// refused with `InvalidInput("approval authority")`.
    pub fn new(plan: OperationPlan, approved_by: &str) -> (r: Result<Self, OidError>)
        ensures
            match plan_violation(plan) {
                Some(m) => r matches Err(e) && e@ == OidErrorV::InvalidInput(m),
                None => if is_blank(approved_by@) {
                    r matches Err(e) && e@ == OidErrorV::InvalidInput("approval authority"@)
                } else {
                    r matches Ok(a) && a.plan == plan && a.approved_by@ == approved_by@
                },
            },
    {
        match plan.validate() {
            Err(e) => {
                return Err(e);
            },
            Ok(()) => {},
        }
        if str_is_blank(approved_by) {
            return Err(OidError::InvalidInput(String::from_str("approval authority")));
        }
        Ok(ApprovedOperationPlan { plan, approved_by: String::from_str(approved_by) })
    }
}

/// Result produced by an approved execution.
#[derive(Clone, Debug, Eq, PartialEq)]
pub struct ExecutionResult {
    /// Operation that was executed.
    pub operation_id: OperationId,
    /// Human-readable result.
    pub summary: String,
    /// Whether system state changed.
    pub changed: bool,
}

/// Result produced by verification.
#[derive(Clone, Debug, Eq, PartialEq)]
pub struct VerificationResult {
    /// Operation that was verified.
    pub operation_id: OperationId,
    /// Whether all plan checks passed.
    pub passed: bool,
    /// Human-readable result.
    pub summary: String,
}

/// Result produced by rollback.
#[derive(Clone, Debug, Eq, PartialEq)]
pub struct RollbackResult {
    /// Operation whose effects were rolled back.
    pub operation_id: OperationId,
    /// Whether rollback changed the system.
    pub changed: bool,
    /// Human-readable result.
    pub summary: String,
}

} // verus!
