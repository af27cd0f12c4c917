//! Shared identifiers, errors and events of the governed-operation contexts.
use vstd::prelude::*;
use crate::text::{is_blank, str_is_blank, concat, concat3};

verus! {

/// Identifier for an intent request: a string that is not empty or blank.
#[derive(Clone, Debug, Eq, Hash, Ord, PartialEq, PartialOrd)]
pub struct IntentId(String);

impl View for IntentId {
    type V = Seq<char>;

    closed spec fn view(&self) -> Seq<char> {
        self.0@
    }
}

impl IntentId {
    /// Construct an identifier from a non-blank value; a blank value is
    /// refused with `InvalidInput("IntentId")`.
    pub fn new(value: &str) -> (r: Result<Self, OidError>)
        ensures
            match r {
                Ok(id) => !is_blank(value@) && id@ == value@,
                Err(e) => is_blank(value@) && e@ == OidErrorV::InvalidInput("IntentId"@),
            },
    {
        if str_is_blank(value) {
            return Err(OidError::InvalidInput(String::from_str("IntentId")));
        }
        Ok(IntentId(String::from_str(value)))
    }

    /// Return the identifier as text.
    pub fn as_str(&self) -> (s: &str)
        ensures
            s@ == self@,
    {
        self.0.as_str()
    }

    /// A copy of the identifier.
    pub fn copy(&self) -> (r: Self)
        ensures
            r == *self,
    {
        IntentId(self.0.clone())
    }

    /// The identifier's text, as `Display` writes it.
    pub fn to_text(&self) -> (s: String)
        ensures
            s@ == self@,
    {
        self.0.clone()
    }
}

/// Identifier for an executable operation: a string that is not empty or blank.
#[derive(Clone, Debug, Eq, Hash, Ord, PartialEq, PartialOrd)]
pub struct OperationId(String);

impl View for OperationId {
    type V = Seq<char>;

    closed spec fn view(&self) -> Seq<char> {
        self.0@
    }
}

impl OperationId {
    /// Construct an identifier from a non-blank value; a blank value is
    /// refused with `InvalidInput("OperationId")`.
    pub fn new(value: &str) -> (r: Result<Self, OidError>)
        ensures
            match r {
                Ok(id) => !is_blank(value@) && id@ == value@,
                Err(e) => is_blank(value@) && e@ == OidErrorV::InvalidInput("OperationId"@),
            },
    {
        if str_is_blank(value) {
            return Err(OidError::InvalidInput(String::from_str("OperationId")));
        }
        Ok(OperationId(String::from_str(value)))
    }

    /// Return the identifier as text.
    pub fn as_str(&self) -> (s: &str)
        ensures
            s@ == self@,
    {
        self.0.as_str()
    }

    /// A copy of the identifier.
    pub fn copy(&self) -> (r: Self)
        ensures
            r == *self,
    {
        OperationId(self.0.clone())
    }

    /// The identifier's text, as `Display` writes it.
    pub fn to_text(&self) -> (s: String)
        ensures
            s@ == self@,
    {
        self.0.clone()
    }
}

/// Identifier for a registered skill: a string that is not empty or blank.
#[derive(Clone, Debug, Eq, Hash, Ord, PartialEq, PartialOrd)]
pub struct SkillId(String);

impl View for SkillId {
    type V = Seq<char>;

    closed spec fn view(&self) -> Seq<char> {
        self.0@
    }
}

impl SkillId {
    /// Construct an identifier from a non-blank value; a blank value is
    /// refused with `InvalidInput("SkillId")`.
    pub fn new(value: &str) -> (r: Result<Self, OidError>)
        ensures
            match r {
                Ok(id) => !is_blank(value@) && id@ == value@,
                Err(e) => is_blank(value@) && e@ == OidErrorV::InvalidInput("SkillId"@),
            },
    {
        if str_is_blank(value) {
            return Err(OidError::InvalidInput(String::from_str("SkillId")));
        }
        Ok(SkillId(String::from_str(value)))
    }

    /// Return the identifier as text.
    pub fn as_str(&self) -> (s: &str)
        ensures
            s@ == self@,
    {
        self.0.as_str()
    }

    /// A copy of the identifier.
    pub fn copy(&self) -> (r: Self)
        ensures
            r == *self,
    {
        SkillId(self.0.clone())
    }

    /// The identifier's text, as `Display` writes it.
    pub fn to_text(&self) -> (s: String)
        ensures
            s@ == self@,
    {
        self.0.clone()
    }
}

/// Identifier for a plugin: a string that is not empty or blank.
#[derive(Clone, Debug, Eq, Hash, Ord, PartialEq, PartialOrd)]
pub struct PluginId(String);

impl View for PluginId {
    type V = Seq<char>;

    closed spec fn view(&self) -> Seq<char> {
        self.0@
    }
}

impl PluginId {
    /// Construct an identifier from a non-blank value; a blank value is
    /// refused with `InvalidInput("PluginId")`.
    pub fn new(value: &str) -> (r: Result<Self, OidError>)
        ensures
            match r {
                Ok(id) => !is_blank(value@) && id@ == value@,
                Err(e) => is_blank(value@) && e@ == OidErrorV::InvalidInput("PluginId"@),
            },
    {
        if str_is_blank(value) {
            return Err(OidError::InvalidInput(String::from_str("PluginId")));
        }
        Ok(PluginId(String::from_str(value)))
    }

    /// Return the identifier as text.
    pub fn as_str(&self) -> (s: &str)
        ensures
            s@ == self@,
    {
        self.0.as_str()
    }

    /// A copy of the identifier.
    pub fn copy(&self) -> (r: Self)
        ensures
            r == *self,
    {
        PluginId(self.0.clone())
    }

    /// The identifier's text, as `Display` writes it.
    pub fn to_text(&self) -> (s: String)
        ensures
            s@ == self@,
    {
        self.0.clone()
    }
}

/// Identifier for an evidence record: a string that is not empty or blank.
#[derive(Clone, Debug, Eq, Hash, Ord, PartialEq, PartialOrd)]
pub struct EvidenceId(String);

impl View for EvidenceId {
    type V = Seq<char>;

    closed spec fn view(&self) -> Seq<char> {
        self.0@
    }
}

impl EvidenceId {
    /// Construct an identifier from a non-blank value; a blank value is
    /// refused with `InvalidInput("EvidenceId")`.
    pub fn new(value: &str) -> (r: Result<Self, OidError>)
        ensures
            match r {
                Ok(id) => !is_blank(value@) && id@ == value@,
                Err(e) => is_blank(value@) && e@ == OidErrorV::InvalidInput("EvidenceId"@),
            },
    {
        if str_is_blank(value) {
            return Err(OidError::InvalidInput(String::from_str("EvidenceId")));
        }
        Ok(EvidenceId(String::from_str(value)))
    }

    /// Return the identifier as text.
    pub fn as_str(&self) -> (s: &str)
        ensures
            s@ == self@,
    {
        self.0.as_str()
    }

    /// A copy of the identifier.
    pub fn copy(&self) -> (r: Self)
        ensures
            r == *self,
    {
        EvidenceId(self.0.clone())
    }

    /// The identifier's text, as `Display` writes it.
    pub fn to_text(&self) -> (s: String)
        ensures
            s@ == self@,
    {
        self.0.clone()
    }
}

/// Abstract value of an [`OidError`].
pub enum OidErrorV {
    InvalidInput(Seq<char>),
    InvalidTransition { from: Seq<char>, to: Seq<char> },
    Unauthorized(Seq<char>),
    ApprovalRequired(Seq<char>),
    NotFound(Seq<char>),
    Execution(Seq<char>),
    Verification(Seq<char>),
    Evidence(Seq<char>),
}

/// Errors shared across the bounded contexts.
#[derive(Clone, Debug, Eq, PartialEq)]
pub enum OidError {
    /// A required input was empty or malformed.
    InvalidInput(String),
    /// A state transition is not allowed.
    InvalidTransition {
        /// State being exited.
        from: String,
        /// State being entered.
        to: String,
    },
    /// An operation was denied by policy.
    Unauthorized(String),
    /// An explicit approval is required before proceeding.
    ApprovalRequired(String),
    /// A requested item does not exist.
    NotFound(String),
    /// An operation failed during execution.
    Execution(String),
    /// Post-operation verification failed.
    Verification(String),
    /// Evidence could not be recorded.
    Evidence(String),
}

impl View for OidError {
    type V = OidErrorV;

    open spec fn view(&self) -> OidErrorV {
        match self {
            OidError::InvalidInput(v) => OidErrorV::InvalidInput(v@),
            OidError::InvalidTransition { from, to } => OidErrorV::InvalidTransition {
                from: from@,
                to: to@,
            },
            OidError::Unauthorized(v) => OidErrorV::Unauthorized(v@),
            OidError::ApprovalRequired(v) => OidErrorV::ApprovalRequired(v@),
            OidError::NotFound(v) => OidErrorV::NotFound(v@),
            OidError::Execution(v) => OidErrorV::Execution(v@),
            OidError::Verification(v) => OidErrorV::Verification(v@),
            OidError::Evidence(v) => OidErrorV::Evidence(v@),
        }
    }
}

/// The message `Display` writes for an error.
pub open spec fn error_text(e: OidErrorV) -> Seq<char> {
    match e {
        OidErrorV::InvalidInput(v) => "invalid input: "@ + v,
        OidErrorV::InvalidTransition { from, to } => "invalid transition: "@ + from + " -> "@ + to,
        OidErrorV::Unauthorized(v) => "unauthorized: "@ + v,
        OidErrorV::ApprovalRequired(v) => "approval required: "@ + v,
        OidErrorV::NotFound(v) => "not found: "@ + v,
        OidErrorV::Execution(v) => "execution failed: "@ + v,
        OidErrorV::Verification(v) => "verification failed: "@ + v,
        OidErrorV::Evidence(v) => "evidence failure: "@ + v,
    }
}

impl OidError {
    /// The user-facing message of the error.
    pub fn to_text(&self) -> (s: String)
        ensures
            s@ == error_text(self@),
    {
        match self {
            OidError::InvalidInput(v) => concat("invalid input: ", v.as_str()),
            OidError::InvalidTransition { from, to } => {
                let a = concat3("invalid transition: ", from.as_str(), " -> ");
                concat(a.as_str(), to.as_str())
            },
            OidError::Unauthorized(v) => concat("unauthorized: ", v.as_str()),
            OidError::ApprovalRequired(v) => concat("approval required: ", v.as_str()),
            OidError::NotFound(v) => concat("not found: ", v.as_str()),
            OidError::Execution(v) => concat("execution failed: ", v.as_str()),
            OidError::Verification(v) => concat("verification failed: ", v.as_str()),
            OidError::Evidence(v) => concat("evidence failure: ", v.as_str()),
        }
    }
}

/// A platform-neutral event emitted by a bounded context.
#[derive(Clone, Debug, Eq, PartialEq)]
pub enum FoundationEvent {
    /// An intent changed lifecycle state.
    IntentStateChanged {
        /// Intent whose state changed.
        intent_id: IntentId,
        /// New state label.
        state: String,
    },
    /// An operation requires an approval decision.
    ApprovalRequested {
        /// Operation awaiting approval.
        operation_id: OperationId,
    },
    /// An operation produced a result.
    OperationCompleted {
        /// Operation that completed.
        operation_id: OperationId,
    },
    /// An evidence record was appended.
    EvidenceRecorded {
        /// Evidence record that was written.
        evidence_id: EvidenceId,
    },
}

/// Returns the name of the shared foundation layer.
pub fn crate_name() -> (s: &'static str)
    ensures
        s@ == "common"@,
{
    "common"
}

} // verus!
