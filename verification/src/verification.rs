//! Post-operation verification contracts.
use vstd::prelude::*;
use crate::common::{OidError, OperationId};
use crate::opset::OperationSet;

verus! {

/// Result of checking an operation's postconditions.
#[derive(Clone, Debug, Eq, PartialEq)]
pub struct VerificationReport {
    /// Operation that was checked.
    pub operation_id: OperationId,
    /// Whether all required checks passed.
    pub passed: bool,
    /// Human-readable check summary.
    pub summary: String,
    /// Whether rollback should be attempted.
    pub rollback_required: bool,
}

/// Post-operation verification boundary.
pub trait Verifier {
    /// Validate postconditions without changing system state.
    fn verify(&self, operation_id: &OperationId) -> Result<VerificationReport, OidError>;

    /// Validate that a rollback restored the expected state.
    fn verify_rollback(&self, operation_id: &OperationId) -> Result<VerificationReport, OidError>;
}

/// Deterministic verifier used by read-only operations and contract tests:
/// an operation passes when it was marked successful.
#[derive(Debug)]
pub struct InMemoryVerifier {
    successful: OperationSet,
}

impl InMemoryVerifier {
    /// The operations marked successful.
    pub closed spec fn successful(self) -> Set<Seq<char>> {
        self.successful.members()
    }

    /// A verifier that knows of no operation.
    pub fn new() -> (r: Self)
        ensures
            r.successful() == Set::<Seq<char>>::empty(),
    {
        InMemoryVerifier { successful: OperationSet::new() }
    }

    /// Mark an operation as having produced a result that can be verified.
    pub fn mark_successful(&mut self, operation_id: OperationId)
        ensures
            final(self).successful() == old(self).successful().insert(operation_id@),
    {
        self.successful.insert(operation_id);
    }
}

impl Default for InMemoryVerifier {
    fn default() -> (r: Self)
        ensures
            r.successful() == Set::<Seq<char>>::empty(),
    {
        InMemoryVerifier::new()
    }
}

impl Verifier for InMemoryVerifier {
    /// Passes exactly the operations marked successful, with the summary
    /// "postconditions passed", and otherwise reports "operation was not
    /// recorded"; never asks for rollback.
    fn verify(&self, operation_id: &OperationId) -> (r: Result<VerificationReport, OidError>)
        ensures
            r matches Ok(report) && {
                &&& report.operation_id == *operation_id
                &&& report.passed == self.successful().contains(operation_id@)
                &&& report.summary@ == (if report.passed { "postconditions passed"@ } else {
                    "operation was not recorded"@
                })
                &&& !report.rollback_required
            },
    {
        let passed = self.successful.contains(operation_id);
        let summary = if passed {
            String::from_str("postconditions passed")
        } else {
            String::from_str("operation was not recorded")
        };
        Ok(VerificationReport { operation_id: operation_id.copy(), passed, summary, rollback_required: false })
    }

    /// A read-only operation has nothing to roll back: the report never passes.
    fn verify_rollback(&self, operation_id: &OperationId) -> (r: Result<VerificationReport, OidError>)
        ensures
            r matches Ok(report) && {
                &&& report.operation_id == *operation_id
                &&& !report.passed
                &&& report.summary@ == "rollback is not applicable to this read-only operation"@
                &&& !report.rollback_required
            },
    {
        Ok(
            VerificationReport {
                operation_id: operation_id.copy(),
                passed: false,
                summary: String::from_str("rollback is not applicable to this read-only operation"),
                rollback_required: false,
            },
        )
    }
}

/// Identifies the verification boundary.
pub fn boundary_name() -> (s: &'static str)
    ensures
        s@ == "verification-engine"@,
{
    "verification-engine"
}

} // verus!
