//! Compensating transactions across stores that share no transaction.
//!
//! When a write succeeds and a dependent write then fails, the first write is
//! undone by a best-effort compensating write.  That step has three outcomes,
//! and the third — compensation itself failed — is genuine data inconsistency
//! that must surface loudly for out-of-band reconciliation, never be
//! swallowed.

use crate::error::{ErrorKind, ServiceError};
use vstd::prelude::*;

verus! {

/// The three outcomes of a saga step.
#[derive(Clone, Copy, Debug, PartialEq, Eq, Structural)]
pub enum SagaOutcome {
    /// Every write landed.
    Committed,
    /// A write failed and the compensating write undid the earlier one.
    Compensated,
    /// A write failed and so did the compensation: the stores disagree.
    Inconsistent,
}

/// Classify a saga step from the fate of its primary write and, where that
/// failed, the fate of the compensating write.
pub fn settle(primary_ok: bool, compensation_ok: bool) -> (r: SagaOutcome)
    ensures
        primary_ok ==> r == SagaOutcome::Committed,
        !primary_ok && compensation_ok ==> r == SagaOutcome::Compensated,
        !primary_ok && !compensation_ok ==> r == SagaOutcome::Inconsistent,
{
    if primary_ok {
        SagaOutcome::Committed
    } else if compensation_ok {
        SagaOutcome::Compensated
    } else {
        SagaOutcome::Inconsistent
    }
}

/// The error to surface after a failed follow-up write: if the compensating
/// write succeeded, the original error as it was; if it failed too, a
/// distinct fatal internal error — a compensation failure is never
/// downgraded or swallowed.
pub fn compensation_error(original: ServiceError, compensation_ok: bool) -> (r: ServiceError)
    ensures
        compensation_ok ==> r == original,
        !compensation_ok ==> r.kind == ErrorKind::Internal,
{
    if compensation_ok {
        original
    } else {
        ServiceError::internal_server_error("compensating write failed: stores are inconsistent")
    }
}

} // verus!
