//! The error taxonomy of the engine.

use vstd::prelude::*;

verus! {

/// Why an operation of the engine was refused or failed.
///
/// Verification and precondition failures abort before any storage
/// mutation; resolution failures abort the enclosing operation; delivery
/// failures are isolated per destination and never fail the overall send.
#[derive(Clone, Copy, Debug, PartialEq, Eq, Structural)]
pub enum FedError {
    /// An activity or object was structurally malformed.
    Malformed,
    /// Two identifiers that must share a domain do not.
    DomainMismatch,
    /// A remote lookup failed (network or parse failure).
    ResolutionError,
    /// A resolution chain hit the recursion bound before completing.
    FetchBudgetExhausted,
    /// The activity's actor could not be resolved.
    UnknownActor,
    /// The referenced entity does not exist locally.
    NotFound,
    /// The acting user is banned from the entity's context.
    Banned,
    /// An actor other than the recorded creator tried to edit an entity.
    EditNotAllowed,
    /// The containing context is deleted or removed.
    ContextUnavailable,
    /// A delivery to one destination inbox failed.
    DeliveryError,
}

impl FedError {
    /// A short machine-readable tag for the error, for callers that log
    /// or report it.
    pub fn tag(&self) -> (r: &'static str)
        ensures
            *self is Malformed ==> r@ == "malformed"@,
            *self is DomainMismatch ==> r@ == "domain_mismatch"@,
            *self is ResolutionError ==> r@ == "resolution_error"@,
            *self is FetchBudgetExhausted ==> r@ == "fetch_budget_exhausted"@,
            *self is UnknownActor ==> r@ == "unknown_actor"@,
            *self is NotFound ==> r@ == "not_found"@,
            *self is Banned ==> r@ == "banned"@,
            *self is EditNotAllowed ==> r@ == "no_comment_edit_allowed"@,
            *self is ContextUnavailable ==> r@ == "context_unavailable"@,
            *self is DeliveryError ==> r@ == "delivery_error"@,
    {
        match self {
            FedError::Malformed => "malformed",
            FedError::DomainMismatch => "domain_mismatch",
            FedError::ResolutionError => "resolution_error",
            FedError::FetchBudgetExhausted => "fetch_budget_exhausted",
            FedError::UnknownActor => "unknown_actor",
            FedError::NotFound => "not_found",
            FedError::Banned => "banned",
            FedError::EditNotAllowed => "no_comment_edit_allowed",
            FedError::ContextUnavailable => "context_unavailable",
            FedError::DeliveryError => "delivery_error",
        }
    }
}

} // verus!
