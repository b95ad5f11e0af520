//! The authorization gate.  Authorization is process-wide state owned by the
//! operating system and may change between calls, so every gated operation
//! re-checks the current status before contacting the store; a denied or
//! restricted status fails the operation without any store interaction.

use vstd::prelude::*;
use crate::errors::EventKitError;
use crate::types::AuthorizationStatus;

verus! {

/// What a gated operation must do after observing the authorization status.
#[derive(Debug, PartialEq, Eq)]
pub enum AuthDecision {
    /// Access suffices; perform the operation.
    Proceed,
    /// No choice was made yet; request access and wait for the grant.
    Request,
    /// Access is missing; fail with this error without touching the store.
    Fail(EventKitError),
}

/// The verdict on each authorization status: full and write-only access
/// proceed, an undetermined status asks for access, and a denied or
/// restricted status fails at once.
pub open spec fn spec_authorization_gate(status: AuthorizationStatus) -> AuthDecision {
    match status {
        AuthorizationStatus::FullAccess => AuthDecision::Proceed,
        AuthorizationStatus::WriteOnly => AuthDecision::Proceed,
        AuthorizationStatus::NotDetermined => AuthDecision::Request,
        AuthorizationStatus::Denied => AuthDecision::Fail(EventKitError::AuthorizationDenied),
        AuthorizationStatus::Restricted => AuthDecision::Fail(
            EventKitError::AuthorizationRestricted,
        ),
    }
}

/// Decides from the current authorization status whether an operation may
/// proceed, must first request access, or fails.
pub fn authorization_gate(status: AuthorizationStatus) -> (d: AuthDecision)
    ensures
        d == spec_authorization_gate(status),
{
    match status {
        AuthorizationStatus::FullAccess => AuthDecision::Proceed,
        AuthorizationStatus::WriteOnly => AuthDecision::Proceed,
        AuthorizationStatus::NotDetermined => AuthDecision::Request,
        AuthorizationStatus::Denied => AuthDecision::Fail(EventKitError::AuthorizationDenied),
        AuthorizationStatus::Restricted => AuthDecision::Fail(
            EventKitError::AuthorizationRestricted,
        ),
    }
}

/// Decides the outcome of a completed access request.  An explicit error
/// from the store outweighs the grant flag; a grant without error proceeds;
/// a refusal without error is an authorization denial.
pub fn grant_gate(granted: bool, error: Option<String>) -> (r: Result<(), EventKitError>)
    ensures
        error matches Some(d) ==> (r matches Err(e)
            && e matches EventKitError::AuthorizationRequestFailed(m) && m@ == d@),
        error is None && granted ==> r is Ok,
        error is None && !granted ==> r == Err::<(), EventKitError>(
            EventKitError::AuthorizationDenied,
        ),
{
    match error {
        Some(detail) => Err(EventKitError::AuthorizationRequestFailed(detail)),
        None => {
            if granted {
                Ok(())
            } else {
                Err(EventKitError::AuthorizationDenied)
            }
        },
    }
}

} // verus!
