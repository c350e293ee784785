//! Errors that may be returned by the program.
//!
//! Every check the processor makes is local and immediate: the first failing
//! precondition aborts the whole invocation, and the caller receives the
//! specific kind so it can tell a client bug from a lost race.

use vstd::prelude::*;

verus! {

/// Errors that may be returned by the program.
#[derive(Clone, Copy, Debug, PartialEq, Eq, Structural)]
pub enum InstantMessagingError {
    /// A supplied account address does not equal its re-derived expected address.
    AddressDerivationMismatch,
    /// The target storage slot is non-empty although creation was requested.
    AlreadyInitialized,
    /// A referenced dependency account is empty although it should already exist.
    UninitializedAccount,
    /// A referenced account is not owned by this program.
    IncorrectOwner,
    /// The signer has no recorded link to the conversation it writes into.
    MembershipViolation,
    /// A required signer did not sign the invocation.
    MissingSignature,
    /// The rent or clock account key is not the genuine system singleton.
    InvalidSystemReference,
    /// The instruction payload or account bytes do not parse as the expected schema.
    DecodeFailure,
    /// The host rejected storage creation.
    AllocationFailure,
}

impl InstantMessagingError {
    /// The flat numeric code under which the error crosses the host boundary.
    pub fn error_code(&self) -> (code: u32)
        ensures
            code == self.spec_error_code(),
    {
        match self {
            InstantMessagingError::AddressDerivationMismatch => 0,
            InstantMessagingError::AlreadyInitialized => 1,
            InstantMessagingError::UninitializedAccount => 2,
            InstantMessagingError::IncorrectOwner => 3,
            InstantMessagingError::MembershipViolation => 4,
            InstantMessagingError::MissingSignature => 5,
            InstantMessagingError::InvalidSystemReference => 6,
            InstantMessagingError::DecodeFailure => 7,
            InstantMessagingError::AllocationFailure => 8,
        }
    }

    /// The label under which this family of errors is reported.
    pub fn type_of() -> (r: &'static str)
        ensures
            r@ == "Instant Messaging Error"@,
    {
        "Instant Messaging Error"
    }

    /// The numeric code of each error kind, in declaration order.
    pub open spec fn spec_error_code(&self) -> u32 {
        match self {
            InstantMessagingError::AddressDerivationMismatch => 0,
            InstantMessagingError::AlreadyInitialized => 1,
            InstantMessagingError::UninitializedAccount => 2,
            InstantMessagingError::IncorrectOwner => 3,
            InstantMessagingError::MembershipViolation => 4,
            InstantMessagingError::MissingSignature => 5,
            InstantMessagingError::InvalidSystemReference => 6,
            InstantMessagingError::DecodeFailure => 7,
            InstantMessagingError::AllocationFailure => 8,
        }
    }
}

} // verus!
