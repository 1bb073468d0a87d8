//! Error taxonomy of the platform.
//!
//! `ErrorCode` carries every failure that a state transition can report.
//! `EvError` is a reserved taxonomy: its variants are declared for off-chain
//! observers but no in-scope operation ever returns them.

use vstd::prelude::*;

verus! {

/// Reserved error kinds. Declared for completeness of the public surface;
/// no operation of this crate returns them, and none should be invented that
/// would.
#[derive(Clone, Copy, Debug, PartialEq, Eq, Structural)]
pub enum EvError {
    DriverNotFound,
    ChargerNotFound,
}

/// Every failure that a state transition can report. The first error aborts
/// the whole operation; no mutation from that invocation survives.
#[derive(Clone, Copy, Debug, PartialEq, Eq, Structural)]
pub enum ErrorCode {
    /// The driver has not approved platform access for selling points.
    DriverNotActive,
    /// The driver's asset account carries no delegation to the supplied
    /// platform authority. Also reported when no delegation exists at all:
    /// this crate settles the looser "no delegation record" failure on the
    /// declared kind rather than aborting.
    NoDelegation,
    /// The supplied authority account is not the derived platform authority,
    /// or no authority could be derived for the program identity.
    InvalidPlatformAuthority,
    /// The signer is not the identity that the operation requires.
    AuthorizationError,
    /// The singleton registry already exists.
    AlreadyInitialized,
    /// A driver record already exists for this driver identity.
    DuplicateRegistration,
    /// The supplied asset account is not owned by the expected identity.
    OwnerMismatch,
    /// A counter update or the reward multiplication overflowed.
    ArithmeticError,
    /// Propagated verbatim from the asset or payment collaborator:
    /// insufficient balance, insufficient delegated amount, or a balance that
    /// the ledger cannot represent.
    ExternalLedgerError,
}

/// The human-readable message of each error kind.
pub open spec fn spec_message(e: ErrorCode) -> Seq<char> {
    match e {
        ErrorCode::DriverNotActive => "Driver has not approved platform access for selling points"@,
        ErrorCode::NoDelegation => "Driver has not delegated authority to platform"@,
        ErrorCode::InvalidPlatformAuthority => "Invalid platform authority"@,
        ErrorCode::AuthorizationError => "Signer is not authorized for this operation"@,
        ErrorCode::AlreadyInitialized => "Platform registry already initialized"@,
        ErrorCode::DuplicateRegistration => "Driver is already registered"@,
        ErrorCode::OwnerMismatch => "Asset account is not owned by the expected identity"@,
        ErrorCode::ArithmeticError => "Arithmetic overflow"@,
        ErrorCode::ExternalLedgerError => "External ledger rejected the operation"@,
    }
}

impl ErrorCode {
    /// The human-readable message paired with this error kind.
    pub fn message(&self) -> (s: &'static str)
        ensures
            s@ == spec_message(*self),
    {
        match self {
            ErrorCode::DriverNotActive => "Driver has not approved platform access for selling points",
            ErrorCode::NoDelegation => "Driver has not delegated authority to platform",
            ErrorCode::InvalidPlatformAuthority => "Invalid platform authority",
            ErrorCode::AuthorizationError => "Signer is not authorized for this operation",
            ErrorCode::AlreadyInitialized => "Platform registry already initialized",
            ErrorCode::DuplicateRegistration => "Driver is already registered",
            ErrorCode::OwnerMismatch => "Asset account is not owned by the expected identity",
            ErrorCode::ArithmeticError => "Arithmetic overflow",
            ErrorCode::ExternalLedgerError => "External ledger rejected the operation",
        }
    }
}

} // verus!
