use vstd::prelude::*;

verus! {

/// The program's error taxonomy, surfaced verbatim to callers. It is kept
/// closed: `AlreadyVerified`, `InvalidProof`, `NotVerified` and
/// `VerificationExpired` are declared for callers, but no current operation
/// raises them.
#[derive(Clone, Copy, Debug, PartialEq, Eq, Structural)]
pub enum NotABotError {
    AlreadyVerified,
    InvalidProof,
    Unauthorized,
    NotVerified,
    SourceTooLong,
    UniqueIdTooLong,
    VerificationExpired,
}

/// How an operation fails: with one of the program's own errors, or with a
/// storage-level failure that the hosting ledger surfaces (a record already
/// present at creation, a record absent on access, or no derivable address).
#[derive(Clone, Copy, Debug, PartialEq, Eq, Structural)]
pub enum ProgramError {
    Custom(NotABotError),
    AccountAlreadyExists,
    AccountNotFound,
    AddressNotDerivable,
}

} // verus!
