use vstd::prelude::*;

verus! {

/// The error kinds an operation can report. Every failure aborts the whole
/// operation and leaves all balances and registry fields unchanged; the kind
/// is surfaced verbatim so callers can branch on cause.
#[derive(Clone, Copy, Debug, PartialEq, Eq, Structural)]
pub enum SolTokenManagerError {
    /// The caller of a privileged operation is not the registered admin.
    Unauthorized,
    /// The requested amount exceeds the moving account's available balance.
    InsufficientBalance,
    /// The external venue cannot fill at or above the caller's floor.
    SlippageExceeded,
    /// The referenced venue-state accounts are mismatched or malformed.
    InvalidVenueState,
    /// `initialize` was called against an existing registry.
    AlreadyInitialized,
    /// No valid derivation nonce exists for the vault label (a one-time
    /// initialization concern; statistically improbable).
    DerivationFailed,
}

} // verus!
