//! The ways in which a marketplace operation can fail.

use vstd::prelude::*;

verus! {

/// Why an operation was refused. Every error is terminal for the operation that
/// produced it, and an operation that fails leaves the ledger as it found it.
#[derive(Debug, Clone, Copy, PartialEq, Eq, Structural)]
pub enum MarketplaceError {
    /// The parameters of the call were malformed.
    ParseParams,
    /// The token has no active listing.
    TokenNotFound,
    /// The caller is not the owner of the system.
    Unauthorized,
    /// The delegated transfer at the external registry failed.
    InvokeContractError,
}

} // verus!
