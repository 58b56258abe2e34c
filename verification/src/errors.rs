//! The vault's error taxonomy.

use vstd::prelude::*;

verus! {

/// Everything a vault operation can fail with.
///
/// Validation errors (`AmountTooSmall`, `TokenPaused`, `VaultPaused`) are
/// raised before any state mutation and are recoverable by adjusting the
/// input or retrying later. Arithmetic errors (`Overflow`, `Underflow`) mean
/// the escrow accumulator's bounds would be violated; they are never silently
/// clamped. `Unauthorized` means the caller is not the vault authority.
/// The rest are creation/lookup failures on the persistent records.
#[derive(Clone, Copy, Debug, PartialEq, Eq, Structural)]
pub enum GatewayError {
    /// Deposit amount is below the token's minimum bridge amount.
    AmountTooSmall,
    /// The token's own circuit breaker is engaged.
    TokenPaused,
    /// The vault-wide circuit breaker is engaged.
    VaultPaused,
    /// Adding the amount would overflow the escrow accumulator.
    Overflow,
    /// Subtracting the amount would underflow the escrow accumulator.
    Underflow,
    /// The caller is not the vault's registered authority.
    Unauthorized,
    /// The vault configuration record does not exist yet.
    NotInitialized,
    /// The vault configuration record already exists.
    AlreadyInitialized,
    /// A token configuration already exists for this token identity.
    AlreadyRegistered,
    /// No token configuration exists for this token identity.
    TokenNotFound,
}

} // verus!
