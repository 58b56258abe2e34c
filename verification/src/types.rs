//! The vault's data model: identities, derived storage keys, and the two
//! persistent configuration records.

use vstd::prelude::*;

verus! {

/// A 32-byte identity, used both for local account identities and for opaque
/// hub-side addresses.
pub type Address = [u8; 32];

/// Default hub-chain endpoint identifier this vault bridges to.
pub const SONIC_HUB_EID: u32 = 30332;

/// Message kinds of the cross-chain event schema.
#[derive(Clone, Copy, Debug, PartialEq, Eq, Structural)]
pub enum MessageType {
    Deposit,
    Withdraw,
    Swap,
    LinkToken,
    RevertSwap,
}

/// An asset reference in a cross-chain message: a hub-side token address and
/// an amount.
#[derive(Clone, Copy, Debug, PartialEq, Eq)]
pub struct Asset {
    pub token_address: Address,
    pub token_amount: u64,
}

/// Storage-key tag for the vault configuration singleton.
pub const TAG_VAULT_CONFIG: u8 = 1;

/// Storage-key tag for a per-token configuration record.
pub const TAG_TOKEN_CONFIG: u8 = 2;

/// Storage-key tag for a per-token escrow custody account.
pub const TAG_TOKEN_VAULT: u8 = 3;

/// A deterministic storage key: a fixed tag paired with an identity.
///
/// Two keys are equal exactly when both the tag and the identity agree, so a
/// record addressed by such a key can exist at most once per identity — this
/// is what makes duplicate registration structurally impossible.
#[derive(Clone, Copy, Debug, PartialEq, Eq)]
pub struct StorageKey {
    pub tag: u8,
    pub id: Address,
}

/// The key under which the escrow custody account of the token identified by
/// `mint` is stored.
pub open spec fn spec_token_vault_key(mint: Address) -> StorageKey {
    StorageKey { tag: TAG_TOKEN_VAULT, id: mint }
}

/// Derives the deterministic storage key for `id` under `tag`.
pub fn derive_key(tag: u8, id: &Address) -> (k: StorageKey)
    ensures
        k == (StorageKey { tag, id: *id }),
{
    StorageKey { tag, id: *id }
}

/// The vault configuration singleton: one per deployment.
#[derive(Clone, Copy, Debug, PartialEq, Eq)]
pub struct VaultConfig {
    /// Identity permitted to perform administrative actions; never changes
    /// after initialization.
    pub authority: Address,
    /// Identifier of the remote hub ledger this vault bridges to.
    pub hub_eid: u32,
    /// Opaque address of the counterpart module on the hub chain.
    pub hub_address: Address,
    /// Global circuit breaker: while set, all deposits are rejected.
    pub is_paused: bool,
    /// Number of registered tokens; increases by one per registration.
    pub token_count: u32,
}

/// Per-token configuration and escrow ledger entry.
#[derive(Clone, Copy, Debug, PartialEq, Eq)]
pub struct TokenConfig {
    /// Identity of the underlying fungible asset.
    pub mint: Address,
    /// Key of the escrow custody account, derived from the token identity.
    pub vault: StorageKey,
    /// Hub-side representation address of this token.
    pub synthetic_token_address: Address,
    /// Signed adjustment reconciling local and hub decimal precision.
    pub decimals_delta: i8,
    /// Minimum deposit amount accepted.
    pub min_bridge_amount: u64,
    /// Per-token circuit breaker: while set, deposits of this token are
    /// rejected (withdrawals are not gated by it).
    pub is_paused: bool,
    /// Net escrowed balance: committed deposits minus committed withdrawals.
    pub total_deposited: u64,
    /// The token's native decimal precision, captured at registration.
    pub decimals: u8,
}

/// Compares two 32-byte identities.
pub fn addr_eq(a: &Address, b: &Address) -> (r: bool)
    ensures
        r <==> *a == *b,
{
    let mut i: usize = 0;
    while i < 32
        invariant
            i <= 32,
            forall|k: int| 0 <= k < i ==> a[k] == b[k],
        decreases 32 - i,
    {
        if a[i] != b[i] {
            return false;
        }
        i = i + 1;
    }
    proof {
        assert(*a =~= *b);
    }
    true
}

} // verus!
