//! The mathematical model of the vault: its abstract state, the
//! well-formedness invariant every operation preserves, and the transition
//! functions the executable operations are proved against.

use vstd::prelude::*;

use crate::errors::GatewayError;
use crate::events::DepositEvent;
use crate::events::VaultEvent;
use crate::events::WithdrawEvent;
use crate::events::deposited_for;
use crate::events::event_token;
use crate::events::withdrawn_for;
use crate::types::Address;
use crate::types::MessageType;
use crate::types::TokenConfig;
use crate::types::VaultConfig;
use crate::types::spec_token_vault_key;

verus! {

/// Abstract state of a vault: the configuration singleton (absent until
/// initialization), the token registry in registration order, and the
/// outbound notification log in emission order.
#[verifier::ext_equal]
pub struct VaultModel {
    pub config: Option<VaultConfig>,
    pub tokens: Seq<TokenConfig>,
    pub events: Seq<VaultEvent>,
}

/// Whether a token with identity `mint` is registered.
pub open spec fn token_registered(tokens: Seq<TokenConfig>, mint: Address) -> bool {
    exists|i: int| 0 <= i < tokens.len() && (#[trigger] tokens[i]).mint == mint
}

/// The registry index of the token with identity `mint`; meaningful only
/// when the token is registered (under uniqueness of identities it is then
/// the one matching index).
pub open spec fn token_index(tokens: Seq<TokenConfig>, mint: Address) -> int {
    choose|i: int| 0 <= i < tokens.len() && (#[trigger] tokens[i]).mint == mint
}

/// No two registry entries share a token identity.
pub open spec fn identities_unique(tokens: Seq<TokenConfig>) -> bool {
    forall|i: int, j: int|
        0 <= i < j < tokens.len() ==> (#[trigger] tokens[i]).mint != (#[trigger] tokens[j]).mint
}

/// Each event carries the message kind of its own variant.
pub open spec fn event_tagged(e: VaultEvent) -> bool {
    match e {
        VaultEvent::Deposit(d) => d.message_type == MessageType::Deposit,
        VaultEvent::Withdraw(w) => w.message_type == MessageType::Withdraw,
    }
}

impl VaultModel {
    /// The vault with no configuration, no registered tokens, and an empty
    /// notification log.
    pub open spec fn empty() -> VaultModel {
        VaultModel { config: None, tokens: Seq::empty(), events: Seq::empty() }
    }

    /// Well-formedness: the invariant established by `empty` and preserved
    /// by every operation.
    ///
    /// Its heart is ledger conservation: each registered token's
    /// `total_deposited` equals the sum of its committed deposit amounts
    /// minus the sum of its committed withdrawal amounts over the
    /// notification log.
    pub open spec fn wf(self) -> bool {
        &&& (self.config is None ==> self.tokens.len() == 0 && self.events.len() == 0)
        &&& (self.config matches Some(c) ==> c.token_count as int == self.tokens.len() as int)
        &&& identities_unique(self.tokens)
        &&& (forall|i: int|
            0 <= i < self.tokens.len() ==> (#[trigger] self.tokens[i]).vault
                == spec_token_vault_key(self.tokens[i].mint))
        &&& (forall|i: int|
            0 <= i < self.tokens.len() ==> (#[trigger] self.tokens[i]).total_deposited as int
                == deposited_for(self.events, self.tokens[i].mint) - withdrawn_for(
                self.events,
                self.tokens[i].mint,
            ))
        &&& (forall|k: int|
            0 <= k < self.events.len() ==> token_registered(
                self.tokens,
                event_token(#[trigger] self.events[k]),
            ))
        &&& (forall|k: int| 0 <= k < self.events.len() ==> event_tagged(#[trigger] self.events[k]))
    }

    /// The registry entry of the token with identity `mint`.
    pub open spec fn token(self, mint: Address) -> TokenConfig {
        self.tokens[token_index(self.tokens, mint)]
    }
}

/// Under uniqueness of identities, any index holding `mint` is the one
/// `token_index` denotes.
pub proof fn lemma_index_agrees(tokens: Seq<TokenConfig>, mint: Address, i: int)
    requires
        identities_unique(tokens),
        0 <= i < tokens.len(),
        tokens[i].mint == mint,
    ensures
        token_registered(tokens, mint),
        token_index(tokens, mint) == i,
{
    assert(token_registered(tokens, mint));
    let j = token_index(tokens, mint);
    if i < j {
        assert(tokens[i].mint != tokens[j].mint);
    } else if j < i {
        assert(tokens[j].mint != tokens[i].mint);
    }
}

/// Outcome of `initialize`: rejected exactly when the configuration
/// singleton already exists.
pub open spec fn spec_initialize_result(m: VaultModel) -> Result<(), GatewayError> {
    if m.config is Some {
        Err(GatewayError::AlreadyInitialized)
    } else {
        Ok(())
    }
}

/// State after a successful `initialize`: the caller becomes the authority,
/// the vault starts unpaused with no tokens registered.
pub open spec fn spec_initialize_apply(
    m: VaultModel,
    hub_eid: u32,
    hub_address: Address,
    caller: Address,
) -> VaultModel {
    VaultModel {
        config: Some(
            VaultConfig {
                authority: caller,
                hub_eid,
                hub_address,
                is_paused: false,
                token_count: 0,
            },
        ),
        tokens: m.tokens,
        events: m.events,
    }
}

/// Outcome of `register_token`, checks in order: the vault must be
/// initialized, the caller must be the authority, and the token identity
/// must not be registered yet.
pub open spec fn spec_register_token_result(
    m: VaultModel,
    mint: Address,
    caller: Address,
) -> Result<(), GatewayError> {
    if m.config is None {
        Err(GatewayError::NotInitialized)
    } else if m.config->Some_0.authority != caller {
        Err(GatewayError::Unauthorized)
    } else if token_registered(m.tokens, mint) {
        Err(GatewayError::AlreadyRegistered)
    } else {
        Ok(())
    }
}

/// State after a successful `register_token`: a fresh registry entry with an
/// empty escrow ledger and the token's precision captured, and the token
/// count one higher.
pub open spec fn spec_register_token_apply(
    m: VaultModel,
    mint: Address,
    synthetic_token_address: Address,
    decimals_delta: i8,
    min_bridge_amount: u64,
    decimals: u8,
) -> VaultModel {
    let c = m.config->Some_0;
    VaultModel {
        config: Some(
            VaultConfig {
                authority: c.authority,
                hub_eid: c.hub_eid,
                hub_address: c.hub_address,
                is_paused: c.is_paused,
                token_count: (c.token_count + 1) as u32,
            },
        ),
        tokens: m.tokens.push(
            TokenConfig {
                mint,
                vault: spec_token_vault_key(mint),
                synthetic_token_address,
                decimals_delta,
                min_bridge_amount,
                is_paused: false,
                total_deposited: 0,
                decimals,
            },
        ),
        events: m.events,
    }
}

/// Outcome of `deposit`, checks in order: the records must exist, then the
/// amount must reach the token's minimum, neither the token nor the vault
/// may be paused, and the escrow accumulator must not overflow.
pub open spec fn spec_deposit_result(
    m: VaultModel,
    mint: Address,
    amount: u64,
) -> Result<(), GatewayError> {
    if m.config is None {
        Err(GatewayError::NotInitialized)
    } else if !token_registered(m.tokens, mint) {
        Err(GatewayError::TokenNotFound)
    } else {
        let t = m.token(mint);
        if amount < t.min_bridge_amount {
            Err(GatewayError::AmountTooSmall)
        } else if t.is_paused {
            Err(GatewayError::TokenPaused)
        } else if m.config->Some_0.is_paused {
            Err(GatewayError::VaultPaused)
        } else if t.total_deposited + amount > u64::MAX {
            Err(GatewayError::Overflow)
        } else {
            Ok(())
        }
    }
}

/// State after a successful `deposit`: the token's escrow accumulator grows
/// by the amount and a deposit record is appended to the log.
pub open spec fn spec_deposit_apply(
    m: VaultModel,
    mint: Address,
    amount: u64,
    recipient: Address,
    depositor: Address,
    now: i64,
) -> VaultModel {
    let i = token_index(m.tokens, mint);
    let t = m.tokens[i];
    let e = DepositEvent {
        message_type: MessageType::Deposit,
        user: depositor,
        recipient,
        token: mint,
        synthetic_token: t.synthetic_token_address,
        amount,
        hub_eid: m.config->Some_0.hub_eid,
        timestamp: now,
    };
    VaultModel {
        config: m.config,
        tokens: m.tokens.update(
            i,
            TokenConfig {
                mint: t.mint,
                vault: t.vault,
                synthetic_token_address: t.synthetic_token_address,
                decimals_delta: t.decimals_delta,
                min_bridge_amount: t.min_bridge_amount,
                is_paused: t.is_paused,
                total_deposited: (t.total_deposited + amount) as u64,
                decimals: t.decimals,
            },
        ),
        events: m.events.push(VaultEvent::Deposit(e)),
    }
}

/// Outcome of `withdraw`, checks in order: the records must exist, the
/// caller must be the authority, and the amount must not exceed the token's
/// escrow accumulator. Withdrawal is deliberately not gated by either pause
/// flag: pausing blocks new escrow inflow, not authority-mediated release.
pub open spec fn spec_withdraw_result(
    m: VaultModel,
    mint: Address,
    amount: u64,
    caller: Address,
) -> Result<(), GatewayError> {
    if m.config is None {
        Err(GatewayError::NotInitialized)
    } else if m.config->Some_0.authority != caller {
        Err(GatewayError::Unauthorized)
    } else if !token_registered(m.tokens, mint) {
        Err(GatewayError::TokenNotFound)
    } else if amount > m.token(mint).total_deposited {
        Err(GatewayError::Underflow)
    } else {
        Ok(())
    }
}

/// State after a successful `withdraw`: the token's escrow accumulator
/// shrinks by the amount and a withdrawal record is appended to the log.
pub open spec fn spec_withdraw_apply(
    m: VaultModel,
    mint: Address,
    amount: u64,
    recipient: Address,
    now: i64,
) -> VaultModel {
    let i = token_index(m.tokens, mint);
    let t = m.tokens[i];
    let e = WithdrawEvent {
        message_type: MessageType::Withdraw,
        recipient,
        token: mint,
        amount,
        timestamp: now,
    };
    VaultModel {
        config: m.config,
        tokens: m.tokens.update(
            i,
            TokenConfig {
                mint: t.mint,
                vault: t.vault,
                synthetic_token_address: t.synthetic_token_address,
                decimals_delta: t.decimals_delta,
                min_bridge_amount: t.min_bridge_amount,
                is_paused: t.is_paused,
                total_deposited: (t.total_deposited - amount) as u64,
                decimals: t.decimals,
            },
        ),
        events: m.events.push(VaultEvent::Withdraw(e)),
    }
}

/// Outcome of `set_token_pause`: the vault must be initialized, the caller
/// must be the authority, and the token must be registered.
pub open spec fn spec_set_token_pause_result(
    m: VaultModel,
    mint: Address,
    caller: Address,
) -> Result<(), GatewayError> {
    if m.config is None {
        Err(GatewayError::NotInitialized)
    } else if m.config->Some_0.authority != caller {
        Err(GatewayError::Unauthorized)
    } else if !token_registered(m.tokens, mint) {
        Err(GatewayError::TokenNotFound)
    } else {
        Ok(())
    }
}

/// State after a successful `set_token_pause`: only the token's pause flag
/// changes; no event is emitted for pause transitions.
pub open spec fn spec_set_token_pause_apply(
    m: VaultModel,
    mint: Address,
    paused: bool,
) -> VaultModel {
    let i = token_index(m.tokens, mint);
    let t = m.tokens[i];
    VaultModel {
        config: m.config,
        tokens: m.tokens.update(
            i,
            TokenConfig {
                mint: t.mint,
                vault: t.vault,
                synthetic_token_address: t.synthetic_token_address,
                decimals_delta: t.decimals_delta,
                min_bridge_amount: t.min_bridge_amount,
                is_paused: paused,
                total_deposited: t.total_deposited,
                decimals: t.decimals,
            },
        ),
        events: m.events,
    }
}

/// Outcome of `set_vault_pause`: the vault must be initialized and the
/// caller must be the authority.
pub open spec fn spec_set_vault_pause_result(
    m: VaultModel,
    caller: Address,
) -> Result<(), GatewayError> {
    if m.config is None {
        Err(GatewayError::NotInitialized)
    } else if m.config->Some_0.authority != caller {
        Err(GatewayError::Unauthorized)
    } else {
        Ok(())
    }
}

/// State after a successful `set_vault_pause`: only the global pause flag
/// changes; no event is emitted for pause transitions.
pub open spec fn spec_set_vault_pause_apply(m: VaultModel, paused: bool) -> VaultModel {
    let c = m.config->Some_0;
    VaultModel {
        config: Some(
            VaultConfig {
                authority: c.authority,
                hub_eid: c.hub_eid,
                hub_address: c.hub_address,
                is_paused: paused,
                token_count: c.token_count,
            },
        ),
        tokens: m.tokens,
        events: m.events,
    }
}

} // verus!
