//! Laws of the vault state machine, proved over the model.
//!
//! Single-state laws hold of every well-formed state; the executable
//! operations in `vault` ensure well-formedness after every call, and ensure
//! on every error that the state is unchanged, so each law below extends to
//! any sequence of operations.

use vstd::prelude::*;

use crate::errors::GatewayError;
use crate::events::deposited_for;
use crate::events::withdrawn_for;
use crate::model::VaultModel;
use crate::model::spec_deposit_result;
use crate::model::spec_register_token_apply;
use crate::model::spec_register_token_result;
use crate::model::spec_withdraw_result;
use crate::model::token_registered;
use crate::types::Address;

verus! {

/// Ledger conservation: in every well-formed vault state, each registered
/// token's `total_deposited` equals the sum of its committed deposit amounts
/// minus the sum of its committed withdrawal amounts over the notification
/// log.
pub proof fn lemma_ledger_conservation(m: VaultModel, i: int)
    requires
        m.wf(),
        0 <= i < m.tokens.len(),
    ensures
        m.tokens[i].total_deposited as int == deposited_for(m.events, m.tokens[i].mint)
            - withdrawn_for(m.events, m.tokens[i].mint),
{
}

/// A deposit of less than the token's minimum bridge amount fails with
/// `AmountTooSmall` (and, by the `deposit` contract, leaves the state
/// unchanged).
pub proof fn lemma_deposit_below_minimum(m: VaultModel, mint: Address, amount: u64)
    requires
        m.wf(),
        m.config is Some,
        token_registered(m.tokens, mint),
        amount < m.token(mint).min_bridge_amount,
    ensures
        spec_deposit_result(m, mint, amount) == Err::<(), GatewayError>(
            GatewayError::AmountTooSmall,
        ),
{
}

/// A deposit into a paused token fails with `TokenPaused`, for every amount
/// that reaches the token's minimum (below the minimum, `AmountTooSmall`
/// takes precedence).
pub proof fn lemma_deposit_token_paused(m: VaultModel, mint: Address, amount: u64)
    requires
        m.wf(),
        m.config is Some,
        token_registered(m.tokens, mint),
        m.token(mint).is_paused,
        amount >= m.token(mint).min_bridge_amount,
    ensures
        spec_deposit_result(m, mint, amount) == Err::<(), GatewayError>(GatewayError::TokenPaused),
{
}

/// A deposit while the vault-wide circuit breaker is set fails with
/// `VaultPaused` even when the token itself is not paused, for every amount
/// that reaches the token's minimum (below the minimum, `AmountTooSmall`
/// takes precedence).
pub proof fn lemma_deposit_vault_paused(m: VaultModel, mint: Address, amount: u64)
    requires
        m.wf(),
        m.config is Some,
        m.config->Some_0.is_paused,
        token_registered(m.tokens, mint),
        !m.token(mint).is_paused,
        amount >= m.token(mint).min_bridge_amount,
    ensures
        spec_deposit_result(m, mint, amount) == Err::<(), GatewayError>(GatewayError::VaultPaused),
{
}

/// A withdrawal of more than the token's escrowed balance fails with
/// `Underflow` (and, by the `withdraw` contract, leaves the state
/// unchanged).
pub proof fn lemma_withdraw_underflow(m: VaultModel, mint: Address, amount: u64, caller: Address)
    requires
        m.wf(),
        m.config is Some,
        m.config->Some_0.authority == caller,
        token_registered(m.tokens, mint),
        amount > m.token(mint).total_deposited,
    ensures
        spec_withdraw_result(m, mint, amount, caller) == Err::<(), GatewayError>(
            GatewayError::Underflow,
        ),
{
}

/// A token identity can be registered at most once: after a successful
/// registration, registering the same identity again fails — with
/// `AlreadyRegistered` for the authority itself — and the token count has
/// grown by exactly one.
pub proof fn lemma_register_token_once(
    m: VaultModel,
    mint: Address,
    synthetic_token_address: Address,
    decimals_delta: i8,
    min_bridge_amount: u64,
    decimals: u8,
    caller: Address,
)
    requires
        m.wf(),
        m.tokens.len() < u32::MAX,
        spec_register_token_result(m, mint, caller) is Ok,
    ensures
        ({
            let m1 = spec_register_token_apply(
                m,
                mint,
                synthetic_token_address,
                decimals_delta,
                min_bridge_amount,
                decimals,
            );
            &&& forall|other: Address|
                spec_register_token_result(m1, mint, other) is Err
            &&& spec_register_token_result(m1, mint, caller) == Err::<(), GatewayError>(
                GatewayError::AlreadyRegistered,
            )
            &&& m1.config->Some_0.token_count == m.config->Some_0.token_count + 1
        }),
{
    let m1 = spec_register_token_apply(
        m,
        mint,
        synthetic_token_address,
        decimals_delta,
        min_bridge_amount,
        decimals,
    );
    assert(m1.tokens[m.tokens.len() as int].mint == mint);
    assert(token_registered(m1.tokens, mint));
    assert forall|other: Address| spec_register_token_result(m1, mint, other) is Err by {
        if m1.config->Some_0.authority == other {
            assert(spec_register_token_result(m1, mint, other) == Err::<(), GatewayError>(
                GatewayError::AlreadyRegistered,
            ));
        }
    }
}

} // verus!
