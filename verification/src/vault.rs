//! The executable vault: the escrow accounting and authorization state
//! machine, verified against the transition functions of `model`.

use vstd::prelude::*;

use crate::errors::GatewayError;
use crate::events::DepositEvent;
use crate::events::VaultEvent;
use crate::events::WithdrawEvent;
use crate::events::deposit_contrib;
use crate::events::deposited_for;
use crate::events::event_token;
use crate::events::lemma_totals_absent;
use crate::events::lemma_totals_push;
use crate::events::withdraw_contrib;
use crate::events::withdrawn_for;
use crate::model::VaultModel;
use crate::model::event_tagged;
use crate::model::lemma_index_agrees;
use crate::model::spec_deposit_apply;
use crate::model::spec_deposit_result;
use crate::model::spec_initialize_apply;
use crate::model::spec_initialize_result;
use crate::model::spec_register_token_apply;
use crate::model::spec_register_token_result;
use crate::model::spec_set_token_pause_apply;
use crate::model::spec_set_token_pause_result;
use crate::model::spec_set_vault_pause_apply;
use crate::model::spec_set_vault_pause_result;
use crate::model::spec_withdraw_apply;
use crate::model::spec_withdraw_result;
use crate::model::token_registered;
use crate::types::Address;
use crate::types::MessageType;
use crate::types::TAG_TOKEN_VAULT;
use crate::types::TokenConfig;
use crate::types::VaultConfig;
use crate::types::addr_eq;
use crate::types::derive_key;

verus! {

/// The vault's in-memory state: the configuration singleton, the token
/// registry in registration order, and the outbound notification log.
pub struct Vault {
    config: Option<VaultConfig>,
    tokens: Vec<TokenConfig>,
    events: Vec<VaultEvent>,
}

impl View for Vault {
    type V = VaultModel;

    closed spec fn view(&self) -> VaultModel {
        VaultModel { config: self.config, tokens: self.tokens@, events: self.events@ }
    }
}

impl Vault {
    /// Creates a vault with no configuration record: `initialize` must be
    /// called before anything else succeeds.
    pub fn new() -> (v: Vault)
        ensures
            v@ == VaultModel::empty(),
            v@.wf(),
    {
        let v = Vault { config: None, tokens: Vec::new(), events: Vec::new() };
        proof {
            assert(v@ =~= VaultModel::empty());
        }
        v
    }

    /// First index of the registry entry for `mint`, if any.
    fn find_token(&self, mint: &Address) -> (r: Option<usize>)
        ensures
            match r {
                Some(i) => i < self@.tokens.len() && self@.tokens[i as int].mint == *mint,
                None => !token_registered(self@.tokens, *mint),
            },
    {
        let n = self.tokens.len();
        let mut i: usize = 0;
        while i < n
            invariant
                n == self.tokens@.len(),
                i <= n,
                forall|k: int| 0 <= k < i ==> (#[trigger] self.tokens@[k]).mint != *mint,
            decreases n - i,
        {
            if addr_eq(&self.tokens[i].mint, mint) {
                return Some(i);
            }
            i = i + 1;
        }
        None
    }

    /// Creates the configuration singleton: records the caller as the
    /// authority, stores the hub identity, and starts unpaused with no
    /// tokens registered. Re-initialization is forbidden, not a no-op.
    pub fn initialize(&mut self, hub_eid: u32, hub_address: Address, caller: Address) -> (r:
        Result<(), GatewayError>)
        requires
            old(self)@.wf(),
        ensures
            final(self)@.wf(),
            r == spec_initialize_result(old(self)@),
            r is Ok ==> final(self)@ == spec_initialize_apply(
                old(self)@,
                hub_eid,
                hub_address,
                caller,
            ),
            r is Err ==> final(self)@ == old(self)@,
    {
        if self.config.is_some() {
            return Err(GatewayError::AlreadyInitialized);
        }
        self.config = Some(
            VaultConfig { authority: caller, hub_eid, hub_address, is_paused: false, token_count: 0 },
        );
        proof {
            assert(self@ =~= spec_initialize_apply(old(self)@, hub_eid, hub_address, caller));
        }
        Ok(())
    }

    /// Sets or clears the vault-wide circuit breaker. Authority only; a pure
    /// flag flip with no other observable effect and no event.
    pub fn set_vault_pause(&mut self, paused: bool, caller: Address) -> (r: Result<
        (),
        GatewayError,
    >)
        requires
            old(self)@.wf(),
        ensures
            final(self)@.wf(),
            r == spec_set_vault_pause_result(old(self)@, caller),
            r is Ok ==> final(self)@ == spec_set_vault_pause_apply(old(self)@, paused),
            r is Err ==> final(self)@ == old(self)@,
    {
        let c = match &self.config {
            Some(c) => *c,
            None => { return Err(GatewayError::NotInitialized) },
        };
        if !addr_eq(&c.authority, &caller) {
            return Err(GatewayError::Unauthorized);
        }
        self.config = Some(
            VaultConfig {
                authority: c.authority,
                hub_eid: c.hub_eid,
                hub_address: c.hub_address,
                is_paused: paused,
                token_count: c.token_count,
            },
        );
        proof {
            assert(self@ =~= spec_set_vault_pause_apply(old(self)@, paused));
        }
        Ok(())
    }

    /// Registers a token for bridging: creates its registry entry at the
    /// derived key, with an empty escrow ledger and the token's native
    /// precision `decimals` captured now, and increments the token count.
    /// Authority only; a token identity can be registered at most once.
    /// No transfer occurs: this is a configuration-only operation.
    pub fn register_token(
        &mut self,
        mint: Address,
        synthetic_token_address: Address,
        decimals_delta: i8,
        min_bridge_amount: u64,
        decimals: u8,
        caller: Address,
    ) -> (r: Result<(), GatewayError>)
        requires
            old(self)@.wf(),
            old(self)@.tokens.len() < u32::MAX,
        ensures
            final(self)@.wf(),
            r == spec_register_token_result(old(self)@, mint, caller),
            r is Ok ==> final(self)@ == spec_register_token_apply(
                old(self)@,
                mint,
                synthetic_token_address,
                decimals_delta,
                min_bridge_amount,
                decimals,
            ),
            r is Err ==> final(self)@ == old(self)@,
    {
        let c = match &self.config {
            Some(c) => *c,
            None => { return Err(GatewayError::NotInitialized) },
        };
        if !addr_eq(&c.authority, &caller) {
            return Err(GatewayError::Unauthorized);
        }
        if self.find_token(&mint).is_some() {
            proof {
                assert(token_registered(self@.tokens, mint));
            }
            return Err(GatewayError::AlreadyRegistered);
        }
        let vault_key = derive_key(TAG_TOKEN_VAULT, &mint);
        self.tokens.push(
            TokenConfig {
                mint,
                vault: vault_key,
                synthetic_token_address,
                decimals_delta,
                min_bridge_amount,
                is_paused: false,
                total_deposited: 0,
                decimals,
            },
        );
        self.config = Some(
            VaultConfig {
                authority: c.authority,
                hub_eid: c.hub_eid,
                hub_address: c.hub_address,
                is_paused: c.is_paused,
                token_count: c.token_count + 1,
            },
        );
        proof {
            let m0 = old(self)@;
            let m1 = self@;
            assert(forall|i: int|
                0 <= i < m0.tokens.len() ==> (#[trigger] m0.tokens[i]).mint != mint);
            assert(forall|k: int|
                0 <= k < m0.events.len() ==> event_token(#[trigger] m0.events[k]) != mint) by {
                assert forall|k: int|
                    0 <= k < m0.events.len() implies event_token(#[trigger] m0.events[k])
                    != mint by {
                    let w = choose|w: int|
                        0 <= w < m0.tokens.len() && (#[trigger] m0.tokens[w]).mint == event_token(
                            m0.events[k],
                        );
                    assert(m0.tokens[w].mint != mint);
                }
            }
            lemma_totals_absent(m0.events, mint);
            assert forall|k: int|
                0 <= k < m1.events.len() implies token_registered(
                m1.tokens,
                event_token(#[trigger] m1.events[k]),
            ) by {
                let w = choose|w: int|
                    0 <= w < m0.tokens.len() && (#[trigger] m0.tokens[w]).mint == event_token(
                        m0.events[k],
                    );
                assert(m1.tokens[w].mint == event_token(m1.events[k]));
            }
            assert(m1.wf());
            assert(m1 =~= spec_register_token_apply(
                m0,
                mint,
                synthetic_token_address,
                decimals_delta,
                min_bridge_amount,
                decimals,
            ));
        }
        Ok(())
    }

    /// Escrows `amount` of the token identified by `mint` on behalf of the
    /// hub-side `recipient`.
    ///
    /// Enforces, in order: the amount reaches the token's minimum, neither
    /// the token nor the vault is paused, and the escrow accumulator does
    /// not overflow. On success it grows `total_deposited` and appends a
    /// `DepositEvent` carrying `now` as its timestamp; on any error the
    /// state is unchanged. The external transfer of `amount` from
    /// `depositor` into the escrow custody account — atomic, and validated
    /// against the token's registered decimals — is the host's step within
    /// the same unit of work: the ledger records only transfers the host
    /// committed.
    pub fn deposit(
        &mut self,
        mint: Address,
        amount: u64,
        recipient: Address,
        depositor: Address,
        now: i64,
    ) -> (r: Result<(), GatewayError>)
        requires
            old(self)@.wf(),
        ensures
            final(self)@.wf(),
            r == spec_deposit_result(old(self)@, mint, amount),
            r is Ok ==> final(self)@ == spec_deposit_apply(
                old(self)@,
                mint,
                amount,
                recipient,
                depositor,
                now,
            ),
            r is Err ==> final(self)@ == old(self)@,
    {
        let c = match &self.config {
            Some(c) => *c,
            None => { return Err(GatewayError::NotInitialized) },
        };
        let i = match self.find_token(&mint) {
            Some(i) => i,
            None => { return Err(GatewayError::TokenNotFound) },
        };
        proof {
            lemma_index_agrees(self@.tokens, mint, i as int);
        }
        if amount < self.tokens[i].min_bridge_amount {
            return Err(GatewayError::AmountTooSmall);
        }
        if self.tokens[i].is_paused {
            return Err(GatewayError::TokenPaused);
        }
        if c.is_paused {
            return Err(GatewayError::VaultPaused);
        }
        let new_total = match self.tokens[i].total_deposited.checked_add(amount) {
            Some(v) => v,
            None => { return Err(GatewayError::Overflow) },
        };
        let e = DepositEvent {
            message_type: MessageType::Deposit,
            user: depositor,
            recipient,
            token: mint,
            synthetic_token: self.tokens[i].synthetic_token_address,
            amount,
            hub_eid: c.hub_eid,
            timestamp: now,
        };
        self.tokens[i].total_deposited = new_total;
        self.events.push(VaultEvent::Deposit(e));
        proof {
            self.lemma_commit_wf(old(self)@, i as int, VaultEvent::Deposit(e));
            assert(self@ =~= spec_deposit_apply(old(self)@, mint, amount, recipient, depositor, now));
        }
        Ok(())
    }

    /// Releases `amount` of the token identified by `mint` from escrow to
    /// `recipient`, applying an externally verified hub instruction.
    ///
    /// Authority only. `message_guid` is accepted as an opaque audit token;
    /// it is not checked against prior use. The release is deliberately not
    /// gated by either pause flag. The underflow check — `amount` must not
    /// exceed `total_deposited` — is the defense against releasing more than
    /// was deposited for the token. On success this shrinks
    /// `total_deposited` and appends a `WithdrawEvent` carrying `now` as its
    /// timestamp; on any error the state is unchanged. The external transfer
    /// out of the escrow custody account to `recipient` is the host's step
    /// within the same unit of work.
    pub fn withdraw(
        &mut self,
        mint: Address,
        amount: u64,
        _message_guid: Address,
        recipient: Address,
        caller: Address,
        now: i64,
    ) -> (r: Result<(), GatewayError>)
        requires
            old(self)@.wf(),
        ensures
            final(self)@.wf(),
            r == spec_withdraw_result(old(self)@, mint, amount, caller),
            r is Ok ==> final(self)@ == spec_withdraw_apply(
                old(self)@,
                mint,
                amount,
                recipient,
                now,
            ),
            r is Err ==> final(self)@ == old(self)@,
    {
        let c = match &self.config {
            Some(c) => *c,
            None => { return Err(GatewayError::NotInitialized) },
        };
        if !addr_eq(&c.authority, &caller) {
            return Err(GatewayError::Unauthorized);
        }
        let i = match self.find_token(&mint) {
            Some(i) => i,
            None => { return Err(GatewayError::TokenNotFound) },
        };
        proof {
            lemma_index_agrees(self@.tokens, mint, i as int);
        }
        let new_total = match self.tokens[i].total_deposited.checked_sub(amount) {
            Some(v) => v,
            None => { return Err(GatewayError::Underflow) },
        };
        let e = WithdrawEvent {
            message_type: MessageType::Withdraw,
            recipient,
            token: mint,
            amount,
            timestamp: now,
        };
        self.tokens[i].total_deposited = new_total;
        self.events.push(VaultEvent::Withdraw(e));
        proof {
            self.lemma_commit_wf(old(self)@, i as int, VaultEvent::Withdraw(e));
            assert(self@ =~= spec_withdraw_apply(old(self)@, mint, amount, recipient, now));
        }
        Ok(())
    }

    /// Sets or clears the circuit breaker of one registered token.
    /// Authority only; a pure flag flip with no other observable effect and
    /// no event. While set it blocks new deposits of the token, but not
    /// authority-mediated withdrawals.
    pub fn set_token_pause(&mut self, mint: Address, paused: bool, caller: Address) -> (r: Result<
        (),
        GatewayError,
    >)
        requires
            old(self)@.wf(),
        ensures
            final(self)@.wf(),
            r == spec_set_token_pause_result(old(self)@, mint, caller),
            r is Ok ==> final(self)@ == spec_set_token_pause_apply(old(self)@, mint, paused),
            r is Err ==> final(self)@ == old(self)@,
    {
        let c = match &self.config {
            Some(c) => *c,
            None => { return Err(GatewayError::NotInitialized) },
        };
        if !addr_eq(&c.authority, &caller) {
            return Err(GatewayError::Unauthorized);
        }
        let i = match self.find_token(&mint) {
            Some(i) => i,
            None => { return Err(GatewayError::TokenNotFound) },
        };
        proof {
            lemma_index_agrees(self@.tokens, mint, i as int);
        }
        self.tokens[i].is_paused = paused;
        proof {
            let m0 = old(self)@;
            let m1 = self@;
            assert(forall|j: int|
                0 <= j < m1.tokens.len() ==> (#[trigger] m1.tokens[j]).mint == m0.tokens[j].mint
                    && m1.tokens[j].vault == m0.tokens[j].vault && m1.tokens[j].total_deposited
                    == m0.tokens[j].total_deposited);
            assert forall|k: int|
                0 <= k < m1.events.len() implies token_registered(
                m1.tokens,
                event_token(#[trigger] m1.events[k]),
            ) by {
                let w = choose|w: int|
                    0 <= w < m0.tokens.len() && (#[trigger] m0.tokens[w]).mint == event_token(
                        m0.events[k],
                    );
                assert(m1.tokens[w].mint == event_token(m1.events[k]));
            }
            assert(m1.wf());
            assert(m1 =~= spec_set_token_pause_apply(m0, mint, paused));
        }
        Ok(())
    }

    /// The configuration singleton, or `None` before initialization.
    pub fn vault_config(&self) -> (r: Option<VaultConfig>)
        ensures
            r == self@.config,
    {
        match &self.config {
            Some(c) => Some(*c),
            None => None,
        }
    }

    /// The registry entry of the token identified by `mint`, or `None` if
    /// it is not registered.
    pub fn token_config(&self, mint: &Address) -> (r: Option<TokenConfig>)
        requires
            self@.wf(),
        ensures
            token_registered(self@.tokens, *mint) ==> r == Some(self@.token(*mint)),
            !token_registered(self@.tokens, *mint) ==> r is None,
    {
        match self.find_token(mint) {
            Some(i) => {
                proof {
                    lemma_index_agrees(self@.tokens, *mint, i as int);
                }
                Some(self.tokens[i])
            },
            None => None,
        }
    }

    /// The outbound notification log, in emission order.
    pub fn events(&self) -> (r: &Vec<VaultEvent>)
        ensures
            r@ == self@.events,
    {
        &self.events
    }

    /// After a commit that changed only `total_deposited` at index `i` by
    /// exactly the contribution of the one appended event `e`, the
    /// well-formedness invariant holds again.
    proof fn lemma_commit_wf(&self, m0: VaultModel, i: int, e: VaultEvent)
        requires
            m0.wf(),
            0 <= i < m0.tokens.len(),
            self@.tokens.len() == m0.tokens.len(),
            self@.config == m0.config,
            self@.events == m0.events.push(e),
            event_token(e) == m0.tokens[i].mint,
            event_tagged(e),
            forall|j: int|
                0 <= j < m0.tokens.len() && j != i ==> #[trigger] self@.tokens[j] == m0.tokens[j],
            self@.tokens[i].mint == m0.tokens[i].mint,
            self@.tokens[i].vault == m0.tokens[i].vault,
            self@.tokens[i].total_deposited as int == m0.tokens[i].total_deposited as int
                + deposit_contrib(e, m0.tokens[i].mint) - withdraw_contrib(e, m0.tokens[i].mint),
        ensures
            self@.wf(),
    {
        let m1 = self@;
        lemma_totals_push(m0.events, e);
        assert forall|j: int|
            0 <= j < m1.tokens.len() implies (#[trigger] m1.tokens[j]).total_deposited as int
            == deposited_for(m1.events, m1.tokens[j].mint) - withdrawn_for(
            m1.events,
            m1.tokens[j].mint,
        ) by {
            if j != i {
                assert(m0.tokens[j].mint != m0.tokens[i].mint);
                assert(deposit_contrib(e, m1.tokens[j].mint) == 0);
                assert(withdraw_contrib(e, m1.tokens[j].mint) == 0);
            }
        }
        assert forall|k: int|
            0 <= k < m1.events.len() implies token_registered(
            m1.tokens,
            event_token(#[trigger] m1.events[k]),
        ) by {
            if k < m0.events.len() {
                let w = choose|w: int|
                    0 <= w < m0.tokens.len() && (#[trigger] m0.tokens[w]).mint == event_token(
                        m0.events[k],
                    );
                assert(m1.tokens[w].mint == event_token(m1.events[k]));
            } else {
                assert(m1.events[k] == e);
                assert(m1.tokens[i].mint == event_token(e));
            }
        }
    }
}

} // verus!
