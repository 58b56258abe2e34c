//! The outbound notification log: event records observed by the off-chain
//! relayer, and the per-token sums over that log that the escrow ledger must
//! agree with.

use vstd::prelude::*;

use crate::types::Address;
use crate::types::MessageType;

verus! {

/// Record appended to the notification log by a committed deposit.
#[derive(Clone, Copy, Debug, PartialEq, Eq)]
pub struct DepositEvent {
    pub message_type: MessageType,
    /// Identity of the depositor.
    pub user: Address,
    /// Hub-side opaque address receiving the bridged amount.
    pub recipient: Address,
    /// Identity of the deposited token.
    pub token: Address,
    /// Hub-side representation address of the token.
    pub synthetic_token: Address,
    pub amount: u64,
    /// Hub-chain endpoint identifier of the vault.
    pub hub_eid: u32,
    /// Wall-clock time of the commit, in seconds.
    pub timestamp: i64,
}

/// Record appended to the notification log by a committed withdrawal.
#[derive(Clone, Copy, Debug, PartialEq, Eq)]
pub struct WithdrawEvent {
    pub message_type: MessageType,
    /// Identity receiving the released tokens.
    pub recipient: Address,
    /// Identity of the released token.
    pub token: Address,
    pub amount: u64,
    /// Wall-clock time of the commit, in seconds.
    pub timestamp: i64,
}

/// One entry of the outbound notification log.
#[derive(Clone, Copy, Debug, PartialEq, Eq)]
pub enum VaultEvent {
    Deposit(DepositEvent),
    Withdraw(WithdrawEvent),
}

/// The token identity an event speaks of.
pub open spec fn event_token(e: VaultEvent) -> Address {
    match e {
        VaultEvent::Deposit(d) => d.token,
        VaultEvent::Withdraw(w) => w.token,
    }
}

/// What `e` contributes to the committed-deposit sum of the token `mint`.
pub open spec fn deposit_contrib(e: VaultEvent, mint: Address) -> int {
    match e {
        VaultEvent::Deposit(d) => if d.token == mint {
            d.amount as int
        } else {
            0
        },
        VaultEvent::Withdraw(_) => 0,
    }
}

/// What `e` contributes to the committed-withdrawal sum of the token `mint`.
pub open spec fn withdraw_contrib(e: VaultEvent, mint: Address) -> int {
    match e {
        VaultEvent::Deposit(_) => 0,
        VaultEvent::Withdraw(w) => if w.token == mint {
            w.amount as int
        } else {
            0
        },
    }
}

/// Sum of all committed deposit amounts for the token `mint` over the log.
pub open spec fn deposited_for(events: Seq<VaultEvent>, mint: Address) -> int
    decreases events.len(),
{
    if events.len() == 0 {
        0
    } else {
        deposited_for(events.drop_last(), mint) + deposit_contrib(events.last(), mint)
    }
}

/// Sum of all committed withdrawal amounts for the token `mint` over the log.
pub open spec fn withdrawn_for(events: Seq<VaultEvent>, mint: Address) -> int
    decreases events.len(),
{
    if events.len() == 0 {
        0
    } else {
        withdrawn_for(events.drop_last(), mint) + withdraw_contrib(events.last(), mint)
    }
}

/// Appending one event moves each token's sums by exactly that event's
/// contribution.
pub proof fn lemma_totals_push(events: Seq<VaultEvent>, e: VaultEvent)
    ensures
        forall|mint: Address| #[trigger] deposited_for(events.push(e), mint) == deposited_for(
            events,
            mint,
        ) + deposit_contrib(e, mint),
        forall|mint: Address| #[trigger] withdrawn_for(events.push(e), mint) == withdrawn_for(
            events,
            mint,
        ) + withdraw_contrib(e, mint),
{
    assert(events.push(e).drop_last() =~= events);
    assert(events.push(e).last() == e);
}

/// A token no event speaks of has zero committed sums.
pub proof fn lemma_totals_absent(events: Seq<VaultEvent>, mint: Address)
    requires
        forall|k: int| 0 <= k < events.len() ==> event_token(#[trigger] events[k]) != mint,
    ensures
        deposited_for(events, mint) == 0,
        withdrawn_for(events, mint) == 0,
    decreases events.len(),
{
    if events.len() > 0 {
        assert(forall|k: int|
            0 <= k < events.drop_last().len() ==> event_token(
                #[trigger] events.drop_last()[k],
            ) != mint);
        lemma_totals_absent(events.drop_last(), mint);
        assert(event_token(events.last()) != mint);
    }
}

} // verus!
