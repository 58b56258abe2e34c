//! End-to-end scenarios over the vault state machine.

use gateway_vault::errors::GatewayError;
use gateway_vault::events::VaultEvent;
use gateway_vault::types::MessageType;
use gateway_vault::types::SONIC_HUB_EID;
use gateway_vault::vault::Vault;

fn addr(b: u8) -> [u8; 32] {
    [b; 32]
}

#[test]
fn scenario_initialize_once() {
    let mut v = Vault::new();
    let authority = addr(1);
    let hub = addr(2);
    assert_eq!(v.vault_config(), None);
    assert_eq!(v.initialize(SONIC_HUB_EID, hub, authority), Ok(()));
    let c = v.vault_config().unwrap();
    assert_eq!(c.authority, authority);
    assert_eq!(c.hub_eid, 30332);
    assert_eq!(c.hub_address, hub);
    assert!(!c.is_paused);
    assert_eq!(c.token_count, 0);
    assert_eq!(
        v.initialize(SONIC_HUB_EID, hub, authority),
        Err(GatewayError::AlreadyInitialized)
    );
    assert_eq!(
        v.initialize(7, addr(9), addr(9)),
        Err(GatewayError::AlreadyInitialized)
    );
    assert_eq!(v.vault_config().unwrap(), c);
}

#[test]
fn scenario_register_then_deposit() {
    let mut v = Vault::new();
    let authority = addr(1);
    let token = addr(10);
    let synthetic = addr(11);
    let recipient = addr(12);
    let user = addr(13);
    assert_eq!(v.initialize(SONIC_HUB_EID, addr(2), authority), Ok(()));
    assert_eq!(v.register_token(token, synthetic, 0, 100, 6, authority), Ok(()));
    assert_eq!(v.vault_config().unwrap().token_count, 1);

    assert_eq!(
        v.deposit(token, 50, recipient, user, 1_700_000_000),
        Err(GatewayError::AmountTooSmall)
    );
    assert_eq!(v.token_config(&token).unwrap().total_deposited, 0);
    assert_eq!(v.events().len(), 0);

    assert_eq!(v.deposit(token, 150, recipient, user, 1_700_000_001), Ok(()));
    assert_eq!(v.token_config(&token).unwrap().total_deposited, 150);
    assert_eq!(v.events().len(), 1);
    match &v.events()[0] {
        VaultEvent::Deposit(e) => {
            assert_eq!(e.message_type, MessageType::Deposit);
            assert_eq!(e.user, user);
            assert_eq!(e.recipient, recipient);
            assert_eq!(e.token, token);
            assert_eq!(e.synthetic_token, synthetic);
            assert_eq!(e.amount, 150);
            assert_eq!(e.hub_eid, SONIC_HUB_EID);
            assert_eq!(e.timestamp, 1_700_000_001);
        }
        VaultEvent::Withdraw(_) => panic!("expected a deposit event"),
    }
}

#[test]
fn scenario_withdraw_after_deposit() {
    let mut v = Vault::new();
    let authority = addr(1);
    let token = addr(10);
    let recipient = addr(14);
    let guid = addr(15);
    assert_eq!(v.initialize(SONIC_HUB_EID, addr(2), authority), Ok(()));
    assert_eq!(v.register_token(token, addr(11), 0, 100, 6, authority), Ok(()));
    assert_eq!(v.deposit(token, 150, addr(12), addr(13), 1_700_000_001), Ok(()));

    assert_eq!(
        v.withdraw(token, 200, guid, recipient, authority, 1_700_000_002),
        Err(GatewayError::Underflow)
    );
    assert_eq!(v.token_config(&token).unwrap().total_deposited, 150);
    assert_eq!(v.events().len(), 1);

    assert_eq!(
        v.withdraw(token, 150, guid, recipient, authority, 1_700_000_003),
        Ok(())
    );
    assert_eq!(v.token_config(&token).unwrap().total_deposited, 0);
    assert_eq!(v.events().len(), 2);
    match &v.events()[1] {
        VaultEvent::Withdraw(e) => {
            assert_eq!(e.message_type, MessageType::Withdraw);
            assert_eq!(e.recipient, recipient);
            assert_eq!(e.token, token);
            assert_eq!(e.amount, 150);
            assert_eq!(e.timestamp, 1_700_000_003);
        }
        VaultEvent::Deposit(_) => panic!("expected a withdraw event"),
    }
}

#[test]
fn scenario_pause_needs_authority() {
    let mut v = Vault::new();
    let authority = addr(1);
    let stranger = addr(9);
    assert_eq!(v.initialize(SONIC_HUB_EID, addr(2), authority), Ok(()));
    assert_eq!(v.set_vault_pause(true, stranger), Err(GatewayError::Unauthorized));
    assert!(!v.vault_config().unwrap().is_paused);
    assert_eq!(v.set_vault_pause(true, authority), Ok(()));
    assert!(v.vault_config().unwrap().is_paused);
}

#[test]
fn ledger_conservation_over_a_sequence() {
    let mut v = Vault::new();
    let authority = addr(1);
    let token_a = addr(10);
    let token_b = addr(20);
    assert_eq!(v.initialize(SONIC_HUB_EID, addr(2), authority), Ok(()));
    assert_eq!(v.register_token(token_a, addr(11), 0, 1, 6, authority), Ok(()));
    assert_eq!(v.register_token(token_b, addr(21), -2, 1, 9, authority), Ok(()));

    assert_eq!(v.deposit(token_a, 10, addr(3), addr(4), 1), Ok(()));
    assert_eq!(v.deposit(token_b, 100, addr(3), addr(4), 2), Ok(()));
    assert_eq!(v.deposit(token_a, 20, addr(3), addr(4), 3), Ok(()));
    assert_eq!(v.withdraw(token_a, 5, addr(5), addr(6), authority, 4), Ok(()));
    assert_eq!(v.deposit(token_a, 7, addr(3), addr(4), 5), Ok(()));
    assert_eq!(v.withdraw(token_b, 40, addr(5), addr(6), authority, 6), Ok(()));

    // Replay the notification log and compare it with the ledger.
    let mut sum_a: i128 = 0;
    let mut sum_b: i128 = 0;
    for e in v.events().iter() {
        match e {
            VaultEvent::Deposit(d) => {
                if d.token == token_a {
                    sum_a += i128::from(d.amount);
                } else if d.token == token_b {
                    sum_b += i128::from(d.amount);
                }
            }
            VaultEvent::Withdraw(w) => {
                if w.token == token_a {
                    sum_a -= i128::from(w.amount);
                } else if w.token == token_b {
                    sum_b -= i128::from(w.amount);
                }
            }
        }
    }
    assert_eq!(sum_a, 32);
    assert_eq!(sum_b, 60);
    assert_eq!(v.token_config(&token_a).unwrap().total_deposited, 32);
    assert_eq!(v.token_config(&token_b).unwrap().total_deposited, 60);
}
