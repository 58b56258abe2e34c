//! Per-operation behaviour: each error variant, the pause asymmetry, and the
//! derived storage keys.

use gateway_vault::errors::GatewayError;
use gateway_vault::types::derive_key;
use gateway_vault::types::StorageKey;
use gateway_vault::types::TAG_TOKEN_CONFIG;
use gateway_vault::types::TAG_TOKEN_VAULT;
use gateway_vault::vault::Vault;

fn addr(b: u8) -> [u8; 32] {
    [b; 32]
}

/// An initialized vault with one token registered at `min_bridge_amount` 100.
fn vault_with_token() -> (Vault, [u8; 32], [u8; 32]) {
    let mut v = Vault::new();
    let authority = addr(1);
    let token = addr(10);
    assert_eq!(v.initialize(30332, addr(2), authority), Ok(()));
    assert_eq!(v.register_token(token, addr(11), 0, 100, 6, authority), Ok(()));
    (v, authority, token)
}

#[test]
fn nothing_works_before_initialize() {
    let mut v = Vault::new();
    let a = addr(1);
    assert_eq!(
        v.register_token(addr(10), addr(11), 0, 100, 6, a),
        Err(GatewayError::NotInitialized)
    );
    assert_eq!(
        v.deposit(addr(10), 500, addr(3), addr(4), 1),
        Err(GatewayError::NotInitialized)
    );
    assert_eq!(
        v.withdraw(addr(10), 1, addr(5), addr(6), a, 2),
        Err(GatewayError::NotInitialized)
    );
    assert_eq!(v.set_token_pause(addr(10), true, a), Err(GatewayError::NotInitialized));
    assert_eq!(v.set_vault_pause(true, a), Err(GatewayError::NotInitialized));
    assert_eq!(v.events().len(), 0);
}

#[test]
fn register_token_requires_authority() {
    let (mut v, _, _) = vault_with_token();
    assert_eq!(
        v.register_token(addr(20), addr(21), 0, 1, 6, addr(9)),
        Err(GatewayError::Unauthorized)
    );
    assert_eq!(v.vault_config().unwrap().token_count, 1);
}

#[test]
fn register_token_twice_fails() {
    let (mut v, authority, token) = vault_with_token();
    assert_eq!(
        v.register_token(token, addr(30), 1, 7, 9, authority),
        Err(GatewayError::AlreadyRegistered)
    );
    assert_eq!(v.vault_config().unwrap().token_count, 1);
    // The first registration is untouched by the failed second one.
    let t = v.token_config(&token).unwrap();
    assert_eq!(t.min_bridge_amount, 100);
    assert_eq!(t.decimals, 6);
    assert_eq!(t.synthetic_token_address, addr(11));
}

#[test]
fn registration_snapshot() {
    let (v, _, token) = vault_with_token();
    let t = v.token_config(&token).unwrap();
    assert_eq!(t.mint, token);
    assert_eq!(t.decimals_delta, 0);
    assert!(!t.is_paused);
    assert_eq!(t.total_deposited, 0);
    assert_eq!(t.vault, derive_key(TAG_TOKEN_VAULT, &token));
}

#[test]
fn unknown_token_is_reported() {
    let (mut v, authority, _) = vault_with_token();
    let unknown = addr(99);
    assert_eq!(
        v.deposit(unknown, 500, addr(3), addr(4), 1),
        Err(GatewayError::TokenNotFound)
    );
    assert_eq!(
        v.withdraw(unknown, 1, addr(5), addr(6), authority, 2),
        Err(GatewayError::TokenNotFound)
    );
    assert_eq!(
        v.set_token_pause(unknown, true, authority),
        Err(GatewayError::TokenNotFound)
    );
}

#[test]
fn deposit_below_minimum_changes_nothing() {
    let (mut v, _, token) = vault_with_token();
    assert_eq!(v.deposit(token, 99, addr(3), addr(4), 1), Err(GatewayError::AmountTooSmall));
    assert_eq!(v.token_config(&token).unwrap().total_deposited, 0);
    assert_eq!(v.events().len(), 0);
}

#[test]
fn deposit_at_minimum_succeeds() {
    let (mut v, _, token) = vault_with_token();
    assert_eq!(v.deposit(token, 100, addr(3), addr(4), 1), Ok(()));
    assert_eq!(v.token_config(&token).unwrap().total_deposited, 100);
}

#[test]
fn deposit_while_token_paused() {
    let (mut v, authority, token) = vault_with_token();
    assert_eq!(v.set_token_pause(token, true, authority), Ok(()));
    assert!(v.token_config(&token).unwrap().is_paused);
    assert_eq!(v.deposit(token, 500, addr(3), addr(4), 1), Err(GatewayError::TokenPaused));
    assert_eq!(v.token_config(&token).unwrap().total_deposited, 0);
    assert_eq!(v.events().len(), 0);
    // Unpausing reopens the token for deposits.
    assert_eq!(v.set_token_pause(token, false, authority), Ok(()));
    assert_eq!(v.deposit(token, 500, addr(3), addr(4), 2), Ok(()));
}

#[test]
fn deposit_while_vault_paused() {
    let (mut v, authority, token) = vault_with_token();
    assert_eq!(v.set_vault_pause(true, authority), Ok(()));
    assert!(!v.token_config(&token).unwrap().is_paused);
    assert_eq!(v.deposit(token, 500, addr(3), addr(4), 1), Err(GatewayError::VaultPaused));
    assert_eq!(v.token_config(&token).unwrap().total_deposited, 0);
    assert_eq!(v.events().len(), 0);
}

#[test]
fn deposit_overflow_is_fatal() {
    let mut v = Vault::new();
    let authority = addr(1);
    let token = addr(10);
    assert_eq!(v.initialize(30332, addr(2), authority), Ok(()));
    assert_eq!(v.register_token(token, addr(11), 0, 1, 6, authority), Ok(()));
    assert_eq!(v.deposit(token, u64::MAX, addr(3), addr(4), 1), Ok(()));
    assert_eq!(v.deposit(token, 1, addr(3), addr(4), 2), Err(GatewayError::Overflow));
    assert_eq!(v.token_config(&token).unwrap().total_deposited, u64::MAX);
    assert_eq!(v.events().len(), 1);
}

#[test]
fn withdraw_requires_authority() {
    let (mut v, _, token) = vault_with_token();
    assert_eq!(v.deposit(token, 100, addr(3), addr(4), 1), Ok(()));
    assert_eq!(
        v.withdraw(token, 50, addr(5), addr(6), addr(9), 2),
        Err(GatewayError::Unauthorized)
    );
    assert_eq!(v.token_config(&token).unwrap().total_deposited, 100);
}

#[test]
fn withdraw_ignores_pause_flags() {
    // Pausing blocks new escrow inflow, not authority-mediated release.
    let (mut v, authority, token) = vault_with_token();
    assert_eq!(v.deposit(token, 100, addr(3), addr(4), 1), Ok(()));
    assert_eq!(v.set_token_pause(token, true, authority), Ok(()));
    assert_eq!(v.set_vault_pause(true, authority), Ok(()));
    assert_eq!(v.withdraw(token, 60, addr(5), addr(6), authority, 2), Ok(()));
    assert_eq!(v.token_config(&token).unwrap().total_deposited, 40);
}

#[test]
fn set_token_pause_requires_authority() {
    let (mut v, _, token) = vault_with_token();
    assert_eq!(v.set_token_pause(token, true, addr(9)), Err(GatewayError::Unauthorized));
    assert!(!v.token_config(&token).unwrap().is_paused);
}

#[test]
fn derived_keys_separate_namespaces() {
    let id = addr(42);
    let config_key = derive_key(TAG_TOKEN_CONFIG, &id);
    let vault_key = derive_key(TAG_TOKEN_VAULT, &id);
    assert_eq!(config_key, StorageKey { tag: TAG_TOKEN_CONFIG, id });
    assert_eq!(vault_key, StorageKey { tag: TAG_TOKEN_VAULT, id });
    assert_ne!(config_key, vault_key);
    assert_ne!(derive_key(TAG_TOKEN_VAULT, &addr(43)), vault_key);
}
