use claimable_balance::contract::check_time_bound;
use claimable_balance::contract::is_initialized;
use claimable_balance::host::Env;
use claimable_balance::host::InstanceStorage;
use claimable_balance::ledger::TokenLedger;
use claimable_balance::ledger::TransferError;
use claimable_balance::types::Address;
use claimable_balance::types::ClaimableBalance;
use claimable_balance::types::DataKey;
use claimable_balance::types::TimeBound;
use claimable_balance::types::TimeBoundKind;

fn env_at(timestamp: u64) -> Env {
    Env {
        timestamp,
        auths: Vec::new(),
        contract_address: Address(100),
        storage: InstanceStorage::new(),
        ledger: TokenLedger::new(),
    }
}

#[test]
fn test_ledger_mint_and_balance() {
    let token = Address(7);
    let other_token = Address(8);
    let alice = Address(1);
    let bob = Address(2);

    let mut ledger = TokenLedger::new();
    assert_eq!(ledger.balance(token, alice), 0);

    ledger.mint(token, alice, 1000);
    ledger.mint(token, alice, 200);
    ledger.mint(other_token, alice, 3);
    assert_eq!(ledger.balance(token, alice), 1200);
    assert_eq!(ledger.balance(other_token, alice), 3);
    assert_eq!(ledger.balance(token, bob), 0);
}

#[test]
fn test_ledger_transfer_moves_exact_amount() {
    let token = Address(7);
    let alice = Address(1);
    let bob = Address(2);
    let carol = Address(3);

    let mut ledger = TokenLedger::new();
    ledger.mint(token, alice, 1000);
    ledger.mint(token, carol, 5);

    assert_eq!(ledger.transfer(token, alice, bob, 800), Ok(()));
    assert_eq!(ledger.balance(token, alice), 200);
    assert_eq!(ledger.balance(token, bob), 800);
    assert_eq!(ledger.balance(token, carol), 5);
}

#[test]
fn test_ledger_transfer_insufficient_balance() {
    let token = Address(7);
    let alice = Address(1);
    let bob = Address(2);

    let mut ledger = TokenLedger::new();
    ledger.mint(token, alice, 100);

    assert_eq!(ledger.transfer(token, alice, bob, 101), Err(TransferError));
    assert_eq!(ledger.balance(token, alice), 100);
    assert_eq!(ledger.balance(token, bob), 0);
}

#[test]
fn test_ledger_transfer_negative_amount() {
    let token = Address(7);
    let alice = Address(1);
    let bob = Address(2);

    let mut ledger = TokenLedger::new();
    ledger.mint(token, alice, 100);

    assert_eq!(ledger.transfer(token, alice, bob, -1), Err(TransferError));
    assert_eq!(ledger.balance(token, alice), 100);
}

#[test]
fn test_ledger_transfer_to_self() {
    let token = Address(7);
    let alice = Address(1);

    let mut ledger = TokenLedger::new();
    ledger.mint(token, alice, 100);

    assert_eq!(ledger.transfer(token, alice, alice, 40), Ok(()));
    assert_eq!(ledger.balance(token, alice), 100);
    assert_eq!(ledger.transfer(token, alice, alice, 101), Err(TransferError));
}

#[test]
fn test_ledger_transfer_overflow_rejected() {
    let token = Address(7);
    let alice = Address(1);
    let bob = Address(2);

    let mut ledger = TokenLedger::new();
    ledger.mint(token, alice, 10);
    ledger.mint(token, bob, i128::MAX - 5);

    assert_eq!(ledger.transfer(token, alice, bob, 6), Err(TransferError));
    assert_eq!(ledger.transfer(token, alice, bob, 5), Ok(()));
    assert_eq!(ledger.balance(token, bob), i128::MAX);
}

#[test]
fn test_check_time_bound_inclusive() {
    let env = env_at(12345);

    let before = TimeBound { kind: TimeBoundKind::Before, timestamp: 12345 };
    let after = TimeBound { kind: TimeBoundKind::After, timestamp: 12345 };
    assert!(check_time_bound(&env, &before));
    assert!(check_time_bound(&env, &after));

    let before_past = TimeBound { kind: TimeBoundKind::Before, timestamp: 12344 };
    let after_future = TimeBound { kind: TimeBoundKind::After, timestamp: 12346 };
    assert!(!check_time_bound(&env, &before_past));
    assert!(!check_time_bound(&env, &after_future));
}

#[test]
fn test_storage_keys() {
    let mut storage = InstanceStorage::new();
    assert!(!storage.has(&DataKey::Init));
    assert!(!storage.has(&DataKey::Balance));

    storage.init = true;
    storage.balance = Some(ClaimableBalance {
        token: Address(7),
        amount: 1,
        claimants: vec![Address(2)],
        time_bound: TimeBound { kind: TimeBoundKind::Before, timestamp: 12346 },
    });
    assert!(storage.has(&DataKey::Init));
    assert!(storage.has(&DataKey::Balance));

    storage.remove(&DataKey::Balance);
    assert!(storage.has(&DataKey::Init));
    assert!(!storage.has(&DataKey::Balance));
}

#[test]
fn test_is_initialized_reads_marker() {
    let mut env = env_at(12345);
    assert!(!is_initialized(&env));
    env.storage.init = true;
    assert!(is_initialized(&env));
}
