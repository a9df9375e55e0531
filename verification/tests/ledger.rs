use anchor_escrow::address::{Address, Principal};
use anchor_escrow::address_map::AddressMap;
use anchor_escrow::error::EscrowError;
use anchor_escrow::ledger::{Ledger, TokenAccount};

const DEPOSIT: u64 = 2_039_280;

fn addr(n: u8) -> Address {
    Address::new([n; 32])
}

fn signer(n: u8) -> Principal {
    Principal::signer(addr(n))
}

/// Wallet 1 holds 700 of asset 50 at account 10; wallet 2 holds 40 of it at account 20.
fn ledger() -> Ledger {
    let mut ledger = Ledger::new(DEPOSIT);
    ledger.fund(&addr(1), 10 * DEPOSIT).unwrap();
    ledger.fund(&addr(2), 10 * DEPOSIT).unwrap();
    ledger.create(&addr(10), &addr(50), &addr(1), &signer(1)).unwrap();
    ledger.create(&addr(20), &addr(50), &addr(2), &signer(2)).unwrap();
    ledger.issue(&addr(10), 700).unwrap();
    ledger.issue(&addr(20), 40).unwrap();
    ledger
}

fn amount(ledger: &Ledger, n: u8) -> u64 {
    ledger.account(&addr(n)).unwrap().amount
}

#[test]
fn address_map_stores_replaces_and_removes() {
    let mut map: AddressMap<u64> = AddressMap::new();
    assert_eq!(map.get(&addr(1)), None);
    assert!(!map.contains(&addr(1)));
    map.insert(addr(1), 10);
    map.insert(addr(2), 20);
    map.insert(addr(1), 11);
    assert_eq!(map.get(&addr(1)), Some(11));
    assert_eq!(map.get(&addr(2)), Some(20));
    assert!(map.contains(&addr(2)));
    map.remove(&addr(1));
    assert_eq!(map.get(&addr(1)), None);
    assert_eq!(map.get(&addr(2)), Some(20));
    map.remove(&addr(9));
    assert_eq!(map.get(&addr(2)), Some(20));
}

#[test]
fn address_map_snapshot_is_independent() {
    let mut map: AddressMap<u64> = AddressMap::new();
    map.insert(addr(1), 10);
    let copy = map.snapshot();
    map.insert(addr(1), 99);
    map.insert(addr(2), 5);
    assert_eq!(copy.get(&addr(1)), Some(10));
    assert_eq!(copy.get(&addr(2)), None);
}

#[test]
fn new_ledger_is_empty() {
    let ledger = Ledger::new(DEPOSIT);
    assert_eq!(ledger.account(&addr(1)), None);
    assert_eq!(ledger.lamports(&addr(1)), 0);
    assert_eq!(ledger.account_deposit(), DEPOSIT);
}

#[test]
fn principal_constructors_set_the_signature() {
    assert!(Principal::signer(addr(1)).is_signer);
    assert!(!Principal::unsigned(addr(1)).is_signer);
    assert_eq!(Principal::unsigned(addr(1)).address, addr(1));
}

#[test]
fn create_takes_the_deposit_from_the_payer() {
    let ledger = ledger();
    assert_eq!(
        ledger.account(&addr(10)),
        Some(TokenAccount { mint: addr(50), owner: addr(1), amount: 700 })
    );
    assert_eq!(ledger.lamports(&addr(1)), 9 * DEPOSIT);
    assert_eq!(ledger.lamports(&addr(10)), DEPOSIT);
}

#[test]
fn create_refuses_an_occupied_address() {
    let mut ledger = ledger();
    assert_eq!(
        ledger.create(&addr(10), &addr(51), &addr(2), &signer(2)),
        Err(EscrowError::AlreadyExists)
    );
    assert_eq!(amount(&ledger, 10), 700);
    assert_eq!(ledger.lamports(&addr(2)), 9 * DEPOSIT);
}

#[test]
fn create_needs_a_signed_payer_with_funds() {
    let mut ledger = ledger();
    assert_eq!(
        ledger.create(&addr(30), &addr(50), &addr(3), &Principal::unsigned(addr(1))),
        Err(EscrowError::AuthenticationFailure)
    );
    assert_eq!(
        ledger.create(&addr(30), &addr(50), &addr(3), &signer(3)),
        Err(EscrowError::InsufficientBalance)
    );
    assert_eq!(ledger.account(&addr(30)), None);
    assert_eq!(ledger.lamports(&addr(30)), 0);
}

#[test]
fn create_if_absent_is_idempotent() {
    let mut ledger = ledger();
    assert_eq!(ledger.create_if_absent(&addr(10), &addr(50), &addr(1), &signer(2)), Ok(()));
    assert_eq!(amount(&ledger, 10), 700);
    assert_eq!(ledger.lamports(&addr(2)), 9 * DEPOSIT);
    assert_eq!(ledger.create_if_absent(&addr(30), &addr(50), &addr(3), &signer(2)), Ok(()));
    assert_eq!(
        ledger.account(&addr(30)),
        Some(TokenAccount { mint: addr(50), owner: addr(3), amount: 0 })
    );
    assert_eq!(ledger.lamports(&addr(2)), 8 * DEPOSIT);
    assert_eq!(ledger.create_if_absent(&addr(30), &addr(50), &addr(3), &signer(2)), Ok(()));
    assert_eq!(ledger.lamports(&addr(2)), 8 * DEPOSIT);
}

#[test]
fn create_if_absent_refuses_an_account_of_another() {
    let mut ledger = ledger();
    assert_eq!(
        ledger.create_if_absent(&addr(10), &addr(50), &addr(2), &signer(2)),
        Err(EscrowError::AuthorizationMismatch)
    );
    assert_eq!(
        ledger.create_if_absent(&addr(10), &addr(51), &addr(1), &signer(2)),
        Err(EscrowError::AuthorizationMismatch)
    );
}

#[test]
fn transfer_moves_exactly_the_amount() {
    let mut ledger = ledger();
    assert_eq!(ledger.transfer(&addr(10), &addr(20), &addr(50), 300, &signer(1)), Ok(()));
    assert_eq!(amount(&ledger, 10), 400);
    assert_eq!(amount(&ledger, 20), 340);
    assert_eq!(ledger.transfer(&addr(10), &addr(20), &addr(50), 400, &signer(1)), Ok(()));
    assert_eq!(amount(&ledger, 10), 0);
    assert_eq!(amount(&ledger, 20), 740);
    assert_eq!(ledger.lamports(&addr(1)), 9 * DEPOSIT);
}

#[test]
fn transfer_to_itself_changes_nothing() {
    let mut ledger = ledger();
    assert_eq!(ledger.transfer(&addr(10), &addr(10), &addr(50), 700, &signer(1)), Ok(()));
    assert_eq!(amount(&ledger, 10), 700);
    assert_eq!(
        ledger.transfer(&addr(10), &addr(10), &addr(50), 701, &signer(1)),
        Err(EscrowError::InsufficientBalance)
    );
}

#[test]
fn transfer_refusals() {
    let mut ledger = ledger();
    ledger.create(&addr(30), &addr(51), &addr(2), &signer(2)).unwrap();
    assert_eq!(
        ledger.transfer(&addr(10), &addr(20), &addr(50), 1, &Principal::unsigned(addr(1))),
        Err(EscrowError::AuthenticationFailure)
    );
    assert_eq!(
        ledger.transfer(&addr(11), &addr(20), &addr(50), 1, &signer(1)),
        Err(EscrowError::NotFound)
    );
    assert_eq!(
        ledger.transfer(&addr(10), &addr(21), &addr(50), 1, &signer(1)),
        Err(EscrowError::NotFound)
    );
    assert_eq!(
        ledger.transfer(&addr(10), &addr(20), &addr(51), 1, &signer(1)),
        Err(EscrowError::AuthorizationMismatch)
    );
    assert_eq!(
        ledger.transfer(&addr(10), &addr(30), &addr(50), 1, &signer(1)),
        Err(EscrowError::AuthorizationMismatch)
    );
    assert_eq!(
        ledger.transfer(&addr(10), &addr(20), &addr(50), 1, &signer(2)),
        Err(EscrowError::AuthorizationMismatch)
    );
    assert_eq!(
        ledger.transfer(&addr(10), &addr(20), &addr(50), 701, &signer(1)),
        Err(EscrowError::InsufficientBalance)
    );
    assert_eq!(amount(&ledger, 10), 700);
    assert_eq!(amount(&ledger, 20), 40);
}

#[test]
fn transfer_refuses_to_overflow_the_target() {
    let mut ledger = ledger();
    ledger.issue(&addr(20), u64::MAX - 40 - 5).unwrap();
    assert_eq!(
        ledger.transfer(&addr(10), &addr(20), &addr(50), 6, &signer(1)),
        Err(EscrowError::InsufficientBalance)
    );
    assert_eq!(ledger.transfer(&addr(10), &addr(20), &addr(50), 5, &signer(1)), Ok(()));
    assert_eq!(amount(&ledger, 20), u64::MAX);
    assert_eq!(amount(&ledger, 10), 695);
}

#[test]
fn issue_and_fund_refuse_to_overflow() {
    let mut ledger = ledger();
    assert_eq!(ledger.issue(&addr(99), 1), Err(EscrowError::NotFound));
    assert_eq!(ledger.issue(&addr(10), u64::MAX - 699), Err(EscrowError::InsufficientBalance));
    assert_eq!(ledger.issue(&addr(10), u64::MAX - 700), Ok(()));
    assert_eq!(amount(&ledger, 10), u64::MAX);
    assert_eq!(ledger.fund(&addr(3), u64::MAX), Ok(()));
    assert_eq!(ledger.fund(&addr(3), 1), Err(EscrowError::InsufficientBalance));
    assert_eq!(ledger.lamports(&addr(3)), u64::MAX);
}

#[test]
fn pay_moves_native_balance() {
    let mut ledger = ledger();
    assert_eq!(ledger.pay(&signer(1), &addr(3), 100), Ok(()));
    assert_eq!(ledger.lamports(&addr(1)), 9 * DEPOSIT - 100);
    assert_eq!(ledger.lamports(&addr(3)), 100);
    assert_eq!(ledger.pay(&signer(1), &addr(1), 100), Ok(()));
    assert_eq!(ledger.lamports(&addr(1)), 9 * DEPOSIT - 100);
    assert_eq!(
        ledger.pay(&Principal::unsigned(addr(1)), &addr(3), 100),
        Err(EscrowError::AuthenticationFailure)
    );
    assert_eq!(ledger.pay(&signer(3), &addr(1), 101), Err(EscrowError::InsufficientBalance));
    ledger.fund(&addr(4), u64::MAX).unwrap();
    assert_eq!(ledger.pay(&signer(3), &addr(4), 1), Err(EscrowError::InsufficientBalance));
    assert_eq!(ledger.lamports(&addr(3)), 100);
}

#[test]
fn close_returns_the_deposit() {
    let mut ledger = ledger();
    ledger.transfer(&addr(10), &addr(20), &addr(50), 700, &signer(1)).unwrap();
    assert_eq!(ledger.close(&addr(10), &addr(2), &signer(1)), Ok(()));
    assert_eq!(ledger.account(&addr(10)), None);
    assert_eq!(ledger.lamports(&addr(10)), 0);
    assert_eq!(ledger.lamports(&addr(2)), 10 * DEPOSIT);
    assert_eq!(ledger.lamports(&addr(1)), 9 * DEPOSIT);
    assert_eq!(ledger.close(&addr(10), &addr(2), &signer(1)), Err(EscrowError::NotFound));
}

#[test]
fn close_refusals() {
    let mut ledger = ledger();
    assert_eq!(
        ledger.close(&addr(10), &addr(1), &Principal::unsigned(addr(1))),
        Err(EscrowError::AuthenticationFailure)
    );
    assert_eq!(
        ledger.close(&addr(10), &addr(1), &signer(2)),
        Err(EscrowError::AuthorizationMismatch)
    );
    assert_eq!(
        ledger.close(&addr(10), &addr(1), &signer(1)),
        Err(EscrowError::InsufficientBalance)
    );
    ledger.transfer(&addr(10), &addr(20), &addr(50), 700, &signer(1)).unwrap();
    assert_eq!(
        ledger.close(&addr(10), &addr(10), &signer(1)),
        Err(EscrowError::AuthorizationMismatch)
    );
    ledger.fund(&addr(5), u64::MAX).unwrap();
    assert_eq!(
        ledger.close(&addr(10), &addr(5), &signer(1)),
        Err(EscrowError::InsufficientBalance)
    );
    assert!(ledger.account(&addr(10)).is_some());
    assert_eq!(ledger.lamports(&addr(10)), DEPOSIT);
}

#[test]
fn sweep_and_close_moves_the_live_balance() {
    let mut ledger = ledger();
    ledger.issue(&addr(10), 5).unwrap();
    assert_eq!(
        ledger.sweep_and_close(&addr(10), &addr(20), &addr(1), &addr(50), &signer(1)),
        Ok(())
    );
    assert_eq!(ledger.account(&addr(10)), None);
    assert_eq!(amount(&ledger, 20), 745);
    assert_eq!(ledger.lamports(&addr(1)), 10 * DEPOSIT);
}

#[test]
fn sweep_and_close_is_all_or_nothing() {
    let mut ledger = ledger();
    ledger.fund(&addr(5), u64::MAX).unwrap();
    assert_eq!(
        ledger.sweep_and_close(&addr(10), &addr(20), &addr(5), &addr(50), &signer(1)),
        Err(EscrowError::InsufficientBalance)
    );
    assert_eq!(amount(&ledger, 10), 700);
    assert_eq!(amount(&ledger, 20), 40);
    assert_eq!(ledger.lamports(&addr(10)), DEPOSIT);
    assert_eq!(
        ledger.sweep_and_close(&addr(10), &addr(10), &addr(1), &addr(50), &signer(1)),
        Err(EscrowError::InsufficientBalance)
    );
    assert_eq!(amount(&ledger, 10), 700);
    assert_eq!(
        ledger.sweep_and_close(&addr(11), &addr(20), &addr(1), &addr(50), &signer(1)),
        Err(EscrowError::NotFound)
    );
    assert_eq!(
        ledger.sweep_and_close(&addr(10), &addr(20), &addr(1), &addr(50), &signer(2)),
        Err(EscrowError::AuthorizationMismatch)
    );
}

#[test]
fn snapshot_is_independent() {
    let mut ledger = ledger();
    let saved = ledger.snapshot();
    ledger.transfer(&addr(10), &addr(20), &addr(50), 700, &signer(1)).unwrap();
    ledger.fund(&addr(1), 1).unwrap();
    assert_eq!(amount(&saved, 10), 700);
    assert_eq!(saved.lamports(&addr(1)), 9 * DEPOSIT);
    assert_eq!(saved.account_deposit(), DEPOSIT);
}
