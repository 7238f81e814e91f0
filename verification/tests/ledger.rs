use cz_story_commit::error::CommitError;
use cz_story_commit::ledger::Ledger;
use cz_story_commit::pubkey::Pubkey;
use cz_story_commit::state::{Bank, CommitState, Record};

fn key(byte: u8) -> Pubkey {
    Pubkey { bytes: [byte; 32] }
}

fn empty_ledger() -> Ledger {
    Ledger::new(key(1), key(2))
}

fn some_commit(bump: u8) -> Record {
    Record::Commit(CommitState {
        background: 1,
        body: 2,
        clothes: 3,
        head: 4,
        insidehead: 5,
        eyes: 6,
        mouths: 7,
        hats: 8,
        bump,
    })
}

#[test]
fn new_ledger_is_empty() {
    let ledger = empty_ledger();
    assert_eq!(ledger.program_id(), key(1));
    assert_eq!(ledger.metadata_program(), key(2));
    assert_eq!(ledger.total_lamports(), 0);
    assert_eq!(ledger.balance(&key(9)), 0);
    assert_eq!(ledger.record(&key(9)), Record::Empty);
}

#[test]
fn deposit_adds_to_one_balance() {
    let mut ledger = empty_ledger();
    assert!(ledger.deposit(&key(9), 40));
    assert!(ledger.deposit(&key(9), 2));
    assert!(ledger.deposit(&key(8), 5));
    assert_eq!(ledger.balance(&key(9)), 42);
    assert_eq!(ledger.balance(&key(8)), 5);
    assert_eq!(ledger.balance(&key(7)), 0);
    assert_eq!(ledger.total_lamports(), 47);
}

#[test]
fn deposit_refuses_a_supply_beyond_64_bits() {
    let mut ledger = empty_ledger();
    assert!(ledger.deposit(&key(9), u64::MAX - 1));
    assert!(!ledger.deposit(&key(8), 2));
    assert_eq!(ledger.balance(&key(8)), 0);
    assert_eq!(ledger.total_lamports(), u64::MAX - 1);
    assert!(ledger.deposit(&key(8), 1));
    assert_eq!(ledger.total_lamports(), u64::MAX);
    assert!(!ledger.deposit(&key(9), 1));
    assert!(ledger.deposit(&key(9), 0));
}

#[test]
fn transfer_moves_the_exact_amount() {
    let mut ledger = empty_ledger();
    assert!(ledger.deposit(&key(9), 100));
    assert!(ledger.deposit(&key(8), 7));
    assert_eq!(ledger.transfer_lamports(&key(9), &key(8), 30), Ok(()));
    assert_eq!(ledger.balance(&key(9)), 70);
    assert_eq!(ledger.balance(&key(8)), 37);
    assert_eq!(ledger.total_lamports(), 107);
}

#[test]
fn transfer_can_empty_an_account_and_open_another() {
    let mut ledger = empty_ledger();
    assert!(ledger.deposit(&key(9), 100));
    assert_eq!(ledger.transfer_lamports(&key(9), &key(5), 100), Ok(()));
    assert_eq!(ledger.balance(&key(9)), 0);
    assert_eq!(ledger.balance(&key(5)), 100);
}

#[test]
fn transfer_fails_on_insufficient_funds() {
    let mut ledger = empty_ledger();
    assert!(ledger.deposit(&key(9), 100));
    assert_eq!(
        ledger.transfer_lamports(&key(9), &key(8), 101),
        Err(CommitError::InsufficientFunds)
    );
    assert_eq!(
        ledger.transfer_lamports(&key(7), &key(8), 1),
        Err(CommitError::InsufficientFunds)
    );
    assert_eq!(ledger.balance(&key(9)), 100);
    assert_eq!(ledger.balance(&key(8)), 0);
    assert_eq!(ledger.total_lamports(), 100);
}

#[test]
fn transfer_to_oneself_changes_nothing() {
    let mut ledger = empty_ledger();
    assert!(ledger.deposit(&key(9), 100));
    assert_eq!(ledger.transfer_lamports(&key(9), &key(9), 60), Ok(()));
    assert_eq!(ledger.balance(&key(9)), 100);
    assert_eq!(ledger.total_lamports(), 100);
}

#[test]
fn transfer_near_the_top_of_the_range() {
    let mut ledger = empty_ledger();
    assert!(ledger.deposit(&key(9), u64::MAX - 5));
    assert!(ledger.deposit(&key(8), 5));
    assert_eq!(ledger.transfer_lamports(&key(8), &key(9), 5), Ok(()));
    assert_eq!(ledger.balance(&key(9)), u64::MAX);
    assert_eq!(ledger.balance(&key(8)), 0);
}

#[test]
fn transfer_keeps_records_in_place() {
    let mut ledger = empty_ledger();
    assert_eq!(ledger.create(&key(9), some_commit(3)), Ok(()));
    assert!(ledger.deposit(&key(9), 10));
    assert_eq!(ledger.transfer_lamports(&key(9), &key(8), 4), Ok(()));
    assert_eq!(ledger.record(&key(9)), some_commit(3));
    assert_eq!(ledger.record(&key(8)), Record::Empty);
}

#[test]
fn create_stores_a_record_once() {
    let mut ledger = empty_ledger();
    let bank = Record::Bank(Bank { bump: 254, creator_key: key(4) });
    assert_eq!(ledger.create(&key(9), bank), Ok(()));
    assert_eq!(ledger.record(&key(9)), bank);
    assert_eq!(ledger.create(&key(9), some_commit(1)), Err(CommitError::AlreadyExists));
    assert_eq!(ledger.create(&key(9), bank), Err(CommitError::AlreadyExists));
    assert_eq!(ledger.record(&key(9)), bank);
    assert_eq!(ledger.create(&key(8), some_commit(1)), Ok(()));
    assert_eq!(ledger.record(&key(8)), some_commit(1));
}

#[test]
fn create_keeps_the_balance_of_a_funded_address() {
    let mut ledger = empty_ledger();
    assert!(ledger.deposit(&key(9), 77));
    assert_eq!(ledger.create(&key(9), some_commit(1)), Ok(()));
    assert_eq!(ledger.balance(&key(9)), 77);
    assert_eq!(ledger.total_lamports(), 77);
}

#[test]
fn open_for_write_fails_where_nothing_is_stored() {
    let mut ledger = empty_ledger();
    assert!(ledger.deposit(&key(8), 1));
    assert_eq!(ledger.open_for_write(&key(9)).err(), Some(CommitError::NotFound));
    assert_eq!(ledger.open_for_write(&key(8)).err(), Some(CommitError::NotFound));
}

#[test]
fn open_for_write_hands_out_the_stored_record() {
    let mut ledger = empty_ledger();
    assert_eq!(ledger.create(&key(9), some_commit(1)), Ok(()));
    assert_eq!(ledger.create(&key(8), some_commit(2)), Ok(()));
    {
        let record = ledger.open_for_write(&key(9)).unwrap();
        assert_eq!(*record, some_commit(1));
        *record = some_commit(200);
    }
    assert_eq!(ledger.record(&key(9)), some_commit(200));
    assert_eq!(ledger.record(&key(8)), some_commit(2));
}
