//! Tests for the borrow operation, the deposit accounting, the round-trip
//! behavior of listing and reclaiming, and the collaborator primitives.

use nfts_lending::ledger::Ledger;
use nfts_lending::store::Store;
use nfts_lending::{BorrowingDetails, DispatchError, Error, Event, HoldReason, NftKey, Pallet};

fn listed_pallet() -> Pallet {
    let mut pallet = Pallet::new(1);
    pallet.set_balance(1, 100);
    pallet.set_balance(2, 100);
    pallet.set_balance(3, 100);
    pallet.mint_nft(0, 42, 1);
    assert_eq!(pallet.list_nft(1, 0, 42, 2, 10, 100), Ok(()));
    pallet
}

#[test]
fn borrow_nft_scenario() {
    // listing with min_period=2, max_period=10, price_per_block=100 and a
    // configured deposit of 1
    let mut pallet = listed_pallet();

    // a period below the minimum is rejected
    assert_eq!(
        pallet.borrow_nft(2, 0, 42, 1),
        Err(DispatchError::Lending(Error::BorrowingPeriodLessThanMinPeriod))
    );
    assert_eq!(pallet.get_lent_nfts(0, 42), None);

    // a period within bounds succeeds and yields exactly one borrow record
    assert_eq!(pallet.borrow_nft(2, 0, 42, 5), Ok(()));
    assert_eq!(
        pallet.get_lent_nfts(0, 42),
        Some(BorrowingDetails { borrowing_period: 5, borrower: 2 })
    );
    assert_eq!(
        *pallet.event_log().last().unwrap(),
        Event::Lent { nft_collection: 0, nft_id: 42, borrowing_period: 5, borrower: 2 }
    );
}

#[test]
fn borrow_nft_should_fail_not_listed() {
    let mut pallet = Pallet::new(1);
    pallet.set_balance(2, 100);
    pallet.mint_nft(0, 42, 1);
    assert_eq!(
        pallet.borrow_nft(2, 0, 42, 5),
        Err(DispatchError::Lending(Error::LendableNftNotFound))
    );
}

#[test]
fn borrow_nft_should_fail_already_lent() {
    let mut pallet = listed_pallet();
    assert_eq!(pallet.borrow_nft(2, 0, 42, 5), Ok(()));
    // the period bounds are not even consulted once the key is lent
    assert_eq!(
        pallet.borrow_nft(3, 0, 42, 7),
        Err(DispatchError::Lending(Error::NftAlreadyLent))
    );
    assert_eq!(
        pallet.get_lent_nfts(0, 42),
        Some(BorrowingDetails { borrowing_period: 5, borrower: 2 })
    );
}

#[test]
fn borrow_nft_should_fail_period_too_long() {
    let mut pallet = listed_pallet();
    assert_eq!(
        pallet.borrow_nft(2, 0, 42, 11),
        Err(DispatchError::Lending(Error::BorrowingPeriodGreaterThanMaxPeriod))
    );
    assert_eq!(pallet.get_lent_nfts(0, 42), None);
}

#[test]
fn borrow_nft_moves_no_funds() {
    let mut pallet = listed_pallet();
    let lister_free = pallet.free_balance(1);
    let lister_held = pallet.held_balance(1);
    assert_eq!(pallet.borrow_nft(2, 0, 42, 5), Ok(()));
    assert_eq!(pallet.free_balance(1), lister_free);
    assert_eq!(pallet.held_balance(1), lister_held);
    assert_eq!(pallet.free_balance(2), 100);
    assert_eq!(pallet.held_balance(2), 0);
    // custody stays with the escrow account
    assert_eq!(pallet.owner_of(0, 42), Some(Pallet::get_pallet_account()));
}

#[test]
fn list_nft_should_fail_insufficient_balance() {
    let mut pallet = Pallet::new(5);
    pallet.set_balance(1, 3);
    pallet.mint_nft(0, 42, 1);
    assert_eq!(pallet.list_nft(1, 0, 42, 2, 10, 100), Err(DispatchError::FundsUnavailable));
    // nothing changed
    assert_eq!(pallet.free_balance(1), 3);
    assert_eq!(pallet.held_balance(1), 0);
    assert_eq!(pallet.get_lendable_nfts(0, 42), None);
    assert_eq!(pallet.owner_of(0, 42), Some(1));
    assert_eq!(pallet.transfer_enabled(0, 42), Some(true));
    assert_eq!(pallet.event_log().len(), 0);
}

#[test]
fn list_nft_equal_periods_should_work() {
    let mut pallet = Pallet::new(1);
    pallet.set_balance(1, 100);
    pallet.mint_nft(0, 42, 1);
    assert_eq!(pallet.list_nft(1, 0, 42, 7, 7, 100), Ok(()));
    let lendable_nft = pallet.get_lendable_nfts(0, 42).unwrap();
    assert_eq!(lendable_nft.min_period, 7);
    assert_eq!(lendable_nft.max_period, 7);
}

#[test]
fn list_nft_disables_transfer_and_holds_deposit() {
    let pallet = listed_pallet();
    assert_eq!(pallet.owner_of(0, 42), Some(Pallet::get_pallet_account()));
    assert_eq!(pallet.transfer_enabled(0, 42), Some(false));
    assert_eq!(pallet.free_balance(1), 99);
    assert_eq!(pallet.held_balance(1), 1);
}

#[test]
fn list_then_reclaim_round_trip() {
    let mut pallet = listed_pallet();
    assert_eq!(pallet.remove_from_lending(1, 0, 42), Ok(()));
    // ownership, transferability and balances are as before the listing
    assert_eq!(pallet.owner_of(0, 42), Some(1));
    assert_eq!(pallet.transfer_enabled(0, 42), Some(true));
    assert_eq!(pallet.free_balance(1), 100);
    assert_eq!(pallet.held_balance(1), 0);
    assert_eq!(pallet.get_lendable_nfts(0, 42), None);
    assert_eq!(pallet.get_lent_nfts(0, 42), None);
    // except for the events recorded
    assert_eq!(
        pallet.event_log().as_slice(),
        &[
            Event::Lendable {
                nft_collection: 0,
                nft_id: 42,
                min_period: 2,
                max_period: 10,
                price_per_block: 100,
            },
            Event::NotLendable { nft_collection: 0, nft_id: 42 },
        ]
    );
}

#[test]
fn remove_from_lending_twice_should_fail() {
    let mut pallet = listed_pallet();
    assert_eq!(pallet.remove_from_lending(1, 0, 42), Ok(()));
    assert_eq!(
        pallet.remove_from_lending(1, 0, 42),
        Err(DispatchError::Lending(Error::LendableNftNotFound))
    );
}

#[test]
fn remove_from_lending_keeps_borrow_record() {
    let mut pallet = listed_pallet();
    assert_eq!(pallet.borrow_nft(2, 0, 42, 5), Ok(()));
    assert_eq!(pallet.remove_from_lending(1, 0, 42), Ok(()));
    // the borrow record is neither consulted nor cleared
    assert_eq!(
        pallet.get_lent_nfts(0, 42),
        Some(BorrowingDetails { borrowing_period: 5, borrower: 2 })
    );
    // so a fresh listing of the same key cannot be borrowed again
    assert_eq!(pallet.list_nft(1, 0, 42, 2, 10, 100), Ok(()));
    assert_eq!(
        pallet.borrow_nft(3, 0, 42, 5),
        Err(DispatchError::Lending(Error::NftAlreadyLent))
    );
}

#[test]
fn deposits_accumulate_per_owner() {
    let mut pallet = Pallet::new(5);
    pallet.set_balance(1, 100);
    pallet.mint_nft(0, 42, 1);
    pallet.mint_nft(0, 43, 1);
    assert_eq!(pallet.list_nft(1, 0, 42, 2, 10, 100), Ok(()));
    assert_eq!(pallet.list_nft(1, 0, 43, 2, 10, 100), Ok(()));
    assert_eq!(pallet.free_balance(1), 90);
    assert_eq!(pallet.held_balance(1), 10);
    assert_eq!(pallet.remove_from_lending(1, 0, 42), Ok(()));
    assert_eq!(pallet.free_balance(1), 95);
    assert_eq!(pallet.held_balance(1), 5);
    assert_eq!(pallet.remove_from_lending(1, 0, 43), Ok(()));
    assert_eq!(pallet.free_balance(1), 100);
    assert_eq!(pallet.held_balance(1), 0);
}

#[test]
fn events_are_emitted_in_order() {
    let mut pallet = listed_pallet();
    assert_eq!(pallet.borrow_nft(2, 0, 42, 5), Ok(()));
    assert_eq!(pallet.remove_from_lending(1, 0, 42), Ok(()));
    assert_eq!(
        pallet.event_log().as_slice(),
        &[
            Event::Lendable {
                nft_collection: 0,
                nft_id: 42,
                min_period: 2,
                max_period: 10,
                price_per_block: 100,
            },
            Event::Lent { nft_collection: 0, nft_id: 42, borrowing_period: 5, borrower: 2 },
            Event::NotLendable { nft_collection: 0, nft_id: 42 },
        ]
    );
}

#[test]
fn ledger_hold_and_best_effort_release() {
    let mut ledger = Ledger::new();
    ledger.set_free_balance(7, 10);
    assert_eq!(ledger.hold(HoldReason::LendableNft, 7, 4), Ok(()));
    assert_eq!(ledger.free_balance(7), 6);
    assert_eq!(ledger.held_balance(7), 4);
    // holding more than the free balance fails without any change
    assert_eq!(
        ledger.hold(HoldReason::LendableNft, 7, 7),
        Err(DispatchError::FundsUnavailable)
    );
    assert_eq!(ledger.free_balance(7), 6);
    assert_eq!(ledger.held_balance(7), 4);
    // releasing is capped at the held amount
    assert_eq!(ledger.release(HoldReason::LendableNft, 7, 100), 4);
    assert_eq!(ledger.free_balance(7), 10);
    assert_eq!(ledger.held_balance(7), 0);
}

#[test]
fn store_insert_get_remove() {
    let mut store: Store<u64> = Store::new();
    let k = NftKey { collection_id: 3, nft_id: 9 };
    assert!(!store.contains_key(k));
    store.insert(k, 1);
    assert_eq!(store.get(k), Some(1));
    store.insert(k, 2);
    assert_eq!(store.get(k), Some(2));
    store.remove(k);
    assert_eq!(store.get(k), None);
}
