//! Tests for the three lending operations, driven through a module set up
//! with accounts 1 to 4 endowed with an initial balance, one collection
//! holding one asset, and a configured deposit of 1.

use nfts_lending::{DispatchError, Error, Event, Pallet};

fn set_up_balances(pallet: &mut Pallet, initial_balance: u64) {
    pallet.set_balance(1, initial_balance);
    pallet.set_balance(2, initial_balance);
    pallet.set_balance(3, initial_balance);
    pallet.set_balance(4, initial_balance);
}

fn mint_item(pallet: &mut Pallet) -> u64 {
    let item_id = 42;
    pallet.mint_nft(0, item_id, 1);
    item_id
}

fn last_event(pallet: &Pallet) -> Event {
    *pallet.event_log().last().unwrap()
}

#[test]
fn list_nft_should_work() {
    let mut pallet = Pallet::new(1);
    let initial_balance = 100;
    set_up_balances(&mut pallet, initial_balance);
    let mint_id = mint_item(&mut pallet);
    assert_eq!(pallet.list_nft(1, 0, mint_id, 2, 10, 100), Ok(()));

    // Check that the pallet is now the owner of the NFT
    let pallet_account = Pallet::get_pallet_account();
    assert_eq!(pallet.owner_of(0, mint_id), Some(pallet_account));

    // Read the listing record
    let lendable_nft = pallet.get_lendable_nfts(0, mint_id).unwrap();
    assert_eq!(lendable_nft.min_period, 2);
    assert_eq!(lendable_nft.max_period, 10);
    assert_eq!(lendable_nft.price_per_block, 100);
    assert_eq!(lendable_nft.deposit_owner, 1);
    assert_eq!(lendable_nft.deposit, 1);

    // Check that the deposit was taken
    assert_eq!(pallet.free_balance(1), 99);

    // Check the event was emitted
    assert_eq!(
        last_event(&pallet),
        Event::Lendable {
            nft_collection: 0,
            nft_id: mint_id,
            min_period: 2,
            max_period: 10,
            price_per_block: 100,
        }
    );
}

#[test]
fn list_nft_should_fail_nft_no_exist() {
    let mut pallet = Pallet::new(1);
    let initial_balance = 100;
    set_up_balances(&mut pallet, initial_balance);
    let _mint_id = mint_item(&mut pallet);
    assert_eq!(
        pallet.list_nft(1, 0, 555, 2, 10, 100),
        Err(DispatchError::Lending(Error::NftNotFound))
    );
}

#[test]
fn list_nft_should_fail_no_owner_nft() {
    let mut pallet = Pallet::new(1);
    let initial_balance = 100;
    set_up_balances(&mut pallet, initial_balance);
    let mint_id = mint_item(&mut pallet);
    assert_eq!(
        pallet.list_nft(2, 0, mint_id, 2, 10, 100),
        Err(DispatchError::Lending(Error::NoPermission))
    );
}

#[test]
fn list_nft_should_fail_wrong_periods() {
    let mut pallet = Pallet::new(1);
    let initial_balance = 100;
    set_up_balances(&mut pallet, initial_balance);
    let mint_id = mint_item(&mut pallet);
    assert_eq!(
        pallet.list_nft(1, 0, mint_id, 20, 10, 100),
        Err(DispatchError::Lending(Error::MinPeriodGreaterThanMaxPeriod))
    );
}

#[test]
fn remove_from_lending_should_work() {
    let mut pallet = Pallet::new(1);
    let initial_balance = 100;
    set_up_balances(&mut pallet, initial_balance);
    let mint_id = mint_item(&mut pallet);
    assert_eq!(pallet.list_nft(1, 0, mint_id, 2, 10, 100), Ok(()));

    // The pallet account holds the NFT while it is listed
    let pallet_account = Pallet::get_pallet_account();
    assert_eq!(pallet.owner_of(0, mint_id), Some(pallet_account));

    // Check that the deposit was taken
    assert_eq!(pallet.free_balance(1), 99);

    assert_eq!(pallet.remove_from_lending(1, 0, mint_id), Ok(()));

    // Check that the deposit is back
    assert_eq!(pallet.free_balance(1), 100);

    // Check that I am the owner of the NFT again
    assert_eq!(pallet.owner_of(0, mint_id), Some(1));

    // Check the event was emitted
    assert_eq!(
        last_event(&pallet),
        Event::NotLendable { nft_collection: 0, nft_id: mint_id }
    );
}

#[test]
fn remove_from_lending_should_fail_nft_not_listed() {
    let mut pallet = Pallet::new(1);
    let initial_balance = 100;
    set_up_balances(&mut pallet, initial_balance);
    let mint_id = mint_item(&mut pallet);
    assert_eq!(
        pallet.remove_from_lending(1, 0, mint_id),
        Err(DispatchError::Lending(Error::LendableNftNotFound))
    );
}

#[test]
fn remove_from_lending_should_fail_no_owner() {
    let mut pallet = Pallet::new(1);
    let initial_balance = 100;
    set_up_balances(&mut pallet, initial_balance);
    let mint_id = mint_item(&mut pallet);
    assert_eq!(pallet.list_nft(1, 0, mint_id, 2, 10, 100), Ok(()));
    assert_eq!(
        pallet.remove_from_lending(2, 0, mint_id),
        Err(DispatchError::Lending(Error::NoPermission))
    );
}
