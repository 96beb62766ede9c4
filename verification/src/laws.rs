//! Laws that relate several operations of the lending state machine,
//! proved over the transitions in `state`.

use crate::registry::AssetEntry;
use crate::state::{list_apply, list_check, reclaim_apply, reclaim_check, StateView,
    PALLET_ACCOUNT};
use crate::types::{AccountId, Balance, DispatchError, Error, Event, NftKey};
use vstd::prelude::*;

verus! {

/// Reclaiming deletes the listing record, so repeating a successful
/// reclaim on the same key fails with `LendableNftNotFound`, whoever the
/// second caller is.
pub proof fn lemma_reclaim_twice_fails(
    s: StateView,
    who: AccountId,
    again: AccountId,
    k: NftKey,
)
    requires
        reclaim_check(s, who, k) is Ok,
    ensures
        reclaim_check(reclaim_apply(s, who, k), again, k) == Err::<(), DispatchError>(
            DispatchError::Lending(Error::LendableNftNotFound),
        ),
{
}

/// Round trip: listing and then reclaiming, with no intervening borrow,
/// returns the system to its observable state before the listing —
/// ownership, transferability, listings, borrows and balances — except for
/// the two notifications recorded.
pub proof fn lemma_list_reclaim_round_trip(
    s: StateView,
    who: AccountId,
    k: NftKey,
    min_period: u64,
    max_period: u64,
    price_per_block: Balance,
)
    requires
        s.inv(),
        who != PALLET_ACCOUNT,
        list_check(s, who, k, min_period, max_period) is Ok,
    ensures
        reclaim_check(list_apply(s, who, k, min_period, max_period, price_per_block), who, k)
            is Ok,
        ({
            let t = reclaim_apply(
                list_apply(s, who, k, min_period, max_period, price_per_block),
                who,
                k,
            );
            &&& t.lendable =~= s.lendable
            &&& t.lent =~= s.lent
            &&& t.assets =~= s.assets
            &&& t.free =~= s.free
            &&& t.held =~= s.held
            &&& t.deposit == s.deposit
            &&& t.events =~= s.events + seq![
                Event::Lendable {
                    nft_collection: k.collection_id,
                    nft_id: k.nft_id,
                    min_period,
                    max_period,
                    price_per_block,
                },
                Event::NotLendable { nft_collection: k.collection_id, nft_id: k.nft_id },
            ]
        }),
{
    let s1 = list_apply(s, who, k, min_period, max_period, price_per_block);
    // The listed key was unlisted before: its owner was the caller, not
    // the escrow account, so removing the fresh record restores the store,
    // and by the invariant the asset was transferable, so re-enabling
    // transfer and returning custody restores the registry entry.
    assert(!s.lendable.dom().contains(k));
    assert(s.assets[k] == (AssetEntry { owner: who, transfer_enabled: true }));
    // The whole recorded deposit is under hold after the listing, so the
    // best-effort release returns exactly the deposit.
    assert(s1.held[who] == s.held[who] + s.deposit);
}

} // verus!
