//! Abstract state of the lending module and the mathematical transitions
//! of its three operations. The executable operations are proved to follow
//! these transitions exactly, and the laws that relate several operations
//! are stated and proved over them.

use crate::registry::AssetEntry;
use crate::types::{AccountId, Balance, BorrowingDetails, Details, DispatchError, Error, Event,
    NftKey};
use vstd::prelude::*;

verus! {

/// The fixed account controlled by the module that holds custody of listed
/// assets.
pub const PALLET_ACCOUNT: AccountId = 0x6e66_745f_6c65_6e64;

/// The composite key the two parts of an asset's address make.
pub open spec fn nft_key(collection_id: u64, nft_id: u64) -> NftKey {
    NftKey { collection_id, nft_id }
}

/// Everything the module and its two collaborators observe: the listing
/// and borrow stores, the asset registry, the two balances of every
/// account, the notifications emitted so far, and the configured deposit.
#[verifier::ext_equal]
pub ghost struct StateView {
    pub lendable: Map<NftKey, Details>,
    pub lent: Map<NftKey, BorrowingDetails>,
    pub assets: Map<NftKey, AssetEntry>,
    pub free: Map<AccountId, Balance>,
    pub held: Map<AccountId, Balance>,
    pub events: Seq<Event>,
    pub deposit: Balance,
}

impl StateView {
    /// The semantic invariant of every reachable state.
    ///
    /// A listing exists exactly when the asset's custody is held by the
    /// escrow account with its transfer capability disabled; every other
    /// existing asset is transferable. Balances are total over accounts,
    /// and free plus held always fits in a balance. A borrow record may
    /// outlive its listing: no operation removes borrow records, an
    /// unresolved gap kept as it stands, so nothing is required of `lent`.
    pub open spec fn inv(self) -> bool {
        &&& forall|a: AccountId| #[trigger] self.free.dom().contains(a)
        &&& forall|a: AccountId| #[trigger] self.held.dom().contains(a)
        &&& forall|a: AccountId| #[trigger] self.free[a] + self.held[a] <= Balance::MAX
        &&& forall|k: NftKey|
            #[trigger] self.lendable.dom().contains(k) ==> self.assets.dom().contains(k)
                && self.assets[k].owner == PALLET_ACCOUNT && !self.assets[k].transfer_enabled
        &&& forall|k: NftKey|
            #[trigger] self.assets.dom().contains(k) && !self.lendable.dom().contains(k)
                ==> self.assets[k].transfer_enabled
    }
}

/// What listing reports: the first failed precondition, in the order the
/// operation checks them, or success.
pub open spec fn list_check(
    s: StateView,
    who: AccountId,
    k: NftKey,
    min_period: u64,
    max_period: u64,
) -> Result<(), DispatchError> {
    if !s.assets.dom().contains(k) {
        Err(DispatchError::Lending(Error::NftNotFound))
    } else if s.assets[k].owner != who {
        Err(DispatchError::Lending(Error::NoPermission))
    } else if min_period > max_period {
        Err(DispatchError::Lending(Error::MinPeriodGreaterThanMaxPeriod))
    } else if s.free[who] < s.deposit {
        Err(DispatchError::FundsUnavailable)
    } else {
        Ok(())
    }
}

/// The state after a successful listing: the configured deposit moves from
/// free to held, custody moves to the escrow account and transfer is
/// disabled, a listing record with the supplied terms appears, and a
/// `Lendable` notification is emitted.
pub open spec fn list_apply(
    s: StateView,
    who: AccountId,
    k: NftKey,
    min_period: u64,
    max_period: u64,
    price_per_block: Balance,
) -> StateView {
    StateView {
        lendable: s.lendable.insert(
            k,
            Details {
                min_period,
                max_period,
                price_per_block,
                deposit: s.deposit,
                deposit_owner: who,
                nft_owner: who,
            },
        ),
        assets: s.assets.insert(k, AssetEntry { owner: PALLET_ACCOUNT, transfer_enabled: false }),
        free: s.free.insert(who, (s.free[who] - s.deposit) as Balance),
        held: s.held.insert(who, (s.held[who] + s.deposit) as Balance),
        events: s.events.push(
            Event::Lendable {
                nft_collection: k.collection_id,
                nft_id: k.nft_id,
                min_period,
                max_period,
                price_per_block,
            },
        ),
        ..s
    }
}

/// What borrowing reports: the first failed precondition, in the order the
/// operation checks them, or success.
pub open spec fn borrow_check(
    s: StateView,
    who: AccountId,
    k: NftKey,
    borrowing_period: u64,
) -> Result<(), DispatchError> {
    if !s.lendable.dom().contains(k) {
        Err(DispatchError::Lending(Error::LendableNftNotFound))
    } else if s.lent.dom().contains(k) {
        Err(DispatchError::Lending(Error::NftAlreadyLent))
    } else if borrowing_period < s.lendable[k].min_period {
        Err(DispatchError::Lending(Error::BorrowingPeriodLessThanMinPeriod))
    } else if borrowing_period > s.lendable[k].max_period {
        Err(DispatchError::Lending(Error::BorrowingPeriodGreaterThanMaxPeriod))
    } else {
        Ok(())
    }
}

/// The state after a successful borrow: exactly one borrow record appears;
/// custody stays with the escrow account and no funds move, payment being
/// deferred functionality; a `Lent` notification is emitted.
pub open spec fn borrow_apply(
    s: StateView,
    who: AccountId,
    k: NftKey,
    borrowing_period: u64,
) -> StateView {
    StateView {
        lent: s.lent.insert(k, BorrowingDetails { borrowing_period, borrower: who }),
        events: s.events.push(
            Event::Lent {
                nft_collection: k.collection_id,
                nft_id: k.nft_id,
                borrowing_period,
                borrower: who,
            },
        ),
        ..s
    }
}

/// What reclaiming reports: the first failed precondition, in the order
/// the operation checks them, or success.
pub open spec fn reclaim_check(s: StateView, who: AccountId, k: NftKey) -> Result<
    (),
    DispatchError,
> {
    if !s.lendable.dom().contains(k) {
        Err(DispatchError::Lending(Error::LendableNftNotFound))
    } else if s.lendable[k].nft_owner != who {
        Err(DispatchError::Lending(Error::NoPermission))
    } else {
        Ok(())
    }
}

/// The state after a successful reclaim: transfer is re-enabled and
/// custody returns to the caller, the listing record disappears, the held
/// deposit is released best-effort — up to the recorded amount — to the
/// deposit owner, and a `NotLendable` notification is emitted. Any borrow
/// record for the key stays untouched.
pub open spec fn reclaim_apply(s: StateView, who: AccountId, k: NftKey) -> StateView {
    let d = s.lendable[k];
    let released: Balance = if d.deposit <= s.held[d.deposit_owner] {
        d.deposit
    } else {
        s.held[d.deposit_owner]
    };
    StateView {
        lendable: s.lendable.remove(k),
        assets: s.assets.insert(k, AssetEntry { owner: who, transfer_enabled: true }),
        free: s.free.insert(d.deposit_owner, (s.free[d.deposit_owner] + released) as Balance),
        held: s.held.insert(d.deposit_owner, (s.held[d.deposit_owner] - released) as Balance),
        events: s.events.push(
            Event::NotLendable { nft_collection: k.collection_id, nft_id: k.nft_id },
        ),
        ..s
    }
}

} // verus!
