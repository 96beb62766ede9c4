//! The lending state machine: the three operations `list_nft`,
//! `borrow_nft` and `remove_from_lending` over the two record stores, the
//! asset registry and the deposit ledger, each proved to follow its
//! transition in `state` exactly and to preserve the module invariant.

use crate::ledger::Ledger;
use crate::registry::{AssetEntry, AssetRegistry};
use crate::state::{borrow_apply, borrow_check, list_apply, list_check, nft_key, reclaim_apply,
    reclaim_check, StateView, PALLET_ACCOUNT};
use crate::store::{lemma_assoc_contains, lemma_assoc_index, Store};
use crate::types::{AccountId, Balance, BorrowingDetails, Details, DispatchError, Error, Event,
    HoldReason, NftKey};
use vstd::prelude::*;

verus! {

/// Sum of the deposits recorded in the listing entries whose refund is
/// owed to `a`.
pub open spec fn deposits_for(s: Seq<(NftKey, Details)>, a: AccountId) -> int
    decreases s.len(),
{
    if s.len() == 0 {
        0
    } else {
        deposits_for(s.drop_last(), a) + if s.last().1.deposit_owner == a {
            s.last().1.deposit as int
        } else {
            0
        }
    }
}

proof fn lemma_deposits_nonneg(s: Seq<(NftKey, Details)>, a: AccountId)
    ensures
        deposits_for(s, a) >= 0,
    decreases s.len(),
{
    if s.len() > 0 {
        lemma_deposits_nonneg(s.drop_last(), a);
    }
}

proof fn lemma_deposits_push(s: Seq<(NftKey, Details)>, e: (NftKey, Details), a: AccountId)
    ensures
        deposits_for(s.push(e), a) == deposits_for(s, a) + if e.1.deposit_owner == a {
            e.1.deposit as int
        } else {
            0
        },
{
    assert(s.push(e).drop_last() =~= s);
}

proof fn lemma_deposits_remove(s: Seq<(NftKey, Details)>, i: int, a: AccountId)
    requires
        0 <= i < s.len(),
    ensures
        deposits_for(s.remove(i), a) == deposits_for(s, a) - if s[i].1.deposit_owner == a {
            s[i].1.deposit as int
        } else {
            0
        },
    decreases s.len(),
{
    if i == s.len() - 1 {
        assert(s.remove(i) =~= s.drop_last());
    } else {
        lemma_deposits_remove(s.drop_last(), i, a);
        assert(s.remove(i).drop_last() =~= s.drop_last().remove(i));
        assert(s.remove(i).last() == s.last());
    }
}

/// The deposit recorded in any single entry is covered by the sum owed to
/// its deposit owner.
proof fn lemma_deposits_at_least(s: Seq<(NftKey, Details)>, i: int)
    requires
        0 <= i < s.len(),
    ensures
        deposits_for(s, s[i].1.deposit_owner) >= s[i].1.deposit,
{
    lemma_deposits_remove(s, i, s[i].1.deposit_owner);
    lemma_deposits_nonneg(s.remove(i), s[i].1.deposit_owner);
}

/// The lending module with its two collaborators: the listing and borrow
/// stores it manages, the asset registry, the deposit ledger, the
/// notifications emitted so far, and the configured deposit amount.
pub struct Pallet {
    pub lendable_nfts: Store<Details>,
    pub lent_nfts: Store<BorrowingDetails>,
    pub registry: AssetRegistry,
    pub ledger: Ledger,
    pub events: Vec<Event>,
    pub deposit: Balance,
}

impl View for Pallet {
    type V = StateView;

    open spec fn view(&self) -> StateView {
        StateView {
            lendable: self.lendable_nfts@,
            lent: self.lent_nfts@,
            assets: self.registry@,
            free: Map::new(|a: AccountId| true, |a: AccountId| self.ledger.free_of(a)),
            held: Map::new(|a: AccountId| true, |a: AccountId| self.ledger.held_of(a)),
            events: self.events@,
            deposit: self.deposit,
        }
    }
}

impl Pallet {
    /// Representation well-formedness together with the semantic
    /// invariant: the stores and the ledger are well-formed, the abstract
    /// state satisfies its invariant, and the balance held for every
    /// account is exactly the sum of the deposits its listings recorded.
    pub open spec fn wf(&self) -> bool {
        &&& self.lendable_nfts.wf()
        &&& self.lent_nfts.wf()
        &&& self.registry.wf()
        &&& self.ledger.wf()
        &&& self@.inv()
        &&& forall|a: AccountId|
            #[trigger] self.ledger.held_of(a) == deposits_for(self.lendable_nfts.entries@, a)
    }

    /// A fresh module: no assets, no listings, no borrows, no balances, no
    /// events, with the given configured deposit.
    pub fn new(deposit: Balance) -> (p: Pallet)
        ensures
            p.wf(),
            p@.deposit == deposit,
            p@.lendable =~= Map::<NftKey, Details>::empty(),
            p@.lent =~= Map::<NftKey, BorrowingDetails>::empty(),
            p@.assets =~= Map::<NftKey, AssetEntry>::empty(),
            forall|a: AccountId| #[trigger] p@.free[a] == 0,
            forall|a: AccountId| #[trigger] p@.held[a] == 0,
            p@.events =~= Seq::<Event>::empty(),
    {
        let p = Pallet {
            lendable_nfts: Store::new(),
            lent_nfts: Store::new(),
            registry: AssetRegistry::new(),
            ledger: Ledger::new(),
            events: Vec::new(),
            deposit,
        };
        p
    }

    /// The escrow account: the fixed account controlled by the module that
    /// holds custody of listed assets. It never signs an operation.
    pub fn get_pallet_account() -> (a: AccountId)
        ensures
            a == PALLET_ACCOUNT,
    {
        PALLET_ACCOUNT
    }

    /// Fixture: creates an asset with a fresh key in the registry,
    /// transferable and owned by `owner`.
    pub fn mint_nft(&mut self, nft_collection_id: u64, nft_id: u64, owner: AccountId)
        requires
            old(self).wf(),
            !old(self)@.assets.dom().contains(nft_key(nft_collection_id, nft_id)),
        ensures
            final(self).wf(),
            final(self)@ =~= (StateView {
                assets: old(self)@.assets.insert(
                    nft_key(nft_collection_id, nft_id),
                    AssetEntry { owner, transfer_enabled: true },
                ),
                ..old(self)@
            }),
    {
        let k = NftKey { collection_id: nft_collection_id, nft_id };
        self.registry.mint(k, owner);
    }

    /// Fixture: endows an account with a free balance; held funds are
    /// untouched.
    pub fn set_balance(&mut self, a: AccountId, amount: Balance)
        requires
            old(self).wf(),
            amount + old(self)@.held[a] <= Balance::MAX,
        ensures
            final(self).wf(),
            final(self)@ =~= (StateView { free: old(self)@.free.insert(a, amount), ..old(self)@ }),
    {
        self.ledger.set_free_balance(a, amount);
    }

    /// Lists an NFT for lending: the caller must be its registry owner and
    /// the periods must be ordered; the configured deposit is then held
    /// from the caller, custody moves to the escrow account with transfer
    /// disabled, and a listing record with the supplied terms is created.
    /// Any failure leaves every part of the state unchanged.
    pub fn list_nft(
        &mut self,
        who: AccountId,
        nft_collection_id: u64,
        nft_id: u64,
        min_period: u64,
        max_period: u64,
        price_per_block: Balance,
    ) -> (r: Result<(), DispatchError>)
        requires
            old(self).wf(),
            who != PALLET_ACCOUNT,
        ensures
            final(self).wf(),
            r == list_check(
                old(self)@,
                who,
                nft_key(nft_collection_id, nft_id),
                min_period,
                max_period,
            ),
            r is Ok ==> final(self)@ =~= list_apply(
                old(self)@,
                who,
                nft_key(nft_collection_id, nft_id),
                min_period,
                max_period,
                price_per_block,
            ),
            r is Err ==> final(self)@ =~= old(self)@,
    {
        let k = NftKey { collection_id: nft_collection_id, nft_id };
        let nft_owner = match self.registry.owner_of(k) {
            Some(o) => o,
            None => {
                return Err(DispatchError::Lending(Error::NftNotFound));
            },
        };
        if nft_owner != who {
            return Err(DispatchError::Lending(Error::NoPermission));
        }
        if min_period > max_period {
            return Err(DispatchError::Lending(Error::MinPeriodGreaterThanMaxPeriod));
        }
        let deposit = self.deposit;
        match self.ledger.hold(HoldReason::LendableNft, who, deposit) {
            Ok(()) => {},
            Err(e) => {
                return Err(e);
            },
        }
        proof {
            // The asset's owner is the caller, not the escrow account, so
            // it is unlisted and hence still transferable.
            assert(!old(self)@.lendable.dom().contains(k));
            assert(old(self)@.assets[k].transfer_enabled);
        }
        self.registry.transfer(k, PALLET_ACCOUNT);
        self.registry.disable_transfer(k);
        self.lendable_nfts.insert(
            k,
            Details {
                min_period,
                max_period,
                price_per_block,
                deposit,
                deposit_owner: who,
                nft_owner: who,
            },
        );
        self.events.push(
            Event::Lendable {
                nft_collection: nft_collection_id,
                nft_id,
                min_period,
                max_period,
                price_per_block,
            },
        );
        proof {
            let s0 = old(self)@;
            assert(self@.assets =~= s0.assets.insert(
                k,
                AssetEntry { owner: PALLET_ACCOUNT, transfer_enabled: false },
            ));
            assert(self@.free =~= s0.free.insert(who, (s0.free[who] - deposit) as Balance));
            assert(self@.held =~= s0.held.insert(who, (s0.held[who] + deposit) as Balance));
            assert(self@ =~= list_apply(s0, who, k, min_period, max_period, price_per_block));
            assert forall|a: AccountId|
                #[trigger] self.ledger.held_of(a) == deposits_for(
                    self.lendable_nfts.entries@,
                    a,
                ) by {
                lemma_deposits_push(
                    old(self).lendable_nfts.entries@,
                    (
                        k,
                        Details {
                            min_period,
                            max_period,
                            price_per_block,
                            deposit,
                            deposit_owner: who,
                            nft_owner: who,
                        },
                    ),
                    a,
                );
            }
        }
        Ok(())
    }

    /// Borrows a listed NFT for `borrowing_period` blocks: the key must be
    /// listed, not yet lent, and the period must lie within the listing's
    /// bounds; exactly one borrow record is then created. Custody stays
    /// with the escrow account and no funds move. Any failure leaves every
    /// part of the state unchanged.
    pub fn borrow_nft(
        &mut self,
        who: AccountId,
        nft_collection_id: u64,
        nft_id: u64,
        borrowing_period: u64,
    ) -> (r: Result<(), DispatchError>)
        requires
            old(self).wf(),
        ensures
            final(self).wf(),
            r == borrow_check(
                old(self)@,
                who,
                nft_key(nft_collection_id, nft_id),
                borrowing_period,
            ),
            r is Ok ==> final(self)@ =~= borrow_apply(
                old(self)@,
                who,
                nft_key(nft_collection_id, nft_id),
                borrowing_period,
            ),
            r is Err ==> final(self)@ =~= old(self)@,
    {
        let k = NftKey { collection_id: nft_collection_id, nft_id };
        let details = match self.lendable_nfts.get(k) {
            Some(d) => d,
            None => {
                return Err(DispatchError::Lending(Error::LendableNftNotFound));
            },
        };
        if self.lent_nfts.contains_key(k) {
            return Err(DispatchError::Lending(Error::NftAlreadyLent));
        }
        if borrowing_period < details.min_period {
            return Err(DispatchError::Lending(Error::BorrowingPeriodLessThanMinPeriod));
        }
        if borrowing_period > details.max_period {
            return Err(DispatchError::Lending(Error::BorrowingPeriodGreaterThanMaxPeriod));
        }
        self.lent_nfts.insert(k, BorrowingDetails { borrowing_period, borrower: who });
        self.events.push(
            Event::Lent {
                nft_collection: nft_collection_id,
                nft_id,
                borrowing_period,
                borrower: who,
            },
        );
        proof {
            assert(self@ =~= borrow_apply(old(self)@, who, k, borrowing_period));
        }
        Ok(())
    }

    /// Removes an NFT from lending: the caller must be the account that
    /// listed it; transfer is then re-enabled, custody returns to the
    /// caller, the listing record is deleted, and the held deposit is
    /// refunded in full to the deposit owner. An outstanding borrow record
    /// is neither consulted nor cleared. Any failure leaves every part of
    /// the state unchanged.
    pub fn remove_from_lending(
        &mut self,
        who: AccountId,
        nft_collection_id: u64,
        nft_id: u64,
    ) -> (r: Result<(), DispatchError>)
        requires
            old(self).wf(),
        ensures
            final(self).wf(),
            r == reclaim_check(old(self)@, who, nft_key(nft_collection_id, nft_id)),
            r is Ok ==> final(self)@ =~= reclaim_apply(
                old(self)@,
                who,
                nft_key(nft_collection_id, nft_id),
            ),
            // the refund is always the full recorded deposit
            r is Ok ==> final(self)@.free[old(self)@.lendable[nft_key(
                nft_collection_id,
                nft_id,
            )].deposit_owner] == old(self)@.free[old(self)@.lendable[nft_key(
                nft_collection_id,
                nft_id,
            )].deposit_owner] + old(self)@.lendable[nft_key(nft_collection_id, nft_id)].deposit,
            r is Err ==> final(self)@ =~= old(self)@,
    {
        let k = NftKey { collection_id: nft_collection_id, nft_id };
        let details = match self.lendable_nfts.get(k) {
            Some(d) => d,
            None => {
                return Err(DispatchError::Lending(Error::LendableNftNotFound));
            },
        };
        if details.nft_owner != who {
            return Err(DispatchError::Lending(Error::NoPermission));
        }
        proof {
            // The sum of recorded deposits covers this record's deposit,
            // so the best-effort release refunds it in full.
            lemma_assoc_contains(self.lendable_nfts.entries@, k);
            let i = choose|i: int|
                0 <= i < self.lendable_nfts.entries@.len() && (#[trigger] self.lendable_nfts.entries@[i]).0
                    == k;
            lemma_assoc_index(self.lendable_nfts.entries@, i);
            lemma_deposits_at_least(self.lendable_nfts.entries@, i);
            assert(self.ledger.held_of(details.deposit_owner) >= details.deposit);
        }
        self.registry.enable_transfer(k);
        self.registry.transfer(k, who);
        self.lendable_nfts.remove(k);
        let _released = self.ledger.release(
            HoldReason::LendableNft,
            details.deposit_owner,
            details.deposit,
        );
        self.events.push(Event::NotLendable { nft_collection: nft_collection_id, nft_id });
        proof {
            let s0 = old(self)@;
            assert(self@.assets =~= s0.assets.insert(
                k,
                AssetEntry { owner: who, transfer_enabled: true },
            ));
            assert(self@.free =~= s0.free.insert(
                details.deposit_owner,
                (s0.free[details.deposit_owner] + details.deposit) as Balance,
            ));
            assert(self@.held =~= s0.held.insert(
                details.deposit_owner,
                (s0.held[details.deposit_owner] - details.deposit) as Balance,
            ));
            assert(self@ =~= reclaim_apply(s0, who, k));
            let i = choose|i: int|
                0 <= i < old(self).lendable_nfts.entries@.len() && #[trigger] old(
                    self,
                ).lendable_nfts.entries@[i] == (k, s0.lendable[k]) && self.lendable_nfts.entries@
                    == old(self).lendable_nfts.entries@.remove(i);
            assert forall|a: AccountId|
                #[trigger] self.ledger.held_of(a) == deposits_for(
                    self.lendable_nfts.entries@,
                    a,
                ) by {
                lemma_deposits_remove(old(self).lendable_nfts.entries@, i, a);
            }
        }
        Ok(())
    }

    /// The listing record for a key, as the listing store has it.
    pub fn get_lendable_nfts(&self, nft_collection_id: u64, nft_id: u64) -> (r: Option<Details>)
        requires
            self.wf(),
        ensures
            self@.lendable.dom().contains(nft_key(nft_collection_id, nft_id)) ==> r == Some(
                self@.lendable[nft_key(nft_collection_id, nft_id)],
            ),
            !self@.lendable.dom().contains(nft_key(nft_collection_id, nft_id)) ==> r is None,
    {
        self.lendable_nfts.get(NftKey { collection_id: nft_collection_id, nft_id })
    }

    /// The borrow record for a key, as the borrow store has it.
    pub fn get_lent_nfts(&self, nft_collection_id: u64, nft_id: u64) -> (r: Option<
        BorrowingDetails,
    >)
        requires
            self.wf(),
        ensures
            self@.lent.dom().contains(nft_key(nft_collection_id, nft_id)) ==> r == Some(
                self@.lent[nft_key(nft_collection_id, nft_id)],
            ),
            !self@.lent.dom().contains(nft_key(nft_collection_id, nft_id)) ==> r is None,
    {
        self.lent_nfts.get(NftKey { collection_id: nft_collection_id, nft_id })
    }

    /// The registry's owner of record for a key.
    pub fn owner_of(&self, nft_collection_id: u64, nft_id: u64) -> (r: Option<AccountId>)
        requires
            self.wf(),
        ensures
            self@.assets.dom().contains(nft_key(nft_collection_id, nft_id)) ==> r == Some(
                self@.assets[nft_key(nft_collection_id, nft_id)].owner,
            ),
            !self@.assets.dom().contains(nft_key(nft_collection_id, nft_id)) ==> r is None,
    {
        self.registry.owner_of(NftKey { collection_id: nft_collection_id, nft_id })
    }

    /// Whether the registry lets a key be transferred.
    pub fn transfer_enabled(&self, nft_collection_id: u64, nft_id: u64) -> (r: Option<bool>)
        requires
            self.wf(),
        ensures
            self@.assets.dom().contains(nft_key(nft_collection_id, nft_id)) ==> r == Some(
                self@.assets[nft_key(nft_collection_id, nft_id)].transfer_enabled,
            ),
            !self@.assets.dom().contains(nft_key(nft_collection_id, nft_id)) ==> r is None,
    {
        match self.registry.assets.get(NftKey { collection_id: nft_collection_id, nft_id }) {
            Some(e) => Some(e.transfer_enabled),
            None => None,
        }
    }

    /// The free balance of an account with the deposit ledger.
    pub fn free_balance(&self, a: AccountId) -> (r: Balance)
        requires
            self.wf(),
        ensures
            r == self@.free[a],
    {
        self.ledger.free_balance(a)
    }

    /// The balance held for an account under the module's hold reason.
    pub fn held_balance(&self, a: AccountId) -> (r: Balance)
        requires
            self.wf(),
        ensures
            r == self@.held[a],
    {
        self.ledger.held_balance(a)
    }

    /// The notifications emitted so far, oldest first.
    pub fn event_log(&self) -> (r: &Vec<Event>)
        ensures
            r@ == self@.events,
    {
        &self.events
    }
}

} // verus!
