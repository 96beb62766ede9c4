//! Authoritative asset-ownership registry: owner-of-record lookup, a
//! transfer primitive, and a per-asset transfer-enable/disable capability.

use crate::store::Store;
use crate::types::{AccountId, NftKey};
use vstd::prelude::*;

verus! {

/// What the registry records of one asset.
#[derive(Clone, Copy, PartialEq, Eq, Structural, Debug)]
pub struct AssetEntry {
    /// Owner of record.
    pub owner: AccountId,
    /// Whether the asset may currently be transferred.
    pub transfer_enabled: bool,
}

/// The registry itself: one entry per existing asset.
pub struct AssetRegistry {
    pub assets: Store<AssetEntry>,
}

impl View for AssetRegistry {
    type V = Map<NftKey, AssetEntry>;

    open spec fn view(&self) -> Map<NftKey, AssetEntry> {
        self.assets@
    }
}

impl AssetRegistry {
    pub open spec fn wf(&self) -> bool {
        self.assets.wf()
    }

    pub fn new() -> (r: AssetRegistry)
        ensures
            r.wf(),
            r@ =~= Map::<NftKey, AssetEntry>::empty(),
    {
        AssetRegistry { assets: Store::new() }
    }

    /// Creates an asset with a fresh key, transferable from the start: the
    /// registry's mint primitive, by which fixtures bring assets about.
    pub fn mint(&mut self, k: NftKey, owner: AccountId)
        requires
            old(self).wf(),
            !old(self)@.dom().contains(k),
        ensures
            final(self).wf(),
            final(self)@ =~= old(self)@.insert(
                k,
                AssetEntry { owner, transfer_enabled: true },
            ),
    {
        self.assets.insert(k, AssetEntry { owner, transfer_enabled: true });
    }

    /// Owner of record of an asset, `None` when the key is unknown.
    pub fn owner_of(&self, k: NftKey) -> (r: Option<AccountId>)
        requires
            self.wf(),
        ensures
            self@.dom().contains(k) ==> r == Some(self@[k].owner),
            !self@.dom().contains(k) ==> r is None,
    {
        match self.assets.get(k) {
            Some(e) => Some(e.owner),
            None => None,
        }
    }

    /// Moves ownership of a transferable asset to `to`.
    pub fn transfer(&mut self, k: NftKey, to: AccountId)
        requires
            old(self).wf(),
            old(self)@.dom().contains(k),
            old(self)@[k].transfer_enabled,
        ensures
            final(self).wf(),
            final(self)@ =~= old(self)@.insert(
                k,
                AssetEntry { owner: to, transfer_enabled: true },
            ),
    {
        self.assets.insert(k, AssetEntry { owner: to, transfer_enabled: true });
    }

    /// Disables the transfer capability of an asset, locking it in place.
    pub fn disable_transfer(&mut self, k: NftKey)
        requires
            old(self).wf(),
            old(self)@.dom().contains(k),
        ensures
            final(self).wf(),
            final(self)@ =~= old(self)@.insert(
                k,
                AssetEntry { owner: old(self)@[k].owner, transfer_enabled: false },
            ),
    {
        let e = self.assets.get(k);
        match e {
            Some(entry) => {
                self.assets.insert(k, AssetEntry { owner: entry.owner, transfer_enabled: false });
            },
            None => {},
        }
    }

    /// Re-enables the transfer capability of an asset.
    pub fn enable_transfer(&mut self, k: NftKey)
        requires
            old(self).wf(),
            old(self)@.dom().contains(k),
        ensures
            final(self).wf(),
            final(self)@ =~= old(self)@.insert(
                k,
                AssetEntry { owner: old(self)@[k].owner, transfer_enabled: true },
            ),
    {
        let e = self.assets.get(k);
        match e {
            Some(entry) => {
                self.assets.insert(k, AssetEntry { owner: entry.owner, transfer_enabled: true });
            },
            None => {},
        }
    }
}

} // verus!
