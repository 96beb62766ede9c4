use vstd::prelude::*;

verus! {

/// Account identifier in the balance ledger and the asset registry.
pub type AccountId = u64;

/// Amount of fungible balance.
pub type Balance = u64;

/// Composite key addressing one non-fungible asset: the collection it
/// belongs to together with its identifier inside that collection.
#[derive(Clone, Copy, PartialEq, Eq, Structural, Debug)]
pub struct NftKey {
    pub collection_id: u64,
    pub nft_id: u64,
}

/// Listing record for a lendable NFT, created by `list_nft` and destroyed
/// by `remove_from_lending`.
#[derive(Clone, Copy, PartialEq, Eq, Structural, Debug, Default)]
pub struct Details {
    /// The minimum number of blocks the NFT can be lent.
    pub min_period: u64,
    /// The maximum number of blocks the NFT can be lent.
    pub max_period: u64,
    /// The lending price per block (advisory: no payment flow is attached).
    pub price_per_block: Balance,
    /// Reserved deposit for creating a new lendable NFT.
    pub deposit: Balance,
    /// Account entitled to the deposit refund.
    pub deposit_owner: AccountId,
    /// Account that owned the NFT before it was made lendable.
    pub nft_owner: AccountId,
}

/// Borrow record for a lendable NFT that is currently lent, created by
/// `borrow_nft`. No operation removes it: the period is recorded but never
/// checked for expiry, an unresolved gap kept as it stands.
#[derive(Clone, Copy, PartialEq, Eq, Structural, Debug, Default)]
pub struct BorrowingDetails {
    /// The number of blocks the NFT is being borrowed for.
    pub borrowing_period: u64,
    /// Account that borrowed the lendable NFT.
    pub borrower: AccountId,
}

/// Business-rule violations of the three lending operations.
#[derive(Clone, Copy, PartialEq, Eq, Structural, Debug)]
pub enum Error {
    /// The NFT is not lendable.
    LendableNftNotFound,
    /// The NFT does not exist.
    NftNotFound,
    /// The signing account has no permission to do the operation.
    NoPermission,
    /// The NFT is already lent.
    NftAlreadyLent,
    /// The borrowing period is less than the minimum period.
    BorrowingPeriodLessThanMinPeriod,
    /// The borrowing period is greater than the maximum period.
    BorrowingPeriodGreaterThanMaxPeriod,
    /// The min_period a NFT can be lent is greater than max_period.
    MinPeriodGreaterThanMaxPeriod,
}

/// What an operation reports on failure: either one of the lending rules
/// was violated, or the deposit ledger could not hold the required funds.
#[derive(Clone, Copy, PartialEq, Eq, Structural, Debug)]
pub enum DispatchError {
    /// A precondition of the lending state machine failed.
    Lending(Error),
    /// The deposit ledger could not reserve the requested amount.
    FundsUnavailable,
}

/// A reason for the module placing a hold on funds.
#[derive(Clone, Copy, PartialEq, Eq, Structural, Debug)]
pub enum HoldReason {
    /// Reserved for making an NFT lendable.
    LendableNft,
}

/// Notifications emitted by successful operations, in order of emission.
#[derive(Clone, Copy, PartialEq, Eq, Structural, Debug)]
pub enum Event {
    /// An NFT has been made lendable.
    Lendable {
        nft_collection: u64,
        nft_id: u64,
        min_period: u64,
        max_period: u64,
        price_per_block: Balance,
    },
    /// An NFT has been lent.
    Lent { nft_collection: u64, nft_id: u64, borrowing_period: u64, borrower: AccountId },
    /// An NFT has been removed from being lendable.
    NotLendable { nft_collection: u64, nft_id: u64 },
}

} // verus!
