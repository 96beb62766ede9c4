//! Custody/escrow and time-bounded usage-rights state machine for
//! non-fungible assets.
//!
//! Owners place an asset into lendable status by escrowing it together with
//! a deposit; other participants acquire temporary usage rights for a
//! bounded period; owners reclaim the asset and their deposit when lending
//! ends. The asset registry and the fungible deposit ledger that the state
//! machine drives are modeled explicitly, so every custody and accounting
//! guarantee is stated and proved over one self-contained state.

pub mod laws;
pub mod ledger;
pub mod lending;
pub mod registry;
pub mod state;
pub mod store;
pub mod types;

pub use lending::Pallet;
pub use types::{
    AccountId, Balance, BorrowingDetails, Details, DispatchError, Error, Event, HoldReason, NftKey,
};
