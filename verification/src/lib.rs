//! ERC20-style token ledger: balances, allowances and a capped reserve of
//! tokens that have not been issued yet, with the four operations that change
//! them. Every operation checks before it writes, so a failed call leaves the
//! ledger as it was.

pub mod arith;
pub mod encoding;
pub mod genesis;
pub mod laws;
pub mod ledger;
pub mod pallet;
pub mod store;
pub mod types;

pub use genesis::GenesisConfig;
pub use ledger::Ledger;
pub use pallet::Pallet;
pub use store::{AccountStore, AllowanceStore, SupplyCounter};
pub use types::{AccountId, Balance, Config, Error, Event};
