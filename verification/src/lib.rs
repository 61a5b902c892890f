//! An access-controlled balance ledger.
//!
//! One owner, fixed when the ledger is made, may credit and debit the
//! 32-bit balances of accounts; anybody may read a balance. Balances
//! saturate at both ends of the `u32` range instead of wrapping.

pub mod account;
pub mod error;
pub mod laws;
pub mod ledger;
pub mod model;
pub mod policy;
pub mod store;

pub use account::AccountId;
pub use error::Error;
pub use ledger::Koins;
pub use model::Ledger;
