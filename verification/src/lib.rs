//! A minimal community-currency ledger: a named unit of account with a fixed
//! total supply, owned by an admin, and a per-identity balance table that
//! supports authorized transfers.
//!
//! The ledger keeps its whole state in an explicit value and reports every
//! rejected call as a typed error that leaves the state untouched.

pub mod auth;
pub mod balances;
pub mod contract;
pub mod currency;
pub mod error;
pub mod identity;
pub mod laws;
pub mod ledger;
pub mod model;
pub mod storage;

pub use contract::CommunityCurrencyContract;
pub use currency::CurrencyInfo;
pub use error::LedgerError;
pub use identity::Identity;
pub use storage::{Balance, Storage, TtlExtension};
