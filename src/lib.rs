//! Ledger core for deposit accounts: exact decimal amounts, the account and
//! transaction domain model, and the posting rules that keep balances and
//! their audit trail consistent.
//!
//! - [`decimal`]: exact fixed-point amounts.
//! - [`account`], [`transaction`], [`product`], [`interest`], [`customer`],
//!   [`user`]: the entities and their rules.
//! - [`posting`]: each operation as a plan from a stored account to its
//!   successor and postings, and the version check that guards storing it.
//! - [`records`]: storage rows and their mapping to entities.
//! - [`laws`]: properties that relate several operations.

pub mod decimal;
pub mod text;
pub mod validation;
pub mod date;
mod ids;
pub mod error;
pub mod account;
pub mod transaction;
pub mod product;
pub mod interest;
pub mod customer;
pub mod user;
pub mod posting;
pub mod numbering;
pub mod records;
pub mod laws;
pub mod config;
pub mod api;
