//! An in-memory ledger: accounts with a balance and a business lock, and a
//! queue of transfers that is drained in order, one leg at a time.
//!
//! Amounts and balances are signed fixed-point numbers, held as a whole count
//! of the smallest unit of money. Every step of a transfer is described by a
//! mathematical model (`model`), and the executable code is proved against it.

pub mod domain;
pub mod text;
pub mod roles;
pub mod model;
pub mod store;
pub mod context;
pub mod laws;
