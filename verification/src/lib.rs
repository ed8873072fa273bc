//! Validation rules of two on-chain type scripts of a cell-based ledger: a
//! vote resource script and a fungible vote-token script.
//!
//! Every rule is a pure function of a read-only [`types::TransactionView`]
//! and returns either success or one [`error::Error`].

pub mod amount;
pub mod error;
pub mod hash;
pub mod identity;
pub mod layout;
pub mod mode;
pub mod token;
pub mod types;
pub mod vote_resource;
