//! Business-logic core of a fixed-supply, paid-minting token collection.
//!
//! The core decides who may mutate collection state, enforces exact payment
//! and supply constraints, and answers configuration and royalty queries.
//! It is pure: every function maps plain values to plain values, so a host
//! (which owns storage, the token ledger, and message plumbing) drives it by
//! loading state, calling in, and persisting what comes back.

pub mod contract;
pub mod digits;
pub mod error;
pub mod msg;
pub mod state;
