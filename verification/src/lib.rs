//! A minimal ledger contract: a counter that anyone may increment, that its
//! owner may reset, and an "admin seat" that can be bought by paying at least
//! the price the previous buyer paid.
//!
//! This crate holds the contract's state machine: the persisted [`state::State`]
//! record, the four operations on it, and their authorization and
//! payment-validation rules. The host plumbing (storage, message encoding,
//! chain interaction) lives outside the verified library.

pub mod contract;
pub mod error;
pub mod msg;
pub mod state;

pub use crate::error::ContractError;
