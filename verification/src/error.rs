//! The errors the contract can reject a call with.
//!
//! Storage and encoding failures belong to the host boundary and are surfaced
//! there; the core itself rejects a call only for the reasons below.

use vstd::prelude::*;
use crate::state::{Coin, CoinView};

verus! {

/// Why a call was rejected. A rejected call leaves the state untouched.
#[derive(Debug)]
pub enum ContractError {
    /// The caller lacks the ownership that the operation demands.
    Unauthorized {},
    /// The payment attached to a purchase was missing, of the wrong
    /// denomination, or below the current price.
    InvalidPayment { expected: Coin, received: Coin },
}

/// Mathematical image of a [`ContractError`].
pub enum ContractErrorView {
    Unauthorized {},
    InvalidPayment { expected: CoinView, received: CoinView },
}

impl View for ContractError {
    type V = ContractErrorView;

    open spec fn view(&self) -> ContractErrorView {
        match self {
            ContractError::Unauthorized {} => ContractErrorView::Unauthorized {},
            ContractError::InvalidPayment { expected, received } => {
                ContractErrorView::InvalidPayment { expected: expected@, received: received@ }
            },
        }
    }
}

impl PartialEq for ContractError {
    fn eq(&self, other: &ContractError) -> (r: bool) {
        match (self, other) {
            (ContractError::Unauthorized {}, ContractError::Unauthorized {}) => true,
            (
                ContractError::InvalidPayment { expected: e1, received: r1 },
                ContractError::InvalidPayment { expected: e2, received: r2 },
            ) => e1 == e2 && r1 == r2,
            _ => false,
        }
    }
}

impl vstd::std_specs::cmp::PartialEqSpecImpl for ContractError {
    open spec fn obeys_eq_spec() -> bool {
        true
    }

    open spec fn eq_spec(&self, other: &ContractError) -> bool {
        self@ == other@
    }
}

} // verus!
