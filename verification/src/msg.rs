//! The message shapes the contract is driven by.

use vstd::prelude::*;
use crate::state::{Coin, CoinView};

verus! {

/// Creates the contract: the initial counter value and the initial price of
/// the admin seat.
pub struct InstantiateMsg {
    pub count: i32,
    pub price: Coin,
}

/// Mathematical image of an [`InstantiateMsg`].
pub struct InstantiateMsgView {
    pub count: int,
    pub price: CoinView,
}

impl View for InstantiateMsg {
    type V = InstantiateMsgView;

    open spec fn view(&self) -> InstantiateMsgView {
        InstantiateMsgView { count: self.count as int, price: self.price@ }
    }
}

/// The mutating operations, dispatched by variant.
#[derive(Clone, Copy, Debug, PartialEq, Eq, Structural)]
pub enum ExecuteMsg {
    /// Add one to the counter. Open to any caller.
    Increment {},
    /// Set the counter to `count`. Only the owner may do this.
    Reset { count: i32 },
    /// Buy the admin seat with the coins attached to the call.
    BuyAdmin {},
}

/// The read operations, dispatched by variant.
#[derive(Clone, Copy, Debug, PartialEq, Eq, Structural)]
pub enum QueryMsg {
    /// Ask for the current counter value.
    GetCount {},
}

/// The answer to [`QueryMsg::GetCount`].
#[derive(Clone, Copy, Debug, PartialEq, Eq, Structural)]
pub struct GetCountResponse {
    pub count: i32,
}

} // verus!
