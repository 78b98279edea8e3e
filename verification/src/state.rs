//! The persisted contract state and the plain values it is built from.

use vstd::prelude::*;
use vstd::string::StringExecFns;

verus! {

/// A payment: an amount of one token denomination.
#[derive(Debug)]
pub struct Coin {
    pub denom: String,
    pub amount: u128,
}

/// Mathematical image of a [`Coin`].
pub struct CoinView {
    pub denom: Seq<char>,
    pub amount: int,
}

impl View for Coin {
    type V = CoinView;

    open spec fn view(&self) -> CoinView {
        CoinView { denom: self.denom@, amount: self.amount as int }
    }
}

impl Coin {
    pub fn new(amount: u128, denom: &str) -> (c: Coin)
        ensures
            c@ == (CoinView { denom: denom@, amount: amount as int }),
    {
        Coin { denom: String::from_str(denom), amount }
    }
}

impl Clone for Coin {
    fn clone(&self) -> (c: Coin)
        ensures
            c == *self,
    {
        Coin { denom: self.denom.clone(), amount: self.amount }
    }
}

impl PartialEq for Coin {
    fn eq(&self, other: &Coin) -> (r: bool) {
        self.denom == other.denom && self.amount == other.amount
    }
}

impl vstd::std_specs::cmp::PartialEqSpecImpl for Coin {
    open spec fn obeys_eq_spec() -> bool {
        true
    }

    open spec fn eq_spec(&self, other: &Coin) -> bool {
        self@ == other@
    }
}

/// The one persisted record: the counter, the admin seat's holder, and the
/// price the seat was last paid.
pub struct State {
    pub count: i32,
    pub owner: String,
    pub last_price: Coin,
}

/// Mathematical image of a [`State`].
pub struct StateView {
    pub count: int,
    pub owner: Seq<char>,
    pub last_price: CoinView,
}

impl View for State {
    type V = StateView;

    open spec fn view(&self) -> StateView {
        StateView { count: self.count as int, owner: self.owner@, last_price: self.last_price@ }
    }
}

/// What the host tells the contract about the call: the calling account and
/// the coins attached to the transaction, in the order they were attached.
pub struct MessageInfo {
    pub sender: String,
    pub funds: Vec<Coin>,
}

/// Mathematical image of a [`MessageInfo`].
pub struct MessageInfoView {
    pub sender: Seq<char>,
    pub funds: Seq<CoinView>,
}

impl View for MessageInfo {
    type V = MessageInfoView;

    open spec fn view(&self) -> MessageInfoView {
        MessageInfoView {
            sender: self.sender@,
            funds: self.funds@.map_values(|c: Coin| c@),
        }
    }
}

} // verus!
