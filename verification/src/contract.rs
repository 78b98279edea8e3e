//! The contract's state machine: the four operations, their authorization and
//! payment-validation rules, and the laws that hold of them.
//!
//! Every operation is a single atomic transition: it either replaces the whole
//! [`State`] or, on rejection, leaves it exactly as it was. The spec functions
//! below state each transition over the mathematical images of the exec types;
//! the exec functions are proved to follow them, and the proof functions at
//! the end state the laws that relate the transitions.

use vstd::prelude::*;
use crate::error::{ContractError, ContractErrorView};
use crate::msg::{ExecuteMsg, GetCountResponse, InstantiateMsg, InstantiateMsgView, QueryMsg};
use crate::state::{Coin, CoinView, MessageInfo, MessageInfoView, State, StateView};

verus! {

/// The state a fresh contract starts in: the caller-supplied counter and
/// price, owned by the instantiating account.
pub open spec fn spec_instantiate(sender: Seq<char>, msg: InstantiateMsgView) -> StateView {
    StateView { count: msg.count, owner: sender, last_price: msg.price }
}

/// Increment moves the counter up by one and touches nothing else. It asks
/// for no authorization, so it does not look at the caller.
pub open spec fn spec_increment(s: StateView) -> StateView {
    StateView { count: s.count + 1, ..s }
}

/// Reset sets the counter to the supplied value — any value, negative ones
/// included — but only for the owner; every other caller is turned away with
/// `Unauthorized` and the state stands as it was.
pub open spec fn spec_reset(s: StateView, sender: Seq<char>, count: int) -> Result<
    StateView,
    ContractErrorView,
> {
    if sender != s.owner {
        Err(ContractErrorView::Unauthorized {})
    } else {
        Ok(StateView { count, ..s })
    }
}

/// The coin a purchase is judged by: the last coin attached to the call.
/// Earlier attached coins are ignored; with nothing attached the payment
/// counts as zero of the empty denomination.
pub open spec fn spec_payment(info: MessageInfoView) -> CoinView {
    if info.funds.len() == 0 {
        CoinView { denom: Seq::empty(), amount: 0 }
    } else {
        info.funds.last()
    }
}

/// Whether `paid` settles a price of `price`: same denomination, and at least
/// the asked amount. Overpayment is accepted, without refund.
pub open spec fn spec_pays(paid: CoinView, price: CoinView) -> bool {
    paid.denom == price.denom && paid.amount >= price.amount
}

/// BuyAdmin hands the admin seat to the caller if the attached payment
/// settles the current `last_price`; the price then ratchets to the amount
/// actually paid. Otherwise it rejects the call with `InvalidPayment`,
/// carrying the price asked and the payment received, and the state stands
/// as it was.
pub open spec fn spec_buy_admin(s: StateView, info: MessageInfoView) -> Result<
    StateView,
    ContractErrorView,
> {
    let paid = spec_payment(info);
    if info.funds.len() == 0 || !spec_pays(paid, s.last_price) {
        Err(ContractErrorView::InvalidPayment { expected: s.last_price, received: paid })
    } else {
        Ok(StateView { count: s.count, owner: info.sender, last_price: paid })
    }
}

/// One mutating step: the transition that `msg` names, from `s`, called by
/// `info.sender` with `info.funds` attached.
pub open spec fn spec_execute(s: StateView, info: MessageInfoView, msg: ExecuteMsg) -> Result<
    StateView,
    ContractErrorView,
> {
    match msg {
        ExecuteMsg::Increment {} => Ok(spec_increment(s)),
        ExecuteMsg::Reset { count } => spec_reset(s, info.sender, count as int),
        ExecuteMsg::BuyAdmin {} => spec_buy_admin(s, info),
    }
}

/// What GetCount answers: the counter as it stands.
pub open spec fn spec_count(s: StateView) -> int {
    s.count
}

/// Creates the one persisted state record. Always succeeds.
pub fn instantiate(info: MessageInfo, msg: InstantiateMsg) -> (state: State)
    ensures
        state@ == spec_instantiate(info.sender@, msg@),
{
    State { count: msg.count, owner: info.sender, last_price: msg.price }
}

/// Adds one to the counter; any caller may do so. The counter is an `i32`
/// and the host aborts the call on overflow, so the step asks for room.
pub fn increment(state: &mut State) -> (r: Result<(), ContractError>)
    requires
        old(state).count < i32::MAX,
    ensures
        r is Ok,
        final(state)@ == spec_increment(old(state)@),
{
    state.count = state.count + 1;
    Ok(())
}

/// Sets the counter to `count` if the caller owns the contract; otherwise
/// rejects the call with `Unauthorized` and changes nothing.
pub fn reset(state: &mut State, info: &MessageInfo, count: i32) -> (r: Result<(), ContractError>)
    ensures
        match spec_reset(old(state)@, info.sender@, count as int) {
            Ok(s) => r is Ok && final(state)@ == s,
            Err(e) => (r matches Err(a) && a@ == e) && final(state)@ == old(state)@,
        },
        r is Err ==> final(state)@ == old(state)@,
{
    if !(info.sender == state.owner) {
        return Err(ContractError::Unauthorized {});
    }
    state.count = count;
    Ok(())
}

/// Hands the admin seat to the caller if the attached payment settles the
/// current price, and ratchets the price to the amount actually paid;
/// otherwise rejects the call with `InvalidPayment` and changes nothing.
/// Only the last attached coin is consulted.
pub fn buy_admin(state: &mut State, info: &MessageInfo) -> (r: Result<(), ContractError>)
    ensures
        match spec_buy_admin(old(state)@, info@) {
            Ok(s) => r is Ok && final(state)@ == s,
            Err(e) => (r matches Err(a) && a@ == e) && final(state)@ == old(state)@,
        },
        r is Err ==> final(state)@ == old(state)@,
{
    if info.funds.len() == 0 {
        return Err(ContractError::InvalidPayment {
            expected: state.last_price.clone(),
            received: Coin { denom: String::new(), amount: 0 },
        });
    }
    let paid = &info.funds[info.funds.len() - 1];
    if !(paid.denom == state.last_price.denom) || paid.amount < state.last_price.amount {
        return Err(ContractError::InvalidPayment {
            expected: state.last_price.clone(),
            received: paid.clone(),
        });
    }
    state.owner = info.sender.clone();
    state.last_price = paid.clone();
    Ok(())
}

/// Runs the mutating operation that `msg` names. On any rejection the state
/// is left exactly as it was: no operation commits a partial update.
pub fn execute(state: &mut State, info: &MessageInfo, msg: ExecuteMsg) -> (r: Result<
    (),
    ContractError,
>)
    requires
        msg is Increment ==> old(state).count < i32::MAX,
    ensures
        match spec_execute(old(state)@, info@, msg) {
            Ok(s) => r is Ok && final(state)@ == s,
            Err(e) => (r matches Err(a) && a@ == e) && final(state)@ == old(state)@,
        },
        r is Err ==> final(state)@ == old(state)@,
{
    match msg {
        ExecuteMsg::Increment {} => increment(state),
        ExecuteMsg::Reset { count } => reset(state, info, count),
        ExecuteMsg::BuyAdmin {} => buy_admin(state, info),
    }
}

/// Answers the read operation that `msg` names. A pure read: the state is
/// only borrowed, no authorization is asked.
pub fn query(state: &State, msg: QueryMsg) -> (resp: GetCountResponse)
    ensures
        match msg {
            QueryMsg::GetCount {} => resp.count as int == spec_count(state@),
        },
{
    match msg {
        QueryMsg::GetCount {} => count(state),
    }
}

/// The current counter value, wrapped in the query's answer shape.
pub fn count(state: &State) -> (resp: GetCountResponse)
    ensures
        resp.count as int == spec_count(state@),
{
    GetCountResponse { count: state.count }
}

/// The counter after `n` increments from `s`.
pub open spec fn spec_increment_n(s: StateView, n: nat) -> StateView
    decreases n,
{
    if n == 0 {
        s
    } else {
        spec_increment(spec_increment_n(s, (n - 1) as nat))
    }
}

/// Law: right after instantiation, GetCount answers the supplied count, the
/// instantiating account owns the contract, and the supplied price is the
/// price of the admin seat.
pub proof fn lemma_instantiate(sender: Seq<char>, msg: InstantiateMsgView)
    ensures
        spec_count(spec_instantiate(sender, msg)) == msg.count,
        spec_instantiate(sender, msg).owner == sender,
        spec_instantiate(sender, msg).last_price == msg.price,
{
}

/// Law: `n` increments from count `c` leave the counter at `c + n`, and touch
/// neither the owner nor the price.
pub proof fn lemma_increment_n(s: StateView, n: nat)
    ensures
        spec_increment_n(s, n).count == s.count + n,
        spec_increment_n(s, n).owner == s.owner,
        spec_increment_n(s, n).last_price == s.last_price,
    decreases n,
{
    if n > 0 {
        lemma_increment_n(s, (n - 1) as nat);
    }
}

/// Law: an increment step is the same whoever calls it — the transition does
/// not read the caller or the attached funds.
pub proof fn lemma_increment_caller_blind(s: StateView, a: MessageInfoView, b: MessageInfoView)
    ensures
        spec_execute(s, a, ExecuteMsg::Increment {}) == spec_execute(
            s,
            b,
            ExecuteMsg::Increment {},
        ),
{
}

/// Law: Reset by anyone but the owner fails with `Unauthorized`; Reset by the
/// owner succeeds and sets the counter to exactly the supplied value, negative
/// values included, leaving owner and price alone.
pub proof fn lemma_reset_authorization(s: StateView, sender: Seq<char>, count: int)
    ensures
        sender != s.owner ==> spec_reset(s, sender, count) == Result::<
            StateView,
            ContractErrorView,
        >::Err(ContractErrorView::Unauthorized {}),
        sender == s.owner ==> spec_reset(s, sender, count) == Result::<
            StateView,
            ContractErrorView,
        >::Ok(StateView { count, ..s }),
{
}

/// Law: a successful purchase hands the seat to the buyer and ratchets the
/// price to the amount actually paid, so the next purchase is judged against
/// that payment — the next buyer must pay at least what the last one did, in
/// the same denomination, whatever the price first asked.
pub proof fn lemma_price_ratchet(s: StateView, first: MessageInfoView, second: MessageInfoView)
    requires
        spec_buy_admin(s, first) is Ok,
    ensures
        ({
            let s2 = spec_buy_admin(s, first)->Ok_0;
            let paid = spec_payment(first);
            &&& s2.owner == first.sender
            &&& s2.last_price == paid
            &&& s2.count == s.count
            &&& (spec_buy_admin(s2, second) is Ok ==> second.funds.len() > 0 && spec_pays(
                spec_payment(second),
                paid,
            ))
        }),
{
}

} // verus!
