//! The commands and queries of the ledger, carried out on a store.
//!
//! Every command validates before it writes: when it returns an error the
//! store is exactly as it was, and when it succeeds the store and the
//! response are those that the state machine gives.

use crate::decimal::decimal_string;
use crate::err::ContractError;
use crate::err::ContractErrorView;
use crate::err::OverflowError;
use crate::err::OverflowOperation;
use crate::err::StdError;
use crate::err::StdErrorView;
use crate::host::BankMsg;
use crate::host::MessageInfo;
use crate::host::Response;
use crate::host::ResponseView;
use crate::model::close_round_step;
use crate::model::deposit_step;
use crate::model::execute_step;
use crate::model::instantiated;
use crate::model::open_round_step;
use crate::model::place_bet_step;
use crate::model::query_answer;
use crate::model::store_after;
use crate::model::withdraw_fees_step;
use crate::model::withdraw_step;
use crate::model::Outcome;
use crate::msg::ExecuteMsg;
use crate::msg::InstantiateMsg;
use crate::msg::QueryMsg;
use crate::msg::QueryMsgView;
use crate::msg::QueryResponse;
use crate::msg::QueryResponseView;
use crate::payment::must_pay;
use crate::state::Ledger;
use crate::state::LedgerView;
use crate::state::Round;
use vstd::prelude::*;

verus! {

/// Whether a command that found the store as `before`, left it as `after`
/// and returned `res` did what `step` says: on success the new store and the
/// response are those of the step, and on failure the error is that of the
/// step and the store did not change.
pub open spec fn carried_out(
    step: Result<Outcome, ContractErrorView>,
    before: LedgerView,
    after: LedgerView,
    res: Result<Response, ContractError>,
) -> bool {
    &&& after == store_after(before, step)
    &&& match step {
        Ok(outcome) => res matches Ok(response) && response@ == outcome.response,
        Err(e) => res matches Err(err) && err@ == e,
    }
}

/// The view of what a query returns.
pub open spec fn answer_view(res: Result<QueryResponse, StdError>) -> Result<
    QueryResponseView,
    StdErrorView,
> {
    match res {
        Ok(answer) => Ok(answer@),
        Err(e) => Err(e@),
    }
}

/// Sets the ledger up: the sender becomes the administrator, the idle round
/// stands, deposits are taken in the settlement currency, the fee pool is
/// empty and betting is closed. Balances and bets are left alone, and so are
/// any funds attached to the call. Always succeeds.
pub fn instantiate(store: &mut Ledger, info: MessageInfo, _msg: InstantiateMsg) -> (res: Result<
    Response,
    StdError,
>)
    ensures
        final(store)@ == instantiated(old(store)@, info@.sender),
        res matches Ok(response) && response@ == ResponseView::empty(),
{
    store.save_current_round(Round::default());
    store.save_admin(info.sender);
    store.save_deposit_denom("uscrt".to_owned());
    store.save_fee_pool_balance(0);
    store.save_betting_open(false);
    Ok(Response::default())
}

/// Carries out the command `msg` for the caller that `info` names. The
/// caller's address is taken as authenticated.
pub fn execute(store: &mut Ledger, info: MessageInfo, msg: ExecuteMsg) -> (res: Result<
    Response,
    ContractError,
>)
    ensures
        carried_out(execute_step(old(store)@, info@, msg@), old(store)@, final(store)@, res),
{
    match msg {
        ExecuteMsg::PlaceBet { amount } => place_bet(store, info, amount),
        ExecuteMsg::OpenRound { id, game, odds } => open_round(store, info, id, game, odds),
        ExecuteMsg::CloseRound { winner } => close_round(store, info, winner),
        ExecuteMsg::Deposit {  } => deposit(store, info),
        ExecuteMsg::Withdraw { amount } => withdraw(store, info, amount),
        ExecuteMsg::WithdrawFees {  } => withdraw_fees(store, info),
    }
}

/// Places a bet of `amount` on the current round, at a fee of two percent,
/// rounded down. The sender pays the amount and the fee, the fee goes to the
/// fee pool, and the amount is recorded as the sender's stake on the round,
/// in place of an earlier stake on the same round.
///
/// Fails, in this order: with `Deposit` when the sender has no balance
/// record; with `InsufficientBalance`, which reports the amount without the
/// fee, when the balance does not cover both; with `StdError` when the fee
/// pool was never set up or cannot hold the fee, or when no round was ever
/// set.
pub fn place_bet(store: &mut Ledger, info: MessageInfo, amount: u128) -> (res: Result<
    Response,
    ContractError,
>)
    ensures
        carried_out(
            place_bet_step(old(store)@, info@.sender, amount),
            old(store)@,
            final(store)@,
            res,
        ),
{
    let balance = match store.load_balance(&info.sender) {
        Ok(balance) => balance,
        Err(_) => {
            return Err(ContractError::Deposit { msg: "No balance".to_owned() });
        },
    };
    let fee = amount / 50;
    let cost = match amount.checked_add(fee) {
        Some(cost) => cost,
        None => {
            return Err(ContractError::InsufficientBalance { amount, balance });
        },
    };
    if balance < cost {
        return Err(ContractError::InsufficientBalance { amount, balance });
    }
    let pool = match store.load_fee_pool_balance() {
        Ok(pool) => pool,
        Err(e) => {
            return Err(ContractError::StdError(e));
        },
    };
    let fees = match pool.checked_add(fee) {
        Some(fees) => fees,
        None => {
            let source = OverflowError::new(OverflowOperation::Add, pool, fee);
            return Err(ContractError::StdError(StdError::overflow(source)));
        },
    };
    let round = match store.load_current_round() {
        Ok(round) => round,
        Err(e) => {
            return Err(ContractError::StdError(e));
        },
    };
    store.save_balance(&info.sender, balance - cost);
    store.save_fee_pool_balance(fees);
    store.save_bet(&info.sender, &round.id, amount);
    Ok(Response::default())
}

/// Opens a round of betting: the current round becomes the given one.
/// Any caller may do so, the administrator or not, and it always succeeds.
/// Balances, bets and the betting flag are left alone.
pub fn open_round(
    store: &mut Ledger,
    _info: MessageInfo,
    id: String,
    game: String,
    odds: u128,
) -> (res: Result<Response, ContractError>)
    ensures
        carried_out(open_round_step(old(store)@, id@, game@, odds), old(store)@, final(store)@, res),
{
    store.save_current_round(Round { id, game, odds });
    Ok(Response::default())
}

/// Closes the current round: the idle round takes its place. The winner is
/// taken and not used: no bet is settled and no balance changes.
///
/// Fails with `Unauthorized` for any caller but the administrator, and with
/// `StdError` when no administrator was ever set.
pub fn close_round(store: &mut Ledger, info: MessageInfo, _winner: String) -> (res: Result<
    Response,
    ContractError,
>)
    ensures
        carried_out(close_round_step(old(store)@, info@.sender), old(store)@, final(store)@, res),
{
    let admin = match store.load_admin() {
        Ok(admin) => admin,
        Err(e) => {
            return Err(ContractError::StdError(e));
        },
    };
    if !(info.sender == admin) {
        return Err(ContractError::Unauthorized { sender: info.sender });
    }
    store.save_current_round(Round::default());
    Ok(Response::default())
}

/// Adds the payment attached to the call to the sender's balance, which
/// starts at zero for a sender without one. The payment is one non-empty
/// coin of the denomination that deposits are configured to be taken in.
///
/// Fails, in this order: with `StdError` when no denomination was ever
/// configured; with `Payment` when the funds are not such a payment; with
/// `StdError` when the balance cannot hold the sum.
pub fn deposit(store: &mut Ledger, info: MessageInfo) -> (res: Result<Response, ContractError>)
    ensures
        carried_out(deposit_step(old(store)@, info@), old(store)@, final(store)@, res),
{
    let denom = match store.load_deposit_denom() {
        Ok(denom) => denom,
        Err(e) => {
            return Err(ContractError::StdError(e));
        },
    };
    let deposit_amount = match must_pay(&info, denom.as_str()) {
        Ok(amount) => amount,
        Err(e) => {
            return Err(ContractError::Payment(e));
        },
    };
    let balance = match store.load_balance(&info.sender) {
        Ok(balance) => balance,
        Err(_) => 0,
    };
    match balance.checked_add(deposit_amount) {
        Some(total) => {
            store.save_balance(&info.sender, total);
            Ok(Response::default())
        },
        None => {
            let source = OverflowError::new(OverflowOperation::Add, balance, deposit_amount);
            Err(ContractError::StdError(StdError::overflow(source)))
        },
    }
}

/// Takes `amount` off the sender's balance and has the host send exactly
/// that amount to the sender.
///
/// Fails with `Deposit` when the sender has no balance record, and with
/// `InsufficientBalance` when the balance is less than the amount.
pub fn withdraw(store: &mut Ledger, info: MessageInfo, amount: u128) -> (res: Result<
    Response,
    ContractError,
>)
    ensures
        carried_out(
            withdraw_step(old(store)@, info@.sender, amount),
            old(store)@,
            final(store)@,
            res,
        ),
{
    let balance = match store.load_balance(&info.sender) {
        Ok(balance) => balance,
        Err(_) => {
            return Err(ContractError::Deposit { msg: "No balance".to_owned() });
        },
    };
    if balance < amount {
        return Err(ContractError::InsufficientBalance { amount, balance });
    }
    store.save_balance(&info.sender, balance - amount);
    let withdrawal_message = BankMsg::send(info.sender, "uscrt", amount);
    Ok(
        Response::new().add_message(withdrawal_message).add_attribute(
            "action",
            "withdraw".to_owned(),
        ).add_attribute("amount", decimal_string(amount)),
    )
}

/// Has the host send the whole fee pool to the administrator and empties
/// the pool in the same step, so that no fee can be collected twice.
///
/// Fails with `StdError` when the fee pool or the administrator was never
/// set, and with `Unauthorized` for any caller but the administrator.
pub fn withdraw_fees(store: &mut Ledger, info: MessageInfo) -> (res: Result<
    Response,
    ContractError,
>)
    ensures
        carried_out(withdraw_fees_step(old(store)@, info@.sender), old(store)@, final(store)@, res),
{
    let fee_balance = match store.load_fee_pool_balance() {
        Ok(fees) => fees,
        Err(e) => {
            return Err(ContractError::StdError(e));
        },
    };
    let admin = match store.load_admin() {
        Ok(admin) => admin,
        Err(e) => {
            return Err(ContractError::StdError(e));
        },
    };
    if !(info.sender == admin) {
        return Err(ContractError::Unauthorized { sender: info.sender });
    }
    store.save_fee_pool_balance(0);
    let message = BankMsg::send(admin, "uscrt", fee_balance);
    Ok(
        Response::new().add_message(message).add_attribute(
            "action",
            "fee collection".to_owned(),
        ).add_attribute("amount", decimal_string(fee_balance)),
    )
}

/// Answers the query `msg`. A query reads the store and changes nothing.
pub fn query(store: &Ledger, msg: QueryMsg) -> (res: Result<QueryResponse, StdError>)
    ensures
        answer_view(res) == query_answer(store@, msg@),
{
    match msg {
        QueryMsg::CurrentRound {  } => match query_round(store) {
            Ok(round) => Ok(QueryResponse::CurrentRound(round)),
            Err(e) => Err(e),
        },
        QueryMsg::BettingOpen {  } => match betting_open(store) {
            Ok(open) => Ok(QueryResponse::BettingOpen(open)),
            Err(e) => Err(e),
        },
        QueryMsg::Balance { address } => match query_balance(store, address) {
            Ok(amount) => Ok(QueryResponse::Balance(amount)),
            Err(e) => Err(e),
        },
    }
}

/// The current round.
pub fn query_round(store: &Ledger) -> (res: Result<Round, StdError>)
    ensures
        match query_answer(store@, QueryMsgView::CurrentRound) {
            Ok(answer) => res matches Ok(round) && answer == QueryResponseView::CurrentRound(
                round@,
            ),
            Err(e) => res matches Err(err) && err@ == e,
        },
{
    store.load_current_round()
}

/// Whether betting is open.
pub fn betting_open(store: &Ledger) -> (res: Result<bool, StdError>)
    ensures
        match query_answer(store@, QueryMsgView::BettingOpen) {
            Ok(answer) => res matches Ok(open) && answer == QueryResponseView::BettingOpen(open),
            Err(e) => res matches Err(err) && err@ == e,
        },
{
    store.load_betting_open()
}

/// The balance of `address`. An address without a balance record has no
/// balance to report: the query fails.
pub fn query_balance(store: &Ledger, address: String) -> (res: Result<u128, StdError>)
    ensures
        match query_answer(store@, (QueryMsgView::Balance { address: address@ })) {
            Ok(answer) => res matches Ok(amount) && answer == QueryResponseView::Balance(amount),
            Err(e) => res matches Err(err) && err@ == e,
        },
{
    store.load_balance(&address)
}

} // verus!
