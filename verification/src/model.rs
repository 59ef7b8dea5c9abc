//! The ledger as a state machine over its mathematical view: what each
//! command makes of a store, and what each query answers.
//!
//! A command yields either the next store together with the response for the
//! host, or an error. An error stands for "nothing happened": the executable
//! commands leave the store untouched when the step is an error.

use crate::decimal::decimal;
use crate::err::overflow_report;
use crate::err::ContractErrorView;
use crate::err::OverflowOperation;
use crate::err::StdErrorView;
use crate::host::send_one;
use crate::host::MessageInfoView;
use crate::host::ResponseView;
use crate::msg::ExecuteMsgView;
use crate::msg::QueryMsgView;
use crate::msg::QueryResponseView;
use crate::payment::paid_amount;
use crate::state::missing;
use crate::state::LedgerView;
use crate::state::RoundView;
use vstd::prelude::*;

verus! {

/// The denomination of the settlement currency: initialization configures
/// deposits to be taken in it, and every transfer out of custody is made in
/// it.
pub open spec fn native_denom() -> Seq<char> {
    "uscrt"@
}

/// The fee charged on a bet of `amount`: two percent, rounded down.
pub open spec fn bet_fee(amount: u128) -> u128 {
    amount / 50
}

/// What a successful command leaves behind.
pub struct Outcome {
    pub store: LedgerView,
    pub response: ResponseView,
}

/// The store that a command leaves: that of its outcome, or, where the step
/// is an error, the store `s` that the command found.
pub open spec fn store_after(s: LedgerView, step: Result<Outcome, ContractErrorView>) -> LedgerView {
    match step {
        Ok(outcome) => outcome.store,
        Err(_) => s,
    }
}

/// The outcome that changes the store and asks nothing of the host.
pub open spec fn quiet(store: LedgerView) -> Result<Outcome, ContractErrorView> {
    Ok(Outcome { store, response: ResponseView::empty() })
}

/// The error of a command that needs a record that was never saved.
pub open spec fn missing_record(kind: Seq<char>) -> ContractErrorView {
    ContractErrorView::StdError(missing(kind))
}

/// The error of a command whose addition of two stored amounts would leave
/// their range.
pub open spec fn add_overflow(operand1: u128, operand2: u128) -> ContractErrorView {
    ContractErrorView::StdError(
        StdErrorView::Overflow {
            source: overflow_report(OverflowOperation::Add, operand1, operand2),
        },
    )
}

/// The error of a command that draws on a balance that does not exist.
pub open spec fn no_balance() -> ContractErrorView {
    ContractErrorView::Deposit { msg: "No balance"@ }
}

/// The store after initialization by `sender`: the sender administers, no
/// betting event is open, the fee pool is empty and betting is closed.
/// Balances and bets are not touched.
pub open spec fn instantiated(s: LedgerView, sender: Seq<char>) -> LedgerView {
    LedgerView {
        admin: Some(sender),
        current_round: Some(RoundView::idle()),
        deposit_denom: Some(native_denom()),
        fee_pool_balance: Some(0),
        betting_open: Some(false),
        ..s
    }
}

/// Anyone may open a round: the current round is replaced by the given one.
pub open spec fn open_round_step(s: LedgerView, id: Seq<char>, game: Seq<char>, odds: u128) -> Result<
    Outcome,
    ContractErrorView,
> {
    quiet(LedgerView { current_round: Some(RoundView { id, game, odds }), ..s })
}

/// Only the administrator closes a round: the current round goes back to
/// the idle one. No bet is settled.
pub open spec fn close_round_step(s: LedgerView, sender: Seq<char>) -> Result<
    Outcome,
    ContractErrorView,
> {
    match s.admin {
        None => Err(missing_record("admin"@)),
        Some(admin) => if sender != admin {
            Err(ContractErrorView::Unauthorized { sender })
        } else {
            quiet(LedgerView { current_round: Some(RoundView::idle()), ..s })
        },
    }
}

/// The balance that a deposit adds to: that of the address, or nothing where
/// it has none yet.
pub open spec fn balance_or_zero(s: LedgerView, address: Seq<char>) -> u128 {
    if s.balances.contains_key(address) {
        s.balances[address]
    } else {
        0
    }
}

/// A deposit adds the payment attached to the call to the sender's balance,
/// which starts at zero. The payment must be in the denomination that the
/// store is configured to take deposits in.
pub open spec fn deposit_step(s: LedgerView, info: MessageInfoView) -> Result<
    Outcome,
    ContractErrorView,
> {
    match s.deposit_denom {
        None => Err(missing_record("deposit denom"@)),
        Some(denom) => match paid_amount(info.funds, denom) {
            Err(e) => Err(ContractErrorView::Payment(e)),
            Ok(amount) => {
                let balance = balance_or_zero(s, info.sender);
                if balance + amount > u128::MAX {
                    Err(add_overflow(balance, amount))
                } else {
                    quiet(
                        LedgerView {
                            balances: s.balances.insert(info.sender, (balance + amount) as u128),
                            ..s
                        },
                    )
                }
            },
        },
    }
}

/// The response to a withdrawal of `amount` by `sender`: the host sends
/// exactly that amount to the sender.
pub open spec fn withdrawal_response(sender: Seq<char>, amount: u128) -> ResponseView {
    ResponseView::empty().add_message(send_one(sender, native_denom(), amount)).add_attribute(
        "action"@,
        "withdraw"@,
    ).add_attribute("amount"@, decimal(amount as nat))
}

/// A withdrawal takes `amount` off the sender's balance, which must cover it,
/// and has the host send the same amount to the sender.
pub open spec fn withdraw_step(s: LedgerView, sender: Seq<char>, amount: u128) -> Result<
    Outcome,
    ContractErrorView,
> {
    if !s.balances.contains_key(sender) {
        Err(no_balance())
    } else {
        let balance = s.balances[sender];
        if balance < amount {
            Err(ContractErrorView::InsufficientBalance { amount, balance })
        } else {
            Ok(
                Outcome {
                    store: LedgerView {
                        balances: s.balances.insert(sender, (balance - amount) as u128),
                        ..s
                    },
                    response: withdrawal_response(sender, amount),
                },
            )
        }
    }
}

/// A bet of `amount` costs the sender the amount and the fee on it. The fee
/// goes to the fee pool, and the stake is recorded for the sender and the
/// current round, in place of any stake recorded for them before.
pub open spec fn place_bet_step(s: LedgerView, sender: Seq<char>, amount: u128) -> Result<
    Outcome,
    ContractErrorView,
> {
    if !s.balances.contains_key(sender) {
        Err(no_balance())
    } else {
        let balance = s.balances[sender];
        let fee = bet_fee(amount);
        if balance < amount + fee {
            Err(ContractErrorView::InsufficientBalance { amount, balance })
        } else {
            match s.fee_pool_balance {
                None => Err(missing_record("fee pool balance"@)),
                Some(pool) => if pool + fee > u128::MAX {
                    Err(add_overflow(pool, fee))
                } else {
                    match s.current_round {
                        None => Err(missing_record("current round"@)),
                        Some(round) => quiet(
                            LedgerView {
                                balances: s.balances.insert(
                                    sender,
                                    (balance - amount - fee) as u128,
                                ),
                                fee_pool_balance: Some((pool + fee) as u128),
                                bets: s.bets.insert((sender, round.id), amount),
                                ..s
                            },
                        ),
                    }
                },
            }
        }
    }
}

/// The response to a collection of `fees` by the administrator `admin`.
pub open spec fn fee_collection_response(admin: Seq<char>, fees: u128) -> ResponseView {
    ResponseView::empty().add_message(send_one(admin, native_denom(), fees)).add_attribute(
        "action"@,
        "fee collection"@,
    ).add_attribute("amount"@, decimal(fees as nat))
}

/// Only the administrator collects the fees: the whole pool is sent to the
/// administrator and the pool starts again at zero.
pub open spec fn withdraw_fees_step(s: LedgerView, sender: Seq<char>) -> Result<
    Outcome,
    ContractErrorView,
> {
    match s.fee_pool_balance {
        None => Err(missing_record("fee pool balance"@)),
        Some(fees) => match s.admin {
            None => Err(missing_record("admin"@)),
            Some(admin) => if sender != admin {
                Err(ContractErrorView::Unauthorized { sender })
            } else {
                Ok(
                    Outcome {
                        store: LedgerView { fee_pool_balance: Some(0), ..s },
                        response: fee_collection_response(admin, fees),
                    },
                )
            },
        },
    }
}

/// What the command `msg`, sent as `info` says, makes of the store `s`.
pub open spec fn execute_step(s: LedgerView, info: MessageInfoView, msg: ExecuteMsgView) -> Result<
    Outcome,
    ContractErrorView,
> {
    match msg {
        ExecuteMsgView::PlaceBet { amount } => place_bet_step(s, info.sender, amount),
        ExecuteMsgView::OpenRound { id, game, odds } => open_round_step(s, id, game, odds),
        ExecuteMsgView::CloseRound { winner } => close_round_step(s, info.sender),
        ExecuteMsgView::Deposit => deposit_step(s, info),
        ExecuteMsgView::Withdraw { amount } => withdraw_step(s, info.sender, amount),
        ExecuteMsgView::WithdrawFees => withdraw_fees_step(s, info.sender),
    }
}

/// One command as the host delivers it: who calls, with which funds, and
/// what is asked.
pub struct Call {
    pub info: MessageInfoView,
    pub msg: ExecuteMsgView,
}

/// The store after the host has delivered `calls` in order, starting from
/// `s`. A call that fails leaves the store as it found it.
pub open spec fn run(s: LedgerView, calls: Seq<Call>) -> LedgerView
    decreases calls.len(),
{
    if calls.len() == 0 {
        s
    } else {
        let before = run(s, calls.drop_last());
        store_after(before, execute_step(before, calls.last().info, calls.last().msg))
    }
}

/// What the query `msg` answers on the store `s`. A query for a record that
/// was never saved fails: the balance of an address that never deposited is
/// not zero, it is missing.
pub open spec fn query_answer(s: LedgerView, msg: QueryMsgView) -> Result<
    QueryResponseView,
    StdErrorView,
> {
    match msg {
        QueryMsgView::CurrentRound => match s.current_round {
            Some(round) => Ok(QueryResponseView::CurrentRound(round)),
            None => Err(missing("current round"@)),
        },
        QueryMsgView::BettingOpen => match s.betting_open {
            Some(open) => Ok(QueryResponseView::BettingOpen(open)),
            None => Err(missing("betting open"@)),
        },
        QueryMsgView::Balance { address } => if s.balances.contains_key(address) {
            Ok(QueryResponseView::Balance(s.balances[address]))
        } else {
            Err(missing("user balance"@))
        },
    }
}

} // verus!
