//! The messages that the ledger takes and the answers that a query gives.

use crate::state::Round;
use crate::state::RoundView;
use vstd::prelude::*;

verus! {

/// The message that sets the ledger up. It carries nothing: whoever sends it
/// becomes the administrator.
#[derive(Clone, Copy, Debug, PartialEq, Eq)]
pub struct InstantiateMsg {}

/// A command: a request that may change the ledger.
#[derive(Debug, PartialEq, Eq)]
pub enum ExecuteMsg {
    OpenRound { id: String, game: String, odds: u128 },
    CloseRound { winner: String },
    Deposit {},
    PlaceBet { amount: u128 },
    Withdraw { amount: u128 },
    WithdrawFees {},
}

pub enum ExecuteMsgView {
    OpenRound { id: Seq<char>, game: Seq<char>, odds: u128 },
    CloseRound { winner: Seq<char> },
    Deposit,
    PlaceBet { amount: u128 },
    Withdraw { amount: u128 },
    WithdrawFees,
}

impl View for ExecuteMsg {
    type V = ExecuteMsgView;

    open spec fn view(&self) -> ExecuteMsgView {
        match self {
            ExecuteMsg::OpenRound { id, game, odds } => ExecuteMsgView::OpenRound {
                id: id@,
                game: game@,
                odds: *odds,
            },
            ExecuteMsg::CloseRound { winner } => ExecuteMsgView::CloseRound { winner: winner@ },
            ExecuteMsg::Deposit {  } => ExecuteMsgView::Deposit,
            ExecuteMsg::PlaceBet { amount } => ExecuteMsgView::PlaceBet { amount: *amount },
            ExecuteMsg::Withdraw { amount } => ExecuteMsgView::Withdraw { amount: *amount },
            ExecuteMsg::WithdrawFees {  } => ExecuteMsgView::WithdrawFees,
        }
    }
}

/// A query: a request that reads the ledger and changes nothing.
#[derive(Debug, PartialEq, Eq)]
pub enum QueryMsg {
    CurrentRound {},
    BettingOpen {},
    Balance { address: String },
}

pub enum QueryMsgView {
    CurrentRound,
    BettingOpen,
    Balance { address: Seq<char> },
}

impl View for QueryMsg {
    type V = QueryMsgView;

    open spec fn view(&self) -> QueryMsgView {
        match self {
            QueryMsg::CurrentRound {  } => QueryMsgView::CurrentRound,
            QueryMsg::BettingOpen {  } => QueryMsgView::BettingOpen,
            QueryMsg::Balance { address } => QueryMsgView::Balance { address: address@ },
        }
    }
}

/// The answer to a query, one variant for each kind of query.
#[derive(Debug, PartialEq, Eq)]
pub enum QueryResponse {
    CurrentRound(Round),
    BettingOpen(bool),
    Balance(u128),
}

pub enum QueryResponseView {
    CurrentRound(RoundView),
    BettingOpen(bool),
    Balance(u128),
}

impl View for QueryResponse {
    type V = QueryResponseView;

    open spec fn view(&self) -> QueryResponseView {
        match self {
            QueryResponse::CurrentRound(round) => QueryResponseView::CurrentRound(round@),
            QueryResponse::BettingOpen(open) => QueryResponseView::BettingOpen(*open),
            QueryResponse::Balance(amount) => QueryResponseView::Balance(*amount),
        }
    }
}

} // verus!
