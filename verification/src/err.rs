//! The errors a command or a query can end in, and their mathematical views.

use crate::decimal::decimal;
use crate::decimal::decimal_string;
use vstd::prelude::*;

verus! {

/// The arithmetic operation that left the range of a stored amount.
#[derive(Clone, Copy, Debug, PartialEq, Eq, Structural)]
pub enum OverflowOperation {
    Add,
    Sub,
    Mul,
    Pow,
    Shr,
    Shl,
}

/// An operation on stored amounts whose exact result cannot be stored. The
/// operands are written in decimal.
#[derive(Debug, PartialEq, Eq)]
pub struct OverflowError {
    pub operation: OverflowOperation,
    pub operand1: String,
    pub operand2: String,
}

pub struct OverflowErrorView {
    pub operation: OverflowOperation,
    pub operand1: Seq<char>,
    pub operand2: Seq<char>,
}

impl View for OverflowError {
    type V = OverflowErrorView;

    open spec fn view(&self) -> OverflowErrorView {
        OverflowErrorView {
            operation: self.operation,
            operand1: self.operand1@,
            operand2: self.operand2@,
        }
    }
}

/// The report of `operation` failing on the amounts `operand1` and `operand2`.
pub open spec fn overflow_report(
    operation: OverflowOperation,
    operand1: u128,
    operand2: u128,
) -> OverflowErrorView {
    OverflowErrorView {
        operation,
        operand1: decimal(operand1 as nat),
        operand2: decimal(operand2 as nat),
    }
}

impl OverflowError {
    /// Reports that `operation` failed on `operand1` and `operand2`.
    pub fn new(operation: OverflowOperation, operand1: u128, operand2: u128) -> (e: Self)
        ensures
            e@ == overflow_report(operation, operand1, operand2),
    {
        OverflowError {
            operation,
            operand1: decimal_string(operand1),
            operand2: decimal_string(operand2),
        }
    }
}

/// A failure of the store or of the arithmetic on what it holds.
#[derive(Debug, PartialEq, Eq)]
pub enum StdError {
    /// A failure with no more specific kind.
    GenericErr { msg: String },
    /// A record that a command or query needs was never written.
    NotFound { kind: String },
    /// An amount left the range that the store can hold.
    Overflow { source: OverflowError },
}

pub enum StdErrorView {
    GenericErr { msg: Seq<char> },
    NotFound { kind: Seq<char> },
    Overflow { source: OverflowErrorView },
}

impl View for StdError {
    type V = StdErrorView;

    open spec fn view(&self) -> StdErrorView {
        match self {
            StdError::GenericErr { msg } => StdErrorView::GenericErr { msg: msg@ },
            StdError::NotFound { kind } => StdErrorView::NotFound { kind: kind@ },
            StdError::Overflow { source } => StdErrorView::Overflow { source: source@ },
        }
    }
}

impl StdError {
    /// The error for a missing record of the given kind.
    pub fn not_found(kind: &str) -> (e: Self)
        ensures
            e@ == (StdErrorView::NotFound { kind: kind@ }),
    {
        StdError::NotFound { kind: kind.to_owned() }
    }

    /// The error for an operation on amounts that left their range.
    pub fn overflow(source: OverflowError) -> (e: Self)
        ensures
            e@ == (StdErrorView::Overflow { source: source@ }),
    {
        StdError::Overflow { source }
    }
}

/// Why the funds attached to a call were not accepted as a payment.
#[derive(Debug, PartialEq, Eq)]
pub enum PaymentError {
    /// The single coin sent is not of the required denomination, which is named.
    MissingDenom(String),
    /// A coin of a denomination that is not accepted was sent.
    ExtraDenom(String),
    /// More than one coin was sent.
    MultipleDenoms {},
    /// No coin was sent, or the coin sent holds nothing.
    NoFunds {},
    /// Funds were sent with a call that takes none.
    NonPayable {},
}

pub enum PaymentErrorView {
    MissingDenom(Seq<char>),
    ExtraDenom(Seq<char>),
    MultipleDenoms,
    NoFunds,
    NonPayable,
}

impl View for PaymentError {
    type V = PaymentErrorView;

    open spec fn view(&self) -> PaymentErrorView {
        match self {
            PaymentError::MissingDenom(denom) => PaymentErrorView::MissingDenom(denom@),
            PaymentError::ExtraDenom(denom) => PaymentErrorView::ExtraDenom(denom@),
            PaymentError::MultipleDenoms {  } => PaymentErrorView::MultipleDenoms,
            PaymentError::NoFunds {  } => PaymentErrorView::NoFunds,
            PaymentError::NonPayable {  } => PaymentErrorView::NonPayable,
        }
    }
}

/// The outcome of a command or query that did not succeed. The store is left
/// as it was whenever one of these is returned.
#[derive(Debug, PartialEq, Eq)]
pub enum ContractError {
    /// A record was missing or an amount left its range.
    StdError(StdError),
    /// The caller is not the administrator.
    Unauthorized { sender: String },
    /// The attached funds are not an acceptable payment.
    Payment(PaymentError),
    /// The caller's balance does not cover what the command takes from it.
    InsufficientBalance { amount: u128, balance: u128 },
    /// The caller has no balance record to draw on.
    Deposit { msg: String },
    /// The caller has never interacted with the ledger.
    NoBalance {},
}

pub enum ContractErrorView {
    StdError(StdErrorView),
    Unauthorized { sender: Seq<char> },
    Payment(PaymentErrorView),
    InsufficientBalance { amount: u128, balance: u128 },
    Deposit { msg: Seq<char> },
    NoBalance,
}

impl View for ContractError {
    type V = ContractErrorView;

    open spec fn view(&self) -> ContractErrorView {
        match self {
            ContractError::StdError(e) => ContractErrorView::StdError(e@),
            ContractError::Unauthorized { sender } => ContractErrorView::Unauthorized {
                sender: sender@,
            },
            ContractError::Payment(e) => ContractErrorView::Payment(e@),
            ContractError::InsufficientBalance { amount, balance } => {
                ContractErrorView::InsufficientBalance { amount: *amount, balance: *balance }
            },
            ContractError::Deposit { msg } => ContractErrorView::Deposit { msg: msg@ },
            ContractError::NoBalance {  } => ContractErrorView::NoBalance,
        }
    }
}

} // verus!
