//! A custodial betting ledger: per-user balances, bets placed against the
//! current round, a fee pool fed by a two-percent skim on every bet, and an
//! administrator who closes rounds and collects the fees.
//!
//! The ledger is a deterministic state machine. Every command either applies
//! completely or leaves the store as it was. It holds no connection to the
//! outside: whoever runs it hands each call in as plain values, keeps the
//! store between calls, and carries out the transfers that a response asks
//! for.
//!
//! - [`contract`]: the commands and queries, carried out on a store;
//! - [`model`]: what each command and query means, over the view of a store;
//! - [`laws`]: what holds of the ledger for every store and every caller;
//! - [`state`]: the store and its records;
//! - [`table`]: the keyed tables that the store is made of;
//! - [`payment`]: reading a payment off the funds attached to a call;
//! - [`msg`], [`host`], [`err`]: messages, values exchanged with the host,
//!   and errors;
//! - [`decimal`]: amounts written out in decimal.

pub mod contract;
pub mod decimal;
pub mod err;
pub mod host;
pub mod laws;
pub mod model;
pub mod msg;
pub mod payment;
pub mod state;
pub mod table;
