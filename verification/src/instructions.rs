//! The three public entry operations. Each parses its positional account
//! list and payload, runs the validators, and lays down the ledger
//! operations of its state transition.

pub mod make;
pub mod refund;
pub mod take;
