//! Finds the accounts that received their first credit of one token mint
//! between two calendar dates.
//!
//! The library holds the rules of the report: what counts as a date, which
//! signature records fall in a date range, which transaction is a first
//! credit, how an event is written out, and in which order the ledger is
//! asked. Talking to the ledger and to the terminal, and finding the local
//! day of a time, is left to the caller.

pub mod args;
pub mod client;
pub mod date;
pub mod error;
pub mod helper;
pub mod report;
