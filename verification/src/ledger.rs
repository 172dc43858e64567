//! The records the ledger hands over and takes, as plain values.

pub mod account;
pub mod action;
pub mod answer;
pub mod asset;
pub mod balance;
pub mod bond;
pub mod category;
pub mod computed;
pub mod control;
pub mod correction;
pub mod flow;
pub mod goal;
pub mod instrument;
pub mod journal;
pub mod journal_fact;
pub mod kinds;
pub mod operation;
pub mod plan;
pub mod price;
pub mod profile;
pub mod quality;
pub mod reconciliation;
pub mod rejection;
pub mod report;
pub mod return_report;
pub mod rule;
pub mod session;
pub mod sync;
pub mod token;
pub mod verdict;
