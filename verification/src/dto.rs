//! The wire types.

pub mod account;
pub mod action;
pub mod amount;
pub mod answer;
pub mod asset;
pub mod balance;
pub mod bond;
pub mod category;
pub mod computed;
pub mod control;
pub mod correction;
pub mod currency;
pub mod document;
pub mod flow;
pub mod instrument;
pub mod journal;
pub mod journal_fact;
pub mod kinds;
pub mod market;
pub mod operation;
pub mod plan;
pub mod price;
pub mod profile;
pub mod quality;
pub mod reconciliation;
pub mod report;
pub mod return_report;
pub mod rule;
pub mod session;
pub mod sync;
pub mod token;
pub mod verdict;
