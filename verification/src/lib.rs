//! The verified heart of the server: what crosses the wire, how it is read into
//! the ledger's terms and how the ledger's answers are rendered back.
//!
//! `ledger` holds the records the ledger hands over and takes, as plain values.
//! `dto` holds the wire types, each with the relation that says what it shows of
//! a ledger record and the conversion that is proved to establish it. The two
//! catalogs, the authentication steps and the claim code stand beside them.
//! `outside` is the only module that calls other crates.

pub mod action_catalog;
pub mod api_catalog;
pub mod auth;
pub mod calendar;
pub mod claim;
pub mod dto;
pub mod ids;
pub mod ledger;
pub mod money;
pub mod openapi;
pub mod outside;
pub mod relate;
pub mod text;
