//! Broker accesses and access tokens as the ledger keeps them.

use crate::ids::Uuid;
use crate::ledger::goal::Scope;
use vstd::prelude::*;

verus! {

/// The broker environment an access belongs to.
#[derive(Debug, Clone, Copy, PartialEq, Eq, Structural)]
pub enum BrokerEnvironment {
    Prod,
    Sandbox,
}

/// A broker access, without its secret.
#[derive(Debug, Clone, PartialEq, Eq)]
pub struct BrokerAccessView {
    pub id: Uuid,
    pub broker: String,
    pub environment: String,
    pub scope: String,
    pub created_at: String,
    pub revoked_at: Option<String>,
}

/// A token that was just issued, with its secret.
pub struct IssuedToken {
    pub id: Uuid,
    pub token: String,
    pub label: String,
    pub scope: Scope,
}

/// A token, without its secret.
#[derive(Debug, Clone, PartialEq, Eq)]
pub struct TokenView {
    pub id: Uuid,
    pub label: String,
    pub scope: Scope,
    pub created_at: String,
    pub revoked_at: Option<String>,
}

} // verus!
