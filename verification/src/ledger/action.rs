//! Questions to the owner and the standing of the reports.

use crate::ids::AccountId;
use crate::ledger::goal::ReportGoal;
use vstd::prelude::*;

verus! {

/// A question to the owner.
#[derive(Debug, Clone, PartialEq, Eq)]
pub struct OwnerQuestion {
    pub ask: String,
    pub consequence: String,
}

/// What stands in the way of one report, with the line that says what the
/// report answers.
#[derive(Debug, Clone, PartialEq, Eq)]
pub struct ReportStanding {
    pub goal: ReportGoal,
    pub answers: String,
    pub blocked_by: Vec<String>,
}

/// An account an answer may name.
#[derive(Debug, Clone, PartialEq, Eq)]
pub struct AccountCandidate {
    pub id: AccountId,
    pub title: String,
    pub institution: Option<String>,
}

} // verus!
