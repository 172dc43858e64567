//! Classification rules as the ledger keeps them.

use crate::ids::{AccountId, EventId, Uuid};
use vstd::prelude::*;

verus! {

/// What a rule asks of a row.
#[derive(Debug, Clone, PartialEq, Eq)]
pub struct RuleMatcher {
    pub counterparty_account: Option<String>,
    pub description_contains: Option<String>,
    pub kind: Option<String>,
    pub source_category: Option<String>,
}

/// A classification, in the words a rule is written in.
#[derive(Debug, Clone, PartialEq, Eq)]
pub struct ClassifiedAs {
    pub kind: String,
    pub to: Option<AccountId>,
    pub origin: Option<String>,
    pub income_kind: Option<String>,
}

/// The words a stored rule states its outcome in, as the reader of stored rules
/// takes them.
#[derive(Debug, Clone, PartialEq, Eq)]
pub struct OutcomeWords {
    pub kind: String,
    pub to: Option<String>,
    pub origin: Option<String>,
    pub income_kind: Option<String>,
}

/// A stored rule.
#[derive(Debug, Clone, PartialEq, Eq)]
pub struct ClassificationRuleView {
    pub id: Uuid,
    pub created_at: String,
    pub retired_at: Option<String>,
    pub replaces: Option<Uuid>,
}

/// What the classifier reads in a stored rule.
#[derive(Debug, Clone, PartialEq, Eq)]
pub struct ParsedRule {
    pub version: u32,
    pub matcher: RuleMatcher,
    pub outcome: ClassifiedAs,
}

/// An event a change of the rules requires to be corrected.
#[derive(Debug, Clone, PartialEq, Eq)]
pub struct PlannedCorrection {
    pub event: EventId,
    pub was: ClassifiedAs,
    pub becomes: ClassifiedAs,
}

/// A rule together with the history its arrival or retirement corrects.
#[derive(Debug, Clone, PartialEq, Eq)]
pub struct RuleChange {
    pub rule: ClassificationRuleView,
    pub plan: Vec<PlannedCorrection>,
}

} // verus!
