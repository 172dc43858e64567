//! Categories and their rules as the ledger keeps them.

use crate::calendar::Date;
use crate::ids::{CategoryGroupId, CategoryId, CategoryRuleId};
use crate::money::Money;
use vstd::prelude::*;

verus! {

/// A category.
#[derive(Debug, Clone, PartialEq, Eq)]
pub struct CategoryView {
    pub id: CategoryId,
    pub group: CategoryGroupId,
    pub title: String,
    pub retired_at: Option<String>,
}

/// A category rule. The matcher is its stored text.
#[derive(Debug, Clone, PartialEq, Eq)]
pub struct CategoryRuleView {
    pub id: CategoryRuleId,
    pub version: u32,
    pub matcher: String,
    pub category: CategoryId,
    pub valid_from: Option<Date>,
    pub valid_to: Option<Date>,
    pub created_at: String,
    pub retired_at: Option<String>,
    pub replaces: Option<CategoryRuleId>,
}

/// Rows that would move from one category to another, and their amount.
#[derive(Debug, Clone, Copy, PartialEq, Eq, Structural)]
pub struct CategoryMove {
    pub from: Option<CategoryId>,
    pub to: CategoryId,
    pub amount: Money,
    pub rows: u64,
}

/// What a rule would move in one month.
#[derive(Debug, Clone, PartialEq, Eq)]
pub struct MonthlyImpact {
    pub month: Date,
    pub moved: Vec<CategoryMove>,
}

/// What a rule would change before it is recorded.
#[derive(Debug, Clone, PartialEq, Eq)]
pub struct CategoryRuleImpact {
    pub rows: u64,
    pub months: Vec<MonthlyImpact>,
}

} // verus!
