//! What a synchronisation with a broker did.

use crate::calendar::Date;
use crate::ledger::verdict::Verdict;
use vstd::prelude::*;

verus! {

/// Why control assertions were withheld: the portfolio describes another day.
/// The reason carries its own word.
#[derive(Debug, Clone, PartialEq, Eq)]
pub struct AssertionsWithheld {
    pub code: String,
    pub as_of: Date,
}

/// What a synchronisation with a broker did.
#[derive(Debug, Clone, PartialEq, Eq)]
pub struct SyncOutcome {
    pub recorded: Vec<Verdict>,
    pub duplicates: usize,
    pub possible_duplicates: usize,
    pub assertions: usize,
    pub assertions_withheld: Option<AssertionsWithheld>,
}

} // verus!
