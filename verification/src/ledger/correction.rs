//! Corrections of recorded events, as the ledger takes them, and what they did.

use crate::ids::{EventId, ImportId, SourceId};
use crate::ledger::operation::SubmittedOperation;
use vstd::prelude::*;

verus! {

/// A correction of a recorded event.
#[derive(Debug, Clone, PartialEq, Eq)]
pub enum CorrectionRequest {
    Reversal { target: EventId },
    Replacement { target: EventId, operation: Box<SubmittedOperation> },
}

/// What retracting an import did.
#[derive(Debug, Clone, Copy, PartialEq, Eq, Structural)]
pub struct ImportCorrectionOutcome {
    pub source: SourceId,
    pub import: Option<ImportId>,
    pub affected: usize,
    pub already_reversed: usize,
    pub written: usize,
}

/// What a custody repair met.
#[derive(Debug, Clone, Copy, PartialEq, Eq, Structural)]
pub enum CustodyRepairCase {
    AffectedWithLiveAccess,
    AffectedWithoutLiveAccess,
    NothingAffected,
}

/// What a custody repair did.
#[derive(Debug, Clone, Copy, PartialEq, Eq, Structural)]
pub struct CustodyRepairOutcome {
    pub case: CustodyRepairCase,
    pub affected_trades: usize,
    pub already_reversed: usize,
    pub written: usize,
}

} // verus!
