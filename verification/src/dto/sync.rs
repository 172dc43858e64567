//! Synchronisation with a broker on the wire.

use crate::calendar::Date;
use crate::dto::action::ActionDto;
use crate::dto::verdict::{VerdictDto, numbered};
use crate::ids::Uuid;
use crate::ledger::sync::{AssertionsWithheld, SyncOutcome};
use crate::relate;
use vstd::prelude::*;

verus! {

/// An interval to synchronise.
#[derive(Debug, Clone, PartialEq, Eq)]
pub struct BrokerSyncRequest {
    pub account: Uuid,
    pub from: Date,
    pub to: Date,
}

/// Why control assertions were withheld.
#[derive(Debug, Clone, PartialEq, Eq)]
pub struct AssertionsWithheldDto {
    pub code: String,
    pub as_of: Date,
}

impl AssertionsWithheldDto {
    /// What the wire form says of the record it was rendered from.
    pub open spec fn shows(self, withheld: AssertionsWithheld) -> bool {
        &&& self.code == withheld.code
        &&& self.as_of == withheld.as_of
    }

    /// The wire form of the record.
    pub fn from_domain(withheld: &AssertionsWithheld) -> (dto: Self)
        ensures
            dto.shows(*withheld),
    {
        Self {
            code: withheld.code.clone(),
            as_of: withheld.as_of,
        }
    }
}

/// What a synchronisation with a broker did, and what it left outstanding.
#[derive(Debug, Clone, PartialEq, Eq)]
pub struct SyncOutcomeDto {
    pub recorded: Vec<VerdictDto>,
    pub duplicates: usize,
    pub possible_duplicates: usize,
    pub assertions: usize,
    pub assertions_withheld: Option<AssertionsWithheldDto>,
    pub actions: Vec<ActionDto>,
}

impl SyncOutcomeDto {
    /// What the wire form says of the outcome: the verdicts are numbered from one in
    /// the order they fell.
    pub open spec fn shows(self, outcome: SyncOutcome, actions: Vec<ActionDto>) -> bool {
        &&& self.recorded@.len() == outcome.recorded@.len()
        &&& forall|row: int|
            0 <= row < outcome.recorded@.len() ==> (#[trigger] self.recorded@[row]).shows(
                (row + 1) as usize,
                outcome.recorded@[row],
            )
        &&& self.duplicates == outcome.duplicates
        &&& self.possible_duplicates == outcome.possible_duplicates
        &&& self.assertions == outcome.assertions
        &&& relate::both(
            self.assertions_withheld,
            outcome.assertions_withheld,
            |dto: AssertionsWithheldDto, withheld: AssertionsWithheld| dto.shows(withheld),
        )
        &&& self.actions == actions
    }

    /// The wire form of the outcome.
    pub fn from_domain(outcome: SyncOutcome, actions: Vec<ActionDto>) -> (dto: Self)
        ensures
            dto.shows(outcome, actions),
    {
        Self {
            recorded: numbered(&outcome.recorded),
            duplicates: outcome.duplicates,
            possible_duplicates: outcome.possible_duplicates,
            assertions: outcome.assertions,
            assertions_withheld: outcome.assertions_withheld.as_ref().map(
                AssertionsWithheldDto::from_domain,
            ),
            actions,
        }
    }
}

/// An `AssertionsWithheldDto` tells each part of what it shows in a field of its own.
pub proof fn law_assertions_withheld_is_told_part_by_part(
    dto: AssertionsWithheldDto,
    withheld: AssertionsWithheld,
)
    requires
        dto.shows(withheld),
    ensures
        dto.code == withheld.code,
        dto.as_of == withheld.as_of,
{
}

/// A `SyncOutcomeDto` tells each part of what it shows in a field of its own.
pub proof fn law_sync_outcome_is_told_part_by_part(
    dto: SyncOutcomeDto,
    outcome: SyncOutcome,
    actions: Vec<ActionDto>,
)
    requires
        dto.shows(outcome, actions),
    ensures
        dto.recorded@.len() == outcome.recorded@.len(),
        forall|row: int|
            0 <= row < outcome.recorded@.len() ==> (#[trigger] dto.recorded@[row]).shows(
                (row + 1) as usize,
                outcome.recorded@[row],
            ),
        dto.duplicates == outcome.duplicates,
        dto.possible_duplicates == outcome.possible_duplicates,
        dto.assertions == outcome.assertions,
        match (dto.assertions_withheld, outcome.assertions_withheld) {
            (Some(told), Some(meant)) => told.shows(meant),
            (None, None) => true,
            _ => false,
        },
        dto.actions == actions,
{
}

} // verus!
