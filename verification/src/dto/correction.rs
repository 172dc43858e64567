//! Corrections a caller submits, and what they did.

use crate::dto::operation::OperationDto;
use crate::ids::{EventId, ImportId, Uuid};
use crate::ledger::account::AccountDirectory;
use crate::ledger::correction::{
    CorrectionRequest, CustodyRepairCase, CustodyRepairOutcome, ImportCorrectionOutcome,
};
use crate::ledger::rejection::Rejection;
use crate::money::MinorUnits;
use crate::relate;
use vstd::prelude::*;

verus! {

/// A correction of a recorded event.
#[derive(Debug, Clone, PartialEq, Eq)]
pub enum CorrectionDto {
    Reversal { target: Uuid },
    Replacement { target: Uuid, operation: Box<OperationDto> },
}

impl CorrectionDto {
    /// Whether a request of the ledger is the correction the caller stated.
    pub open spec fn states(
        self,
        directory: AccountDirectory,
        units: MinorUnits,
        request: CorrectionRequest,
    ) -> bool {
        match (self, request) {
            (Self::Reversal { target }, CorrectionRequest::Reversal { target: event }) => event.0
                == target,
            (
                Self::Replacement { target, operation },
                CorrectionRequest::Replacement { target: event, operation: taken },
            ) => event.0 == target && operation.states(directory, units, *taken),
            _ => false,
        }
    }

    /// The correction in the ledger's terms. A reversal is never refused here; a
    /// replacement is refused exactly as its operation is.
    pub fn to_domain(&self, directory: &AccountDirectory, units: &MinorUnits) -> (read: Result<
        CorrectionRequest,
        Rejection,
    >)
        ensures
            match read {
                Ok(request) => self.states(*directory, *units, request) && (
                self matches CorrectionDto::Replacement { target, operation }
                    ==> operation.kind.refusal(*units) is None),
                Err(rejection) => self matches CorrectionDto::Replacement { target, operation }
                    && operation.refused_with(*directory, *units, rejection@),
            },
    {
        match self {
            Self::Reversal { target } => Ok(
                CorrectionRequest::Reversal { target: EventId(*target) },
            ),
            Self::Replacement { target, operation } => match operation.to_domain(
                directory,
                units,
            ) {
                Ok(taken) => Ok(
                    CorrectionRequest::Replacement {
                        target: EventId(*target),
                        operation: Box::new(taken),
                    },
                ),
                Err(rejection) => Err(rejection),
            },
        }
    }
}

/// What retracting an import did.
#[derive(Debug, Clone, Copy, PartialEq, Eq, Structural)]
pub struct ImportCorrectionDto {
    pub source: Uuid,
    pub import: Option<Uuid>,
    pub affected: usize,
    pub already_reversed: usize,
    pub written: usize,
}

impl ImportCorrectionDto {
    /// What the wire form says of the record it was rendered from.
    pub open spec fn shows(self, outcome: ImportCorrectionOutcome) -> bool {
        &&& self.source == outcome.source.0
        &&& relate::both(self.import, outcome.import, |uuid: Uuid, id: ImportId| uuid == id.0)
        &&& self.affected == outcome.affected
        &&& self.already_reversed == outcome.already_reversed
        &&& self.written == outcome.written
    }

    /// The wire form of the record.
    pub fn from_domain(outcome: ImportCorrectionOutcome) -> (dto: Self)
        ensures
            dto.shows(outcome),
    {
        Self {
            source: outcome.source.0,
            import: outcome.import.map(ImportId::inner),
            affected: outcome.affected,
            already_reversed: outcome.already_reversed,
            written: outcome.written,
        }
    }
}

/// What a custody repair met.
#[derive(Debug, Clone, Copy, PartialEq, Eq, Structural)]
pub enum CustodyRepairCaseDto {
    AffectedWithLiveAccess,
    AffectedWithoutLiveAccess,
    NothingAffected,
}

impl CustodyRepairCaseDto {
    /// The value of the ledger it stands for.
    pub open spec fn denotes(self) -> CustodyRepairCase {
        match self {
            Self::AffectedWithLiveAccess => CustodyRepairCase::AffectedWithLiveAccess,
            Self::AffectedWithoutLiveAccess => CustodyRepairCase::AffectedWithoutLiveAccess,
            Self::NothingAffected => CustodyRepairCase::NothingAffected,
        }
    }

    /// The wire value that stands for a value of the ledger.
    pub fn from_domain(case: CustodyRepairCase) -> (dto: Self)
        ensures
            dto.denotes() == case,
    {
        match case {
            CustodyRepairCase::AffectedWithLiveAccess => Self::AffectedWithLiveAccess,
            CustodyRepairCase::AffectedWithoutLiveAccess => Self::AffectedWithoutLiveAccess,
            CustodyRepairCase::NothingAffected => Self::NothingAffected,
        }
    }
}

/// What a custody repair did.
#[derive(Debug, Clone, Copy, PartialEq, Eq, Structural)]
pub struct CustodyRepairOutcomeDto {
    pub case: CustodyRepairCaseDto,
    pub affected_trades: usize,
    pub already_reversed: usize,
    pub written: usize,
}

impl CustodyRepairOutcomeDto {
    /// What the wire form says of the record it was rendered from.
    pub open spec fn shows(self, outcome: CustodyRepairOutcome) -> bool {
        &&& self.case.denotes() == outcome.case
        &&& self.affected_trades == outcome.affected_trades
        &&& self.already_reversed == outcome.already_reversed
        &&& self.written == outcome.written
    }

    /// The wire form of the record.
    pub fn from_domain(outcome: CustodyRepairOutcome) -> (dto: Self)
        ensures
            dto.shows(outcome),
    {
        Self {
            case: CustodyRepairCaseDto::from_domain(outcome.case),
            affected_trades: outcome.affected_trades,
            already_reversed: outcome.already_reversed,
            written: outcome.written,
        }
    }
}

/// The source a caller declares for a batch, and the import within it.
#[derive(Debug, Clone, PartialEq, Eq)]
pub struct DeclaredSourceDto {
    pub account: String,
    pub channel: String,
    pub label: Option<String>,
}

/// A batch of operations.
#[derive(Debug, Clone, PartialEq, Eq)]
pub struct SubmitOperationsRequest {
    pub source: Option<DeclaredSourceDto>,
    pub operations: Vec<OperationDto>,
}

/// A batch of corrections, with the acknowledgement they need.
#[derive(Debug, Clone, PartialEq, Eq)]
pub struct SubmitCorrectionsRequest {
    pub acknowledge_retraction: bool,
    pub corrections: Vec<CorrectionDto>,
}

/// The retraction of one import, with the acknowledgement it needs.
#[derive(Debug, Clone, PartialEq, Eq)]
pub struct CorrectImportRequest {
    pub acknowledge_retraction: bool,
    pub source: DeclaredSourceDto,
}

/// A custody repair, with the acknowledgement it needs.
#[derive(Debug, Clone, Copy, PartialEq, Eq, Structural)]
pub struct CustodyRepairRequest {
    pub acknowledge_without_live_access: bool,
}

/// Each `CustodyRepairCaseDto` denotes its namesake in the ledger, and no two denote one.
pub proof fn law_custody_repair_case_denotes_its_namesake(dto: CustodyRepairCaseDto)
    ensures
        dto is AffectedWithLiveAccess <==> dto.denotes() is AffectedWithLiveAccess,
        dto is AffectedWithoutLiveAccess <==> dto.denotes() is AffectedWithoutLiveAccess,
        dto is NothingAffected <==> dto.denotes() is NothingAffected,
{
}

/// An `ImportCorrectionDto` tells each part of what it shows in a field of its own.
pub proof fn law_import_correction_is_told_part_by_part(
    dto: ImportCorrectionDto,
    outcome: ImportCorrectionOutcome,
)
    requires
        dto.shows(outcome),
    ensures
        dto.source == outcome.source.0,
        match (dto.import, outcome.import) {
            (Some(told), Some(meant)) => told == meant.0,
            (None, None) => true,
            _ => false,
        },
        dto.affected == outcome.affected,
        dto.already_reversed == outcome.already_reversed,
        dto.written == outcome.written,
{
}

/// A `CustodyRepairOutcomeDto` tells each part of what it shows in a field of its own.
pub proof fn law_custody_repair_outcome_is_told_part_by_part(
    dto: CustodyRepairOutcomeDto,
    outcome: CustodyRepairOutcome,
)
    requires
        dto.shows(outcome),
    ensures
        dto.case.denotes() == outcome.case,
        dto.affected_trades == outcome.affected_trades,
        dto.already_reversed == outcome.already_reversed,
        dto.written == outcome.written,
{
}

/// A reversal is read as a reversal and a replacement as a replacement, of the event they
/// name.
pub proof fn law_a_correction_is_read_as_itself(
    dto: CorrectionDto,
    directory: AccountDirectory,
    units: MinorUnits,
    request: CorrectionRequest,
)
    requires
        dto.states(directory, units, request),
    ensures
        match (dto, request) {
            (
                CorrectionDto::Reversal { target },
                CorrectionRequest::Reversal { target: event },
            ) => event.0
                == target,
            (
                CorrectionDto::Replacement { target, operation },
                CorrectionRequest::Replacement { target: event, operation: taken },
            ) => event.0 == target && operation.states(directory, units, *taken),
            _ => false,
        },
{
}

} // verus!
