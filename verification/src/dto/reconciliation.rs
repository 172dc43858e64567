//! Reconciliation on the wire.

use crate::calendar::Date;
use crate::dto::currency::CurrencyDto;
use crate::ids::Uuid;
use crate::ledger::reconciliation::{
    BalancePoint, ClaimCheck, ClaimOutcome, ClaimValue, ControlClaim, DimensionStatus, Discrepancy,
    Evidence, ObservationBasis, ReconciliationStatus, RefusedRow, RowName, Taint,
};
use crate::money::Money;
use crate::relate::map_each;
use crate::relate;
use vstd::prelude::*;

verus! {

/// Which end of the interval a balance assertion is about.
#[derive(Debug, Clone, Copy, PartialEq, Eq, Structural)]
pub enum BalancePointDto {
    Opening,
    Closing,
}

impl BalancePointDto {
    /// The value of the ledger it stands for.
    pub open spec fn denotes(self) -> BalancePoint {
        match self {
            Self::Opening => BalancePoint::Opening,
            Self::Closing => BalancePoint::Closing,
        }
    }

    /// The value of the ledger it stands for.
    pub fn to_domain(self) -> (point: BalancePoint)
        ensures
            point == self.denotes(),
    {
        match self {
            Self::Opening => BalancePoint::Opening,
            Self::Closing => BalancePoint::Closing,
        }
    }

    /// The wire value that stands for a value of the ledger.
    pub fn from_domain(point: BalancePoint) -> (dto: Self)
        ensures
            dto.denotes() == point,
    {
        match point {
            BalancePoint::Opening => Self::Opening,
            BalancePoint::Closing => Self::Closing,
        }
    }
}

impl BalancePointDto {
    /// The code as it appears on the wire.
    pub fn code(self) -> (code: &'static str)
        ensures
            code@ == self.denotes().word(),
    {
        self.to_domain().code()
    }
}

/// Where one dimension stands.
#[derive(Debug, Clone, PartialEq, Eq)]
pub struct DimensionStatusDto {
    pub dimension: String,
    pub status: String,
}

impl DimensionStatusDto {
    /// What the wire form says of the dimension.
    pub open spec fn shows(self, status: DimensionStatus) -> bool {
        &&& self.dimension == status.dimension
        &&& self.status == status.status
    }

    /// The wire form of the dimension.
    pub fn from_domain(status: &DimensionStatus) -> (dto: Self)
        ensures
            dto.shows(*status),
    {
        Self { dimension: status.dimension.clone(), status: status.status.clone() }
    }
}

/// Why a status was raised: the readers and the documents on both sides, which
/// decide independence.
#[derive(Debug, Clone, PartialEq, Eq)]
pub struct EvidenceDto {
    pub ground: String,
    pub level: String,
    pub dimensions: Vec<String>,
    pub confirming_parser: String,
    pub confirmed_parser: String,
    pub confirming_document: Option<String>,
    pub confirmed_document: Option<String>,
}

impl EvidenceDto {
    /// What the wire form says of the record it was rendered from.
    pub open spec fn shows(self, evidence: Evidence) -> bool {
        &&& self.ground == evidence.ground
        &&& self.level == evidence.level
        &&& self.dimensions@ == evidence.dimensions@
        &&& self.confirming_parser == evidence.confirming.parser_version
        &&& self.confirmed_parser == evidence.confirmed.parser_version
        &&& self.confirming_document == evidence.confirming.document
        &&& self.confirmed_document == evidence.confirmed.document
    }

    /// The wire form of the record.
    pub fn from_domain(evidence: &Evidence) -> (dto: Self)
        ensures
            dto.shows(*evidence),
    {
        Self {
            ground: evidence.ground.clone(),
            level: evidence.level.clone(),
            dimensions: evidence.dimensions.clone(),
            confirming_parser: evidence.confirming.parser_version.clone(),
            confirmed_parser: evidence.confirmed.parser_version.clone(),
            confirming_document: evidence.confirming.document.clone(),
            confirmed_document: evidence.confirmed.document.clone(),
        }
    }
}

/// What an observed figure rests on.
#[derive(Debug, Clone, PartialEq, Eq)]
pub struct ObservationBasisDto {
    pub events_folded: u64,
    pub folded_from: Option<Date>,
    pub folded_through: Option<Date>,
    pub start: String,
    pub compared: String,
    /// Present exactly where a change was compared.
    pub compared_since: Option<Date>,
}

impl ObservationBasisDto {
    /// What the wire form says of the record it was rendered from.
    pub open spec fn shows(self, basis: ObservationBasis) -> bool {
        &&& self.events_folded == basis.folded.events
        &&& self.folded_from == basis.folded.first
        &&& self.folded_through == basis.folded.last
        &&& self.start@ == basis.start.word()
        &&& self.compared@ == basis.compared.word()
        &&& self.compared_since == basis.compared.start()
    }

    /// The wire form of the record.
    pub fn from_domain(basis: ObservationBasis) -> (dto: Self)
        ensures
            dto.shows(basis),
    {
        Self {
            events_folded: basis.folded.events,
            folded_from: basis.folded.first,
            folded_through: basis.folded.last,
            start: basis.start.code().to_owned(),
            compared: basis.compared.code().to_owned(),
            compared_since: basis.compared.since(),
        }
    }
}

/// A claimed value.
#[derive(Debug, Clone, PartialEq, Eq)]
pub enum ClaimValueDto {
    Money { amount: String, currency: CurrencyDto },
    Quantity(String),
}

/// A claim.
#[derive(Debug, Clone, PartialEq, Eq)]
pub enum ClaimDto {
    CashBalance { currency: CurrencyDto, at: String, claimed: ClaimValueDto },
    PositionQuantity { instrument: Uuid, custody: Uuid, at: String, claimed: ClaimValueDto },
    CashTurnover { currency: CurrencyDto, debit: String, credit: String },
    FeesTotal { currency: CurrencyDto, claimed: ClaimValueDto },
    IncomeTotal { currency: CurrencyDto, claimed: ClaimValueDto },
    TaxWithheldTotal { currency: CurrencyDto, claimed: ClaimValueDto },
}

/// Account money as text.
pub fn money_text(amount: Money) -> (text: String)
    ensures
        text@ == amount.text(),
{
    amount.to_text()
}

impl ClaimValueDto {
    /// What the wire form says of the value.
    pub open spec fn shows(self, value: ClaimValue) -> bool {
        match value {
            ClaimValue::Money(money) => self matches Self::Money { amount, currency } && amount@
                == money.text() && currency.denotes() == money.currency,
            ClaimValue::Quantity(quantity) => self matches Self::Quantity(text) && text@
                == quantity.text(),
        }
    }
}

/// The wire form of a claimed value.
pub fn claim_value_dto(value: ClaimValue) -> (dto: ClaimValueDto)
    ensures
        dto.shows(value),
{
    match value {
        ClaimValue::Money(money) => ClaimValueDto::Money {
            amount: money_text(money),
            currency: CurrencyDto::from_domain(money.currency),
        },
        ClaimValue::Quantity(quantity) => ClaimValueDto::Quantity(quantity.to_text()),
    }
}

impl ClaimDto {
    /// What the wire form says of the claim. A turnover has two sides and no
    /// single claimed value.
    pub open spec fn shows(self, claim: ControlClaim) -> bool {
        match claim {
            ControlClaim::CashBalance { amount, at } => self matches Self::CashBalance {
                currency,
                at: word,
                claimed,
            } && currency.denotes() == amount.currency && word@ == at.word() && claimed.shows(
                ClaimValue::Money(amount),
            ),
            ControlClaim::PositionQuantity { instrument, custody, quantity, at } => self
                matches Self::PositionQuantity {
                    instrument: paper,
                    custody: place,
                    at: word,
                    claimed,
                }
                && paper == instrument.0 && place == custody.0 && word@ == at.word()
                && claimed.shows(ClaimValue::Quantity(quantity)),
            ControlClaim::CashTurnover { currency, debit, credit } => self
                matches Self::CashTurnover { currency: code, debit: arrived, credit: left }
                && code.denotes() == currency && arrived@ == debit.text() && left@ == credit.text(),
            ControlClaim::FeesTotal { amount } => self matches Self::FeesTotal { currency, claimed }
                && currency.denotes() == amount.currency && claimed.shows(
                ClaimValue::Money(amount),
            ),
            ControlClaim::IncomeTotal { amount } => self matches Self::IncomeTotal {
                currency,
                claimed,
            } && currency.denotes() == amount.currency && claimed.shows(ClaimValue::Money(amount)),
            ControlClaim::TaxWithheldTotal { amount } => self matches Self::TaxWithheldTotal {
                currency,
                claimed,
            } && currency.denotes() == amount.currency && claimed.shows(ClaimValue::Money(amount)),
        }
    }
}

/// The wire form of a claim.
pub fn claim_dto(claim: ControlClaim) -> (dto: ClaimDto)
    ensures
        dto.shows(claim),
{
    match claim {
        ControlClaim::CashBalance { amount, at } => ClaimDto::CashBalance {
            currency: CurrencyDto::from_domain(amount.currency),
            at: at.to_word(),
            claimed: claim_value_dto(ClaimValue::Money(amount)),
        },
        ControlClaim::PositionQuantity { instrument, custody, quantity, at } => {
            ClaimDto::PositionQuantity {
                instrument: instrument.0,
                custody: custody.0,
                at: at.to_word(),
                claimed: claim_value_dto(ClaimValue::Quantity(quantity)),
            }
        },
        ControlClaim::CashTurnover { currency, debit, credit } => ClaimDto::CashTurnover {
            currency: CurrencyDto::from_domain(currency),
            debit: money_text(debit),
            credit: money_text(credit),
        },
        ControlClaim::FeesTotal { amount } => ClaimDto::FeesTotal {
            currency: CurrencyDto::from_domain(amount.currency),
            claimed: claim_value_dto(ClaimValue::Money(amount)),
        },
        ControlClaim::IncomeTotal { amount } => ClaimDto::IncomeTotal {
            currency: CurrencyDto::from_domain(amount.currency),
            claimed: claim_value_dto(ClaimValue::Money(amount)),
        },
        ControlClaim::TaxWithheldTotal { amount } => ClaimDto::TaxWithheldTotal {
            currency: CurrencyDto::from_domain(amount.currency),
            claimed: claim_value_dto(ClaimValue::Money(amount)),
        },
    }
}

/// A claim and an observation that do not agree, and by how much.
#[derive(Debug, Clone, PartialEq, Eq)]
pub struct DiscrepancyDto {
    pub field: String,
    pub claimed: ClaimValueDto,
    pub observed: ClaimValueDto,
    pub delta: ClaimValueDto,
}

impl DiscrepancyDto {
    /// What the wire form says of the discrepancy.
    pub open spec fn shows(self, discrepancy: Discrepancy) -> bool {
        &&& self.field == discrepancy.field
        &&& self.claimed.shows(discrepancy.claimed)
        &&& self.observed.shows(discrepancy.observed)
        &&& self.delta.shows(discrepancy.delta)
    }
}

/// What comparing a claim came to, with the detail of that outcome alone.
#[derive(Debug, Clone, PartialEq, Eq)]
pub struct ClaimOutcomeDetailDto {
    pub code: String,
    pub discrepancy: Option<DiscrepancyDto>,
    pub reason: Option<String>,
    pub exception: Option<String>,
}

impl ClaimOutcomeDetailDto {
    /// What the wire form says of the outcome.
    pub open spec fn shows(self, outcome: ClaimOutcome) -> bool {
        match outcome {
            ClaimOutcome::Matched => {
                &&& self.code@ == "matched"@
                &&& self.discrepancy is None
                &&& self.reason is None
                &&& self.exception is None
            },
            ClaimOutcome::Discrepant(discrepancy) => {
                &&& self.code@ == "discrepant"@
                &&& self.discrepancy matches Some(dto) && dto.shows(discrepancy)
                &&& self.reason is None
                &&& self.exception is None
            },
            ClaimOutcome::NotComparable { reason } => {
                &&& self.code@ == "not_comparable"@
                &&& self.discrepancy is None
                &&& self.reason == Some(reason)
                &&& self.exception is None
            },
            ClaimOutcome::Excepted { exception } => {
                &&& self.code@ == "excepted"@
                &&& self.discrepancy is None
                &&& self.reason is None
                &&& self.exception == Some(exception)
            },
        }
    }
}

/// A claim, what comparing it came to and what the figure rests on.
#[derive(Debug, Clone, PartialEq, Eq)]
pub struct ClaimOutcomeDto {
    pub claim: ClaimDto,
    pub outcome: ClaimOutcomeDetailDto,
    pub basis: ObservationBasisDto,
}

impl ClaimOutcomeDto {
    /// What the wire form says of the check.
    pub open spec fn shows(self, check: ClaimCheck) -> bool {
        &&& self.claim.shows(check.claim)
        &&& self.outcome.shows(check.outcome)
        &&& self.basis.shows(check.basis)
    }

    /// The wire form of the check.
    pub fn from_domain(check: &ClaimCheck) -> (dto: Self)
        ensures
            dto.shows(*check),
    {
        let outcome = match &check.outcome {
            ClaimOutcome::Matched => ClaimOutcomeDetailDto {
                code: "matched".to_owned(),
                discrepancy: None,
                reason: None,
                exception: None,
            },
            ClaimOutcome::Discrepant(discrepancy) => ClaimOutcomeDetailDto {
                code: "discrepant".to_owned(),
                discrepancy: Some(
                    DiscrepancyDto {
                        field: discrepancy.field.clone(),
                        claimed: claim_value_dto(discrepancy.claimed),
                        observed: claim_value_dto(discrepancy.observed),
                        delta: claim_value_dto(discrepancy.delta),
                    },
                ),
                reason: None,
                exception: None,
            },
            ClaimOutcome::NotComparable { reason } => ClaimOutcomeDetailDto {
                code: "not_comparable".to_owned(),
                discrepancy: None,
                reason: Some(reason.clone()),
                exception: None,
            },
            ClaimOutcome::Excepted { exception } => ClaimOutcomeDetailDto {
                code: "excepted".to_owned(),
                discrepancy: None,
                reason: None,
                exception: Some(exception.clone()),
            },
        };
        Self {
            claim: claim_dto(check.claim),
            outcome,
            basis: ObservationBasisDto::from_domain(check.basis),
        }
    }
}

/// An outcome carries its own detail and no other.
pub proof fn law_an_outcome_carries_only_its_own_detail(
    dto: ClaimOutcomeDetailDto,
    outcome: ClaimOutcome,
)
    requires
        dto.shows(outcome),
    ensures
        dto.discrepancy is Some <==> outcome is Discrepant,
        dto.reason is Some <==> outcome is NotComparable,
        dto.exception is Some <==> outcome is Excepted,
{
}

/// How a row of a document is named.
#[derive(Debug, Clone, PartialEq, Eq)]
pub enum RowNameDto {
    Given(String),
    Fingerprint(String),
}

/// A row a reader refused, and the dimensions it would have moved.
#[derive(Debug, Clone, PartialEq, Eq)]
pub struct RefusedRowDto {
    pub source: Uuid,
    pub row: RowNameDto,
    pub dimensions: Vec<String>,
}

impl RefusedRowDto {
    /// What the wire form says of the row.
    pub open spec fn shows(self, row: RefusedRow) -> bool {
        &&& self.source == row.source.0
        &&& match row.row {
            RowName::Given(name) => self.row == RowNameDto::Given(name),
            RowName::Fingerprint(name) => self.row == RowNameDto::Fingerprint(name),
        }
        &&& self.dimensions@ == row.dimensions@
    }
}

/// The wire form of a refused row.
pub fn refused_row_dto(row: &RefusedRow) -> (dto: RefusedRowDto)
    ensures
        dto.shows(*row),
{
    let row_name = match &row.row {
        RowName::Given(value) => RowNameDto::Given(value.clone()),
        RowName::Fingerprint(value) => RowNameDto::Fingerprint(value.clone()),
    };
    RefusedRowDto { source: row.source.0, row: row_name, dimensions: row.dimensions.clone() }
}

/// An interval of an account in which rows were refused.
#[derive(Debug, Clone, PartialEq, Eq)]
pub struct TaintDto {
    pub account: Uuid,
    pub from: Date,
    pub to: Date,
    pub source: Uuid,
    pub parser_version: String,
    pub dimensions: Vec<String>,
    pub refused: u32,
    pub rows: Vec<RefusedRowDto>,
}

impl TaintDto {
    /// What the wire form says of the record it was rendered from.
    pub open spec fn shows(self, taint: Taint) -> bool {
        &&& self.account == taint.account.0
        &&& self.from == taint.period.from
        &&& self.to == taint.period.to
        &&& self.source == taint.source.0
        &&& self.parser_version == taint.parser_version
        &&& self.dimensions@ == taint.dimensions@
        &&& self.refused == taint.refused
        &&& relate::each(
            self.rows@,
            taint.rows@,
            |dto: RefusedRowDto, row: RefusedRow| dto.shows(row),
        )
    }

    /// The wire form of the record.
    pub fn from_domain(taint: &Taint) -> (dto: Self)
        ensures
            dto.shows(*taint),
    {
        Self {
            account: taint.account.0,
            from: taint.period.from,
            to: taint.period.to,
            source: taint.source.0,
            parser_version: taint.parser_version.clone(),
            dimensions: taint.dimensions.clone(),
            refused: taint.refused,
            rows: map_each(&taint.rows, refused_row_dto),
        }
    }
}

/// Where one account's interval stands, dimension by dimension.
#[derive(Debug, Clone, PartialEq, Eq)]
pub struct ReconciliationStatusDto {
    pub account: Uuid,
    pub from: Date,
    pub to: Date,
    pub dimensions: Vec<DimensionStatusDto>,
    pub evidence: Vec<EvidenceDto>,
    pub outcomes: Vec<ClaimOutcomeDto>,
    pub taints: Vec<TaintDto>,
}

impl ReconciliationStatusDto {
    /// What the wire form says of the record it was rendered from.
    pub open spec fn shows(self, status: ReconciliationStatus) -> bool {
        &&& self.account == status.account.0
        &&& self.from == status.period.from
        &&& self.to == status.period.to
        &&& relate::each(
            self.dimensions@,
            status.dimensions@,
            |dto: DimensionStatusDto, value: DimensionStatus| dto.shows(value),
        )
        &&& relate::each(
            self.evidence@,
            status.evidence@,
            |dto: EvidenceDto, value: Evidence| dto.shows(value),
        )
        &&& relate::each(
            self.outcomes@,
            status.outcomes@,
            |dto: ClaimOutcomeDto, value: ClaimCheck| dto.shows(value),
        )
        &&& relate::each(
            self.taints@,
            status.taints@,
            |dto: TaintDto, value: Taint| dto.shows(value),
        )
    }

    /// The wire form of the record.
    pub fn from_domain(status: &ReconciliationStatus) -> (dto: Self)
        ensures
            dto.shows(*status),
    {
        Self {
            account: status.account.0,
            from: status.period.from,
            to: status.period.to,
            dimensions: map_each(&status.dimensions, DimensionStatusDto::from_domain),
            evidence: map_each(&status.evidence, EvidenceDto::from_domain),
            outcomes: map_each(&status.outcomes, ClaimOutcomeDto::from_domain),
            taints: map_each(&status.taints, TaintDto::from_domain),
        }
    }
}

/// Each `BalancePointDto` denotes its namesake in the ledger, and no two denote one.
pub proof fn law_balance_point_denotes_its_namesake(dto: BalancePointDto)
    ensures
        dto is Opening <==> dto.denotes() is Opening,
        dto is Closing <==> dto.denotes() is Closing,
{
}

/// A `DimensionStatusDto` tells each part of what it shows in a field of its own.
pub proof fn law_dimension_status_is_told_part_by_part(
    dto: DimensionStatusDto,
    status: DimensionStatus,
)
    requires
        dto.shows(status),
    ensures
        dto.dimension == status.dimension,
        dto.status == status.status,
{
}

/// An `EvidenceDto` tells each part of what it shows in a field of its own.
pub proof fn law_evidence_is_told_part_by_part(
    dto: EvidenceDto,
    evidence: Evidence,
)
    requires
        dto.shows(evidence),
    ensures
        dto.ground == evidence.ground,
        dto.level == evidence.level,
        dto.dimensions@ == evidence.dimensions@,
        dto.confirming_parser == evidence.confirming.parser_version,
        dto.confirmed_parser == evidence.confirmed.parser_version,
        dto.confirming_document == evidence.confirming.document,
        dto.confirmed_document == evidence.confirmed.document,
{
}

/// An `ObservationBasisDto` tells each part of what it shows in a field of its own.
pub proof fn law_observation_basis_is_told_part_by_part(
    dto: ObservationBasisDto,
    basis: ObservationBasis,
)
    requires
        dto.shows(basis),
    ensures
        dto.events_folded == basis.folded.events,
        dto.folded_from == basis.folded.first,
        dto.folded_through == basis.folded.last,
        dto.start@ == basis.start.word(),
        dto.compared@ == basis.compared.word(),
        dto.compared_since == basis.compared.start(),
{
}

/// A `ClaimValueDto` shows each kind of record as that kind, with its own parts.
pub proof fn law_claim_value_is_told_part_by_part(
    dto: ClaimValueDto,
    value: ClaimValue,
)
    requires
        dto.shows(value),
    ensures
        match value {
            ClaimValue::Money(money) => dto matches ClaimValueDto::Money {
                amount,
                currency,
            } && amount@
                == money.text() && currency.denotes() == money.currency,
            ClaimValue::Quantity(quantity) => dto matches ClaimValueDto::Quantity(text) && text@
                == quantity.text(),
        },
{
}

/// A `ClaimDto` shows each kind of record as that kind, with its own parts.
pub proof fn law_claim_is_told_part_by_part(
    dto: ClaimDto,
    claim: ControlClaim,
)
    requires
        dto.shows(claim),
    ensures
        match claim {
            ControlClaim::CashBalance { amount, at } => dto matches ClaimDto::CashBalance {
                currency,
                at: word,
                claimed,
            } && currency.denotes() == amount.currency && word@ == at.word() && claimed.shows(
                ClaimValue::Money(amount),
            ),
            ControlClaim::PositionQuantity { instrument, custody, quantity, at } => dto
                matches ClaimDto::PositionQuantity {
                    instrument: paper,
                    custody: place,
                    at: word,
                    claimed,
                }
                && paper == instrument.0 && place == custody.0 && word@ == at.word()
                && claimed.shows(ClaimValue::Quantity(quantity)),
            ControlClaim::CashTurnover { currency, debit, credit } => dto
                matches ClaimDto::CashTurnover { currency: code, debit: arrived, credit: left }
                && code.denotes() == currency && arrived@ == debit.text() && left@ == credit.text(),
            ControlClaim::FeesTotal { amount } => dto matches ClaimDto::FeesTotal {
                currency,
                claimed,
            }
                && currency.denotes() == amount.currency && claimed.shows(
                ClaimValue::Money(amount),
            ),
            ControlClaim::IncomeTotal { amount } => dto matches ClaimDto::IncomeTotal {
                currency,
                claimed,
            } && currency.denotes() == amount.currency && claimed.shows(ClaimValue::Money(amount)),
            ControlClaim::TaxWithheldTotal { amount } => dto matches ClaimDto::TaxWithheldTotal {
                currency,
                claimed,
            } && currency.denotes() == amount.currency && claimed.shows(ClaimValue::Money(amount)),
        },
{
}

/// A `DiscrepancyDto` tells each part of what it shows in a field of its own.
pub proof fn law_discrepancy_is_told_part_by_part(
    dto: DiscrepancyDto,
    discrepancy: Discrepancy,
)
    requires
        dto.shows(discrepancy),
    ensures
        dto.field == discrepancy.field,
        dto.claimed.shows(discrepancy.claimed),
        dto.observed.shows(discrepancy.observed),
        dto.delta.shows(discrepancy.delta),
{
}

/// A `ClaimOutcomeDetailDto` shows each kind of record as that kind, with its own parts.
pub proof fn law_claim_outcome_detail_is_told_part_by_part(
    dto: ClaimOutcomeDetailDto,
    outcome: ClaimOutcome,
)
    requires
        dto.shows(outcome),
    ensures
        match outcome {
            ClaimOutcome::Matched => {
                &&& dto.code@ == "matched"@
                &&& dto.discrepancy is None
                &&& dto.reason is None
                &&& dto.exception is None
            },
            ClaimOutcome::Discrepant(discrepancy) => {
                &&& dto.code@ == "discrepant"@
                &&& dto.discrepancy matches Some(dto) && dto.shows(discrepancy)
                &&& dto.reason is None
                &&& dto.exception is None
            },
            ClaimOutcome::NotComparable { reason } => {
                &&& dto.code@ == "not_comparable"@
                &&& dto.discrepancy is None
                &&& dto.reason == Some(reason)
                &&& dto.exception is None
            },
            ClaimOutcome::Excepted { exception } => {
                &&& dto.code@ == "excepted"@
                &&& dto.discrepancy is None
                &&& dto.reason is None
                &&& dto.exception == Some(exception)
            },
        },
{
}

/// A `ClaimOutcomeDto` tells each part of what it shows in a field of its own.
pub proof fn law_claim_outcome_is_told_part_by_part(
    dto: ClaimOutcomeDto,
    check: ClaimCheck,
)
    requires
        dto.shows(check),
    ensures
        dto.claim.shows(check.claim),
        dto.outcome.shows(check.outcome),
        dto.basis.shows(check.basis),
{
}

/// A `RefusedRowDto` tells each part of what it shows in a field of its own.
pub proof fn law_refused_row_is_told_part_by_part(
    dto: RefusedRowDto,
    row: RefusedRow,
)
    requires
        dto.shows(row),
    ensures
        dto.source == row.source.0,
        match row.row {
            RowName::Given(name) => dto.row == RowNameDto::Given(name),
            RowName::Fingerprint(name) => dto.row == RowNameDto::Fingerprint(name),
        },
        dto.dimensions@ == row.dimensions@,
{
}

/// A `TaintDto` tells each part of what it shows in a field of its own.
pub proof fn law_taint_is_told_part_by_part(
    dto: TaintDto,
    taint: Taint,
)
    requires
        dto.shows(taint),
    ensures
        dto.account == taint.account.0,
        dto.from == taint.period.from,
        dto.to == taint.period.to,
        dto.source == taint.source.0,
        dto.parser_version == taint.parser_version,
        dto.dimensions@ == taint.dimensions@,
        dto.refused == taint.refused,
        dto.rows@.len() == taint.rows@.len(),
        forall|i: int| 0 <= i < taint.rows@.len() ==> (
            #[trigger] dto.rows@[i]
        ).shows(taint.rows@[i]),
{
}

/// A `ReconciliationStatusDto` tells each part of what it shows in a field of its own.
pub proof fn law_reconciliation_status_is_told_part_by_part(
    dto: ReconciliationStatusDto,
    status: ReconciliationStatus,
)
    requires
        dto.shows(status),
    ensures
        dto.account == status.account.0,
        dto.from == status.period.from,
        dto.to == status.period.to,
        dto.dimensions@.len() == status.dimensions@.len(),
        forall|i: int| 0 <= i < status.dimensions@.len() ==> (
            #[trigger] dto.dimensions@[i]
        ).shows(status.dimensions@[i]),
        dto.evidence@.len() == status.evidence@.len(),
        forall|i: int| 0 <= i < status.evidence@.len() ==> (
            #[trigger] dto.evidence@[i]
        ).shows(status.evidence@[i]),
        dto.outcomes@.len() == status.outcomes@.len(),
        forall|i: int| 0 <= i < status.outcomes@.len() ==> (
            #[trigger] dto.outcomes@[i]
        ).shows(status.outcomes@[i]),
        dto.taints@.len() == status.taints@.len(),
        forall|i: int| 0 <= i < status.taints@.len() ==> (
            #[trigger] dto.taints@[i]
        ).shows(status.taints@[i]),
{
}

} // verus!
