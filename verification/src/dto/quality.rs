//! How far a report's figures can be relied on, on the wire.

use crate::dto::bond::posting_kind;
use crate::dto::computed::ComputedDto;
use crate::dto::price::SelectedPriceDto;
use crate::ids::{CustodyId, Uuid};
use crate::ledger::quality::{
    AmountQualification, DataQuality, EvaluatedPosition, ExecutabilityShares,
    LegacyDerivedPosition, LiquidationEstimate, MaterialIssue, NavCoverage, PositionCoverage,
    UncoveredPosition, UncoveredReason,
};
use crate::relate::map_each;
use crate::relate;
use crate::text::natural_text;
use crate::text;
use vstd::prelude::*;

verus! {

/// The word for why a position has no price.
pub fn uncovered_reason(value: &UncoveredReason) -> (word: &'static str)
    ensures
        word@ == value.word(),
{
    match value {
        UncoveredReason::NoObservation => "no_observation",
        UncoveredReason::TooOld => "too_old",
        UncoveredReason::AmbiguousVenue => "ambiguous_venue",
        UncoveredReason::AmbiguousCandidate => "ambiguous_candidate",
        UncoveredReason::NotComputable { reason } => reason.code(),
    }
}

/// A position that was valued, with its price.
#[derive(Debug, Clone, PartialEq, Eq)]
pub struct EvaluatedPositionDto {
    pub account: Uuid,
    pub custody: Option<Uuid>,
    pub instrument: Uuid,
    pub quantity: String,
    pub price: SelectedPriceDto,
}

impl EvaluatedPositionDto {
    /// What the wire form says of the record it was rendered from.
    pub open spec fn shows(self, position: EvaluatedPosition) -> bool {
        &&& self.account == position.account.0
        &&& relate::both(self.custody, position.custody, |uuid: Uuid, id: CustodyId| uuid == id.0)
        &&& self.instrument == position.instrument.0
        &&& self.quantity@ == position.quantity.text()
        &&& self.price.shows(position.price)
    }

    /// The wire form of the record.
    pub fn from_domain(position: &EvaluatedPosition) -> (dto: Self)
        ensures
            dto.shows(*position),
    {
        Self {
            account: position.account.0,
            custody: position.custody.map(CustodyId::inner),
            instrument: position.instrument.0,
            quantity: position.quantity.to_text(),
            price: SelectedPriceDto::from_domain(&position.price),
        }
    }
}

/// A position without a price, and why.
#[derive(Debug, Clone, PartialEq, Eq)]
pub struct UncoveredPositionDto {
    pub account: Uuid,
    pub custody: Option<Uuid>,
    pub instrument: Uuid,
    pub reason: String,
}

impl UncoveredPositionDto {
    /// What the wire form says of the record it was rendered from.
    pub open spec fn shows(self, position: UncoveredPosition) -> bool {
        &&& self.account == position.account.0
        &&& relate::both(self.custody, position.custody, |uuid: Uuid, id: CustodyId| uuid == id.0)
        &&& self.instrument == position.instrument.0
        &&& self.reason@ == position.reason.word()
    }

    /// The wire form of the record.
    pub fn from_domain(position: &UncoveredPosition) -> (dto: Self)
        ensures
            dto.shows(*position),
    {
        Self {
            account: position.account.0,
            custody: position.custody.map(CustodyId::inner),
            instrument: position.instrument.0,
            reason: uncovered_reason(&position.reason).to_owned(),
        }
    }
}

/// A position valued at a price of an older kind.
#[derive(Debug, Clone, PartialEq, Eq)]
pub struct LegacyDerivedPositionDto {
    pub account: Uuid,
    pub custody: Option<Uuid>,
    pub instrument: Uuid,
    pub quality: String,
}

impl LegacyDerivedPositionDto {
    /// What the wire form says of the record it was rendered from.
    pub open spec fn shows(self, position: LegacyDerivedPosition) -> bool {
        &&& self.account == position.account.0
        &&& relate::both(self.custody, position.custody, |uuid: Uuid, id: CustodyId| uuid == id.0)
        &&& self.instrument == position.instrument.0
        &&& self.quality@ == position.quality.word()
    }

    /// The wire form of the record.
    pub fn from_domain(position: &LegacyDerivedPosition) -> (dto: Self)
        ensures
            dto.shows(*position),
    {
        Self {
            account: position.account.0,
            custody: position.custody.map(CustodyId::inner),
            instrument: position.instrument.0,
            quality: position.quality.code().to_owned(),
        }
    }
}

/// Which positions were valued and which were not.
#[derive(Debug, Clone, PartialEq, Eq)]
pub struct PositionCoverageDto {
    pub evaluated_positions: u32,
    pub total_positions: u32,
    pub selected: Vec<EvaluatedPositionDto>,
    pub uncovered: Vec<UncoveredPositionDto>,
    pub legacy_derived: Vec<LegacyDerivedPositionDto>,
}

impl PositionCoverageDto {
    /// What the wire form says of the record it was rendered from.
    pub open spec fn shows(self, coverage: PositionCoverage) -> bool {
        &&& self.evaluated_positions == coverage.evaluated_positions
        &&& self.total_positions == coverage.total_positions
        &&& relate::each(
            self.selected@,
            coverage.selected@,
            |dto: EvaluatedPositionDto, value: EvaluatedPosition| dto.shows(value),
        )
        &&& relate::each(
            self.uncovered@,
            coverage.uncovered@,
            |dto: UncoveredPositionDto, value: UncoveredPosition| dto.shows(value),
        )
        &&& relate::each(
            self.legacy_derived@,
            coverage.legacy_derived@,
            |dto: LegacyDerivedPositionDto, value: LegacyDerivedPosition| dto.shows(value),
        )
    }

    /// The wire form of the record.
    pub fn from_domain(coverage: &PositionCoverage) -> (dto: Self)
        ensures
            dto.shows(*coverage),
    {
        Self {
            evaluated_positions: coverage.evaluated_positions,
            total_positions: coverage.total_positions,
            selected: map_each(&coverage.selected, EvaluatedPositionDto::from_domain),
            uncovered: map_each(&coverage.uncovered, UncoveredPositionDto::from_domain),
            legacy_derived: map_each(
                &coverage.legacy_derived,
                LegacyDerivedPositionDto::from_domain,
            ),
        }
    }
}

/// How much of the value could be traded at.
#[derive(Debug, Clone, PartialEq, Eq)]
pub struct ExecutabilitySharesDto {
    pub evaluated_positions_value: String,
    pub executable: String,
    pub indicative_previous_close: String,
    pub unknown: String,
}

impl ExecutabilitySharesDto {
    /// What the wire form says of the record it was rendered from.
    pub open spec fn shows(self, shares: ExecutabilityShares) -> bool {
        &&& self.evaluated_positions_value@ == shares.evaluated_positions_value.text()
        &&& self.executable@ == shares.executable.text()
        &&& self.indicative_previous_close@ == shares.indicative_previous_close.text()
        &&& self.unknown@ == shares.unknown.text()
    }

    /// The wire form of the record.
    pub fn from_domain(shares: &ExecutabilityShares) -> (dto: Self)
        ensures
            dto.shows(*shares),
    {
        Self {
            evaluated_positions_value: shares.evaluated_positions_value.to_text(),
            executable: shares.executable.to_text(),
            indicative_previous_close: shares.indicative_previous_close.to_text(),
            unknown: shares.unknown.to_text(),
        }
    }
}

/// An amount that may not be known. An unknown amount has no value and is never
/// a zero.
#[derive(Debug, Clone, PartialEq, Eq)]
pub struct AmountQualificationDto {
    pub value: Option<String>,
    pub qualification: String,
}

impl AmountQualificationDto {
    /// What the wire form says of the amount.
    pub open spec fn shows(self, amount: AmountQualification) -> bool {
        match amount {
            AmountQualification::Known(value) => {
                &&& self.value matches Some(text) && text@ == value.text()
                &&& self.qualification@ == "known"@
            },
            AmountQualification::Unknown => {
                &&& self.value is None
                &&& self.qualification@ == "unknown"@
            },
        }
    }

    /// The wire form of the amount.
    pub fn from_domain(amount: AmountQualification) -> (dto: Self)
        ensures
            dto.shows(amount),
    {
        match amount {
            AmountQualification::Known(value) => Self {
                value: Some(value.to_text()),
                qualification: "known".to_owned(),
            },
            AmountQualification::Unknown => Self {
                value: None,
                qualification: "unknown".to_owned(),
            },
        }
    }
}

/// What selling everything would bring, before what is not known.
#[derive(Debug, Clone, PartialEq, Eq)]
pub struct LiquidationEstimateDto {
    pub value_before_exit_costs_and_tax: ComputedDto,
    pub executability: ExecutabilitySharesDto,
    pub exit_costs: AmountQualificationDto,
    pub tax: AmountQualificationDto,
    pub accrued_interest_payable_on_termination: ComputedDto,
}

impl LiquidationEstimateDto {
    /// What the wire form says of the record it was rendered from.
    pub open spec fn shows(self, estimate: LiquidationEstimate) -> bool {
        &&& self.value_before_exit_costs_and_tax.shows(estimate.value_before_exit_costs_and_tax)
        &&& self.executability.shows(estimate.executability)
        &&& self.exit_costs.shows(estimate.exit_costs)
        &&& self.tax.shows(estimate.tax)
        &&& self.accrued_interest_payable_on_termination.shows(
            estimate.accrued_interest_payable_on_termination,
        )
    }

    /// The wire form of the record.
    pub fn from_domain(estimate: &LiquidationEstimate) -> (dto: Self)
        ensures
            dto.shows(*estimate),
    {
        Self {
            value_before_exit_costs_and_tax: ComputedDto::from_dec(
                &estimate.value_before_exit_costs_and_tax,
            ),
            executability: ExecutabilitySharesDto::from_domain(&estimate.executability),
            exit_costs: AmountQualificationDto::from_domain(estimate.exit_costs),
            tax: AmountQualificationDto::from_domain(estimate.tax),
            accrued_interest_payable_on_termination: ComputedDto::from_dec(
                &estimate.accrued_interest_payable_on_termination,
            ),
        }
    }
}

/// How much of the value each degree of acceptance covers.
#[derive(Debug, Clone, PartialEq, Eq)]
pub struct NavCoverageDto {
    pub accepted_independent: String,
    pub accepted_internal: String,
    pub provisional: String,
    pub discrepant: String,
}

impl NavCoverageDto {
    /// What the wire form says of the record it was rendered from.
    pub open spec fn shows(self, coverage: NavCoverage) -> bool {
        &&& self.accepted_independent@ == coverage.accepted_independent.text()
        &&& self.accepted_internal@ == coverage.accepted_internal.text()
        &&& self.provisional@ == coverage.provisional.text()
        &&& self.discrepant@ == coverage.discrepant.text()
    }

    /// The wire form of the record.
    pub fn from_domain(coverage: &NavCoverage) -> (dto: Self)
        ensures
            dto.shows(*coverage),
    {
        Self {
            accepted_independent: coverage.accepted_independent.to_text(),
            accepted_internal: coverage.accepted_internal.to_text(),
            provisional: coverage.provisional.to_text(),
            discrepant: coverage.discrepant.to_text(),
        }
    }
}

/// A material issue in words.
pub open spec fn issue_text(value: MaterialIssue) -> Seq<char> {
    match value {
        MaterialIssue::RestoredWithoutBasis { account } => "account "@ + account.0.text()
            + " was reconstructed without a documented value"@,
        MaterialIssue::AmortisationAllocationUnknown { account, instrument } =>
            "the amortisation allocation share for instrument "@ + instrument.0.text()
            + " in account "@ + account.0.text()
            + " could not be derived: load a verified issue schedule"@,
        MaterialIssue::NegativeCash { account, currency } => "negative balance in account "@
            + account.0.text() + " in "@ + currency.word(),
        MaterialIssue::HistoryStartsAt { date } => "history starts on "@ + date.text(),
        MaterialIssue::NoIndependentSource { account, dimension } =>
            "account "@ + account.0.text() + " has no independent confirmation of the "@
            + dimension@ + " measurement"@,
        MaterialIssue::Discrepancy { account, dimension } => "account "@ + account.0.text()
            + " reconciliation for measurement "@ + dimension@ + " does not balance"@,
        MaterialIssue::UnsupportedFinancing { account } => "account "@ + account.0.text()
            + " contains funding outside the perimeter"@,
        MaterialIssue::OfferWindowUnresolved { submission } =>
            "offer request "@ + submission.0.text() + " refers to an unknown window"@,
        MaterialIssue::ScheduledPostingNotReceived { account, instrument, date, kind } =>
            "payment "@ + kind.word() + " for instrument "@ + instrument.0.text() + " in account "@
            + account.0.text() + " for "@ + date.text() + " has not been confirmed"@,
        MaterialIssue::ScheduledPostingUnverifiable { account, instrument, date, kind, reason } =>
            "payment "@ + kind.word() + " for instrument "@ + instrument.0.text() + " in account "@
            + account.0.text() + " for "@ + date.text() + " cannot be reconciled: "@ + reason@,
        MaterialIssue::ScheduledPostingsUnverifiable {
            account,
            instrument,
            kind,
            reason,
            count,
            first_date,
            last_date,
        } =>
            "the "@ + text::digits(count as nat) + " payments of type "@ + kind.word()
            + " for instrument "@ + instrument.0.text() + " in account "@ + account.0.text()
            + " from "@ + first_date.text() + " to "@ + last_date.text()
            + " cannot be reconciled: "@ + reason@,
        MaterialIssue::AccruedInterestMismatch {
            instrument,
            computed,
            computed_currency,
            observed,
            observed_currency,
            quantity,
            date,
        } =>
            "accrued coupon interest for instrument "@ + instrument.0.text()
            + " differs: calculated "@ + computed.text() + " "@ + computed_currency.word()
            + " versus observed "@ + observed.text() + " "@ + observed_currency.word()
            + " for quantity "@ + quantity.text() + " on "@ + date.text(),
    }
}

/// A material issue in words.
pub fn issue(value: &MaterialIssue) -> (text: String)
    ensures
        text@ == issue_text(*value),
{
    match value {
        MaterialIssue::RestoredWithoutBasis { account } => {
            let mut text = "account ".to_owned();
            text.append(account.0.to_text().as_str());
            text.append(" was reconstructed without a documented value");
            text
        },
        MaterialIssue::AmortisationAllocationUnknown { account, instrument } => {
            let mut text = "the amortisation allocation share for instrument ".to_owned();
            text.append(instrument.0.to_text().as_str());
            text.append(" in account ");
            text.append(account.0.to_text().as_str());
            text.append(" could not be derived: load a verified issue schedule");
            text
        },
        MaterialIssue::NegativeCash { account, currency } => {
            let mut text = "negative balance in account ".to_owned();
            text.append(account.0.to_text().as_str());
            text.append(" in ");
            text.append(currency.code());
            text
        },
        MaterialIssue::HistoryStartsAt { date } => {
            let mut text = "history starts on ".to_owned();
            text.append(date.to_text().as_str());
            text
        },
        MaterialIssue::NoIndependentSource { account, dimension } => {
            let mut text = "account ".to_owned();
            text.append(account.0.to_text().as_str());
            text.append(" has no independent confirmation of the ");
            text.append(dimension.as_str());
            text.append(" measurement");
            text
        },
        MaterialIssue::Discrepancy { account, dimension } => {
            let mut text = "account ".to_owned();
            text.append(account.0.to_text().as_str());
            text.append(" reconciliation for measurement ");
            text.append(dimension.as_str());
            text.append(" does not balance");
            text
        },
        MaterialIssue::UnsupportedFinancing { account } => {
            let mut text = "account ".to_owned();
            text.append(account.0.to_text().as_str());
            text.append(" contains funding outside the perimeter");
            text
        },
        MaterialIssue::OfferWindowUnresolved { submission } => {
            let mut text = "offer request ".to_owned();
            text.append(submission.0.to_text().as_str());
            text.append(" refers to an unknown window");
            text
        },
        MaterialIssue::ScheduledPostingNotReceived { account, instrument, date, kind } => {
            let mut text = "payment ".to_owned();
            text.append(posting_kind(*kind));
            text.append(" for instrument ");
            text.append(instrument.0.to_text().as_str());
            text.append(" in account ");
            text.append(account.0.to_text().as_str());
            text.append(" for ");
            text.append(date.to_text().as_str());
            text.append(" has not been confirmed");
            text
        },
        MaterialIssue::ScheduledPostingUnverifiable { account, instrument, date, kind, reason } => {
            let mut text = "payment ".to_owned();
            text.append(posting_kind(*kind));
            text.append(" for instrument ");
            text.append(instrument.0.to_text().as_str());
            text.append(" in account ");
            text.append(account.0.to_text().as_str());
            text.append(" for ");
            text.append(date.to_text().as_str());
            text.append(" cannot be reconciled: ");
            text.append(reason.as_str());
            text
        },
        MaterialIssue::ScheduledPostingsUnverifiable {
            account,
            instrument,
            kind,
            reason,
            count,
            first_date,
            last_date,
        } => {
            let mut text = "the ".to_owned();
            text.append(natural_text(*count as u64).as_str());
            text.append(" payments of type ");
            text.append(posting_kind(*kind));
            text.append(" for instrument ");
            text.append(instrument.0.to_text().as_str());
            text.append(" in account ");
            text.append(account.0.to_text().as_str());
            text.append(" from ");
            text.append(first_date.to_text().as_str());
            text.append(" to ");
            text.append(last_date.to_text().as_str());
            text.append(" cannot be reconciled: ");
            text.append(reason.as_str());
            text
        },
        MaterialIssue::AccruedInterestMismatch {
            instrument,
            computed,
            computed_currency,
            observed,
            observed_currency,
            quantity,
            date,
        } => {
            let mut text = "accrued coupon interest for instrument ".to_owned();
            text.append(instrument.0.to_text().as_str());
            text.append(" differs: calculated ");
            text.append(computed.to_text().as_str());
            text.append(" ");
            text.append(computed_currency.code());
            text.append(" versus observed ");
            text.append(observed.to_text().as_str());
            text.append(" ");
            text.append(observed_currency.code());
            text.append(" for quantity ");
            text.append(quantity.to_text().as_str());
            text.append(" on ");
            text.append(date.to_text().as_str());
            text
        },
    }
}

/// How far the figures can be relied on.
#[derive(Debug, Clone, PartialEq, Eq)]
pub struct DataQualityDto {
    pub status: String,
    pub nav_coverage: NavCoverageDto,
    pub position_coverage: PositionCoverageDto,
    pub executability: ExecutabilitySharesDto,
    pub material_issues: Vec<String>,
}

impl DataQualityDto {
    /// What the wire form says of the record it was rendered from.
    pub open spec fn shows(self, quality: DataQuality) -> bool {
        &&& self.status == quality.status
        &&& self.nav_coverage.shows(quality.nav_coverage)
        &&& self.position_coverage.shows(quality.position_coverage)
        &&& self.executability.shows(quality.executability)
        &&& relate::each(
            self.material_issues@,
            quality.material_issues@,
            |text: String, value: MaterialIssue| text@ == issue_text(value),
        )
    }

    /// The wire form of the record.
    pub fn from_domain(quality: &DataQuality) -> (dto: Self)
        ensures
            dto.shows(*quality),
    {
        Self {
            status: quality.status.clone(),
            nav_coverage: NavCoverageDto::from_domain(&quality.nav_coverage),
            position_coverage: PositionCoverageDto::from_domain(&quality.position_coverage),
            executability: ExecutabilitySharesDto::from_domain(&quality.executability),
            material_issues: map_each(&quality.material_issues, issue),
        }
    }
}

/// An `EvaluatedPositionDto` tells each part of what it shows in a field of its own.
pub proof fn law_evaluated_position_is_told_part_by_part(
    dto: EvaluatedPositionDto,
    position: EvaluatedPosition,
)
    requires
        dto.shows(position),
    ensures
        dto.account == position.account.0,
        match (dto.custody, position.custody) {
            (Some(told), Some(meant)) => told == meant.0,
            (None, None) => true,
            _ => false,
        },
        dto.instrument == position.instrument.0,
        dto.quantity@ == position.quantity.text(),
        dto.price.shows(position.price),
{
}

/// An `UncoveredPositionDto` tells each part of what it shows in a field of its own.
pub proof fn law_uncovered_position_is_told_part_by_part(
    dto: UncoveredPositionDto,
    position: UncoveredPosition,
)
    requires
        dto.shows(position),
    ensures
        dto.account == position.account.0,
        match (dto.custody, position.custody) {
            (Some(told), Some(meant)) => told == meant.0,
            (None, None) => true,
            _ => false,
        },
        dto.instrument == position.instrument.0,
        dto.reason@ == position.reason.word(),
{
}

/// A `LegacyDerivedPositionDto` tells each part of what it shows in a field of its own.
pub proof fn law_legacy_derived_position_is_told_part_by_part(
    dto: LegacyDerivedPositionDto,
    position: LegacyDerivedPosition,
)
    requires
        dto.shows(position),
    ensures
        dto.account == position.account.0,
        match (dto.custody, position.custody) {
            (Some(told), Some(meant)) => told == meant.0,
            (None, None) => true,
            _ => false,
        },
        dto.instrument == position.instrument.0,
        dto.quality@ == position.quality.word(),
{
}

/// A `PositionCoverageDto` tells each part of what it shows in a field of its own.
pub proof fn law_position_coverage_is_told_part_by_part(
    dto: PositionCoverageDto,
    coverage: PositionCoverage,
)
    requires
        dto.shows(coverage),
    ensures
        dto.evaluated_positions == coverage.evaluated_positions,
        dto.total_positions == coverage.total_positions,
        dto.selected@.len() == coverage.selected@.len(),
        forall|i: int| 0 <= i < coverage.selected@.len() ==> (
            #[trigger] dto.selected@[i]
        ).shows(coverage.selected@[i]),
        dto.uncovered@.len() == coverage.uncovered@.len(),
        forall|i: int| 0 <= i < coverage.uncovered@.len() ==> (
            #[trigger] dto.uncovered@[i]
        ).shows(coverage.uncovered@[i]),
        dto.legacy_derived@.len() == coverage.legacy_derived@.len(),
        forall|i: int| 0 <= i < coverage.legacy_derived@.len() ==> (
            #[trigger] dto.legacy_derived@[i]
        ).shows(coverage.legacy_derived@[i]),
{
}

/// An `ExecutabilitySharesDto` tells each part of what it shows in a field of its own.
pub proof fn law_executability_shares_is_told_part_by_part(
    dto: ExecutabilitySharesDto,
    shares: ExecutabilityShares,
)
    requires
        dto.shows(shares),
    ensures
        dto.evaluated_positions_value@ == shares.evaluated_positions_value.text(),
        dto.executable@ == shares.executable.text(),
        dto.indicative_previous_close@ == shares.indicative_previous_close.text(),
        dto.unknown@ == shares.unknown.text(),
{
}

/// An `AmountQualificationDto` shows each kind of record as that kind, with its own parts.
pub proof fn law_amount_qualification_is_told_part_by_part(
    dto: AmountQualificationDto,
    amount: AmountQualification,
)
    requires
        dto.shows(amount),
    ensures
        match amount {
            AmountQualification::Known(value) => {
                &&& dto.value matches Some(text) && text@ == value.text()
                &&& dto.qualification@ == "known"@
            },
            AmountQualification::Unknown => {
                &&& dto.value is None
                &&& dto.qualification@ == "unknown"@
            },
        },
{
}

/// A `LiquidationEstimateDto` tells each part of what it shows in a field of its own.
pub proof fn law_liquidation_estimate_is_told_part_by_part(
    dto: LiquidationEstimateDto,
    estimate: LiquidationEstimate,
)
    requires
        dto.shows(estimate),
    ensures
        dto.value_before_exit_costs_and_tax.shows(estimate.value_before_exit_costs_and_tax),
        dto.executability.shows(estimate.executability),
        dto.exit_costs.shows(estimate.exit_costs),
        dto.tax.shows(estimate.tax),
        dto.accrued_interest_payable_on_termination.shows(
            estimate.accrued_interest_payable_on_termination,
        ),
{
}

/// A `NavCoverageDto` tells each part of what it shows in a field of its own.
pub proof fn law_nav_coverage_is_told_part_by_part(
    dto: NavCoverageDto,
    coverage: NavCoverage,
)
    requires
        dto.shows(coverage),
    ensures
        dto.accepted_independent@ == coverage.accepted_independent.text(),
        dto.accepted_internal@ == coverage.accepted_internal.text(),
        dto.provisional@ == coverage.provisional.text(),
        dto.discrepant@ == coverage.discrepant.text(),
{
}

/// A `DataQualityDto` tells each part of what it shows in a field of its own.
pub proof fn law_data_quality_is_told_part_by_part(
    dto: DataQualityDto,
    quality: DataQuality,
)
    requires
        dto.shows(quality),
    ensures
        dto.status == quality.status,
        dto.nav_coverage.shows(quality.nav_coverage),
        dto.position_coverage.shows(quality.position_coverage),
        dto.executability.shows(quality.executability),
        dto.material_issues@.len() == quality.material_issues@.len(),
        forall|i: int| 0 <= i < quality.material_issues@.len() ==> (
            #[trigger] dto.material_issues@[i]
        )@ == issue_text(quality.material_issues@[i]),
{
}

/// Each issue is told in its own sentence, with its own account, instrument, dates and
/// figures in their places.
pub proof fn law_each_issue_is_told_with_its_own_parts(value: MaterialIssue)
    ensures
        value matches MaterialIssue::RestoredWithoutBasis { account } ==>
            issue_text(value) == "account "@ + account.0.text()
            + " was reconstructed without a documented value"@,
        value matches MaterialIssue::AmortisationAllocationUnknown { account, instrument } ==>
            issue_text(value) == "the amortisation allocation share for instrument "@
            + instrument.0.text() + " in account "@ + account.0.text()
            + " could not be derived: load a verified issue schedule"@,
        value matches MaterialIssue::NegativeCash { account, currency } ==>
            issue_text(value) == "negative balance in account "@ + account.0.text() + " in "@
            + currency.word(),
        value matches MaterialIssue::HistoryStartsAt { date } ==>
            issue_text(value) == "history starts on "@ + date.text(),
        value matches MaterialIssue::NoIndependentSource { account, dimension } ==>
            issue_text(value) == "account "@ + account.0.text()
            + " has no independent confirmation of the "@ + dimension@ + " measurement"@,
        value matches MaterialIssue::Discrepancy { account, dimension } ==>
            issue_text(value) == "account "@ + account.0.text()
            + " reconciliation for measurement "@ + dimension@ + " does not balance"@,
        value matches MaterialIssue::UnsupportedFinancing { account } ==>
            issue_text(value) == "account "@ + account.0.text()
            + " contains funding outside the perimeter"@,
        value matches MaterialIssue::OfferWindowUnresolved { submission } ==>
            issue_text(value) == "offer request "@ + submission.0.text()
            + " refers to an unknown window"@,
        value matches MaterialIssue::ScheduledPostingNotReceived {
            account,
            instrument,
            date,
            kind,
        } ==>
            issue_text(value) == "payment "@ + kind.word() + " for instrument "@
            + instrument.0.text() + " in account "@ + account.0.text() + " for "@ + date.text()
            + " has not been confirmed"@,
        value matches MaterialIssue::ScheduledPostingUnverifiable {
            account,
            instrument,
            date,
            kind,
            reason,
        } ==>
            issue_text(value) == "payment "@ + kind.word() + " for instrument "@
            + instrument.0.text() + " in account "@ + account.0.text() + " for "@ + date.text()
            + " cannot be reconciled: "@ + reason@,
        value matches MaterialIssue::ScheduledPostingsUnverifiable {
            account,
            instrument,
            kind,
            reason,
            count,
            first_date,
            last_date,
        } ==>
            issue_text(value) == "the "@ + text::digits(count as nat) + " payments of type "@
            + kind.word() + " for instrument "@ + instrument.0.text() + " in account "@
            + account.0.text() + " from "@ + first_date.text() + " to "@ + last_date.text()
            + " cannot be reconciled: "@ + reason@,
        value matches MaterialIssue::AccruedInterestMismatch {
            instrument,
            computed,
            computed_currency,
            observed,
            observed_currency,
            quantity,
            date,
        } ==>
            issue_text(value) == "accrued coupon interest for instrument "@ + instrument.0.text()
            + " differs: calculated "@ + computed.text() + " "@ + computed_currency.word()
            + " versus observed "@ + observed.text() + " "@ + observed_currency.word()
            + " for quantity "@ + quantity.text() + " on "@ + date.text(),
{
}

} // verus!
