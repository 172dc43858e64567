//! The returns report on the wire.

use crate::action_catalog::ActionCatalog;
use crate::calendar::Date;
use crate::dto::bond::{BondPositionAttributesDto, BondPositionMetricsDto};
use crate::dto::computed::{ComputedDto, RateDto, rate_dto};
use crate::dto::currency::CurrencyDto;
use crate::dto::quality::{DataQualityDto, LiquidationEstimateDto};
use crate::dto::report::{ConfidenceDto, HeldRowsDto, PopulationDto};
use crate::ids::Uuid;
use crate::ledger::bond::{BondPositionAttributes, BondPositionMetrics};
use crate::ledger::return_report::{AppliedRules, ReturnsOutcome, ReturnsReport};
use crate::relate::map_each;
use crate::relate;
use vstd::prelude::*;

verus! {

/// The rules the figures were computed under.
#[derive(Debug, Clone, PartialEq, Eq)]
pub struct AppliedRulesDto {
    pub contour: Uuid,
    pub contour_version: u32,
    pub lot_rule: Option<String>,
    pub fx_source: String,
    pub day_count: String,
    pub solver_rate_tolerance: String,
    pub solver_max_iterations: u32,
    pub perimeter_settlement_window_days: u16,
}

impl AppliedRulesDto {
    /// What the wire form says of the record it was rendered from.
    pub open spec fn shows(self, rules: AppliedRules) -> bool {
        &&& self.contour == rules.contour.0
        &&& self.contour_version == rules.contour_version
        &&& self.lot_rule == rules.lot_rule
        &&& self.fx_source == rules.fx_source
        &&& self.day_count == rules.day_count
        &&& self.solver_rate_tolerance == rules.solver_rate_tolerance
        &&& self.solver_max_iterations == rules.solver_max_iterations
        &&& self.perimeter_settlement_window_days == rules.perimeter_settlement_window_days
    }

    /// The wire form of the record.
    pub fn from_domain(rules: &AppliedRules) -> (dto: Self)
        ensures
            dto.shows(*rules),
    {
        Self {
            contour: rules.contour.0,
            contour_version: rules.contour_version,
            lot_rule: rules.lot_rule.clone(),
            fx_source: rules.fx_source.clone(),
            day_count: rules.day_count.clone(),
            solver_rate_tolerance: rules.solver_rate_tolerance.clone(),
            solver_max_iterations: rules.solver_max_iterations,
            perimeter_settlement_window_days: rules.perimeter_settlement_window_days,
        }
    }
}

/// What the money brought.
#[derive(Debug, Clone, PartialEq, Eq)]
pub struct ReturnsReportDto {
    pub as_of: Date,
    pub history_starts: Option<Date>,
    pub report_currency: CurrencyDto,
    pub contributed: ComputedDto,
    pub withdrawn: ComputedDto,
    pub terminal_value: ComputedDto,
    pub liquidation_value_before_exit_costs_and_tax: LiquidationEstimateDto,
    pub bond_attributes: Vec<BondPositionAttributesDto>,
    pub bond_metrics: Vec<BondPositionMetricsDto>,
    pub xirr_pre_tax: RateDto,
    pub applied_rules: AppliedRulesDto,
    pub data_quality: DataQualityDto,
}

impl ReturnsReportDto {
    /// What the wire form says of the record it was rendered from.
    pub open spec fn shows(self, report: ReturnsReport) -> bool {
        &&& self.as_of == report.as_of
        &&& self.history_starts == report.history_starts
        &&& self.report_currency.denotes() == report.report_currency
        &&& self.contributed.shows(report.contributed)
        &&& self.withdrawn.shows(report.withdrawn)
        &&& self.terminal_value.shows(report.terminal_value)
        &&& self.liquidation_value_before_exit_costs_and_tax.shows(
            report.liquidation_value_before_exit_costs_and_tax,
        )
        &&& relate::each(
            self.bond_attributes@,
            report.bond_attributes@,
            |dto: BondPositionAttributesDto, value: BondPositionAttributes| dto.shows(value),
        )
        &&& relate::each(
            self.bond_metrics@,
            report.bond_metrics@,
            |dto: BondPositionMetricsDto, value: BondPositionMetrics| dto.shows(value),
        )
        &&& self.xirr_pre_tax.shows(report.xirr, report.applied_rules.day_count@)
        &&& self.applied_rules.shows(report.applied_rules)
        &&& self.data_quality.shows(report.data_quality)
    }

    /// The wire form of the record.
    pub fn from_domain(report: &ReturnsReport) -> (dto: Self)
        ensures
            dto.shows(*report),
    {
        Self {
            as_of: report.as_of,
            history_starts: report.history_starts,
            report_currency: CurrencyDto::from_domain(report.report_currency),
            contributed: ComputedDto::from_dec(&report.contributed),
            withdrawn: ComputedDto::from_dec(&report.withdrawn),
            terminal_value: ComputedDto::from_dec(&report.terminal_value),
            liquidation_value_before_exit_costs_and_tax: LiquidationEstimateDto::from_domain(
                &report.liquidation_value_before_exit_costs_and_tax,
            ),
            bond_attributes: map_each(
                &report.bond_attributes,
                BondPositionAttributesDto::from_domain,
            ),
            bond_metrics: map_each(&report.bond_metrics, BondPositionMetricsDto::from_domain),
            xirr_pre_tax: rate_dto(&report.xirr, report.applied_rules.day_count.as_str()),
            applied_rules: AppliedRulesDto::from_domain(&report.applied_rules),
            data_quality: DataQualityDto::from_domain(&report.data_quality),
        }
    }
}

/// The returns report with what it says about itself.
#[derive(Debug, Clone, PartialEq, Eq)]
pub struct ReturnsAnswerDto {
    pub confidence: ConfidenceDto,
    pub report: ReturnsReportDto,
    pub population: PopulationDto,
    pub held_rows: HeldRowsDto,
}

impl ReturnsAnswerDto {
    /// What the wire form says of the outcome.
    pub open spec fn shows(self, outcome: ReturnsOutcome, catalog: ActionCatalog) -> bool {
        &&& self.confidence.shows(outcome.confidence, catalog)
        &&& self.report.shows(outcome.report)
        &&& self.population.shows(outcome.population)
        &&& self.held_rows.shows(outcome.held_rows)
    }

    /// The wire form of the outcome.
    pub fn from_domain(outcome: &ReturnsOutcome, catalog: &ActionCatalog) -> (dto: Self)
        requires
            outcome.confidence.is_resolved_by(*catalog),
        ensures
            dto.shows(*outcome, *catalog),
    {
        Self {
            confidence: ConfidenceDto::from_domain(&outcome.confidence, catalog),
            report: ReturnsReportDto::from_domain(&outcome.report),
            population: PopulationDto::from_domain(&outcome.population),
            held_rows: HeldRowsDto::from_domain(&outcome.held_rows),
        }
    }
}

/// An `AppliedRulesDto` tells each part of what it shows in a field of its own.
pub proof fn law_applied_rules_is_told_part_by_part(
    dto: AppliedRulesDto,
    rules: AppliedRules,
)
    requires
        dto.shows(rules),
    ensures
        dto.contour == rules.contour.0,
        dto.contour_version == rules.contour_version,
        dto.lot_rule == rules.lot_rule,
        dto.fx_source == rules.fx_source,
        dto.day_count == rules.day_count,
        dto.solver_rate_tolerance == rules.solver_rate_tolerance,
        dto.solver_max_iterations == rules.solver_max_iterations,
        dto.perimeter_settlement_window_days == rules.perimeter_settlement_window_days,
{
}

/// A `ReturnsReportDto` tells each part of what it shows in a field of its own.
pub proof fn law_returns_report_is_told_part_by_part(
    dto: ReturnsReportDto,
    report: ReturnsReport,
)
    requires
        dto.shows(report),
    ensures
        dto.as_of == report.as_of,
        dto.history_starts == report.history_starts,
        dto.report_currency.denotes() == report.report_currency,
        dto.contributed.shows(report.contributed),
        dto.withdrawn.shows(report.withdrawn),
        dto.terminal_value.shows(report.terminal_value),
        dto.liquidation_value_before_exit_costs_and_tax.shows(
            report.liquidation_value_before_exit_costs_and_tax,
        ),
        dto.bond_attributes@.len() == report.bond_attributes@.len(),
        forall|i: int| 0 <= i < report.bond_attributes@.len() ==> (
            #[trigger] dto.bond_attributes@[i]
        ).shows(report.bond_attributes@[i]),
        dto.bond_metrics@.len() == report.bond_metrics@.len(),
        forall|i: int| 0 <= i < report.bond_metrics@.len() ==> (
            #[trigger] dto.bond_metrics@[i]
        ).shows(report.bond_metrics@[i]),
        dto.xirr_pre_tax.shows(report.xirr, report.applied_rules.day_count@),
        dto.applied_rules.shows(report.applied_rules),
        dto.data_quality.shows(report.data_quality),
{
}

/// A `ReturnsAnswerDto` tells each part of what it shows in a field of its own.
pub proof fn law_returns_answer_is_told_part_by_part(
    dto: ReturnsAnswerDto,
    outcome: ReturnsOutcome,
    catalog: ActionCatalog,
)
    requires
        dto.shows(outcome, catalog),
    ensures
        dto.confidence.shows(outcome.confidence, catalog),
        dto.report.shows(outcome.report),
        dto.population.shows(outcome.population),
        dto.held_rows.shows(outcome.held_rows),
{
}

} // verus!
