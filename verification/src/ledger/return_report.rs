//! The returns report as the ledger computes it.

use crate::calendar::Date;
use crate::ids::ContourId;
use crate::ledger::bond::{BondPositionAttributes, BondPositionMetrics};
use crate::ledger::computed::{Computed, RateOutcome};
use crate::ledger::quality::{DataQuality, LiquidationEstimate};
use crate::ledger::report::{HeldRows, ReportConfidence, ReportPopulation};
use crate::money::{CurrencyCode, Decimal};
use vstd::prelude::*;

verus! {

/// The rules the figures were computed under. The solver's tolerance is
/// printed.
#[derive(Debug, Clone, PartialEq, Eq)]
pub struct AppliedRules {
    pub contour: ContourId,
    pub contour_version: u32,
    pub lot_rule: Option<String>,
    pub fx_source: String,
    pub day_count: String,
    pub solver_rate_tolerance: String,
    pub solver_max_iterations: u32,
    pub perimeter_settlement_window_days: u16,
}

/// What the money brought.
#[derive(Debug, Clone, PartialEq, Eq)]
pub struct ReturnsReport {
    pub as_of: Date,
    pub history_starts: Option<Date>,
    pub report_currency: CurrencyCode,
    pub contributed: Computed<Decimal>,
    pub withdrawn: Computed<Decimal>,
    pub terminal_value: Computed<Decimal>,
    pub liquidation_value_before_exit_costs_and_tax: LiquidationEstimate,
    pub bond_attributes: Vec<BondPositionAttributes>,
    pub bond_metrics: Vec<BondPositionMetrics>,
    pub xirr: Computed<RateOutcome>,
    pub applied_rules: AppliedRules,
    pub data_quality: DataQuality,
}

/// The returns report with what it says about itself.
#[derive(Debug, Clone, PartialEq, Eq)]
pub struct ReturnsOutcome {
    pub confidence: ReportConfidence,
    pub report: ReturnsReport,
    pub population: ReportPopulation,
    pub held_rows: HeldRows,
}

} // verus!
