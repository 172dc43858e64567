//! The money-flow report as the ledger computes it.

use crate::calendar::Date;
use crate::ids::{AccountId, CategoryId, ContourId, InstrumentId};
use crate::ledger::report::{HeldRows, ReportConfidence, ReportPopulation};
use crate::money::{CurrencyCode, Money};
use vstd::prelude::*;

verus! {

/// Why a flow figure could not be added up.
#[derive(Debug, PartialEq, Eq)]
pub struct MoneyFlowError {
    pub code: String,
}

impl Clone for MoneyFlowError {
    fn clone(&self) -> (copy: Self)
        ensures
            copy == *self,
    {
        Self { code: self.code.clone() }
    }
}

/// What one category took.
#[derive(Debug, Clone, Copy, PartialEq, Eq, Structural)]
pub struct CategoryAmount {
    pub category: CategoryId,
    pub amount: Money,
}

/// What one source of earnings brought.
#[derive(Debug, Clone, Copy, PartialEq, Eq, Structural)]
pub struct EarningSourceAmount {
    pub account: AccountId,
    pub instrument: Option<InstrumentId>,
    pub category: Option<CategoryId>,
    pub amount: Money,
}

/// Movements that were not decomposed.
#[derive(Debug, Clone, Copy, PartialEq, Eq, Structural)]
pub struct NotDecomposed {
    pub count: u64,
    pub amount: Money,
}

/// Movements of one account that were not decomposed.
#[derive(Debug, Clone, Copy, PartialEq, Eq, Structural)]
pub struct NotDecomposedAccount {
    pub account: AccountId,
    pub count: u64,
    pub amount: Money,
}

/// What is left of one account's cash change unexplained.
#[derive(Debug, Clone, Copy, PartialEq, Eq, Structural)]
pub struct AccountResidual {
    pub account: AccountId,
    pub money: Money,
}

/// The flow of one currency. Every figure is stated or failed by itself.
#[derive(Debug, PartialEq, Eq)]
pub struct CurrencyFlow {
    pub currency: CurrencyCode,
    pub came_in: Result<Money, MoneyFlowError>,
    pub went_out: Result<Money, MoneyFlowError>,
    pub earned_by_capital: Result<Money, MoneyFlowError>,
    pub moved_into_assets: Result<Money, MoneyFlowError>,
    pub fees: Result<Money, MoneyFlowError>,
    pub taxes: Result<Money, MoneyFlowError>,
    pub internal_transfers: Result<Money, MoneyFlowError>,
    pub indeterminate: Result<Money, MoneyFlowError>,
    pub unstated: Result<Money, MoneyFlowError>,
    pub cash_delta: Result<Money, MoneyFlowError>,
    pub residual: Result<Money, MoneyFlowError>,
    pub went_out_by_category: Result<Vec<CategoryAmount>, MoneyFlowError>,
    pub earned_by_capital_by_source: Result<Vec<EarningSourceAmount>, MoneyFlowError>,
    pub not_decomposed: Result<NotDecomposed, MoneyFlowError>,
    pub not_decomposed_by_account: Result<Vec<NotDecomposedAccount>, MoneyFlowError>,
}

/// The failure of a figure.
pub open spec fn failed<T>(figure: Result<T, MoneyFlowError>) -> Option<MoneyFlowError> {
    match figure {
        Ok(_) => None,
        Err(failure) => Some(failure),
    }
}

/// The failure that comes first.
pub open spec fn earlier(
    one: Option<MoneyFlowError>,
    other: Option<MoneyFlowError>,
) -> Option<MoneyFlowError> {
    if one is Some {
        one
    } else {
        other
    }
}

impl CurrencyFlow {
    /// The first figure that failed, in the order the figures are read: the
    /// breakdowns before the totals.
    pub open spec fn failure(self) -> Option<MoneyFlowError> {
        earlier(
            failed(self.went_out_by_category),
            earlier(
                failed(self.earned_by_capital_by_source),
                earlier(
                    failed(self.not_decomposed),
                    earlier(failed(self.not_decomposed_by_account), self.total_failure()),
                ),
            ),
        )
    }

    /// The first total that failed.
    pub open spec fn total_failure(self) -> Option<MoneyFlowError> {
        earlier(
            failed(self.came_in),
            earlier(
                failed(self.went_out),
                earlier(
                    failed(self.earned_by_capital),
                    earlier(
                        failed(self.moved_into_assets),
                        earlier(
                            failed(self.fees),
                            earlier(
                                failed(self.taxes),
                                earlier(
                                    failed(self.internal_transfers),
                                    earlier(
                                        failed(self.indeterminate),
                                        earlier(
                                            failed(self.unstated),
                                            earlier(
                                                failed(self.cash_delta),
                                                failed(self.residual),
                                            ),
                                        ),
                                    ),
                                ),
                            ),
                        ),
                    ),
                ),
            ),
        )
    }
}

/// The first currency whose flow failed, and its failure.
pub open spec fn flows_failure(flows: Seq<CurrencyFlow>) -> Option<MoneyFlowError>
    decreases flows.len(),
{
    if flows.len() == 0 {
        None
    } else {
        earlier(flows_failure(flows.drop_last()), flows.last().failure())
    }
}

/// The money-flow report over an interval.
#[derive(Debug, PartialEq, Eq)]
pub struct MoneyFlowReport {
    pub contour: ContourId,
    pub version: u32,
    pub from: Date,
    pub to: Date,
    pub category_rule_versions: Vec<u32>,
    pub currencies: Vec<CurrencyFlow>,
    pub residuals_by_account: Result<Vec<AccountResidual>, MoneyFlowError>,
}

/// The report with what it says about itself.
#[derive(Debug, PartialEq, Eq)]
pub struct MoneyFlowOutcome {
    pub confidence: Result<ReportConfidence, MoneyFlowError>,
    pub report: MoneyFlowReport,
    pub population: ReportPopulation,
    pub held_rows: HeldRows,
}

impl MoneyFlowOutcome {
    /// The first failure: of the confidence, of a currency's flow, of the
    /// residuals.
    pub open spec fn failure(self) -> Option<MoneyFlowError> {
        earlier(
            failed(self.confidence),
            earlier(
                flows_failure(self.report.currencies@),
                failed(self.report.residuals_by_account),
            ),
        )
    }
}

/// A flow fails exactly where one of its figures does.
pub proof fn law_a_flow_fails_where_a_figure_does(flow: CurrencyFlow)
    ensures
        flow.failure() is None <==> {
            &&& flow.went_out_by_category is Ok
            &&& flow.earned_by_capital_by_source is Ok
            &&& flow.not_decomposed is Ok
            &&& flow.not_decomposed_by_account is Ok
            &&& flow.came_in is Ok
            &&& flow.went_out is Ok
            &&& flow.earned_by_capital is Ok
            &&& flow.moved_into_assets is Ok
            &&& flow.fees is Ok
            &&& flow.taxes is Ok
            &&& flow.internal_transfers is Ok
            &&& flow.indeterminate is Ok
            &&& flow.unstated is Ok
            &&& flow.cash_delta is Ok
            &&& flow.residual is Ok
        },
{
}

/// A flow fails with the first of its breakdowns that failed, and where none did with the
/// first of its totals.
pub proof fn law_a_flow_fails_with_its_first_failed_figure(flow: CurrencyFlow)
    ensures
        flow.went_out_by_category matches Err(failure) ==> flow.failure() == Some(failure),
        flow.went_out_by_category is Ok ==> (
        flow.earned_by_capital_by_source matches Err(failure) ==> flow.failure() == Some(failure)),
        flow.went_out_by_category is Ok && flow.earned_by_capital_by_source is Ok ==> (
        flow.not_decomposed matches Err(failure) ==> flow.failure() == Some(failure)),
        flow.went_out_by_category is Ok && flow.earned_by_capital_by_source is Ok
            && flow.not_decomposed is Ok ==> (
        flow.not_decomposed_by_account matches Err(failure) ==> flow.failure() == Some(failure)),
        flow.went_out_by_category is Ok && flow.earned_by_capital_by_source is Ok
            && flow.not_decomposed is Ok && flow.not_decomposed_by_account is Ok ==> flow.failure()
            == flow.total_failure(),
        flow.came_in matches Err(failure) ==> flow.total_failure() == Some(failure),
        flow.came_in is Ok ==> (flow.went_out matches Err(failure) ==> flow.total_failure()
            == Some(failure)),
        flow.came_in is Ok && flow.went_out is Ok ==> (
        flow.earned_by_capital matches Err(failure) ==> flow.total_failure() == Some(failure)),
        flow.came_in is Ok && flow.went_out is Ok && flow.earned_by_capital is Ok ==> (
        flow.moved_into_assets matches Err(failure) ==> flow.total_failure() == Some(failure)),
        flow.came_in is Ok && flow.went_out is Ok && flow.earned_by_capital is Ok
            && flow.moved_into_assets is Ok ==> (flow.fees matches Err(failure)
            ==> flow.total_failure() == Some(failure)),
        flow.came_in is Ok && flow.went_out is Ok && flow.earned_by_capital is Ok
            && flow.moved_into_assets is Ok && flow.fees is Ok ==> (
        flow.taxes matches Err(failure) ==> flow.total_failure() == Some(failure)),
{
}

/// Several flows fail with the first of them that fails, and not at all where none does.
pub proof fn law_the_first_failed_flow_decides(flows: Seq<CurrencyFlow>, another: CurrencyFlow)
    ensures
        flows_failure(seq![]) is None,
        flows_failure(flows) is Some ==> flows_failure(flows.push(another)) == flows_failure(flows),
        flows_failure(flows) is None ==> flows_failure(flows.push(another)) == another.failure(),
{
    assert(flows.push(another).drop_last() =~= flows);
}

/// A report fails with the failure of its confidence, else of its first failed flow, else
/// of its residuals, and not at all where all of them came out.
pub proof fn law_a_report_fails_with_its_first_failure(outcome: MoneyFlowOutcome)
    ensures
        outcome.confidence matches Err(failure) ==> outcome.failure() == Some(failure),
        outcome.confidence is Ok && flows_failure(outcome.report.currencies@) is Some
            ==> outcome.failure() == flows_failure(outcome.report.currencies@),
        outcome.confidence is Ok && flows_failure(outcome.report.currencies@) is None ==> {
            &&& outcome.report.residuals_by_account is Ok ==> outcome.failure() is None
            &&& outcome.report.residuals_by_account matches Err(failure) ==> outcome.failure()
                == Some(failure)
        },
{
}

/// The totals behind the taxes fail in their order too: the transfers, the indeterminate,
/// the unstated, the change of cash and the residual.
pub proof fn law_the_later_totals_fail_in_their_order(flow: CurrencyFlow)
    requires
        flow.came_in is Ok,
        flow.went_out is Ok,
        flow.earned_by_capital is Ok,
        flow.moved_into_assets is Ok,
        flow.fees is Ok,
        flow.taxes is Ok,
    ensures
        flow.internal_transfers matches Err(failure) ==> flow.total_failure() == Some(failure),
        flow.internal_transfers is Ok ==> (flow.indeterminate matches Err(failure)
            ==> flow.total_failure() == Some(failure)),
        flow.internal_transfers is Ok && flow.indeterminate is Ok ==> (
        flow.unstated matches Err(failure) ==> flow.total_failure() == Some(failure)),
        flow.internal_transfers is Ok && flow.indeterminate is Ok && flow.unstated is Ok ==> (
        flow.cash_delta matches Err(failure) ==> flow.total_failure() == Some(failure)),
        flow.internal_transfers is Ok && flow.indeterminate is Ok && flow.unstated is Ok
            && flow.cash_delta is Ok ==> (flow.residual matches Err(failure)
            ==> flow.total_failure() == Some(failure)),
{
}

} // verus!
