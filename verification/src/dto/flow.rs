//! The money-flow report on the wire.

use crate::action_catalog::ActionCatalog;
use crate::calendar::Date;
use crate::dto::action::ActionDto;
use crate::dto::currency::CurrencyDto;
use crate::dto::report::{ConfidenceDto, HeldRowsDto, PopulationDto};
use crate::ids::{CategoryId, InstrumentId, Uuid};
use crate::ledger::flow::{
    AccountResidual, CategoryAmount, CurrencyFlow, EarningSourceAmount, MoneyFlowError,
    MoneyFlowOutcome, NotDecomposedAccount,
};
use crate::money::Money;
use crate::relate::map_each;
use crate::relate;
use vstd::prelude::*;

verus! {

/// What one category took.
#[derive(Debug, Clone, PartialEq, Eq)]
pub struct CategoryAmountDto {
    pub category: Uuid,
    pub amount: String,
}

impl CategoryAmountDto {
    /// What the wire form says of the record it was rendered from.
    pub open spec fn shows(self, entry: CategoryAmount) -> bool {
        &&& self.category == entry.category.0
        &&& self.amount@ == entry.amount.text()
    }

    /// The wire form of the record.
    pub fn from_domain(entry: &CategoryAmount) -> (dto: Self)
        ensures
            dto.shows(*entry),
    {
        Self {
            category: entry.category.0,
            amount: entry.amount.to_text(),
        }
    }
}

/// What one source of earnings brought.
#[derive(Debug, Clone, PartialEq, Eq)]
pub struct EarningSourceAmountDto {
    pub account: Uuid,
    pub instrument: Option<Uuid>,
    pub category: Option<Uuid>,
    pub amount: String,
}

impl EarningSourceAmountDto {
    /// What the wire form says of the record it was rendered from.
    pub open spec fn shows(self, entry: EarningSourceAmount) -> bool {
        &&& self.account == entry.account.0
        &&& relate::both(
            self.instrument,
            entry.instrument,
            |uuid: Uuid, id: InstrumentId| uuid == id.0,
        )
        &&& relate::both(self.category, entry.category, |uuid: Uuid, id: CategoryId| uuid == id.0)
        &&& self.amount@ == entry.amount.text()
    }

    /// The wire form of the record.
    pub fn from_domain(entry: &EarningSourceAmount) -> (dto: Self)
        ensures
            dto.shows(*entry),
    {
        Self {
            account: entry.account.0,
            instrument: entry.instrument.map(InstrumentId::inner),
            category: entry.category.map(CategoryId::inner),
            amount: entry.amount.to_text(),
        }
    }
}

/// Movements of one account that were not decomposed.
#[derive(Debug, Clone, PartialEq, Eq)]
pub struct NotDecomposedAccountDto {
    pub account: Uuid,
    pub count: u64,
    pub amount: String,
}

impl NotDecomposedAccountDto {
    /// What the wire form says of the record it was rendered from.
    pub open spec fn shows(self, entry: NotDecomposedAccount) -> bool {
        &&& self.account == entry.account.0
        &&& self.count == entry.count
        &&& self.amount@ == entry.amount.text()
    }

    /// The wire form of the record.
    pub fn from_domain(entry: &NotDecomposedAccount) -> (dto: Self)
        ensures
            dto.shows(*entry),
    {
        Self {
            account: entry.account.0,
            count: entry.count,
            amount: entry.amount.to_text(),
        }
    }
}

/// What is left of one account's cash change unexplained.
#[derive(Debug, Clone, PartialEq, Eq)]
pub struct AccountResidualDto {
    pub account: Uuid,
    pub currency: CurrencyDto,
    pub amount: String,
}

impl AccountResidualDto {
    /// What the wire form says of the record it was rendered from.
    pub open spec fn shows(self, entry: AccountResidual) -> bool {
        &&& self.account == entry.account.0
        &&& self.currency.denotes() == entry.money.currency
        &&& self.amount@ == entry.money.text()
    }

    /// The wire form of the record.
    pub fn from_domain(entry: &AccountResidual) -> (dto: Self)
        ensures
            dto.shows(*entry),
    {
        Self {
            account: entry.account.0,
            currency: CurrencyDto::from_domain(entry.money.currency),
            amount: entry.money.to_text(),
        }
    }
}

/// Movements that were not decomposed, and whose they are.
#[derive(Debug, Clone, PartialEq, Eq)]
pub struct NotDecomposedDto {
    pub count: u64,
    pub amount: String,
    pub by_account: Vec<NotDecomposedAccountDto>,
}

/// Whether a text states a figure.
pub open spec fn states(text: String, figure: Result<Money, MoneyFlowError>) -> bool {
    figure matches Ok(money) && text@ == money.text()
}

fn stated(figure: &Result<Money, MoneyFlowError>) -> (text: Result<String, MoneyFlowError>)
    ensures
        match text {
            Ok(text) => states(text, *figure),
            Err(failure) => crate::ledger::flow::failed(*figure) == Some(failure),
        },
{
    match figure {
        Ok(money) => Ok(money.to_text()),
        Err(failure) => Err(failure.clone()),
    }
}

/// The flow of one currency.
#[derive(Debug, Clone, PartialEq, Eq)]
pub struct MoneyFlowCurrencyDto {
    pub currency: CurrencyDto,
    pub came_in: String,
    pub went_out: String,
    pub earned_by_capital: String,
    pub moved_into_assets: String,
    pub fees: String,
    pub taxes: String,
    pub internal_transfers: String,
    pub indeterminate: String,
    pub unstated: String,
    pub cash_delta: String,
    pub residual: String,
    pub went_out_by_category: Vec<CategoryAmountDto>,
    pub earned_by_capital_by_source: Vec<EarningSourceAmountDto>,
    pub not_decomposed: NotDecomposedDto,
}

impl MoneyFlowCurrencyDto {
    /// What the wire form says of the flow.
    pub open spec fn shows(self, flow: CurrencyFlow) -> bool {
        &&& self.currency.denotes() == flow.currency
        &&& states(self.came_in, flow.came_in)
        &&& states(self.went_out, flow.went_out)
        &&& states(self.earned_by_capital, flow.earned_by_capital)
        &&& states(self.moved_into_assets, flow.moved_into_assets)
        &&& states(self.fees, flow.fees)
        &&& states(self.taxes, flow.taxes)
        &&& states(self.internal_transfers, flow.internal_transfers)
        &&& states(self.indeterminate, flow.indeterminate)
        &&& states(self.unstated, flow.unstated)
        &&& states(self.cash_delta, flow.cash_delta)
        &&& states(self.residual, flow.residual)
        &&& flow.went_out_by_category matches Ok(entries) && relate::each(
            self.went_out_by_category@,
            entries@,
            |dto: CategoryAmountDto, entry: CategoryAmount| dto.shows(entry),
        )
        &&& flow.earned_by_capital_by_source matches Ok(entries) && relate::each(
            self.earned_by_capital_by_source@,
            entries@,
            |dto: EarningSourceAmountDto, entry: EarningSourceAmount| dto.shows(entry),
        )
        &&& flow.not_decomposed matches Ok(rest) && self.not_decomposed.count == rest.count
            && self.not_decomposed.amount@ == rest.amount.text()
        &&& flow.not_decomposed_by_account matches Ok(entries) && relate::each(
            self.not_decomposed.by_account@,
            entries@,
            |dto: NotDecomposedAccountDto, entry: NotDecomposedAccount| dto.shows(entry),
        )
    }

    /// The wire form of the flow, or the first figure of it that failed.
    pub fn from_domain(flow: &CurrencyFlow) -> (rendered: Result<Self, MoneyFlowError>)
        ensures
            match rendered {
                Ok(dto) => flow.failure() is None && dto.shows(*flow),
                Err(failure) => flow.failure() == Some(failure),
            },
    {
        let went_out_by_category = match &flow.went_out_by_category {
            Ok(entries) => map_each(entries, CategoryAmountDto::from_domain),
            Err(failure) => {
                return Err(failure.clone());
            },
        };
        let earned_by_capital_by_source = match &flow.earned_by_capital_by_source {
            Ok(entries) => map_each(entries, EarningSourceAmountDto::from_domain),
            Err(failure) => {
                return Err(failure.clone());
            },
        };
        let rest = match &flow.not_decomposed {
            Ok(rest) => rest,
            Err(failure) => {
                return Err(failure.clone());
            },
        };
        let by_account = match &flow.not_decomposed_by_account {
            Ok(entries) => map_each(entries, NotDecomposedAccountDto::from_domain),
            Err(failure) => {
                return Err(failure.clone());
            },
        };
        let came_in = match stated(&flow.came_in) {
            Ok(text) => text,
            Err(failure) => {
                return Err(failure);
            },
        };
        let went_out = match stated(&flow.went_out) {
            Ok(text) => text,
            Err(failure) => {
                return Err(failure);
            },
        };
        let earned_by_capital = match stated(&flow.earned_by_capital) {
            Ok(text) => text,
            Err(failure) => {
                return Err(failure);
            },
        };
        let moved_into_assets = match stated(&flow.moved_into_assets) {
            Ok(text) => text,
            Err(failure) => {
                return Err(failure);
            },
        };
        let fees = match stated(&flow.fees) {
            Ok(text) => text,
            Err(failure) => {
                return Err(failure);
            },
        };
        let taxes = match stated(&flow.taxes) {
            Ok(text) => text,
            Err(failure) => {
                return Err(failure);
            },
        };
        let internal_transfers = match stated(&flow.internal_transfers) {
            Ok(text) => text,
            Err(failure) => {
                return Err(failure);
            },
        };
        let indeterminate = match stated(&flow.indeterminate) {
            Ok(text) => text,
            Err(failure) => {
                return Err(failure);
            },
        };
        let unstated = match stated(&flow.unstated) {
            Ok(text) => text,
            Err(failure) => {
                return Err(failure);
            },
        };
        let cash_delta = match stated(&flow.cash_delta) {
            Ok(text) => text,
            Err(failure) => {
                return Err(failure);
            },
        };
        let residual = match stated(&flow.residual) {
            Ok(text) => text,
            Err(failure) => {
                return Err(failure);
            },
        };
        Ok(
            Self {
                currency: CurrencyDto::from_domain(flow.currency),
                came_in,
                went_out,
                earned_by_capital,
                moved_into_assets,
                fees,
                taxes,
                internal_transfers,
                indeterminate,
                unstated,
                cash_delta,
                residual,
                went_out_by_category,
                earned_by_capital_by_source,
                not_decomposed: NotDecomposedDto {
                    count: rest.count,
                    amount: rest.amount.to_text(),
                    by_account,
                },
            },
        )
    }
}

fn each_currency(flows: &Vec<CurrencyFlow>) -> (rendered: Result<
    Vec<MoneyFlowCurrencyDto>,
    MoneyFlowError,
>)
    ensures
        match rendered {
            Ok(dtos) => crate::ledger::flow::flows_failure(flows@) is None && relate::each(
                dtos@,
                flows@,
                |dto: MoneyFlowCurrencyDto, flow: CurrencyFlow| dto.shows(flow),
            ),
            Err(failure) => crate::ledger::flow::flows_failure(flows@) == Some(failure),
        },
{
    let mut dtos: Vec<MoneyFlowCurrencyDto> = Vec::new();
    let mut next: usize = 0;
    while next < flows.len()
        invariant
            next <= flows@.len(),
            crate::ledger::flow::flows_failure(flows@.take(next as int)) is None,
            relate::each(
                dtos@,
                flows@.take(next as int),
                |dto: MoneyFlowCurrencyDto, flow: CurrencyFlow| dto.shows(flow),
            ),
        decreases flows@.len() - next,
    {
        proof {
            let taken = flows@.take(next + 1);
            assert(taken.drop_last() =~= flows@.take(next as int));
            assert(taken.last() == flows@[next as int]);
        }
        match MoneyFlowCurrencyDto::from_domain(&flows[next]) {
            Ok(dto) => {
                dtos.push(dto);
            },
            Err(failure) => {
                proof {
                    lemma_first_failure(flows@, next + 1);
                }
                return Err(failure);
            },
        }
        next = next + 1;
    }
    assert(flows@.take(next as int) =~= flows@);
    Ok(dtos)
}

/// A failure among the first currencies is the failure of them all.
proof fn lemma_first_failure(flows: Seq<CurrencyFlow>, count: int)
    requires
        0 <= count <= flows.len(),
        crate::ledger::flow::flows_failure(flows.take(count)) is Some,
    ensures
        crate::ledger::flow::flows_failure(flows) == crate::ledger::flow::flows_failure(
            flows.take(count),
        ),
    decreases flows.len(),
{
    if count == flows.len() {
        assert(flows.take(count) =~= flows);
    } else {
        assert(flows.drop_last().take(count) =~= flows.take(count));
        lemma_first_failure(flows.drop_last(), count);
    }
}

/// The money-flow report.
#[derive(Debug, Clone, PartialEq, Eq)]
pub struct MoneyFlowReportDto {
    pub confidence: ConfidenceDto,
    pub contour: Uuid,
    pub contour_version: u32,
    pub from: Date,
    pub to: Date,
    pub category_rule_versions: Vec<u32>,
    pub currencies: Vec<MoneyFlowCurrencyDto>,
    pub unexplained: Vec<AccountResidualDto>,
    pub actions: Vec<ActionDto>,
    pub population: PopulationDto,
    pub held_rows: HeldRowsDto,
}

impl MoneyFlowReportDto {
    /// What the wire form says of the report, beside the actions it was handed.
    pub open spec fn shows(
        self,
        outcome: MoneyFlowOutcome,
        actions: Vec<ActionDto>,
        catalog: ActionCatalog,
    ) -> bool {
        &&& outcome.confidence matches Ok(confidence) && self.confidence.shows(confidence, catalog)
        &&& self.contour == outcome.report.contour.0
        &&& self.contour_version == outcome.report.version
        &&& self.from == outcome.report.from
        &&& self.to == outcome.report.to
        &&& self.category_rule_versions@ == outcome.report.category_rule_versions@
        &&& relate::each(
            self.currencies@,
            outcome.report.currencies@,
            |dto: MoneyFlowCurrencyDto, flow: CurrencyFlow| dto.shows(flow),
        )
        &&& outcome.report.residuals_by_account matches Ok(entries) && relate::each(
            self.unexplained@,
            entries@,
            |dto: AccountResidualDto, entry: AccountResidual| dto.shows(entry),
        )
        &&& self.actions == actions
        &&& self.population.shows(outcome.population)
        &&& self.held_rows.shows(outcome.held_rows)
    }

    /// The wire form of the report, or the first figure of it that failed. A
    /// failed figure fails the report: none is left out of it.
    pub fn from_domain(
        outcome: &MoneyFlowOutcome,
        actions: Vec<ActionDto>,
        catalog: &ActionCatalog,
    ) -> (rendered: Result<Self, MoneyFlowError>)
        requires
            outcome.confidence matches Ok(confidence) ==> confidence.is_resolved_by(*catalog),
        ensures
            match rendered {
                Ok(dto) => outcome.failure() is None && dto.shows(*outcome, actions, *catalog),
                Err(failure) => outcome.failure() == Some(failure),
            },
    {
        let confidence = match &outcome.confidence {
            Ok(confidence) => ConfidenceDto::from_domain(confidence, catalog),
            Err(failure) => {
                return Err(failure.clone());
            },
        };
        let report = &outcome.report;
        let currencies = match each_currency(&report.currencies) {
            Ok(currencies) => currencies,
            Err(failure) => {
                return Err(failure);
            },
        };
        let unexplained = match &report.residuals_by_account {
            Ok(entries) => map_each(entries, AccountResidualDto::from_domain),
            Err(failure) => {
                return Err(failure.clone());
            },
        };
        Ok(
            Self {
                confidence,
                contour: report.contour.0,
                contour_version: report.version,
                from: report.from,
                to: report.to,
                category_rule_versions: report.category_rule_versions.clone(),
                currencies,
                unexplained,
                actions,
                population: PopulationDto::from_domain(&outcome.population),
                held_rows: HeldRowsDto::from_domain(&outcome.held_rows),
            },
        )
    }
}

/// A report that is shown left no figure out: a failed figure fails the report.
pub proof fn law_a_shown_report_has_no_failed_figure(
    dto: MoneyFlowReportDto,
    outcome: MoneyFlowOutcome,
    actions: Vec<ActionDto>,
    catalog: ActionCatalog,
)
    requires
        dto.shows(outcome, actions, catalog),
    ensures
        outcome.failure() is None,
        dto.currencies@.len() == outcome.report.currencies@.len(),
{
    assert forall|i: int| 0 <= i < outcome.report.currencies@.len() implies (
    #[trigger] outcome.report.currencies@[i]).failure() is None by {
        assert(dto.currencies@[i].shows(outcome.report.currencies@[i]));
    }
    lemma_no_failure(outcome.report.currencies@);
}

proof fn lemma_no_failure(flows: Seq<CurrencyFlow>)
    requires
        forall|i: int| 0 <= i < flows.len() ==> (#[trigger] flows[i]).failure() is None,
    ensures
        crate::ledger::flow::flows_failure(flows) is None,
    decreases flows.len(),
{
    if flows.len() > 0 {
        let shorter = flows.drop_last();
        assert forall|i: int| 0 <= i < shorter.len() implies (
        #[trigger] shorter[i]).failure() is None by {
            assert(shorter[i] == flows[i]);
        }
        lemma_no_failure(shorter);
        assert(flows.last() == flows[flows.len() - 1]);
    }
}

/// A `CategoryAmountDto` tells each part of what it shows in a field of its own.
pub proof fn law_category_amount_is_told_part_by_part(
    dto: CategoryAmountDto,
    entry: CategoryAmount,
)
    requires
        dto.shows(entry),
    ensures
        dto.category == entry.category.0,
        dto.amount@ == entry.amount.text(),
{
}

/// An `EarningSourceAmountDto` tells each part of what it shows in a field of its own.
pub proof fn law_earning_source_amount_is_told_part_by_part(
    dto: EarningSourceAmountDto,
    entry: EarningSourceAmount,
)
    requires
        dto.shows(entry),
    ensures
        dto.account == entry.account.0,
        match (dto.instrument, entry.instrument) {
            (Some(told), Some(meant)) => told == meant.0,
            (None, None) => true,
            _ => false,
        },
        match (dto.category, entry.category) {
            (Some(told), Some(meant)) => told == meant.0,
            (None, None) => true,
            _ => false,
        },
        dto.amount@ == entry.amount.text(),
{
}

/// A `NotDecomposedAccountDto` tells each part of what it shows in a field of its own.
pub proof fn law_not_decomposed_account_is_told_part_by_part(
    dto: NotDecomposedAccountDto,
    entry: NotDecomposedAccount,
)
    requires
        dto.shows(entry),
    ensures
        dto.account == entry.account.0,
        dto.count == entry.count,
        dto.amount@ == entry.amount.text(),
{
}

/// An `AccountResidualDto` tells each part of what it shows in a field of its own.
pub proof fn law_account_residual_is_told_part_by_part(
    dto: AccountResidualDto,
    entry: AccountResidual,
)
    requires
        dto.shows(entry),
    ensures
        dto.account == entry.account.0,
        dto.currency.denotes() == entry.money.currency,
        dto.amount@ == entry.money.text(),
{
}

/// A `MoneyFlowCurrencyDto` tells each part of what it shows in a field of its own.
pub proof fn law_money_flow_currency_is_told_part_by_part(
    dto: MoneyFlowCurrencyDto,
    flow: CurrencyFlow,
)
    requires
        dto.shows(flow),
    ensures
        dto.currency.denotes() == flow.currency,
        states(dto.came_in, flow.came_in),
        states(dto.went_out, flow.went_out),
        states(dto.earned_by_capital, flow.earned_by_capital),
        states(dto.moved_into_assets, flow.moved_into_assets),
        states(dto.fees, flow.fees),
        states(dto.taxes, flow.taxes),
        states(dto.internal_transfers, flow.internal_transfers),
        states(dto.indeterminate, flow.indeterminate),
        states(dto.unstated, flow.unstated),
        states(dto.cash_delta, flow.cash_delta),
        states(dto.residual, flow.residual),
        flow.went_out_by_category matches Ok(entries) && relate::each(
            dto.went_out_by_category@,
            entries@,
            |dto: CategoryAmountDto, entry: CategoryAmount| dto.shows(entry),
        ),
        flow.earned_by_capital_by_source matches Ok(entries) && relate::each(
            dto.earned_by_capital_by_source@,
            entries@,
            |dto: EarningSourceAmountDto, entry: EarningSourceAmount| dto.shows(entry),
        ),
        flow.not_decomposed matches Ok(rest) && dto.not_decomposed.count == rest.count
            && dto.not_decomposed.amount@ == rest.amount.text(),
        flow.not_decomposed_by_account matches Ok(entries) && relate::each(
            dto.not_decomposed.by_account@,
            entries@,
            |dto: NotDecomposedAccountDto, entry: NotDecomposedAccount| dto.shows(entry),
        ),
{
}

/// A `MoneyFlowReportDto` tells each part of what it shows in a field of its own.
pub proof fn law_money_flow_report_is_told_part_by_part(
    dto: MoneyFlowReportDto,
    outcome: MoneyFlowOutcome,
    actions: Vec<ActionDto>,
    catalog: ActionCatalog,
)
    requires
        dto.shows(outcome, actions, catalog),
    ensures
        outcome.confidence matches Ok(confidence) && dto.confidence.shows(confidence, catalog),
        dto.contour == outcome.report.contour.0,
        dto.contour_version == outcome.report.version,
        dto.from == outcome.report.from,
        dto.to == outcome.report.to,
        dto.category_rule_versions@ == outcome.report.category_rule_versions@,
        dto.currencies@.len() == outcome.report.currencies@.len(),
        forall|i: int| 0 <= i < outcome.report.currencies@.len() ==> (
            #[trigger] dto.currencies@[i]
        ).shows(outcome.report.currencies@[i]),
        outcome.report.residuals_by_account matches Ok(entries) && relate::each(
            dto.unexplained@,
            entries@,
            |dto: AccountResidualDto, entry: AccountResidual| dto.shows(entry),
        ),
        dto.actions == actions,
        dto.population.shows(outcome.population),
        dto.held_rows.shows(outcome.held_rows),
{
}

/// A figure is stated as the amount it came to, and one that failed is stated nowhere.
pub proof fn law_a_figure_is_stated_as_its_amount(
    text: String,
    figure: Result<Money, MoneyFlowError>,
)
    ensures
        states(text, figure) ==> figure is Ok,
        figure matches Ok(money) ==> (states(text, figure) <==> text@ == money.text()),
{
}

} // verus!
