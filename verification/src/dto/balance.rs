//! Balances and holdings on the wire.

use crate::action_catalog::ActionCatalog;
use crate::calendar::Date;
use crate::dto::account::NegativeBalanceExpectationDto;
use crate::dto::currency::CurrencyDto;
use crate::dto::reconciliation::ReconciliationStatusDto;
use crate::dto::report::{ConfidenceDto, HeldRowsDto, PopulationDto};
use crate::ids::{CustodyId, Uuid};
use crate::ledger::account::NegativeBalanceExpectation;
use crate::ledger::balance::{
    AccountBalanceRow, BalancesReport, CashFigure, NegativeCash, NegativeSpan, PeriodReports,
    PositionQuantity,
};
use crate::ledger::reconciliation::ReconciliationStatus;
use crate::ledger::report::HeldRows;
use crate::money::Money;
use crate::relate::map_each;
use crate::relate;
use vstd::prelude::*;

verus! {

/// Account money as text.
pub fn decimal_amount(money: Money) -> (text: String)
    ensures
        text@ == money.text(),
{
    money.to_text()
}

/// A cash figure that says what kind of figure it is.
#[derive(Debug, Clone, PartialEq, Eq)]
pub enum CashFigureDto {
    Balance { currency: CurrencyDto, balance: String },
    MovementSinceUnknownStart { currency: CurrencyDto, movement: String },
    Mixed { currency: CurrencyDto, balance: String, movement: String },
}

impl CashFigureDto {
    /// What the wire form says of the figure.
    pub open spec fn shows(self, figure: CashFigure) -> bool {
        match figure {
            CashFigure::Balance(money) => self matches Self::Balance { currency, balance }
                && currency.denotes() == figure.currency() && balance@ == money.text(),
            CashFigure::Movement(money) => self matches Self::MovementSinceUnknownStart {
                currency,
                movement,
            } && currency.denotes() == figure.currency() && movement@ == money.text(),
            CashFigure::Mixed { balance, movement } => self matches Self::Mixed {
                currency,
                balance: held,
                movement: moved,
            } && currency.denotes() == figure.currency() && held@ == balance.text() && moved@
                == movement.text(),
        }
    }

    /// The wire form of the figure.
    pub fn from_domain(figure: &CashFigure) -> (dto: Self)
        ensures
            dto.shows(*figure),
    {
        match figure {
            CashFigure::Balance(money) => Self::Balance {
                currency: CurrencyDto::from_domain(money.currency),
                balance: decimal_amount(*money),
            },
            CashFigure::Movement(money) => Self::MovementSinceUnknownStart {
                currency: CurrencyDto::from_domain(money.currency),
                movement: decimal_amount(*money),
            },
            CashFigure::Mixed { balance, movement } => Self::Mixed {
                currency: CurrencyDto::from_domain(balance.currency),
                balance: decimal_amount(*balance),
                movement: decimal_amount(*movement),
            },
        }
    }
}

/// A position of an account.
#[derive(Debug, Clone, PartialEq, Eq)]
pub struct PositionQuantityDto {
    pub instrument: Uuid,
    pub custody: Option<Uuid>,
    pub quantity: String,
}

impl PositionQuantityDto {
    /// What the wire form says of the record it was rendered from.
    pub open spec fn shows(self, position: PositionQuantity) -> bool {
        &&& self.instrument == position.instrument.0
        &&& relate::both(self.custody, position.custody, |uuid: Uuid, id: CustodyId| uuid == id.0)
        &&& self.quantity@ == position.quantity.text()
    }

    /// The wire form of the record.
    pub fn from_domain(position: &PositionQuantity) -> (dto: Self)
        ensures
            dto.shows(*position),
    {
        Self {
            instrument: position.instrument.0,
            custody: position.custody.map(CustodyId::inner),
            quantity: position.quantity.to_text(),
        }
    }
}

/// A span that refuses an account's period reports.
#[derive(Debug, Clone, PartialEq, Eq)]
pub struct PerimeterRefusalDto {
    pub currency: CurrencyDto,
    pub from: Date,
    pub resolved: Option<Date>,
    pub classification: String,
}

impl PerimeterRefusalDto {
    /// What the wire form says of the record it was rendered from.
    pub open spec fn shows(self, span: NegativeSpan) -> bool {
        &&& self.currency.denotes() == span.currency
        &&& self.from == span.from
        &&& self.resolved == span.resolved
        &&& self.classification == span.classification
    }

    /// The wire form of the record.
    pub fn from_domain(span: &NegativeSpan) -> (dto: Self)
        ensures
            dto.shows(*span),
    {
        Self {
            currency: CurrencyDto::from_domain(span.currency),
            from: span.from,
            resolved: span.resolved,
            classification: span.classification.clone(),
        }
    }
}

/// An account whose cash is negative.
#[derive(Debug, Clone, PartialEq, Eq)]
pub struct NegativeCashDto {
    pub account: Uuid,
    pub currency: CurrencyDto,
    pub amount: String,
    pub from: Option<Date>,
    pub resolved: Option<Date>,
    pub classification: Option<String>,
    pub expectation: Option<NegativeBalanceExpectationDto>,
    pub contradicts_expectation: bool,
}

impl NegativeCashDto {
    /// What the wire form says of the record it was rendered from.
    pub open spec fn shows(self, entry: NegativeCash) -> bool {
        &&& self.account == entry.account.0
        &&& self.currency.denotes() == entry.money.currency
        &&& self.amount@ == entry.money.text()
        &&& self.from == (match entry.span { Some(span) => Some(span.from), None => None })
        &&& self.resolved == (match entry.span { Some(span) => span.resolved, None => None })
        &&& self.classification == (
            match entry.span { Some(span) => Some(span.classification), None => None }
        )
        &&& relate::both(
            self.expectation,
            entry.expectation,
            |dto: NegativeBalanceExpectationDto, value: NegativeBalanceExpectation|
                dto.denotes() == value,
        )
        &&& self.contradicts_expectation == entry.contradicts()
    }

    /// The wire form of the record.
    pub fn from_domain(entry: &NegativeCash) -> (dto: Self)
        ensures
            dto.shows(*entry),
    {
        Self {
            account: entry.account.0,
            currency: CurrencyDto::from_domain(entry.money.currency),
            amount: entry.money.to_text(),
            from: match &entry.span { Some(span) => Some(span.from), None => None },
            resolved: match &entry.span { Some(span) => span.resolved, None => None },
            classification: match &entry.span {
                Some(span) => Some(span.classification.clone()),
                None => None,
            },
            expectation: entry.expectation.map(NegativeBalanceExpectationDto::from_domain),
            contradicts_expectation: entry.contradicts_expectation(),
        }
    }
}

/// One account's balances and positions, and whether its period reports are
/// calculated.
#[derive(Debug, Clone, PartialEq, Eq)]
pub struct AccountBalanceDto {
    pub account: Uuid,
    pub cash: Vec<CashFigureDto>,
    pub reconciliation: Vec<ReconciliationStatusDto>,
    pub positions: Vec<PositionQuantityDto>,
    pub period_reports: String,
    pub period_reports_refused: Vec<PerimeterRefusalDto>,
}

impl AccountBalanceDto {
    /// What the wire form says of the row.
    pub open spec fn shows(self, row: AccountBalanceRow) -> bool {
        &&& self.account == row.account.0
        &&& relate::each(
            self.cash@,
            row.cash@,
            |dto: CashFigureDto, figure: CashFigure| dto.shows(figure),
        )
        &&& relate::each(
            self.reconciliation@,
            row.reconciliation@,
            |dto: ReconciliationStatusDto, status: ReconciliationStatus| dto.shows(status),
        )
        &&& relate::each(
            self.positions@,
            row.positions@,
            |dto: PositionQuantityDto, position: PositionQuantity| dto.shows(position),
        )
        &&& self.period_reports@ == row.period_reports.word()
        &&& relate::each(
            self.period_reports_refused@,
            row.period_reports.refusing(),
            |dto: PerimeterRefusalDto, span: NegativeSpan| dto.shows(span),
        )
    }

    /// The wire form of the row.
    pub fn from_domain(row: &AccountBalanceRow) -> (dto: Self)
        ensures
            dto.shows(*row),
    {
        Self {
            account: row.account.0,
            cash: map_each(&row.cash, CashFigureDto::from_domain),
            reconciliation: map_each(&row.reconciliation, ReconciliationStatusDto::from_domain),
            positions: map_each(&row.positions, PositionQuantityDto::from_domain),
            period_reports: match &row.period_reports {
                PeriodReports::Calculated => "calculated".to_owned(),
                PeriodReports::Refused { spans } => "refused".to_owned(),
            },
            period_reports_refused: match &row.period_reports {
                PeriodReports::Calculated => Vec::new(),
                PeriodReports::Refused { spans } => map_each(
                    spans,
                    PerimeterRefusalDto::from_domain,
                ),
            },
        }
    }
}

/// The balances report.
#[derive(Debug, Clone, PartialEq, Eq)]
pub struct BalancesReportDto {
    pub confidence: ConfidenceDto,
    pub accounts: Vec<AccountBalanceDto>,
    pub negative_cash: Vec<NegativeCashDto>,
    pub population: PopulationDto,
    pub held_rows: HeldRowsDto,
}

impl BalancesReportDto {
    /// What the wire form says of the report.
    pub open spec fn shows(
        self,
        report: BalancesReport,
        held_rows: HeldRows,
        catalog: ActionCatalog,
    ) -> bool {
        &&& self.confidence.shows(report.confidence, catalog)
        &&& relate::each(
            self.accounts@,
            report.accounts@,
            |dto: AccountBalanceDto, row: AccountBalanceRow| dto.shows(row),
        )
        &&& relate::each(
            self.negative_cash@,
            report.negative_cash@,
            |dto: NegativeCashDto, entry: NegativeCash| dto.shows(entry),
        )
        &&& self.population.shows(report.population)
        &&& self.held_rows.shows(held_rows)
    }

    /// The wire form of the report.
    pub fn from_domain(
        report: &BalancesReport,
        held_rows: &HeldRows,
        catalog: &ActionCatalog,
    ) -> (dto: Self)
        requires
            report.confidence.is_resolved_by(*catalog),
        ensures
            dto.shows(*report, *held_rows, *catalog),
    {
        Self {
            confidence: ConfidenceDto::from_domain(&report.confidence, catalog),
            accounts: map_each(&report.accounts, AccountBalanceDto::from_domain),
            negative_cash: map_each(&report.negative_cash, NegativeCashDto::from_domain),
            population: PopulationDto::from_domain(&report.population),
            held_rows: HeldRowsDto::from_domain(held_rows),
        }
    }
}

/// The spans that refuse an account's period reports are listed exactly where the
/// reports are refused, provided that a refusal rests on a span.
pub proof fn law_refusals_are_listed_exactly_where_reports_are_refused(
    dto: AccountBalanceDto,
    row: AccountBalanceRow,
)
    requires
        dto.shows(row),
        row.period_reports matches PeriodReports::Refused { spans } ==> spans@.len() > 0,
    ensures
        dto.period_reports_refused@.len() == 0 <==> dto.period_reports@ == "calculated"@,
{
    reveal_strlit("calculated");
    reveal_strlit("refused");
    assert(dto.period_reports@.len() == row.period_reports.word().len());
}

/// A negative balance contradicts only an owner who said that one would be
/// unexpected. Silence contradicts nothing.
pub proof fn law_silence_contradicts_nothing(dto: NegativeCashDto, entry: NegativeCash)
    requires
        dto.shows(entry),
    ensures
        dto.expectation is None ==> !dto.contradicts_expectation,
        dto.contradicts_expectation <==> dto.expectation == Some(
            NegativeBalanceExpectationDto::Unexpected,
        ),
{
}

/// A figure says what kind of figure it is: two figures that are shown alike are of
/// one kind and one currency.
pub proof fn law_a_cash_figure_keeps_its_kind(
    dto: CashFigureDto,
    one: CashFigure,
    other: CashFigure,
)
    requires
        dto.shows(one),
        dto.shows(other),
    ensures
        one is Balance <==> other is Balance,
        one is Movement <==> other is Movement,
        one.currency() == other.currency(),
{
}

/// A `CashFigureDto` shows each kind of record as that kind, with its own parts.
pub proof fn law_cash_figure_is_told_part_by_part(
    dto: CashFigureDto,
    figure: CashFigure,
)
    requires
        dto.shows(figure),
    ensures
        match figure {
            CashFigure::Balance(money) => dto matches CashFigureDto::Balance { currency, balance }
                && currency.denotes() == figure.currency() && balance@ == money.text(),
            CashFigure::Movement(money) => dto matches CashFigureDto::MovementSinceUnknownStart {
                currency,
                movement,
            } && currency.denotes() == figure.currency() && movement@ == money.text(),
            CashFigure::Mixed { balance, movement } => dto matches CashFigureDto::Mixed {
                currency,
                balance: held,
                movement: moved,
            } && currency.denotes() == figure.currency() && held@ == balance.text() && moved@
                == movement.text(),
        },
{
}

/// A `PositionQuantityDto` tells each part of what it shows in a field of its own.
pub proof fn law_position_quantity_is_told_part_by_part(
    dto: PositionQuantityDto,
    position: PositionQuantity,
)
    requires
        dto.shows(position),
    ensures
        dto.instrument == position.instrument.0,
        match (dto.custody, position.custody) {
            (Some(told), Some(meant)) => told == meant.0,
            (None, None) => true,
            _ => false,
        },
        dto.quantity@ == position.quantity.text(),
{
}

/// A `PerimeterRefusalDto` tells each part of what it shows in a field of its own.
pub proof fn law_perimeter_refusal_is_told_part_by_part(
    dto: PerimeterRefusalDto,
    span: NegativeSpan,
)
    requires
        dto.shows(span),
    ensures
        dto.currency.denotes() == span.currency,
        dto.from == span.from,
        dto.resolved == span.resolved,
        dto.classification == span.classification,
{
}

/// A `NegativeCashDto` tells each part of what it shows in a field of its own.
pub proof fn law_negative_cash_is_told_part_by_part(
    dto: NegativeCashDto,
    entry: NegativeCash,
)
    requires
        dto.shows(entry),
    ensures
        dto.account == entry.account.0,
        dto.currency.denotes() == entry.money.currency,
        dto.amount@ == entry.money.text(),
        dto.from == (match entry.span { Some(span) => Some(span.from), None => None }),
        dto.resolved == (match entry.span { Some(span) => span.resolved, None => None }),
        dto.classification == (
            match entry.span { Some(span) => Some(span.classification), None => None }
        ),
        match (dto.expectation, entry.expectation) {
            (Some(told), Some(meant)) => told.denotes() == meant,
            (None, None) => true,
            _ => false,
        },
        dto.contradicts_expectation == entry.contradicts(),
{
}

/// An `AccountBalanceDto` tells each part of what it shows in a field of its own.
pub proof fn law_account_balance_is_told_part_by_part(
    dto: AccountBalanceDto,
    row: AccountBalanceRow,
)
    requires
        dto.shows(row),
    ensures
        dto.account == row.account.0,
        dto.cash@.len() == row.cash@.len(),
        forall|i: int| 0 <= i < row.cash@.len() ==> (#[trigger] dto.cash@[i]).shows(row.cash@[i]),
        dto.reconciliation@.len() == row.reconciliation@.len(),
        forall|i: int| 0 <= i < row.reconciliation@.len() ==> (
            #[trigger] dto.reconciliation@[i]
        ).shows(row.reconciliation@[i]),
        dto.positions@.len() == row.positions@.len(),
        forall|i: int| 0 <= i < row.positions@.len() ==> (
            #[trigger] dto.positions@[i]
        ).shows(row.positions@[i]),
        dto.period_reports@ == row.period_reports.word(),
        dto.period_reports_refused@.len() == row.period_reports.refusing().len(),
        forall|i: int| 0 <= i < row.period_reports.refusing().len() ==> (
            #[trigger] dto.period_reports_refused@[i]
        ).shows(row.period_reports.refusing()[i]),
{
}

/// A `BalancesReportDto` tells each part of what it shows in a field of its own.
pub proof fn law_balances_report_is_told_part_by_part(
    dto: BalancesReportDto,
    report: BalancesReport,
    held_rows: HeldRows,
    catalog: ActionCatalog,
)
    requires
        dto.shows(report, held_rows, catalog),
    ensures
        dto.confidence.shows(report.confidence, catalog),
        dto.accounts@.len() == report.accounts@.len(),
        forall|i: int| 0 <= i < report.accounts@.len() ==> (
            #[trigger] dto.accounts@[i]
        ).shows(report.accounts@[i]),
        dto.negative_cash@.len() == report.negative_cash@.len(),
        forall|i: int| 0 <= i < report.negative_cash@.len() ==> (
            #[trigger] dto.negative_cash@[i]
        ).shows(report.negative_cash@[i]),
        dto.population.shows(report.population),
        dto.held_rows.shows(held_rows),
{
}

} // verus!
