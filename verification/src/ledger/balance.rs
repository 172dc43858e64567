//! Balances and holdings as the ledger states them.

use crate::calendar::Date;
use crate::ids::{AccountId, CustodyId, InstrumentId};
use crate::ledger::account::NegativeBalanceExpectation;
use crate::ledger::reconciliation::ReconciliationStatus;
use crate::ledger::report::{ReportConfidence, ReportPopulation};
use crate::money::{CurrencyCode, Decimal, Money};
use vstd::prelude::*;

verus! {

/// A cash figure: a balance, a movement from an unknown start, or both at once.
#[derive(Debug, Clone, Copy, PartialEq, Eq, Structural)]
pub enum CashFigure {
    Balance(Money),
    Movement(Money),
    Mixed { balance: Money, movement: Money },
}

impl CashFigure {
    /// The currency of the figure.
    pub open spec fn currency(self) -> CurrencyCode {
        match self {
            Self::Balance(money) => money.currency,
            Self::Movement(money) => money.currency,
            Self::Mixed { balance, movement } => balance.currency,
        }
    }
}

/// A span of negative cash. The classification carries its own word.
#[derive(Debug, Clone, PartialEq, Eq)]
pub struct NegativeSpan {
    pub currency: CurrencyCode,
    pub from: Date,
    pub resolved: Option<Date>,
    pub classification: String,
}

/// An account whose cash is negative, and what the owner expected.
#[derive(Debug, Clone, PartialEq, Eq)]
pub struct NegativeCash {
    pub account: AccountId,
    pub money: Money,
    pub span: Option<NegativeSpan>,
    pub expectation: Option<NegativeBalanceExpectation>,
}

impl NegativeCash {
    /// Whether the figure contradicts what the owner expected: only where the owner said
    /// that a negative balance would be unexpected. Silence contradicts nothing.
    pub open spec fn contradicts(self) -> bool {
        self.expectation == Some(NegativeBalanceExpectation::Unexpected)
    }

    /// Whether the figure contradicts what the owner expected.
    pub fn contradicts_expectation(&self) -> (contradicts: bool)
        ensures
            contradicts == self.contradicts(),
    {
        match self.expectation {
            Some(NegativeBalanceExpectation::Unexpected) => true,
            _ => false,
        }
    }
}

/// Whether the period reports of an account are calculated, or which spans refuse
/// them.
#[derive(Debug, Clone, PartialEq, Eq)]
pub enum PeriodReports {
    Calculated,
    Refused { spans: Vec<NegativeSpan> },
}

impl PeriodReports {
    /// The word of the answer.
    pub open spec fn word(self) -> Seq<char> {
        match self {
            Self::Calculated => "calculated"@,
            Self::Refused { spans } => "refused"@,
        }
    }

    /// The spans that refuse the reports.
    pub open spec fn refusing(self) -> Seq<NegativeSpan> {
        match self {
            Self::Calculated => seq![],
            Self::Refused { spans } => spans@,
        }
    }
}

/// A position of an account.
#[derive(Debug, Clone, Copy, PartialEq, Eq, Structural)]
pub struct PositionQuantity {
    pub instrument: InstrumentId,
    pub custody: Option<CustodyId>,
    pub quantity: Decimal,
}

/// One account's balances and positions.
#[derive(Debug, Clone, PartialEq, Eq)]
pub struct AccountBalanceRow {
    pub account: AccountId,
    pub cash: Vec<CashFigure>,
    pub reconciliation: Vec<ReconciliationStatus>,
    pub positions: Vec<PositionQuantity>,
    pub period_reports: PeriodReports,
}

/// The balances report.
#[derive(Debug, Clone, PartialEq, Eq)]
pub struct BalancesReport {
    pub confidence: ReportConfidence,
    pub accounts: Vec<AccountBalanceRow>,
    pub negative_cash: Vec<NegativeCash>,
    pub population: ReportPopulation,
}

/// Each `PeriodReports` goes by a word of its own, and that word names no other.
pub proof fn law_period_reports_goes_by_its_own_word(value: PeriodReports)
    ensures
        value.word() == "calculated"@ <==> value is Calculated,
        value.word() == "refused"@ <==> value is Refused,
{
    reveal_strlit("calculated");
    reveal_strlit("refused");
    assert(value.word().len() > 0);
}

/// A cash figure is in the currency of its money, a negative balance contradicts only an
/// owner who did not expect one, and reports are refused by their own spans.
pub proof fn law_a_balance_says_only_what_it_holds(
    figure: CashFigure,
    entry: NegativeCash,
    reports: PeriodReports,
)
    ensures
        figure matches CashFigure::Balance(money) ==> figure.currency() == money.currency,
        figure matches CashFigure::Movement(money) ==> figure.currency() == money.currency,
        figure matches CashFigure::Mixed { balance, movement } ==> figure.currency()
            == balance.currency,
        entry.contradicts() <==> (entry.expectation matches Some(expectation) && expectation
            is Unexpected),
        reports is Calculated ==> reports.refusing().len() == 0,
        reports matches PeriodReports::Refused { spans } ==> reports.refusing() == spans@,
{
}

} // verus!
