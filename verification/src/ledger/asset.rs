//! The asset snapshot as the ledger computes it.

use crate::calendar::Date;
use crate::ids::{AccountId, InstrumentId};
use crate::ledger::balance::{CashFigure, PositionQuantity};
use crate::ledger::kinds::PriceQuality;
use crate::ledger::price::SelectedPrice;
use crate::ledger::report::{ReportConfidence, ReportPopulation};
use crate::money::{CalcMoney, CurrencyCode, Decimal};
use vstd::prelude::*;

verus! {

/// The price decision of a holding.
#[derive(Debug, Clone, PartialEq, Eq)]
pub enum PriceDecision {
    Selected(SelectedPrice),
    LegacyDerived { quality: PriceQuality, price: Option<LegacyPrice> },
    Uncovered(CandidateUncoveredReason),
}

/// A price of an older kind.
#[derive(Debug, Clone, Copy, PartialEq, Eq, Structural)]
pub struct LegacyPrice {
    pub price: Decimal,
    pub currency: CurrencyCode,
    pub as_of: Date,
}

/// Why a holding has no price.
#[derive(Debug, Clone, Copy, PartialEq, Eq, Structural)]
pub enum CandidateUncoveredReason {
    NoObservation,
    TooOld,
    AmbiguousVenue,
    AmbiguousCandidate,
}

impl CandidateUncoveredReason {
    /// The word it goes by.
    pub open spec fn word(self) -> Seq<char> {
        match self {
            Self::NoObservation => "no_observation"@,
            Self::TooOld => "too_old"@,
            Self::AmbiguousVenue => "ambiguous_venue"@,
            Self::AmbiguousCandidate => "ambiguous_candidate"@,
        }
    }

    /// The word it goes by.
    pub fn code(self) -> (code: &'static str)
        ensures
            code@ == self.word(),
    {
        match self {
            Self::NoObservation => "no_observation",
            Self::TooOld => "too_old",
            Self::AmbiguousVenue => "ambiguous_venue",
            Self::AmbiguousCandidate => "ambiguous_candidate",
        }
    }

    /// The word it goes by, as a text of its own.
    pub fn to_word(&self) -> (word: String)
        ensures
            word@ == self.word(),
    {
        self.code().to_owned()
    }
}

/// One class of cash and what it holds. No class is a group of its own.
#[derive(Debug, Clone, PartialEq, Eq)]
pub struct CashClassTotal {
    pub cash_class: Option<String>,
    pub accounts: Vec<AccountId>,
    pub totals: Vec<CashFigure>,
}

/// The exact half of a snapshot.
#[derive(Debug, Clone, PartialEq, Eq)]
pub struct CashSide {
    pub classes: Vec<CashClassTotal>,
    pub totals: Vec<CashFigure>,
}

/// One holding, its price and its value.
#[derive(Debug, Clone, PartialEq, Eq)]
pub struct HoldingValue {
    pub instrument: InstrumentId,
    pub quantity: Decimal,
    pub price: PriceDecision,
    pub value: Option<CalcMoney>,
}

/// The market-dependent half of a snapshot.
#[derive(Debug, Clone, PartialEq, Eq)]
pub struct PositionsSide {
    pub holdings: Vec<HoldingValue>,
    pub oldest_price_date: Option<Date>,
    pub totals: Vec<CalcMoney>,
}

/// The rows the totals were folded from.
#[derive(Debug, Clone, PartialEq, Eq)]
pub struct AssetAccount {
    pub account: AccountId,
    pub cash_class: Option<String>,
    pub cash: Vec<CashFigure>,
    pub positions: Vec<PositionQuantity>,
}

/// Everything held at a date.
#[derive(Debug, Clone, PartialEq, Eq)]
pub struct AssetSnapshot {
    pub confidence: ReportConfidence,
    pub as_of: Date,
    pub cash: CashSide,
    pub positions: PositionsSide,
    pub total: Vec<CalcMoney>,
    pub accounts: Vec<AssetAccount>,
    pub population: ReportPopulation,
}

/// Each `CandidateUncoveredReason` goes by a word of its own, and that word names no other.
pub proof fn law_candidate_uncovered_reason_goes_by_its_own_word(value: CandidateUncoveredReason)
    ensures
        value.word() == "no_observation"@ <==> value is NoObservation,
        value.word() == "too_old"@ <==> value is TooOld,
        value.word() == "ambiguous_venue"@ <==> value is AmbiguousVenue,
        value.word() == "ambiguous_candidate"@ <==> value is AmbiguousCandidate,
{
    reveal_strlit("no_observation");
    reveal_strlit("too_old");
    reveal_strlit("ambiguous_venue");
    reveal_strlit("ambiguous_candidate");
    assert(value.word().len() > 0);
}

} // verus!
