//! Bond metrics as the ledger computes them.

use crate::calendar::Date;
use crate::ids::{AccountId, CustodyId, InstrumentId, OfferWindowId};
use crate::ledger::computed::{Computed, RateOutcome};
use crate::money::{CalcMoney, Decimal};
use vstd::prelude::*;

verus! {

/// What an expected payment is.
#[derive(Debug, Clone, Copy, PartialEq, Eq, Structural)]
pub enum PostingKind {
    Coupon,
    PrincipalReturn,
    OfferSettlement,
}

impl PostingKind {
    /// The word it goes by.
    pub open spec fn word(self) -> Seq<char> {
        match self {
            Self::Coupon => "coupon"@,
            Self::PrincipalReturn => "principal_return"@,
            Self::OfferSettlement => "offer_settlement"@,
        }
    }

    /// The word it goes by.
    pub fn code(self) -> (code: &'static str)
        ensures
            code@ == self.word(),
    {
        match self {
            Self::Coupon => "coupon",
            Self::PrincipalReturn => "principal_return",
            Self::OfferSettlement => "offer_settlement",
        }
    }
}

/// A payment expected on a date.
#[derive(Debug, Clone, Copy, PartialEq, Eq, Structural)]
pub struct ExpectedPosting {
    pub date: Date,
    pub amount: CalcMoney,
    pub kind: PostingKind,
}

/// Figures under the assumption that nothing received is reinvested.
#[derive(Debug, Clone, PartialEq, Eq)]
pub struct ZeroReinvestmentMetrics {
    pub postings: Vec<ExpectedPosting>,
    pub terminal_wealth: CalcMoney,
    pub surplus: CalcMoney,
    pub hpr: Computed<Decimal>,
    pub cagr_0r: Computed<RateOutcome>,
    pub zero_reinvestment_assumed: bool,
    pub pre_tax: bool,
}

/// What the owner is assumed to do about an offer.
#[derive(Debug, Clone, Copy, PartialEq, Eq, Structural)]
pub enum OfferChoice {
    HoldToMaturity,
    ExerciseAtOffer { window: OfferWindowId },
}

/// What a yield runs to.
#[derive(Debug, Clone, Copy, PartialEq, Eq, Structural)]
pub enum IrrLabel {
    YieldToMaturity,
    YieldToOffer,
}

/// What holding from here on would bring.
#[derive(Debug, Clone, PartialEq, Eq)]
pub struct ProspectiveMetric {
    pub as_of: Date,
    pub terminal_date: Date,
    pub c0: Computed<CalcMoney>,
    pub metrics: Computed<ZeroReinvestmentMetrics>,
    pub irr: Computed<RateOutcome>,
    pub irr_label: IrrLabel,
}

/// What one acquisition brought over its life.
#[derive(Debug, Clone, PartialEq, Eq)]
pub struct LifetimeCohortMetric {
    pub acquired: Date,
    pub quantity: Decimal,
    pub terminal_date: Date,
    pub c0: Computed<CalcMoney>,
    pub metrics: Computed<ZeroReinvestmentMetrics>,
    pub irr_absent_because: String,
}

/// One scenario of a bond position.
#[derive(Debug, Clone, PartialEq, Eq)]
pub struct BondScenarioResult {
    pub choice: OfferChoice,
    pub prospective: ProspectiveMetric,
    pub lifetime: Computed<Vec<LifetimeCohortMetric>>,
}

/// The scenarios of one bond position.
#[derive(Debug, Clone, PartialEq, Eq)]
pub struct BondPositionMetrics {
    pub account: AccountId,
    pub custody: Option<CustodyId>,
    pub instrument: InstrumentId,
    pub scenarios: Vec<BondScenarioResult>,
}

/// Whether a return of principal is the last one.
#[derive(Debug, Clone, Copy, PartialEq, Eq, Structural)]
pub enum PrincipalReturnFinality {
    Final,
    Partial,
    Unknown,
}

impl PrincipalReturnFinality {
    /// The word it goes by.
    pub open spec fn word(self) -> Seq<char> {
        match self {
            Self::Final => "final"@,
            Self::Partial => "partial"@,
            Self::Unknown => "unknown"@,
        }
    }

    /// The word it goes by.
    pub fn code(self) -> (code: &'static str)
        ensures
            code@ == self.word(),
    {
        match self {
            Self::Final => "final",
            Self::Partial => "partial",
            Self::Unknown => "unknown",
        }
    }

    /// The word it goes by, as a text of its own.
    pub fn to_word(&self) -> (word: String)
        ensures
            word@ == self.word(),
    {
        self.code().to_owned()
    }
}

/// What is known of one bond position.
#[derive(Debug, Clone, PartialEq, Eq)]
pub struct BondPositionAttributes {
    pub account: AccountId,
    pub custody: Option<CustodyId>,
    pub instrument: InstrumentId,
    pub accrued_interest: Computed<Decimal>,
    pub accrued_interest_payable_on_termination: Computed<Decimal>,
    pub next_posting_date: Option<Date>,
    pub next_principal_return_finality: Option<PrincipalReturnFinality>,
}

/// Each `PostingKind` goes by a word of its own, and that word names no other.
pub proof fn law_posting_kind_goes_by_its_own_word(value: PostingKind)
    ensures
        value.word() == "coupon"@ <==> value is Coupon,
        value.word() == "principal_return"@ <==> value is PrincipalReturn,
        value.word() == "offer_settlement"@ <==> value is OfferSettlement,
{
    reveal_strlit("coupon");
    reveal_strlit("principal_return");
    reveal_strlit("offer_settlement");
    assert("offer_settlement"@[0] == 'o');
    assert("principal_return"@[0] == 'p');
    assert(value.word().len() > 0);
}

/// Each `PrincipalReturnFinality` goes by a word of its own, and that word names no other.
pub proof fn law_principal_return_finality_goes_by_its_own_word(value: PrincipalReturnFinality)
    ensures
        value.word() == "final"@ <==> value is Final,
        value.word() == "partial"@ <==> value is Partial,
        value.word() == "unknown"@ <==> value is Unknown,
{
    reveal_strlit("final");
    reveal_strlit("partial");
    reveal_strlit("unknown");
    assert("partial"@[0] == 'p');
    assert("unknown"@[0] == 'u');
    assert(value.word().len() > 0);
}

} // verus!
