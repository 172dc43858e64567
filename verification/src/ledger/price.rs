//! Selected prices and where they came from.

use crate::calendar::{Date, Timestamp};
use crate::ids::{InstrumentId, SourceId};
use crate::ledger::kinds::PriceQuality;
use crate::money::{CurrencyCode, Decimal};
use vstd::prelude::*;

verus! {

/// Whether a price could be traded at.
#[derive(Debug, Clone, Copy, PartialEq, Eq, Structural)]
pub enum SourceExecutability {
    Executable,
    IndicativePreviousClose,
    Unknown,
}

impl SourceExecutability {
    /// The word it goes by.
    pub open spec fn word(self) -> Seq<char> {
        match self {
            Self::Executable => "executable"@,
            Self::IndicativePreviousClose => "indicative_previous_close"@,
            Self::Unknown => "unknown"@,
        }
    }

    /// The word it goes by.
    pub fn code(self) -> (code: &'static str)
        ensures
            code@ == self.word(),
    {
        match self {
            Self::Executable => "executable",
            Self::IndicativePreviousClose => "indicative_previous_close",
            Self::Unknown => "unknown",
        }
    }

    /// The word it goes by, as a text of its own.
    pub fn to_word(&self) -> (word: String)
        ensures
            word@ == self.word(),
    {
        self.code().to_owned()
    }
}

/// How a price came to be the one selected.
#[derive(Debug, Clone, Copy, PartialEq, Eq, Structural)]
pub enum PriceSelection {
    AsObserved,
    CarriedForward { observed_on: Date, days: u16 },
    LegacyDerived { quality: PriceQuality },
}

/// How old a selected price is.
#[derive(Debug, Clone, Copy, PartialEq, Eq, Structural)]
pub enum PriceFreshness {
    Fresh,
    Stale { days: u16 },
}

/// Which price of a trading day was taken.
#[derive(Debug, Clone, Copy, PartialEq, Eq, Structural)]
pub enum PriceKind {
    Close,
    LegalClose,
    WeightedAverage,
    MarketPrice2,
    MarketPrice3,
    AdmittedQuote,
}

/// Where a price came from.
#[derive(Debug, Clone, PartialEq, Eq)]
pub enum PriceOrigin {
    Market { board: String, kind: PriceKind },
    ReportParsed { source: SourceId },
    OwnerAsserted,
}

impl PriceKind {
    /// The word it goes by.
    pub open spec fn word(self) -> Seq<char> {
        match self {
            Self::Close => "close"@,
            Self::LegalClose => "legal_close"@,
            Self::WeightedAverage => "weighted_average"@,
            Self::MarketPrice2 => "market_price_2"@,
            Self::MarketPrice3 => "market_price_3"@,
            Self::AdmittedQuote => "admitted_quote"@,
        }
    }

    /// The word it goes by.
    pub fn code(self) -> (code: &'static str)
        ensures
            code@ == self.word(),
    {
        match self {
            Self::Close => "close",
            Self::LegalClose => "legal_close",
            Self::WeightedAverage => "weighted_average",
            Self::MarketPrice2 => "market_price_2",
            Self::MarketPrice3 => "market_price_3",
            Self::AdmittedQuote => "admitted_quote",
        }
    }

    /// The word it goes by, as a text of its own.
    pub fn to_word(&self) -> (word: String)
        ensures
            word@ == self.word(),
    {
        self.code().to_owned()
    }
}

/// What a quotation is stated in.
#[derive(Debug, Clone, Copy, PartialEq, Eq, Structural)]
pub enum QuotationBasis {
    MoneyPerUnit,
    PercentOfRemainingFace,
    Unknown,
}

/// Whether a quotation basis is proven.
#[derive(Debug, Clone, Copy, PartialEq, Eq, Structural)]
pub enum QuotationBasisStatus {
    Proven,
    Contradicts,
    NotProven,
}

/// Where a price came from and under which policy it was taken.
#[derive(Debug, Clone, PartialEq, Eq)]
pub struct PriceProvenance {
    pub price_kind: Option<String>,
    pub origin: PriceOrigin,
    pub venue: Option<String>,
    pub quotation_basis: QuotationBasis,
    pub basis_evidence: String,
    pub observed_at: Option<Timestamp>,
    pub valuation_policy_version: u32,
    pub source_priority_version: u32,
    pub carry_forward_limit: u16,
    pub price_max_age: u16,
}

/// A price that was considered.
#[derive(Debug, Clone, PartialEq, Eq)]
pub struct PriceCandidate {
    pub instrument: InstrumentId,
    pub price: Decimal,
    pub currency: CurrencyCode,
    pub trade_date: Date,
    pub observed_at: Option<Timestamp>,
    pub executability: SourceExecutability,
}

/// The price a position was valued at.
#[derive(Debug, Clone, PartialEq, Eq)]
pub struct SelectedPrice {
    pub candidate: PriceCandidate,
    pub selection: PriceSelection,
    pub freshness: PriceFreshness,
    pub provenance: PriceProvenance,
}

/// Each `SourceExecutability` goes by a word of its own, and that word names no other.
pub proof fn law_source_executability_goes_by_its_own_word(value: SourceExecutability)
    ensures
        value.word() == "executable"@ <==> value is Executable,
        value.word() == "indicative_previous_close"@ <==> value is IndicativePreviousClose,
        value.word() == "unknown"@ <==> value is Unknown,
{
    reveal_strlit("executable");
    reveal_strlit("indicative_previous_close");
    reveal_strlit("unknown");
    assert(value.word().len() > 0);
}

/// Each `PriceKind` goes by a word of its own, and that word names no other.
pub proof fn law_price_kind_goes_by_its_own_word(value: PriceKind)
    ensures
        value.word() == "close"@ <==> value is Close,
        value.word() == "legal_close"@ <==> value is LegalClose,
        value.word() == "weighted_average"@ <==> value is WeightedAverage,
        value.word() == "market_price_2"@ <==> value is MarketPrice2,
        value.word() == "market_price_3"@ <==> value is MarketPrice3,
        value.word() == "admitted_quote"@ <==> value is AdmittedQuote,
{
    reveal_strlit("close");
    reveal_strlit("legal_close");
    reveal_strlit("weighted_average");
    reveal_strlit("market_price_2");
    reveal_strlit("market_price_3");
    reveal_strlit("admitted_quote");
    assert("admitted_quote"@[0] == 'a');
    assert("market_price_2"@[0] == 'm');
    assert("market_price_2"@[13] == '2');
    assert("market_price_3"@[0] == 'm');
    assert("market_price_3"@[13] == '3');
    assert(value.word().len() > 0);
}

} // verus!
