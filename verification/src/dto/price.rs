//! Selected prices on the wire.

use crate::calendar::{Date, format_timestamp};
use crate::calendar;
use crate::dto::currency::CurrencyDto;
use crate::ids::Uuid;
use crate::ledger::price::{
    PriceFreshness, PriceOrigin, PriceProvenance, PriceSelection, QuotationBasis,
    QuotationBasisStatus, SelectedPrice, SourceExecutability,
};
use vstd::prelude::*;

verus! {

/// The word for whether a price could be traded at.
pub fn executability(value: SourceExecutability) -> (word: &'static str)
    ensures
        word@ == value.word(),
{
    value.code()
}

/// How a price came to be the one selected.
#[derive(Debug, Clone, PartialEq, Eq)]
pub enum PriceSelectionDto {
    AsObserved,
    CarriedForward { observed_on: Date, days: u16 },
    LegacyDerived { quality: String },
}

impl PriceSelectionDto {
    /// What the wire form says of the selection.
    pub open spec fn shows(self, selection: PriceSelection) -> bool {
        match selection {
            PriceSelection::AsObserved => self is AsObserved,
            PriceSelection::CarriedForward { observed_on, days } => self == (
            Self::CarriedForward { observed_on, days }),
            PriceSelection::LegacyDerived { quality } => self matches Self::LegacyDerived {
                quality: word,
            } && word@ == quality.word(),
        }
    }

    /// The wire form of the selection.
    pub fn from_domain(selection: PriceSelection) -> (dto: Self)
        ensures
            dto.shows(selection),
    {
        match selection {
            PriceSelection::AsObserved => Self::AsObserved,
            PriceSelection::CarriedForward { observed_on, days } => Self::CarriedForward {
                observed_on,
                days,
            },
            PriceSelection::LegacyDerived { quality } => Self::LegacyDerived {
                quality: quality.to_word(),
            },
        }
    }
}

/// How old a selected price is.
#[derive(Debug, Clone, Copy, PartialEq, Eq, Structural)]
pub enum PriceFreshnessDto {
    Fresh,
    Stale { days: u16 },
}

impl PriceFreshnessDto {
    /// What the wire form says of the freshness.
    pub open spec fn shows(self, freshness: PriceFreshness) -> bool {
        match freshness {
            PriceFreshness::Fresh => self == Self::Fresh,
            PriceFreshness::Stale { days } => self == (Self::Stale { days }),
        }
    }

    /// The wire form of the freshness.
    pub fn from_domain(freshness: PriceFreshness) -> (dto: Self)
        ensures
            dto.shows(freshness),
    {
        match freshness {
            PriceFreshness::Fresh => Self::Fresh,
            PriceFreshness::Stale { days } => Self::Stale { days },
        }
    }
}

/// Where a price came from.
#[derive(Debug, Clone, PartialEq, Eq)]
pub enum PriceOriginDto {
    Market { venue: String, price_kind: String },
    ReportParsed { source: Uuid },
    OwnerAsserted,
}

impl PriceOriginDto {
    /// What the wire form says of the origin.
    pub open spec fn shows(self, origin: PriceOrigin) -> bool {
        match origin {
            PriceOrigin::Market { board, kind } => self matches Self::Market { venue, price_kind }
                && venue == board && price_kind@ == kind.word(),
            PriceOrigin::ReportParsed { source } => self == (Self::ReportParsed {
                source: source.0,
            }),
            PriceOrigin::OwnerAsserted => self is OwnerAsserted,
        }
    }

    /// The wire form of the origin.
    pub fn from_domain(origin: &PriceOrigin) -> (dto: Self)
        ensures
            dto.shows(*origin),
    {
        match origin {
            PriceOrigin::Market { board, kind } => Self::Market {
                venue: board.clone(),
                price_kind: kind.to_word(),
            },
            PriceOrigin::ReportParsed { source } => Self::ReportParsed { source: source.0 },
            PriceOrigin::OwnerAsserted => Self::OwnerAsserted,
        }
    }
}

/// What a quotation is stated in.
#[derive(Debug, Clone, Copy, PartialEq, Eq, Structural)]
pub enum QuotationBasisDto {
    MoneyPerUnit,
    PercentOfRemainingFace,
    Unknown,
}

impl QuotationBasisDto {
    /// The value of the ledger it stands for.
    pub open spec fn denotes(self) -> QuotationBasis {
        match self {
            Self::MoneyPerUnit => QuotationBasis::MoneyPerUnit,
            Self::PercentOfRemainingFace => QuotationBasis::PercentOfRemainingFace,
            Self::Unknown => QuotationBasis::Unknown,
        }
    }

    /// The wire value that stands for a value of the ledger.
    pub fn from_domain(basis: QuotationBasis) -> (dto: Self)
        ensures
            dto.denotes() == basis,
    {
        match basis {
            QuotationBasis::MoneyPerUnit => Self::MoneyPerUnit,
            QuotationBasis::PercentOfRemainingFace => Self::PercentOfRemainingFace,
            QuotationBasis::Unknown => Self::Unknown,
        }
    }
}

/// Whether a quotation basis is proven.
#[derive(Debug, Clone, Copy, PartialEq, Eq, Structural)]
pub enum QuotationBasisStatusDto {
    Proven,
    Contradicts,
    NotProven,
}

impl QuotationBasisStatusDto {
    /// The value of the ledger it stands for.
    pub open spec fn denotes(self) -> QuotationBasisStatus {
        match self {
            Self::Proven => QuotationBasisStatus::Proven,
            Self::Contradicts => QuotationBasisStatus::Contradicts,
            Self::NotProven => QuotationBasisStatus::NotProven,
        }
    }

    /// The wire value that stands for a value of the ledger.
    pub fn from_domain(status: QuotationBasisStatus) -> (dto: Self)
        ensures
            dto.denotes() == status,
    {
        match status {
            QuotationBasisStatus::Proven => Self::Proven,
            QuotationBasisStatus::Contradicts => Self::Contradicts,
            QuotationBasisStatus::NotProven => Self::NotProven,
        }
    }
}

impl QuotationBasisStatusDto {
    /// The word on the wire.
    pub open spec fn word(self) -> Seq<char> {
        match self {
            Self::Proven => "proven"@,
            Self::Contradicts => "contradicts"@,
            Self::NotProven => "not_proven"@,
        }
    }

    /// The word on the wire.
    pub fn code(self) -> (code: &'static str)
        ensures
            code@ == self.word(),
    {
        match self {
            Self::Proven => "proven",
            Self::Contradicts => "contradicts",
            Self::NotProven => "not_proven",
        }
    }
}

/// No two statuses go by one word.
pub proof fn law_every_basis_status_has_its_own_word(
    one: QuotationBasisStatusDto,
    other: QuotationBasisStatusDto,
)
    ensures
        one.word() == other.word() ==> one == other,
{
    reveal_strlit("proven");
    reveal_strlit("contradicts");
    reveal_strlit("not_proven");
    if one.word() == other.word() {
        assert(one.word().len() == other.word().len());
    }
}

/// Where a price came from and under which policy it was taken.
#[derive(Debug, Clone, PartialEq, Eq)]
pub struct PriceProvenanceDto {
    pub price_kind: Option<String>,
    pub origin: PriceOriginDto,
    pub venue: Option<String>,
    pub quotation_basis: QuotationBasisDto,
    /// Absent where there is no evidence, never blank.
    pub basis_evidence: Option<String>,
    pub observed_at: Option<String>,
    pub valuation_policy_version: u32,
    pub source_priority_version: u32,
    pub carry_forward_limit: u16,
    pub price_max_age: u16,
}

impl PriceProvenanceDto {
    /// What the wire form says of the record it was rendered from.
    pub open spec fn shows(self, provenance: PriceProvenance) -> bool {
        &&& self.price_kind == provenance.price_kind
        &&& self.origin.shows(provenance.origin)
        &&& self.venue == provenance.venue
        &&& self.quotation_basis.denotes() == provenance.quotation_basis
        &&& self.basis_evidence == (
            if provenance.basis_evidence@.len() == 0 { None } else {
                Some(provenance.basis_evidence)
            }
        )
        &&& calendar::timestamp_shown(self.observed_at, provenance.observed_at)
        &&& self.valuation_policy_version == provenance.valuation_policy_version
        &&& self.source_priority_version == provenance.source_priority_version
        &&& self.carry_forward_limit == provenance.carry_forward_limit
        &&& self.price_max_age == provenance.price_max_age
    }

    /// The wire form of the record.
    pub fn from_domain(provenance: &PriceProvenance) -> (dto: Self)
        ensures
            dto.shows(*provenance),
    {
        Self {
            price_kind: provenance.price_kind.clone(),
            origin: PriceOriginDto::from_domain(&provenance.origin),
            venue: provenance.venue.clone(),
            quotation_basis: QuotationBasisDto::from_domain(provenance.quotation_basis),
            basis_evidence: if provenance.basis_evidence.as_str().is_empty() { None } else {
                Some(provenance.basis_evidence.clone())
            },
            observed_at: format_timestamp(&provenance.observed_at),
            valuation_policy_version: provenance.valuation_policy_version,
            source_priority_version: provenance.source_priority_version,
            carry_forward_limit: provenance.carry_forward_limit,
            price_max_age: provenance.price_max_age,
        }
    }
}

/// The price a position was valued at.
#[derive(Debug, Clone, PartialEq, Eq)]
pub struct SelectedPriceDto {
    pub instrument: Uuid,
    pub price: String,
    pub currency: CurrencyDto,
    pub trade_date: Date,
    pub observed_at: Option<String>,
    pub executability: String,
    pub selection: PriceSelectionDto,
    pub freshness: PriceFreshnessDto,
    pub provenance: PriceProvenanceDto,
}

impl SelectedPriceDto {
    /// What the wire form says of the record it was rendered from.
    pub open spec fn shows(self, price: SelectedPrice) -> bool {
        &&& self.instrument == price.candidate.instrument.0
        &&& self.price@ == price.candidate.price.text()
        &&& self.currency.denotes() == price.candidate.currency
        &&& self.trade_date == price.candidate.trade_date
        &&& calendar::timestamp_shown(self.observed_at, price.candidate.observed_at)
        &&& self.executability@ == price.candidate.executability.word()
        &&& self.selection.shows(price.selection)
        &&& self.freshness.shows(price.freshness)
        &&& self.provenance.shows(price.provenance)
    }

    /// The wire form of the record.
    pub fn from_domain(price: &SelectedPrice) -> (dto: Self)
        ensures
            dto.shows(*price),
    {
        Self {
            instrument: price.candidate.instrument.0,
            price: price.candidate.price.to_text(),
            currency: CurrencyDto::from_domain(price.candidate.currency),
            trade_date: price.candidate.trade_date,
            observed_at: format_timestamp(&price.candidate.observed_at),
            executability: executability(price.candidate.executability).to_owned(),
            selection: PriceSelectionDto::from_domain(price.selection),
            freshness: PriceFreshnessDto::from_domain(price.freshness),
            provenance: PriceProvenanceDto::from_domain(&price.provenance),
        }
    }
}

/// Each `QuotationBasisStatusDto` goes by a word of its own, and that word names no other.
pub proof fn law_quotation_basis_status_goes_by_its_own_word(value: QuotationBasisStatusDto)
    ensures
        value.word() == "proven"@ <==> value is Proven,
        value.word() == "contradicts"@ <==> value is Contradicts,
        value.word() == "not_proven"@ <==> value is NotProven,
{
    reveal_strlit("proven");
    reveal_strlit("contradicts");
    reveal_strlit("not_proven");
    assert(value.word().len() > 0);
}

/// Each `QuotationBasisDto` denotes its namesake in the ledger, and no two denote one.
pub proof fn law_quotation_basis_denotes_its_namesake(dto: QuotationBasisDto)
    ensures
        dto is MoneyPerUnit <==> dto.denotes() is MoneyPerUnit,
        dto is PercentOfRemainingFace <==> dto.denotes() is PercentOfRemainingFace,
        dto is Unknown <==> dto.denotes() is Unknown,
{
}

/// Each `QuotationBasisStatusDto` denotes its namesake in the ledger, and no two denote one.
pub proof fn law_quotation_basis_status_denotes_its_namesake(dto: QuotationBasisStatusDto)
    ensures
        dto is Proven <==> dto.denotes() is Proven,
        dto is Contradicts <==> dto.denotes() is Contradicts,
        dto is NotProven <==> dto.denotes() is NotProven,
{
}

/// A `PriceSelectionDto` shows each kind of record as that kind, with its own parts.
pub proof fn law_price_selection_is_told_part_by_part(
    dto: PriceSelectionDto,
    selection: PriceSelection,
)
    requires
        dto.shows(selection),
    ensures
        match selection {
            PriceSelection::AsObserved => dto is AsObserved,
            PriceSelection::CarriedForward { observed_on, days } => dto == (
            PriceSelectionDto::CarriedForward { observed_on, days }),
            PriceSelection::LegacyDerived {
                quality,
            } => dto matches PriceSelectionDto::LegacyDerived {
                quality: word,
            } && word@ == quality.word(),
        },
{
}

/// A `PriceFreshnessDto` shows each kind of record as that kind, with its own parts.
pub proof fn law_price_freshness_is_told_part_by_part(
    dto: PriceFreshnessDto,
    freshness: PriceFreshness,
)
    requires
        dto.shows(freshness),
    ensures
        match freshness {
            PriceFreshness::Fresh => dto == PriceFreshnessDto::Fresh,
            PriceFreshness::Stale { days } => dto == (PriceFreshnessDto::Stale { days }),
        },
{
}

/// A `PriceOriginDto` shows each kind of record as that kind, with its own parts.
pub proof fn law_price_origin_is_told_part_by_part(
    dto: PriceOriginDto,
    origin: PriceOrigin,
)
    requires
        dto.shows(origin),
    ensures
        match origin {
            PriceOrigin::Market { board, kind } => dto matches PriceOriginDto::Market {
                venue,
                price_kind,
            }
                && venue == board && price_kind@ == kind.word(),
            PriceOrigin::ReportParsed { source } => dto == (PriceOriginDto::ReportParsed {
                source: source.0,
            }),
            PriceOrigin::OwnerAsserted => dto is OwnerAsserted,
        },
{
}

/// A `PriceProvenanceDto` tells each part of what it shows in a field of its own.
pub proof fn law_price_provenance_is_told_part_by_part(
    dto: PriceProvenanceDto,
    provenance: PriceProvenance,
)
    requires
        dto.shows(provenance),
    ensures
        dto.price_kind == provenance.price_kind,
        dto.origin.shows(provenance.origin),
        dto.venue == provenance.venue,
        dto.quotation_basis.denotes() == provenance.quotation_basis,
        dto.basis_evidence == (
            if provenance.basis_evidence@.len() == 0 { None } else {
                Some(provenance.basis_evidence)
            }
        ),
        calendar::timestamp_shown(dto.observed_at, provenance.observed_at),
        dto.valuation_policy_version == provenance.valuation_policy_version,
        dto.source_priority_version == provenance.source_priority_version,
        dto.carry_forward_limit == provenance.carry_forward_limit,
        dto.price_max_age == provenance.price_max_age,
{
}

/// A `SelectedPriceDto` tells each part of what it shows in a field of its own.
pub proof fn law_selected_price_is_told_part_by_part(
    dto: SelectedPriceDto,
    price: SelectedPrice,
)
    requires
        dto.shows(price),
    ensures
        dto.instrument == price.candidate.instrument.0,
        dto.price@ == price.candidate.price.text(),
        dto.currency.denotes() == price.candidate.currency,
        dto.trade_date == price.candidate.trade_date,
        calendar::timestamp_shown(dto.observed_at, price.candidate.observed_at),
        dto.executability@ == price.candidate.executability.word(),
        dto.selection.shows(price.selection),
        dto.freshness.shows(price.freshness),
        dto.provenance.shows(price.provenance),
{
}

} // verus!
