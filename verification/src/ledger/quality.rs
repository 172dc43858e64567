//! How far a report's figures can be relied on.

use crate::calendar::Date;
use crate::ids::{AccountId, CustodyId, InstrumentId, OfferSubmissionId};
use crate::ledger::bond::PostingKind;
use crate::ledger::computed::{Computed, NotComputable};
use crate::ledger::kinds::PriceQuality;
use crate::ledger::price::SelectedPrice;
use crate::money::{CurrencyCode, Decimal};
use vstd::prelude::*;

verus! {

/// Why a position has no price.
#[derive(Debug, Clone, PartialEq, Eq)]
pub enum UncoveredReason {
    NoObservation,
    TooOld,
    AmbiguousVenue,
    AmbiguousCandidate,
    NotComputable { reason: NotComputable },
}

impl UncoveredReason {
    /// The word of the reason; a figure's own reason keeps its own word.
    pub open spec fn word(self) -> Seq<char> {
        match self {
            Self::NoObservation => "no_observation"@,
            Self::TooOld => "too_old"@,
            Self::AmbiguousVenue => "ambiguous_venue"@,
            Self::AmbiguousCandidate => "ambiguous_candidate"@,
            Self::NotComputable { reason } => reason.word(),
        }
    }
}

/// A position that was valued, with its price.
#[derive(Debug, Clone, PartialEq, Eq)]
pub struct EvaluatedPosition {
    pub account: AccountId,
    pub custody: Option<CustodyId>,
    pub instrument: InstrumentId,
    pub quantity: Decimal,
    pub price: SelectedPrice,
}

/// A position without a price, and why.
#[derive(Debug, Clone, PartialEq, Eq)]
pub struct UncoveredPosition {
    pub account: AccountId,
    pub custody: Option<CustodyId>,
    pub instrument: InstrumentId,
    pub reason: UncoveredReason,
}

/// A position valued at a price of an older kind.
#[derive(Debug, Clone, Copy, PartialEq, Eq, Structural)]
pub struct LegacyDerivedPosition {
    pub account: AccountId,
    pub custody: Option<CustodyId>,
    pub instrument: InstrumentId,
    pub quality: PriceQuality,
}

/// Which positions were valued and which were not.
#[derive(Debug, Clone, PartialEq, Eq)]
pub struct PositionCoverage {
    pub evaluated_positions: u32,
    pub total_positions: u32,
    pub selected: Vec<EvaluatedPosition>,
    pub uncovered: Vec<UncoveredPosition>,
    pub legacy_derived: Vec<LegacyDerivedPosition>,
}

/// How much of the value could be traded at.
#[derive(Debug, Clone, Copy, PartialEq, Eq, Structural)]
pub struct ExecutabilityShares {
    pub evaluated_positions_value: Decimal,
    pub executable: Decimal,
    pub indicative_previous_close: Decimal,
    pub unknown: Decimal,
}

/// An amount that may not be known.
#[derive(Debug, Clone, Copy, PartialEq, Eq, Structural)]
pub enum AmountQualification {
    Known(Decimal),
    Unknown,
}

/// What selling everything would bring.
#[derive(Debug, Clone, PartialEq, Eq)]
pub struct LiquidationEstimate {
    pub value_before_exit_costs_and_tax: Computed<Decimal>,
    pub executability: ExecutabilityShares,
    pub exit_costs: AmountQualification,
    pub tax: AmountQualification,
    pub accrued_interest_payable_on_termination: Computed<Decimal>,
}

/// How much of the value each degree of acceptance covers.
#[derive(Debug, Clone, Copy, PartialEq, Eq, Structural)]
pub struct NavCoverage {
    pub accepted_independent: Decimal,
    pub accepted_internal: Decimal,
    pub provisional: Decimal,
    pub discrepant: Decimal,
}

/// Something the reader of a report must know. A dimension and an unverifiable
/// reason carry their own words.
#[derive(Debug, Clone, PartialEq, Eq)]
pub enum MaterialIssue {
    RestoredWithoutBasis { account: AccountId },
    AmortisationAllocationUnknown { account: AccountId, instrument: InstrumentId },
    NegativeCash { account: AccountId, currency: CurrencyCode },
    HistoryStartsAt { date: Date },
    NoIndependentSource { account: AccountId, dimension: String },
    Discrepancy { account: AccountId, dimension: String },
    UnsupportedFinancing { account: AccountId },
    OfferWindowUnresolved { submission: OfferSubmissionId },
    ScheduledPostingNotReceived {
        account: AccountId,
        instrument: InstrumentId,
        date: Date,
        kind: PostingKind,
    },
    ScheduledPostingUnverifiable {
        account: AccountId,
        instrument: InstrumentId,
        date: Date,
        kind: PostingKind,
        reason: String,
    },
    ScheduledPostingsUnverifiable {
        account: AccountId,
        instrument: InstrumentId,
        kind: PostingKind,
        reason: String,
        count: u64,
        first_date: Date,
        last_date: Date,
    },
    AccruedInterestMismatch {
        instrument: InstrumentId,
        computed: Decimal,
        computed_currency: CurrencyCode,
        observed: Decimal,
        observed_currency: CurrencyCode,
        quantity: Decimal,
        date: Date,
    },
}

/// How far the figures can be relied on. The status carries its own word.
#[derive(Debug, Clone, PartialEq, Eq)]
pub struct DataQuality {
    pub status: String,
    pub nav_coverage: NavCoverage,
    pub position_coverage: PositionCoverage,
    pub executability: ExecutabilityShares,
    pub material_issues: Vec<MaterialIssue>,
}

/// Each uncovered reason goes by a word of its own, and a figure that could not be computed
/// by the word of what was missing.
pub proof fn law_an_uncovered_reason_goes_by_its_own_word(value: UncoveredReason)
    ensures
        value is NoObservation ==> value.word() == "no_observation"@,
        value is TooOld ==> value.word() == "too_old"@,
        value is AmbiguousVenue ==> value.word() == "ambiguous_venue"@,
        value is AmbiguousCandidate ==> value.word() == "ambiguous_candidate"@,
        value matches UncoveredReason::NotComputable { reason } ==> value.word() == reason.word(),
{
}

} // verus!
