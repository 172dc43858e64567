//! Reconciliation of the journal with what sources state.

use crate::calendar::{Date, Period};
use crate::ids::{AccountId, CustodyId, InstrumentId, SourceId};
use crate::money::{CurrencyCode, Decimal, Money};
use vstd::prelude::*;

verus! {

/// Which end of the interval a balance assertion is about.
#[derive(Debug, Clone, Copy, PartialEq, Eq, Structural)]
pub enum BalancePoint {
    Opening,
    Closing,
}

impl BalancePoint {
    /// The word it goes by.
    pub open spec fn word(self) -> Seq<char> {
        match self {
            Self::Opening => "opening"@,
            Self::Closing => "closing"@,
        }
    }

    /// The word it goes by.
    pub fn code(self) -> (code: &'static str)
        ensures
            code@ == self.word(),
    {
        match self {
            Self::Opening => "opening",
            Self::Closing => "closing",
        }
    }

    /// The word it goes by, as a text of its own.
    pub fn to_word(&self) -> (word: String)
        ensures
            word@ == self.word(),
    {
        self.code().to_owned()
    }
}

/// Where one dimension stands, in the order of the dimensions.
#[derive(Debug, Clone, PartialEq, Eq)]
pub struct DimensionStatus {
    pub dimension: String,
    pub status: String,
}

/// The way a figure arrived: which reader read it out of which document.
#[derive(Debug, Clone, PartialEq, Eq)]
pub struct SourceChannel {
    pub source: SourceId,
    pub parser_version: String,
    pub document: Option<String>,
}

/// Why a status was raised. The ground, the level and the dimensions carry
/// their own words.
#[derive(Debug, Clone, PartialEq, Eq)]
pub struct Evidence {
    pub ground: String,
    pub level: String,
    pub dimensions: Vec<String>,
    pub confirming: SourceChannel,
    pub confirmed: SourceChannel,
}

/// A value a source claims: account money or a quantity.
#[derive(Debug, Clone, Copy, PartialEq, Eq, Structural)]
pub enum ClaimValue {
    Money(Money),
    Quantity(Decimal),
}

/// What a source claims about an account.
#[derive(Debug, Clone, Copy, PartialEq, Eq, Structural)]
pub enum ControlClaim {
    CashBalance { amount: Money, at: BalancePoint },
    PositionQuantity {
        instrument: InstrumentId,
        custody: CustodyId,
        quantity: Decimal,
        at: BalancePoint,
    },
    CashTurnover { currency: CurrencyCode, debit: Money, credit: Money },
    FeesTotal { amount: Money },
    IncomeTotal { amount: Money },
    TaxWithheldTotal { amount: Money },
}

/// A claim and an observation that do not agree, and by how much.
#[derive(Debug, Clone, PartialEq, Eq)]
pub struct Discrepancy {
    pub field: String,
    pub claimed: ClaimValue,
    pub observed: ClaimValue,
    pub delta: ClaimValue,
}

/// What comparing a claim came to. A reason and an exception carry their own
/// words.
#[derive(Debug, Clone, PartialEq, Eq)]
pub enum ClaimOutcome {
    Matched,
    Discrepant(Discrepancy),
    NotComparable { reason: String },
    Excepted { exception: String },
}

/// What a fold began from.
#[derive(Debug, Clone, Copy, PartialEq, Eq, Structural)]
pub enum ObservedStart {
    Asserted,
    Unasserted,
    NoRecordedMovement,
    NotABalance,
}

impl ObservedStart {
    /// The word it goes by.
    pub open spec fn word(self) -> Seq<char> {
        match self {
            Self::Asserted => "asserted"@,
            Self::Unasserted => "unasserted"@,
            Self::NoRecordedMovement => "no_recorded_movement"@,
            Self::NotABalance => "not_a_balance"@,
        }
    }

    /// The word it goes by.
    pub fn code(self) -> (code: &'static str)
        ensures
            code@ == self.word(),
    {
        match self {
            Self::Asserted => "asserted",
            Self::Unasserted => "unasserted",
            Self::NoRecordedMovement => "no_recorded_movement",
            Self::NotABalance => "not_a_balance",
        }
    }

    /// The word it goes by, as a text of its own.
    pub fn to_word(&self) -> (word: String)
        ensures
            word@ == self.word(),
    {
        self.code().to_owned()
    }
}

/// Which quantity was put against a claim.
#[derive(Debug, Clone, Copy, PartialEq, Eq, Structural)]
pub enum Compared {
    Level,
    ChangeSinceStatedBalance { since: Date },
}

impl Compared {
    /// The word it goes by.
    pub open spec fn word(self) -> Seq<char> {
        match self {
            Self::Level => "level"@,
            Self::ChangeSinceStatedBalance { .. } => "change_since_stated_balance"@,
        }
    }

    /// The word it goes by.
    pub fn code(self) -> (code: &'static str)
        ensures
            code@ == self.word(),
    {
        match self {
            Self::Level => "level",
            Self::ChangeSinceStatedBalance { .. } => "change_since_stated_balance",
        }
    }

    /// The word it goes by, as a text of its own.
    pub fn to_word(&self) -> (word: String)
        ensures
            word@ == self.word(),
    {
        self.code().to_owned()
    }
}

impl Compared {
    /// The date of the stated balance a change is measured from.
    pub open spec fn start(self) -> Option<Date> {
        match self {
            Self::Level => None,
            Self::ChangeSinceStatedBalance { since } => Some(since),
        }
    }

    /// The date of the stated balance a change is measured from.
    pub fn since(self) -> (since: Option<Date>)
        ensures
            since == self.start(),
    {
        match self {
            Self::Level => None,
            Self::ChangeSinceStatedBalance { since } => Some(since),
        }
    }
}

/// The events a figure was folded from.
#[derive(Debug, Clone, Copy, PartialEq, Eq, Structural)]
pub struct FoldSpan {
    pub events: u64,
    pub first: Option<Date>,
    pub last: Option<Date>,
}

/// What an observed figure rests on.
#[derive(Debug, Clone, Copy, PartialEq, Eq, Structural)]
pub struct ObservationBasis {
    pub folded: FoldSpan,
    pub start: ObservedStart,
    pub compared: Compared,
}

/// A claim, what comparing it came to and what the figure rests on.
#[derive(Debug, Clone, PartialEq, Eq)]
pub struct ClaimCheck {
    pub claim: ControlClaim,
    pub outcome: ClaimOutcome,
    pub basis: ObservationBasis,
}

/// How a row of a document is named.
#[derive(Debug, Clone, PartialEq, Eq)]
pub enum RowName {
    Given(String),
    Fingerprint(String),
}

/// A row a reader refused, and the dimensions it would have moved.
#[derive(Debug, Clone, PartialEq, Eq)]
pub struct RefusedRow {
    pub source: SourceId,
    pub row: RowName,
    pub dimensions: Vec<String>,
}

/// An interval of an account in which rows were refused.
#[derive(Debug, Clone, PartialEq, Eq)]
pub struct Taint {
    pub account: AccountId,
    pub period: Period,
    pub source: SourceId,
    pub parser_version: String,
    pub dimensions: Vec<String>,
    pub refused: u32,
    pub rows: Vec<RefusedRow>,
}

/// Where one account's interval stands, dimension by dimension.
#[derive(Debug, Clone, PartialEq, Eq)]
pub struct ReconciliationStatus {
    pub account: AccountId,
    pub period: Period,
    pub dimensions: Vec<DimensionStatus>,
    pub evidence: Vec<Evidence>,
    pub outcomes: Vec<ClaimCheck>,
    pub taints: Vec<Taint>,
}

/// Each `BalancePoint` goes by a word of its own, and that word names no other.
pub proof fn law_balance_point_goes_by_its_own_word(value: BalancePoint)
    ensures
        value.word() == "opening"@ <==> value is Opening,
        value.word() == "closing"@ <==> value is Closing,
{
    reveal_strlit("opening");
    reveal_strlit("closing");
    assert("closing"@[0] == 'c');
    assert("opening"@[0] == 'o');
    assert(value.word().len() > 0);
}

/// Each `ObservedStart` goes by a word of its own, and that word names no other.
pub proof fn law_observed_start_goes_by_its_own_word(value: ObservedStart)
    ensures
        value.word() == "asserted"@ <==> value is Asserted,
        value.word() == "unasserted"@ <==> value is Unasserted,
        value.word() == "no_recorded_movement"@ <==> value is NoRecordedMovement,
        value.word() == "not_a_balance"@ <==> value is NotABalance,
{
    reveal_strlit("asserted");
    reveal_strlit("unasserted");
    reveal_strlit("no_recorded_movement");
    reveal_strlit("not_a_balance");
    assert(value.word().len() > 0);
}

/// Each `Compared` goes by a word of its own, and that word names no other.
pub proof fn law_compared_goes_by_its_own_word(value: Compared)
    ensures
        value.word() == "level"@ <==> value is Level,
        value.word() == "change_since_stated_balance"@ <==> value is ChangeSinceStatedBalance,
{
    reveal_strlit("level");
    reveal_strlit("change_since_stated_balance");
    assert(value.word().len() > 0);
}

/// A level is measured from nowhere, and a change from the date it is stated since.
pub proof fn law_a_change_is_measured_from_its_date(compared: Compared)
    ensures
        compared is Level ==> compared.start() is None,
        compared matches Compared::ChangeSinceStatedBalance { since } ==> compared.start() == Some(
            since,
        ),
{
}

} // verus!
