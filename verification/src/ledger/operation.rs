//! Submitted operations and observed rows, as the ledger takes them.

use crate::calendar::{Date, SourceTime};
use crate::ids::{AccountId, CustodyId, InstrumentId};
use crate::ledger::kinds::{
    BasisCertainty, Certainty, DateCertainty, FeeOrigin, IncomeKind, Knowledge, PriceQuality,
    TaxOrigin, Tristate,
};
use crate::ledger::rejection::{Rejection, RejectionView};
use crate::money::{CurrencyCode, Decimal};
use crate::text::same_text;
use vstd::prelude::*;

verus! {

/// The dates a row states. An absent date is not known.
#[derive(Debug, Clone, Copy, PartialEq, Eq, Structural)]
pub struct OperationDates {
    pub trade: Option<Date>,
    pub settled: Option<Date>,
    pub cash_posted: Option<Date>,
    pub paid: Option<Date>,
}

/// What is asserted about a position the history opens with.
#[derive(Debug, Clone, Copy, PartialEq, Eq, Structural)]
pub struct OpeningAssertions {
    pub quantity: Certainty,
    pub acquisition_date: Option<Date>,
    pub acquisition_date_certainty: DateCertainty,
    pub tax_basis: BasisCertainty,
    pub basis_currency: Option<CurrencyCode>,
    pub basis_rate: Option<Decimal>,
    pub fees_included: Tristate,
    pub ldv_eligibility: Knowledge,
    pub prior_corporate_actions: Knowledge,
}

/// What an operation was. Amounts are in minor units.
#[derive(Debug, Clone, Copy, PartialEq, Eq, Structural)]
pub enum OperationKind {
    Deposit { amount_minor: i64, currency: CurrencyCode },
    Withdrawal { amount_minor: i64, currency: CurrencyCode },
    Refund { amount_minor: i64, currency: CurrencyCode },
    Transfer { to: AccountId, amount_minor: i64, currency: CurrencyCode },
    Buy {
        instrument: InstrumentId,
        custody: CustodyId,
        quantity: Decimal,
        gross_minor: i64,
        fee_minor: Option<i64>,
        basis_fee: Option<i64>,
        accrued_interest_minor: Option<i64>,
        currency: CurrencyCode,
    },
    Sell {
        instrument: InstrumentId,
        custody: CustodyId,
        quantity: Decimal,
        gross_minor: i64,
        fee_minor: Option<i64>,
        basis_fee: Option<i64>,
        accrued_interest_minor: Option<i64>,
        currency: CurrencyCode,
    },
    Income {
        instrument: Option<InstrumentId>,
        gross_minor: i64,
        currency: CurrencyCode,
        kind: Option<IncomeKind>,
    },
    Fee { amount_minor: i64, currency: CurrencyCode, origin: FeeOrigin },
    Tax { amount_minor: i64, currency: CurrencyCode, origin: TaxOrigin },
    OpeningCash { amount_minor: i64, currency: CurrencyCode },
    OpeningPosition {
        instrument: InstrumentId,
        custody: CustodyId,
        quantity: Decimal,
        cost_basis_minor: Option<i64>,
        currency: CurrencyCode,
        assertions: Option<OpeningAssertions>,
    },
    Valuation {
        instrument: InstrumentId,
        price: Decimal,
        currency: CurrencyCode,
        quality: PriceQuality,
    },
}

/// An operation a caller concluded.
#[derive(Debug, Clone, PartialEq, Eq)]
pub struct SubmittedOperation {
    pub account: AccountId,
    pub kind: OperationKind,
    pub dates: OperationDates,
    pub source_time: Option<SourceTime>,
    pub idempotency_key: Option<String>,
    pub source_operation_id: Option<String>,
    pub source_category: Option<String>,
    pub source_kind: Option<String>,
    pub description: Option<String>,
}

/// The direction a source stated for a row.
#[derive(Debug, Clone, Copy, PartialEq, Eq, Structural)]
pub enum ObservedDirection {
    In,
    Out,
    /// The money did not leave the institution, and which account was on which
    /// side is not said.
    Inner,
    /// The source said nothing.
    Unknown,
}

impl ObservedDirection {
    /// The word a source states it with.
    pub open spec fn word(self) -> Seq<char> {
        match self {
            Self::In => "in"@,
            Self::Out => "out"@,
            Self::Inner => "inner"@,
            Self::Unknown => "unknown"@,
        }
    }

    /// Whether a word is one of the four.
    pub open spec fn is_word(word: Seq<char>) -> bool {
        word == "in"@ || word == "out"@ || word == "inner"@ || word == "unknown"@
    }

    /// The refusal of another word.
    pub open spec fn refusal(word: Seq<char>) -> RejectionView {
        RejectionView { field: "direction"@, expected: "in, out, inner or unknown"@, actual: word }
    }

    /// Reads a direction word. Another word is refused, never read as silence.
    pub fn parse(stated: &str) -> (read: Result<Self, Rejection>)
        ensures
            match read {
                Ok(direction) => direction.word() == stated@,
                Err(rejection) => !Self::is_word(stated@) && rejection@ == Self::refusal(stated@),
            },
    {
        if same_text(stated, "in") {
            Ok(Self::In)
        } else if same_text(stated, "out") {
            Ok(Self::Out)
        } else if same_text(stated, "inner") {
            Ok(Self::Inner)
        } else if same_text(stated, "unknown") {
            Ok(Self::Unknown)
        } else {
            Err(Rejection::of("direction", "in, out, inner or unknown", stated))
        }
    }
}

/// What a source said about whose account is on the far side of a row.
#[derive(Debug, Clone, Copy, PartialEq, Eq, Structural)]
pub enum FarSide {
    /// One of the owner's own accounts, without saying which.
    OwnAccount,
    /// Nothing.
    Unstated,
}

impl FarSide {
    /// The word a source states it with.
    pub open spec fn word(self) -> Seq<char> {
        match self {
            Self::OwnAccount => "own_account"@,
            Self::Unstated => "unstated"@,
        }
    }

    /// Whether a word is one of the two.
    pub open spec fn is_word(word: Seq<char>) -> bool {
        word == "own_account"@ || word == "unstated"@
    }

    /// The refusal of another word.
    pub open spec fn refusal(word: Seq<char>) -> RejectionView {
        RejectionView { field: "far_side"@, expected: "own_account or unstated"@, actual: word }
    }

    /// Reads a far-side word. Another word is refused, never read as silence.
    pub fn parse(stated: &str) -> (read: Result<Self, Rejection>)
        ensures
            match read {
                Ok(side) => side.word() == stated@,
                Err(rejection) => !Self::is_word(stated@) && rejection@ == Self::refusal(stated@),
            },
    {
        if same_text(stated, "own_account") {
            Ok(Self::OwnAccount)
        } else if same_text(stated, "unstated") {
            Ok(Self::Unstated)
        } else {
            Err(Rejection::of("far_side", "own_account or unstated", stated))
        }
    }
}

/// The party a source named on a row.
#[derive(Debug, Clone, PartialEq, Eq)]
pub enum ObservedCounterparty {
    Named(String),
    Unknown,
}

/// What identifies a row within its document.
#[derive(Debug, Clone, PartialEq, Eq)]
pub struct RowIdentity {
    pub document: Option<String>,
    pub row: Option<String>,
    pub idempotency_key: Option<String>,
}

/// A row transcribed without a conclusion. The amount carries the sign the
/// source printed.
#[derive(Debug, Clone, PartialEq, Eq)]
pub struct ObservedRow {
    pub account: AccountId,
    pub direction: ObservedDirection,
    pub amount_minor: i64,
    pub currency: CurrencyCode,
    pub counterparty: ObservedCounterparty,
    pub far_side: FarSide,
    pub source_kind: Option<String>,
    pub source_category: Option<String>,
    pub description: Option<String>,
    pub dates: OperationDates,
    pub source_time: Option<SourceTime>,
    pub identity: RowIdentity,
}

/// What a caller submitted: a conclusion, or an observation nobody concluded.
#[derive(Debug, Clone, PartialEq, Eq)]
pub enum Intake {
    Concluded { operation: Box<SubmittedOperation> },
    Observed { row: Box<ObservedRow>, reader: Option<String> },
}

/// Each `ObservedDirection` goes by a word of its own, and that word names no other.
pub proof fn law_observed_direction_goes_by_its_own_word(value: ObservedDirection)
    ensures
        value.word() == "in"@ <==> value is In,
        value.word() == "out"@ <==> value is Out,
        value.word() == "inner"@ <==> value is Inner,
        value.word() == "unknown"@ <==> value is Unknown,
{
    reveal_strlit("in");
    reveal_strlit("out");
    reveal_strlit("inner");
    reveal_strlit("unknown");
    assert(value.word().len() > 0);
}

/// Each `FarSide` goes by a word of its own, and that word names no other.
pub proof fn law_far_side_goes_by_its_own_word(value: FarSide)
    ensures
        value.word() == "own_account"@ <==> value is OwnAccount,
        value.word() == "unstated"@ <==> value is Unstated,
{
    reveal_strlit("own_account");
    reveal_strlit("unstated");
    assert(value.word().len() > 0);
}

/// A direction word is one of four, and another is refused as a direction.
pub proof fn law_a_direction_is_one_of_four_words(word: Seq<char>)
    ensures
        ObservedDirection::is_word(word) <==> exists|direction: ObservedDirection|
            #[trigger] direction.word() == word,
        ObservedDirection::refusal(word).field == "direction"@,
        ObservedDirection::refusal(word).expected == "in, out, inner or unknown"@,
        ObservedDirection::refusal(word).actual == word,
{
    assert(ObservedDirection::In.word() == "in"@);
    assert(ObservedDirection::Out.word() == "out"@);
    assert(ObservedDirection::Inner.word() == "inner"@);
    assert(ObservedDirection::Unknown.word() == "unknown"@);
}

/// A far-side word is one of two, and another is refused as a far side.
pub proof fn law_a_far_side_is_one_of_two_words(word: Seq<char>)
    ensures
        FarSide::is_word(word) <==> exists|side: FarSide| #[trigger] side.word() == word,
        FarSide::refusal(word).field == "far_side"@,
        FarSide::refusal(word).expected == "own_account or unstated"@,
        FarSide::refusal(word).actual == word,
{
    assert(FarSide::OwnAccount.word() == "own_account"@);
    assert(FarSide::Unstated.word() == "unstated"@);
}

} // verus!
