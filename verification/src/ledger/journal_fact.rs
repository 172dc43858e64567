//! Corporate actions and offers, as the ledger takes them.

use crate::calendar::Date;
use crate::ids::{AccountId, CustodyId, InstrumentId, OfferSubmissionId, OfferWindowId};
use crate::money::{Decimal, PerUnitAmount, PostedMoney};
use vstd::prelude::*;

verus! {

/// How the fractional part was handled in a replacement.
#[derive(Debug, Clone, Copy, PartialEq, Eq, Structural)]
pub enum FractionalTreatment {
    CashCompensated,
    RoundedDown,
    NotApplicable,
}

/// How the tax cost is carried over in a replacement.
#[derive(Debug, Clone, Copy, PartialEq, Eq, Structural)]
pub enum BasisTransferRule {
    CarryOver,
    Restart,
}

/// How much of the cost basis a partial redemption takes.
#[derive(Debug, Clone, Copy, PartialEq, Eq, Structural)]
pub enum BasisAllocation {
    /// Nobody has stated a share.
    Unstated,
}

/// A corporate action.
#[derive(Debug, Clone, PartialEq, Eq)]
pub enum CorporateAction {
    PartialRedemption {
        instrument: InstrumentId,
        custody: CustodyId,
        quantity: Decimal,
        principal_returned_per_unit: PerUnitAmount,
        compensation: PostedMoney,
        effective_date: Date,
        record_date: Option<Date>,
        grounds: Option<String>,
        basis_allocation: BasisAllocation,
    },
    Redemption {
        instrument: InstrumentId,
        custody: CustodyId,
        quantity: Decimal,
        principal_returned_per_unit: PerUnitAmount,
        compensation: PostedMoney,
        effective_date: Date,
        record_date: Option<Date>,
        grounds: Option<String>,
    },
    Conversion {
        predecessor: InstrumentId,
        successor: InstrumentId,
        custody: CustodyId,
        ratio: Decimal,
        quantity_in: Decimal,
        quantity_out: Decimal,
        fractional: FractionalTreatment,
        compensation: Option<PostedMoney>,
        effective_date: Date,
        record_date: Option<Date>,
        grounds: Option<String>,
        basis_transfer: BasisTransferRule,
    },
}

/// An act of the owner's on an offer.
#[derive(Debug, Clone, Copy, PartialEq, Eq, Structural)]
pub enum OfferExerciseAction {
    Submitted {
        submission: OfferSubmissionId,
        window: OfferWindowId,
        instrument: InstrumentId,
        quantity: Decimal,
    },
    Cancelled { submission: OfferSubmissionId, quantity: Decimal },
    Settled {
        submission: OfferSubmissionId,
        instrument: InstrumentId,
        custody: CustodyId,
        quantity: Decimal,
        gross: PostedMoney,
        fee: Option<PostedMoney>,
        accrued_interest: Option<PostedMoney>,
    },
}

/// A journal fact: a corporate action, which carries its own dates, or an act on
/// an offer, which happened on a stated day.
#[derive(Debug, Clone, PartialEq, Eq)]
pub enum JournalFact {
    CorporateAction(CorporateAction),
    OfferExercise { action: OfferExerciseAction, day: Date },
}

/// A journal fact with what identifies it.
#[derive(Debug, Clone, PartialEq, Eq)]
pub struct SubmittedJournalEvent {
    pub account: AccountId,
    pub fact: JournalFact,
    pub idempotency_key: Option<String>,
    pub source_operation_id: Option<String>,
}

} // verus!
