//! Corporate actions and offers a caller submits.

use crate::calendar::Date;
use crate::dto::amount::{AmountDto, decimal};
use crate::dto::amount;
use crate::dto::correction::DeclaredSourceDto;
use crate::ids::{AccountId, CustodyId, InstrumentId, OfferSubmissionId, OfferWindowId, Uuid};
use crate::ledger::journal_fact::{
    BasisAllocation, BasisTransferRule, CorporateAction, FractionalTreatment, JournalFact,
    OfferExerciseAction, SubmittedJournalEvent,
};
use crate::ledger::rejection::{Rejection, RejectionView};
use crate::ledger::rejection;
use crate::money::{Decimal, MinorUnits, PerUnitAmount, PostedMoney};
use crate::relate;
use vstd::prelude::*;

verus! {

/// How the fractional part was handled in a replacement.
#[derive(Debug, Clone, Copy, PartialEq, Eq, Structural)]
pub enum FractionalTreatmentDto {
    CashCompensated,
    RoundedDown,
    NotApplicable,
}

impl FractionalTreatmentDto {
    /// The value of the ledger it stands for.
    pub open spec fn denotes(self) -> FractionalTreatment {
        match self {
            Self::CashCompensated => FractionalTreatment::CashCompensated,
            Self::RoundedDown => FractionalTreatment::RoundedDown,
            Self::NotApplicable => FractionalTreatment::NotApplicable,
        }
    }

    /// The value of the ledger it stands for.
    pub fn to_domain(self) -> (treatment: FractionalTreatment)
        ensures
            treatment == self.denotes(),
    {
        match self {
            Self::CashCompensated => FractionalTreatment::CashCompensated,
            Self::RoundedDown => FractionalTreatment::RoundedDown,
            Self::NotApplicable => FractionalTreatment::NotApplicable,
        }
    }
}

/// How the tax cost is carried over in a replacement.
#[derive(Debug, Clone, Copy, PartialEq, Eq, Structural)]
pub enum BasisTransferRuleDto {
    CarryOver,
    Restart,
}

impl BasisTransferRuleDto {
    /// The value of the ledger it stands for.
    pub open spec fn denotes(self) -> BasisTransferRule {
        match self {
            Self::CarryOver => BasisTransferRule::CarryOver,
            Self::Restart => BasisTransferRule::Restart,
        }
    }

    /// The value of the ledger it stands for.
    pub fn to_domain(self) -> (rule: BasisTransferRule)
        ensures
            rule == self.denotes(),
    {
        match self {
            Self::CarryOver => BasisTransferRule::CarryOver,
            Self::Restart => BasisTransferRule::Restart,
        }
    }
}

/// A corporate action. Amounts are positive; the sign of a disposal is not the
/// caller's to state.
#[derive(Debug, Clone, PartialEq, Eq)]
pub enum CorporateActionDto {
    /// The face value decreases and cash arrives; the number of securities does
    /// not change.
    PartialRedemption {
        instrument: Uuid,
        custody: Uuid,
        quantity: String,
        principal_returned_per_unit: AmountDto,
        compensation: AmountDto,
        effective_date: Date,
        record_date: Option<Date>,
        grounds: Option<String>,
    },
    /// The face value is repaid in full and the security is disposed of.
    Redemption {
        instrument: Uuid,
        custody: Uuid,
        quantity: String,
        principal_returned_per_unit: AmountDto,
        compensation: AmountDto,
        effective_date: Date,
        record_date: Option<Date>,
        grounds: Option<String>,
    },
    /// A predecessor security is exchanged for a successor.
    Conversion {
        predecessor: Uuid,
        successor: Uuid,
        custody: Uuid,
        ratio: String,
        quantity_in: String,
        quantity_out: String,
        fractional: FractionalTreatmentDto,
        compensation: Option<AmountDto>,
        effective_date: Date,
        record_date: Option<Date>,
        grounds: Option<String>,
        basis_transfer: BasisTransferRuleDto,
    },
}

/// The refusal of an amount that may be left out.
pub open spec fn optional_money_refusal(
    amount: Option<AmountDto>,
    field: Seq<char>,
    units: MinorUnits,
) -> Option<RejectionView> {
    match amount {
        Some(amount) => amount.money_refusal(field, units),
        None => None,
    }
}

/// Whether optional account money is what an optional amount states.
pub open spec fn optional_money_states(
    amount: Option<AmountDto>,
    units: MinorUnits,
    money: Option<PostedMoney>,
) -> bool {
    relate::both(
        amount,
        money,
        |dto: AmountDto, money: PostedMoney| dto.states_money(units, money),
    )
}

fn optional_money(amount: &Option<AmountDto>, field: &str, units: &MinorUnits) -> (read: Result<
    Option<PostedMoney>,
    Rejection,
>)
    ensures
        match read {
            Ok(money) => optional_money_states(*amount, *units, money) && optional_money_refusal(
                *amount,
                field@,
                *units,
            ) is None,
            Err(rejection) => optional_money_refusal(*amount, field@, *units) == Some(rejection@),
        },
{
    match amount {
        Some(amount) => match amount.to_money(field, units) {
            Ok(money) => Ok(Some(money)),
            Err(rejection) => Err(rejection),
        },
        None => Ok(None),
    }
}

/// The figures of a redemption, read.
struct RedemptionFigures {
    quantity: Decimal,
    principal: PerUnitAmount,
    compensation: PostedMoney,
}

/// The refusal of a redemption: the quantity first, the principal, the
/// compensation.
pub open spec fn redemption_refusal(
    quantity: String,
    principal: AmountDto,
    compensation: AmountDto,
    units: MinorUnits,
) -> Option<RejectionView> {
    rejection::first(
        amount::decimal_refusal(quantity@, "quantity"@),
        rejection::first(
            amount::decimal_refusal(principal.amount@, "principal_returned_per_unit"@),
            compensation.money_refusal("compensation"@, units),
        ),
    )
}

fn redemption_figures(
    quantity: &String,
    principal: &AmountDto,
    compensation: &AmountDto,
    units: &MinorUnits,
) -> (read: Result<RedemptionFigures, Rejection>)
    ensures
        match read {
            Ok(figures) => {
                &&& redemption_refusal(*quantity, *principal, *compensation, *units) is None
                &&& amount::decimal_states(quantity@, figures.quantity)
                &&& principal.states_per_unit(figures.principal)
                &&& compensation.states_money(*units, figures.compensation)
            },
            Err(rejection) => redemption_refusal(*quantity, *principal, *compensation, *units)
                == Some(rejection@),
        },
{
    let quantity = match decimal(quantity.as_str(), "quantity") {
        Ok(quantity) => quantity,
        Err(rejection) => {
            return Err(rejection);
        },
    };
    let principal = match principal.to_per_unit("principal_returned_per_unit") {
        Ok(principal) => principal,
        Err(rejection) => {
            return Err(rejection);
        },
    };
    let compensation = match compensation.to_money("compensation", units) {
        Ok(compensation) => compensation,
        Err(rejection) => {
            return Err(rejection);
        },
    };
    Ok(RedemptionFigures { quantity, principal, compensation })
}

impl CorporateActionDto {
    /// The word the wire tells the actions apart by.
    pub open spec fn word(self) -> Seq<char> {
        match self {
            Self::PartialRedemption { .. } => "partial_redemption"@,
            Self::Redemption { .. } => "redemption"@,
            Self::Conversion { .. } => "conversion"@,
        }
    }

    /// The word the wire tells the actions apart by.
    pub fn tag(&self) -> (tag: &'static str)
        ensures
            tag@ == self.word(),
    {
        match self {
            Self::PartialRedemption { .. } => "partial_redemption",
            Self::Redemption { .. } => "redemption",
            Self::Conversion { .. } => "conversion",
        }
    }

    /// The refusal of the first field, in the order the fields are read, that is
    /// refused.
    pub open spec fn refusal(self, units: MinorUnits) -> Option<RejectionView> {
        match self {
            Self::PartialRedemption {
                quantity,
                principal_returned_per_unit,
                compensation,
                ..
            } => redemption_refusal(quantity, principal_returned_per_unit, compensation, units),
            Self::Redemption {
                quantity,
                principal_returned_per_unit,
                compensation,
                ..
            } => redemption_refusal(quantity, principal_returned_per_unit, compensation, units),
            Self::Conversion { ratio, quantity_in, quantity_out, compensation, .. } =>
            rejection::first(
                amount::decimal_refusal(ratio@, "ratio"@),
                rejection::first(
                    amount::decimal_refusal(quantity_in@, "quantity_in"@),
                    rejection::first(
                        amount::decimal_refusal(quantity_out@, "quantity_out"@),
                        optional_money_refusal(compensation, "compensation"@, units),
                    ),
                ),
            ),
        }
    }

    /// Whether an action of the ledger is the one the caller stated.
    pub open spec fn states(self, units: MinorUnits, action: CorporateAction) -> bool {
        match (self, action) {
            (
                Self::PartialRedemption {
                    instrument,
                    custody,
                    quantity,
                    principal_returned_per_unit,
                    compensation,
                    effective_date,
                    record_date,
                    grounds,
                },
                CorporateAction::PartialRedemption {
                    instrument: paper,
                    custody: place,
                    quantity: count,
                    principal_returned_per_unit: principal,
                    compensation: paid,
                    effective_date: effective,
                    record_date: recorded,
                    grounds: stated,
                    basis_allocation,
                },
            ) => {
                &&& paper.0 == instrument
                &&& place.0 == custody
                &&& amount::decimal_states(quantity@, count)
                &&& principal_returned_per_unit.states_per_unit(principal)
                &&& compensation.states_money(units, paid)
                &&& effective == effective_date
                &&& recorded == record_date
                &&& stated == grounds
                &&& basis_allocation == BasisAllocation::Unstated
            },
            (
                Self::Redemption {
                    instrument,
                    custody,
                    quantity,
                    principal_returned_per_unit,
                    compensation,
                    effective_date,
                    record_date,
                    grounds,
                },
                CorporateAction::Redemption {
                    instrument: paper,
                    custody: place,
                    quantity: count,
                    principal_returned_per_unit: principal,
                    compensation: paid,
                    effective_date: effective,
                    record_date: recorded,
                    grounds: stated,
                },
            ) => {
                &&& paper.0 == instrument
                &&& place.0 == custody
                &&& amount::decimal_states(quantity@, count)
                &&& principal_returned_per_unit.states_per_unit(principal)
                &&& compensation.states_money(units, paid)
                &&& effective == effective_date
                &&& recorded == record_date
                &&& stated == grounds
            },
            (
                Self::Conversion {
                    predecessor,
                    successor,
                    custody,
                    ratio,
                    quantity_in,
                    quantity_out,
                    fractional,
                    compensation,
                    effective_date,
                    record_date,
                    grounds,
                    basis_transfer,
                },
                CorporateAction::Conversion {
                    predecessor: old_paper,
                    successor: new_paper,
                    custody: place,
                    ratio: rate,
                    quantity_in: taken,
                    quantity_out: given,
                    fractional: rest,
                    compensation: paid,
                    effective_date: effective,
                    record_date: recorded,
                    grounds: stated,
                    basis_transfer: rule,
                },
            ) => {
                &&& old_paper.0 == predecessor
                &&& new_paper.0 == successor
                &&& place.0 == custody
                &&& amount::decimal_states(ratio@, rate)
                &&& amount::decimal_states(quantity_in@, taken)
                &&& amount::decimal_states(quantity_out@, given)
                &&& rest == fractional.denotes()
                &&& optional_money_states(compensation, units, paid)
                &&& effective == effective_date
                &&& recorded == record_date
                &&& stated == grounds
                &&& rule == basis_transfer.denotes()
            },
            _ => false,
        }
    }

    /// The action in the ledger's terms.
    pub fn to_domain(&self, units: &MinorUnits) -> (read: Result<CorporateAction, Rejection>)
        ensures
            match read {
                Ok(action) => self.refusal(*units) is None && self.states(*units, action),
                Err(rejection) => self.refusal(*units) == Some(rejection@),
            },
    {
        match self {
            Self::PartialRedemption {
                instrument,
                custody,
                quantity,
                principal_returned_per_unit,
                compensation,
                effective_date,
                record_date,
                grounds,
            } => match redemption_figures(
                quantity,
                principal_returned_per_unit,
                compensation,
                units,
            ) {
                Ok(figures) => Ok(
                    CorporateAction::PartialRedemption {
                        instrument: InstrumentId(*instrument),
                        custody: CustodyId(*custody),
                        quantity: figures.quantity,
                        principal_returned_per_unit: figures.principal,
                        compensation: figures.compensation,
                        effective_date: *effective_date,
                        record_date: *record_date,
                        grounds: grounds.clone(),
                        basis_allocation: BasisAllocation::Unstated,
                    },
                ),
                Err(rejection) => Err(rejection),
            },
            Self::Redemption {
                instrument,
                custody,
                quantity,
                principal_returned_per_unit,
                compensation,
                effective_date,
                record_date,
                grounds,
            } => match redemption_figures(
                quantity,
                principal_returned_per_unit,
                compensation,
                units,
            ) {
                Ok(figures) => Ok(
                    CorporateAction::Redemption {
                        instrument: InstrumentId(*instrument),
                        custody: CustodyId(*custody),
                        quantity: figures.quantity,
                        principal_returned_per_unit: figures.principal,
                        compensation: figures.compensation,
                        effective_date: *effective_date,
                        record_date: *record_date,
                        grounds: grounds.clone(),
                    },
                ),
                Err(rejection) => Err(rejection),
            },
            Self::Conversion {
                predecessor,
                successor,
                custody,
                ratio,
                quantity_in,
                quantity_out,
                fractional,
                compensation,
                effective_date,
                record_date,
                grounds,
                basis_transfer,
            } => {
                let ratio = match decimal(ratio.as_str(), "ratio") {
                    Ok(ratio) => ratio,
                    Err(rejection) => {
                        return Err(rejection);
                    },
                };
                let quantity_in = match decimal(quantity_in.as_str(), "quantity_in") {
                    Ok(quantity) => quantity,
                    Err(rejection) => {
                        return Err(rejection);
                    },
                };
                let quantity_out = match decimal(quantity_out.as_str(), "quantity_out") {
                    Ok(quantity) => quantity,
                    Err(rejection) => {
                        return Err(rejection);
                    },
                };
                let compensation = match optional_money(compensation, "compensation", units) {
                    Ok(money) => money,
                    Err(rejection) => {
                        return Err(rejection);
                    },
                };
                Ok(
                    CorporateAction::Conversion {
                        predecessor: InstrumentId(*predecessor),
                        successor: InstrumentId(*successor),
                        custody: CustodyId(*custody),
                        ratio,
                        quantity_in,
                        quantity_out,
                        fractional: fractional.to_domain(),
                        compensation,
                        effective_date: *effective_date,
                        record_date: *record_date,
                        grounds: grounds.clone(),
                        basis_transfer: basis_transfer.to_domain(),
                    },
                )
            },
        }
    }
}

/// An act of the owner's on an offer.
#[derive(Debug, Clone, PartialEq, Eq)]
pub enum OfferExerciseDto {
    /// An application, which moves neither cash nor securities.
    Submitted { submission: Uuid, window: Uuid, instrument: Uuid, quantity: String },
    /// The withdrawal of an application, in full or in part.
    Cancelled { submission: Uuid, quantity: String },
    /// A completed buyback: the security is disposed of for cash.
    Settled {
        submission: Uuid,
        instrument: Uuid,
        custody: Uuid,
        quantity: String,
        gross: AmountDto,
        fee: Option<AmountDto>,
        accrued_interest: Option<AmountDto>,
    },
}

impl OfferExerciseDto {
    /// The word the wire tells the acts apart by.
    pub open spec fn word(self) -> Seq<char> {
        match self {
            Self::Submitted { .. } => "submitted"@,
            Self::Cancelled { .. } => "cancelled"@,
            Self::Settled { .. } => "settled"@,
        }
    }

    /// The word the wire tells the acts apart by.
    pub fn tag(&self) -> (tag: &'static str)
        ensures
            tag@ == self.word(),
    {
        match self {
            Self::Submitted { .. } => "submitted",
            Self::Cancelled { .. } => "cancelled",
            Self::Settled { .. } => "settled",
        }
    }

    /// The refusal of the first field, in the order the fields are read, that is
    /// refused.
    pub open spec fn refusal(self, units: MinorUnits) -> Option<RejectionView> {
        match self {
            Self::Submitted { quantity, .. } => amount::decimal_refusal(quantity@, "quantity"@),
            Self::Cancelled { quantity, .. } => amount::decimal_refusal(quantity@, "quantity"@),
            Self::Settled { quantity, gross, fee, accrued_interest, .. } => rejection::first(
                amount::decimal_refusal(quantity@, "quantity"@),
                rejection::first(
                    gross.money_refusal("gross"@, units),
                    rejection::first(
                        optional_money_refusal(fee, "fee"@, units),
                        optional_money_refusal(accrued_interest, "accrued_interest"@, units),
                    ),
                ),
            ),
        }
    }

    /// Whether an act of the ledger is the one the caller stated.
    pub open spec fn states(self, units: MinorUnits, action: OfferExerciseAction) -> bool {
        match (self, action) {
            (
                Self::Submitted { submission, window, instrument, quantity },
                OfferExerciseAction::Submitted {
                    submission: application,
                    window: opening,
                    instrument: paper,
                    quantity: count,
                },
            ) => {
                &&& application.0 == submission
                &&& opening.0 == window
                &&& paper.0 == instrument
                &&& amount::decimal_states(quantity@, count)
            },
            (
                Self::Cancelled { submission, quantity },
                OfferExerciseAction::Cancelled { submission: application, quantity: count },
            ) => {
                &&& application.0 == submission
                &&& amount::decimal_states(quantity@, count)
            },
            (
                Self::Settled {
                    submission,
                    instrument,
                    custody,
                    quantity,
                    gross,
                    fee,
                    accrued_interest,
                },
                OfferExerciseAction::Settled {
                    submission: application,
                    instrument: paper,
                    custody: place,
                    quantity: count,
                    gross: received,
                    fee: charged,
                    accrued_interest: accrued,
                },
            ) => {
                &&& application.0 == submission
                &&& paper.0 == instrument
                &&& place.0 == custody
                &&& amount::decimal_states(quantity@, count)
                &&& gross.states_money(units, received)
                &&& optional_money_states(fee, units, charged)
                &&& optional_money_states(accrued_interest, units, accrued)
            },
            _ => false,
        }
    }

    /// The act in the ledger's terms.
    pub fn to_domain(&self, units: &MinorUnits) -> (read: Result<OfferExerciseAction, Rejection>)
        ensures
            match read {
                Ok(action) => self.refusal(*units) is None && self.states(*units, action),
                Err(rejection) => self.refusal(*units) == Some(rejection@),
            },
    {
        match self {
            Self::Submitted { submission, window, instrument, quantity } => match decimal(
                quantity.as_str(),
                "quantity",
            ) {
                Ok(quantity) => Ok(
                    OfferExerciseAction::Submitted {
                        submission: OfferSubmissionId(*submission),
                        window: OfferWindowId(*window),
                        instrument: InstrumentId(*instrument),
                        quantity,
                    },
                ),
                Err(rejection) => Err(rejection),
            },
            Self::Cancelled { submission, quantity } => match decimal(
                quantity.as_str(),
                "quantity",
            ) {
                Ok(quantity) => Ok(
                    OfferExerciseAction::Cancelled {
                        submission: OfferSubmissionId(*submission),
                        quantity,
                    },
                ),
                Err(rejection) => Err(rejection),
            },
            Self::Settled {
                submission,
                instrument,
                custody,
                quantity,
                gross,
                fee,
                accrued_interest,
            } => {
                let quantity = match decimal(quantity.as_str(), "quantity") {
                    Ok(quantity) => quantity,
                    Err(rejection) => {
                        return Err(rejection);
                    },
                };
                let gross = match gross.to_money("gross", units) {
                    Ok(money) => money,
                    Err(rejection) => {
                        return Err(rejection);
                    },
                };
                let fee = match optional_money(fee, "fee", units) {
                    Ok(money) => money,
                    Err(rejection) => {
                        return Err(rejection);
                    },
                };
                let accrued_interest = match optional_money(
                    accrued_interest,
                    "accrued_interest",
                    units,
                ) {
                    Ok(money) => money,
                    Err(rejection) => {
                        return Err(rejection);
                    },
                };
                Ok(
                    OfferExerciseAction::Settled {
                        submission: OfferSubmissionId(*submission),
                        instrument: InstrumentId(*instrument),
                        custody: CustodyId(*custody),
                        quantity,
                        gross,
                        fee,
                        accrued_interest,
                    },
                )
            },
        }
    }
}

/// A journal fact: a corporate action, or an act on an offer with the day it
/// happened on.
#[derive(Debug, Clone, PartialEq, Eq)]
pub enum JournalFactDto {
    CorporateAction { action: CorporateActionDto },
    OfferExercise { action: OfferExerciseDto, day: Date },
}

/// One journal fact in a batch.
#[derive(Debug, Clone, PartialEq, Eq)]
pub struct JournalEventDto {
    pub account: Uuid,
    pub fact: JournalFactDto,
    pub idempotency_key: Option<String>,
    pub source_operation_id: Option<String>,
}

impl JournalEventDto {
    /// The refusal of the fact.
    pub open spec fn refusal(self, units: MinorUnits) -> Option<RejectionView> {
        match self.fact {
            JournalFactDto::CorporateAction { action } => action.refusal(units),
            JournalFactDto::OfferExercise { action, day } => action.refusal(units),
        }
    }

    /// Whether an event of the ledger is the one the caller stated.
    pub open spec fn states(self, units: MinorUnits, event: SubmittedJournalEvent) -> bool {
        &&& event.account.0 == self.account
        &&& match (self.fact, event.fact) {
            (
                JournalFactDto::CorporateAction { action },
                JournalFact::CorporateAction(taken),
            ) => action.states(units, taken),
            (
                JournalFactDto::OfferExercise { action, day },
                JournalFact::OfferExercise { action: taken, day: on },
            ) => action.states(units, taken) && on == day,
            _ => false,
        }
        &&& event.idempotency_key == self.idempotency_key
        &&& event.source_operation_id == self.source_operation_id
    }

    /// The event in the ledger's terms.
    pub fn to_domain(&self, units: &MinorUnits) -> (read: Result<SubmittedJournalEvent, Rejection>)
        ensures
            match read {
                Ok(event) => self.refusal(*units) is None && self.states(*units, event),
                Err(rejection) => self.refusal(*units) == Some(rejection@),
            },
    {
        let fact = match &self.fact {
            JournalFactDto::CorporateAction { action } => match action.to_domain(units) {
                Ok(action) => JournalFact::CorporateAction(action),
                Err(rejection) => {
                    return Err(rejection);
                },
            },
            JournalFactDto::OfferExercise { action, day } => match action.to_domain(units) {
                Ok(action) => JournalFact::OfferExercise { action, day: *day },
                Err(rejection) => {
                    return Err(rejection);
                },
            },
        };
        Ok(
            SubmittedJournalEvent {
                account: AccountId(self.account),
                fact,
                idempotency_key: self.idempotency_key.clone(),
                source_operation_id: self.source_operation_id.clone(),
            },
        )
    }
}

/// A batch of journal facts under one declared source.
#[derive(Debug, Clone, PartialEq, Eq)]
pub struct SubmitJournalEventsRequest {
    pub source: Option<DeclaredSourceDto>,
    pub events: Vec<JournalEventDto>,
}

/// Each `CorporateActionDto` goes by a word of its own, and that word names no other.
pub proof fn law_corporate_action_goes_by_its_own_word(value: CorporateActionDto)
    ensures
        value.word() == "partial_redemption"@ <==> value is PartialRedemption,
        value.word() == "redemption"@ <==> value is Redemption,
        value.word() == "conversion"@ <==> value is Conversion,
{
    reveal_strlit("partial_redemption");
    reveal_strlit("redemption");
    reveal_strlit("conversion");
    assert("conversion"@[0] == 'c');
    assert("redemption"@[0] == 'r');
    assert(value.word().len() > 0);
}

/// Each `OfferExerciseDto` goes by a word of its own, and that word names no other.
pub proof fn law_offer_exercise_goes_by_its_own_word(value: OfferExerciseDto)
    ensures
        value.word() == "submitted"@ <==> value is Submitted,
        value.word() == "cancelled"@ <==> value is Cancelled,
        value.word() == "settled"@ <==> value is Settled,
{
    reveal_strlit("submitted");
    reveal_strlit("cancelled");
    reveal_strlit("settled");
    assert("cancelled"@[0] == 'c');
    assert("submitted"@[0] == 's');
    assert(value.word().len() > 0);
}

/// Each `FractionalTreatmentDto` denotes its namesake in the ledger, and no two denote one.
pub proof fn law_fractional_treatment_denotes_its_namesake(dto: FractionalTreatmentDto)
    ensures
        dto is CashCompensated <==> dto.denotes() is CashCompensated,
        dto is RoundedDown <==> dto.denotes() is RoundedDown,
        dto is NotApplicable <==> dto.denotes() is NotApplicable,
{
}

/// Each `BasisTransferRuleDto` denotes its namesake in the ledger, and no two denote one.
pub proof fn law_basis_transfer_rule_denotes_its_namesake(dto: BasisTransferRuleDto)
    ensures
        dto is CarryOver <==> dto.denotes() is CarryOver,
        dto is Restart <==> dto.denotes() is Restart,
{
}

/// Each part of a corporate action is read as that part; how a partial redemption
/// allocates its basis is not the caller's to state.
pub proof fn law_every_part_of_a_corporate_action_is_read_as_itself(
    dto: CorporateActionDto,
    units: MinorUnits,
    action: CorporateAction,
)
    requires
        dto.states(units, action),
    ensures
        match (dto, action) {
            (
                CorporateActionDto::PartialRedemption {
                    instrument,
                    custody,
                    quantity,
                    principal_returned_per_unit,
                    compensation,
                    effective_date,
                    record_date,
                    grounds,
                },
                CorporateAction::PartialRedemption {
                    instrument: paper,
                    custody: place,
                    quantity: count,
                    principal_returned_per_unit: principal,
                    compensation: paid,
                    effective_date: effective,
                    record_date: recorded,
                    grounds: stated,
                    basis_allocation,
                },
            ) => {
                &&& paper.0 == instrument
                &&& place.0 == custody
                &&& amount::decimal_states(quantity@, count)
                &&& principal_returned_per_unit.states_per_unit(principal)
                &&& compensation.states_money(units, paid)
                &&& effective == effective_date
                &&& recorded == record_date
                &&& stated == grounds
                &&& basis_allocation == BasisAllocation::Unstated
            },
            (
                CorporateActionDto::Redemption {
                    instrument,
                    custody,
                    quantity,
                    principal_returned_per_unit,
                    compensation,
                    effective_date,
                    record_date,
                    grounds,
                },
                CorporateAction::Redemption {
                    instrument: paper,
                    custody: place,
                    quantity: count,
                    principal_returned_per_unit: principal,
                    compensation: paid,
                    effective_date: effective,
                    record_date: recorded,
                    grounds: stated,
                },
            ) => {
                &&& paper.0 == instrument
                &&& place.0 == custody
                &&& amount::decimal_states(quantity@, count)
                &&& principal_returned_per_unit.states_per_unit(principal)
                &&& compensation.states_money(units, paid)
                &&& effective == effective_date
                &&& recorded == record_date
                &&& stated == grounds
            },
            (
                CorporateActionDto::Conversion {
                    predecessor,
                    successor,
                    custody,
                    ratio,
                    quantity_in,
                    quantity_out,
                    fractional,
                    compensation,
                    effective_date,
                    record_date,
                    grounds,
                    basis_transfer,
                },
                CorporateAction::Conversion {
                    predecessor: old_paper,
                    successor: new_paper,
                    custody: place,
                    ratio: rate,
                    quantity_in: taken,
                    quantity_out: given,
                    fractional: rest,
                    compensation: paid,
                    effective_date: effective,
                    record_date: recorded,
                    grounds: stated,
                    basis_transfer: rule,
                },
            ) => {
                &&& old_paper.0 == predecessor
                &&& new_paper.0 == successor
                &&& place.0 == custody
                &&& amount::decimal_states(ratio@, rate)
                &&& amount::decimal_states(quantity_in@, taken)
                &&& amount::decimal_states(quantity_out@, given)
                &&& rest == fractional.denotes()
                &&& optional_money_states(compensation, units, paid)
                &&& effective == effective_date
                &&& recorded == record_date
                &&& stated == grounds
                &&& rule == basis_transfer.denotes()
            },
            _ => false,
        },
{
}

/// Each part of an act on an offer is read as that part.
pub proof fn law_every_part_of_an_offer_act_is_read_as_itself(
    dto: OfferExerciseDto,
    units: MinorUnits,
    action: OfferExerciseAction,
)
    requires
        dto.states(units, action),
    ensures
        match (dto, action) {
            (
                OfferExerciseDto::Submitted { submission, window, instrument, quantity },
                OfferExerciseAction::Submitted {
                    submission: application,
                    window: opening,
                    instrument: paper,
                    quantity: count,
                },
            ) => {
                &&& application.0 == submission
                &&& opening.0 == window
                &&& paper.0 == instrument
                &&& amount::decimal_states(quantity@, count)
            },
            (
                OfferExerciseDto::Cancelled { submission, quantity },
                OfferExerciseAction::Cancelled { submission: application, quantity: count },
            ) => {
                &&& application.0 == submission
                &&& amount::decimal_states(quantity@, count)
            },
            (
                OfferExerciseDto::Settled {
                    submission,
                    instrument,
                    custody,
                    quantity,
                    gross,
                    fee,
                    accrued_interest,
                },
                OfferExerciseAction::Settled {
                    submission: application,
                    instrument: paper,
                    custody: place,
                    quantity: count,
                    gross: received,
                    fee: charged,
                    accrued_interest: accrued,
                },
            ) => {
                &&& application.0 == submission
                &&& paper.0 == instrument
                &&& place.0 == custody
                &&& amount::decimal_states(quantity@, count)
                &&& gross.states_money(units, received)
                &&& optional_money_states(fee, units, charged)
                &&& optional_money_states(accrued_interest, units, accrued)
            },
            _ => false,
        },
{
}

/// Each part of a journal event is read as that part.
pub proof fn law_every_part_of_a_journal_event_is_read_as_itself(
    dto: JournalEventDto,
    units: MinorUnits,
    event: SubmittedJournalEvent,
)
    requires
        dto.states(units, event),
    ensures
        event.account.0 == dto.account,
        match (dto.fact, event.fact) {
            (
                JournalFactDto::CorporateAction { action },
                JournalFact::CorporateAction(taken),
            ) => action.states(units, taken),
            (
                JournalFactDto::OfferExercise { action, day },
                JournalFact::OfferExercise { action: taken, day: on },
            ) => action.states(units, taken) && on == day,
            _ => false,
        },
        event.idempotency_key == dto.idempotency_key,
        event.source_operation_id == dto.source_operation_id,
{
}

/// A corporate action is read as its namesake: a repayment in part is never read as one in
/// full, nor an exchange as either.
pub proof fn law_a_corporate_action_is_read_as_its_namesake(
    dto: CorporateActionDto,
    units: MinorUnits,
    action: CorporateAction,
)
    requires
        dto.states(units, action),
    ensures
        dto is PartialRedemption <==> action is PartialRedemption,
        dto is Redemption <==> action is Redemption,
        dto is Conversion <==> action is Conversion,
{
}

/// An act on an offer is read as its namesake.
pub proof fn law_an_offer_act_is_read_as_its_namesake(
    dto: OfferExerciseDto,
    units: MinorUnits,
    action: OfferExerciseAction,
)
    requires
        dto.states(units, action),
    ensures
        dto is Submitted <==> action is Submitted,
        dto is Cancelled <==> action is Cancelled,
        dto is Settled <==> action is Settled,
{
}

/// An amount that is left out is neither refused nor read; one that is stated is refused
/// and read as account money is.
pub proof fn law_missing_money_stays_missing(
    amount: Option<AmountDto>,
    field: Seq<char>,
    units: MinorUnits,
    money: Option<PostedMoney>,
)
    ensures
        amount is None ==> optional_money_refusal(amount, field, units) is None,
        amount is None ==> (optional_money_states(amount, units, money) <==> money is None),
        amount matches Some(stated) ==> optional_money_refusal(amount, field, units)
            == stated.money_refusal(field, units),
        amount matches Some(stated) ==> (optional_money_states(amount, units, money) <==> (
        money matches Some(read) && stated.states_money(units, read))),
{
}

/// A redemption is refused for the first of its quantity, its principal and its
/// compensation that is refused, and for nothing else.
pub proof fn law_a_redemption_is_refused_for_its_first_bad_figure(
    quantity: String,
    principal: AmountDto,
    compensation: AmountDto,
    units: MinorUnits,
)
    ensures
        ({
            let refusal = redemption_refusal(quantity, principal, compensation, units);
            let by_quantity = amount::decimal_refusal(quantity@, "quantity"@);
            let by_principal = amount::decimal_refusal(
                principal.amount@,
                "principal_returned_per_unit"@,
            );
            let by_compensation = compensation.money_refusal("compensation"@, units);
            &&& by_quantity is Some ==> refusal == by_quantity
            &&& by_quantity is None && by_principal is Some ==> refusal == by_principal
            &&& by_quantity is None && by_principal is None ==> refusal == by_compensation
        }),
{
}

/// A corporate action is refused for the first of its own figures that is refused, and for
/// nothing else.
pub proof fn law_a_corporate_action_is_refused_for_its_first_bad_figure(
    dto: CorporateActionDto,
    units: MinorUnits,
)
    ensures
        dto matches CorporateActionDto::PartialRedemption {
            quantity,
            principal_returned_per_unit,
            compensation,
            ..
        } ==> dto.refusal(units) == redemption_refusal(
            quantity,
            principal_returned_per_unit,
            compensation,
            units,
        ),
        dto matches CorporateActionDto::Redemption {
            quantity,
            principal_returned_per_unit,
            compensation,
            ..
        } ==> dto.refusal(units) == redemption_refusal(
            quantity,
            principal_returned_per_unit,
            compensation,
            units,
        ),
        dto matches CorporateActionDto::Conversion {
            ratio,
            quantity_in,
            quantity_out,
            compensation,
            ..
        } ==> {
            let by_ratio = amount::decimal_refusal(ratio@, "ratio"@);
            let by_in = amount::decimal_refusal(quantity_in@, "quantity_in"@);
            let by_out = amount::decimal_refusal(quantity_out@, "quantity_out"@);
            let by_money = optional_money_refusal(compensation, "compensation"@, units);
            &&& by_ratio is Some ==> dto.refusal(units) == by_ratio
            &&& by_ratio is None && by_in is Some ==> dto.refusal(units) == by_in
            &&& by_ratio is None && by_in is None && by_out is Some ==> dto.refusal(units)
                == by_out
            &&& by_ratio is None && by_in is None && by_out is None ==> dto.refusal(units)
                == by_money
        },
{
}

/// An act on an offer is refused for the first of its own figures that is refused, and for
/// nothing else.
pub proof fn law_an_offer_act_is_refused_for_its_first_bad_figure(
    dto: OfferExerciseDto,
    units: MinorUnits,
)
    ensures
        dto matches OfferExerciseDto::Submitted { quantity, .. } ==> dto.refusal(units)
            == amount::decimal_refusal(quantity@, "quantity"@),
        dto matches OfferExerciseDto::Cancelled { quantity, .. } ==> dto.refusal(units)
            == amount::decimal_refusal(quantity@, "quantity"@),
        dto matches OfferExerciseDto::Settled { quantity, gross, fee, accrued_interest, .. } ==> {
            let by_quantity = amount::decimal_refusal(quantity@, "quantity"@);
            let by_gross = gross.money_refusal("gross"@, units);
            let by_fee = optional_money_refusal(fee, "fee"@, units);
            let by_accrued = optional_money_refusal(accrued_interest, "accrued_interest"@, units);
            &&& by_quantity is Some ==> dto.refusal(units) == by_quantity
            &&& by_quantity is None && by_gross is Some ==> dto.refusal(units) == by_gross
            &&& by_quantity is None && by_gross is None && by_fee is Some ==> dto.refusal(units)
                == by_fee
            &&& by_quantity is None && by_gross is None && by_fee is None ==> dto.refusal(units)
                == by_accrued
        },
{
}

/// A journal event is refused exactly as its fact is.
pub proof fn law_an_event_is_refused_as_its_fact_is(dto: JournalEventDto, units: MinorUnits)
    ensures
        dto.fact matches JournalFactDto::CorporateAction { action } ==> dto.refusal(units)
            == action.refusal(units),
        dto.fact matches JournalFactDto::OfferExercise { action, day } ==> dto.refusal(units)
            == action.refusal(units),
{
}

} // verus!
