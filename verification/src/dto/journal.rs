//! Journal facts a caller submits, and recorded journal events.

use crate::calendar::{Date, SourceTime, format_source_time};
use crate::dto::currency::CurrencyDto;
use crate::ids::{CustodyId, ImportId, ImportSessionId, InstrumentId, Uuid};
use crate::ledger::journal::{EventConfidence, EventDates, JournalEventView, Leg, LegKind, Relation};
use crate::money::{Decimal, Money};
use crate::relate::map_each;
use crate::relate;
use vstd::prelude::*;

verus! {

/// What a leg moves.
#[derive(Debug, Clone, Copy, PartialEq, Eq, Structural)]
pub enum JournalLegKindDto {
    /// Cash in an account.
    Cash,
    /// Quantity of a security.
    SecurityQuantity,
    /// Outstanding principal that is returned.
    Principal,
    /// A fee.
    Fee,
    /// A tax.
    Tax,
}

impl JournalLegKindDto {
    /// The value of the ledger it stands for.
    pub open spec fn denotes(self) -> LegKind {
        match self {
            Self::Cash => LegKind::Cash,
            Self::SecurityQuantity => LegKind::SecurityQuantity,
            Self::Principal => LegKind::Principal,
            Self::Fee => LegKind::Fee,
            Self::Tax => LegKind::Tax,
        }
    }

    /// The wire value that stands for a value of the ledger.
    pub fn from_domain(kind: LegKind) -> (dto: Self)
        ensures
            dto.denotes() == kind,
    {
        match kind {
            LegKind::Cash => Self::Cash,
            LegKind::SecurityQuantity => Self::SecurityQuantity,
            LegKind::Principal => Self::Principal,
            LegKind::Fee => Self::Fee,
            LegKind::Tax => Self::Tax,
        }
    }
}

/// How far a fact is confirmed by its source.
#[derive(Debug, Clone, Copy, PartialEq, Eq, Structural)]
pub enum JournalConfidenceDto {
    /// The source confirms the fact.
    Known,
    /// The value was reconstructed or estimated.
    Estimated,
    /// The value is unknown, and is not to be read as zero.
    Unknown,
}

impl JournalConfidenceDto {
    /// The value of the ledger it stands for.
    pub open spec fn denotes(self) -> EventConfidence {
        match self {
            Self::Known => EventConfidence::Known,
            Self::Estimated => EventConfidence::Estimated,
            Self::Unknown => EventConfidence::Unknown,
        }
    }

    /// The wire value that stands for a value of the ledger.
    pub fn from_domain(confidence: EventConfidence) -> (dto: Self)
        ensures
            dto.denotes() == confidence,
    {
        match confidence {
            EventConfidence::Known => Self::Known,
            EventConfidence::Estimated => Self::Estimated,
            EventConfidence::Unknown => Self::Unknown,
        }
    }
}

/// Whether an event stands alone or corrects another.
#[derive(Debug, Clone, Copy, PartialEq, Eq, Structural)]
pub enum JournalRelationKindDto {
    /// A fact that stands alone.
    Standalone,
    /// Reverses the event that is the target.
    Reversal,
    /// Replaces the event that is the target.
    Replacement,
}

/// Whether an event stands alone or corrects another, and which.
#[derive(Debug, Clone, Copy, PartialEq, Eq, Structural)]
pub struct JournalRelationDto {
    pub kind: JournalRelationKindDto,
    /// The event that is corrected.
    pub target: Option<Uuid>,
}

impl JournalRelationDto {
    /// The wire form of a relation.
    pub open spec fn rendering(relation: Relation) -> Self {
        match relation {
            Relation::Standalone => Self {
                kind: JournalRelationKindDto::Standalone,
                target: None,
            },
            Relation::Reversal { target } => Self {
                kind: JournalRelationKindDto::Reversal,
                target: Some(target.0),
            },
            Relation::Replacement { target } => Self {
                kind: JournalRelationKindDto::Replacement,
                target: Some(target.0),
            },
        }
    }

    /// The wire form of a relation.
    pub fn from_domain(relation: Relation) -> (dto: Self)
        ensures
            dto == Self::rendering(relation),
    {
        match relation {
            Relation::Standalone => Self {
                kind: JournalRelationKindDto::Standalone,
                target: None,
            },
            Relation::Reversal { target } => Self {
                kind: JournalRelationKindDto::Reversal,
                target: Some(target.0),
            },
            Relation::Replacement { target } => Self {
                kind: JournalRelationKindDto::Replacement,
                target: Some(target.0),
            },
        }
    }
}

/// A relation names the event it corrects exactly where it corrects one, and no
/// two relations are shown alike.
pub proof fn law_a_correction_names_its_target(one: Relation, other: Relation)
    ensures
        JournalRelationDto::rendering(one).target is Some
            <==> JournalRelationDto::rendering(one).kind
            != JournalRelationKindDto::Standalone,
        JournalRelationDto::rendering(one) == JournalRelationDto::rendering(other) ==> one == other,
{
}

/// The dates an event carries. Absent means unknown.
#[derive(Debug, Clone, Copy, PartialEq, Eq, Structural)]
pub struct JournalEventDatesDto {
    pub trade: Option<Date>,
    pub settled: Option<Date>,
    pub cash_posted: Option<Date>,
    pub entitlement: Option<Date>,
    pub paid: Option<Date>,
    /// The tax year the event belongs to, where it states one of its own.
    pub tax_period: Option<i32>,
}

impl JournalEventDatesDto {
    /// What the wire form says of the record it was rendered from.
    pub open spec fn shows(self, dates: EventDates) -> bool {
        &&& self.trade == dates.trade
        &&& self.settled == dates.settled
        &&& self.cash_posted == dates.cash_posted
        &&& self.entitlement == dates.entitlement
        &&& self.paid == dates.paid
        &&& self.tax_period == dates.tax_period_override
    }

    /// The wire form of the record.
    pub fn from_domain(dates: EventDates) -> (dto: Self)
        ensures
            dto.shows(dates),
    {
        Self {
            trade: dates.trade,
            settled: dates.settled,
            cash_posted: dates.cash_posted,
            entitlement: dates.entitlement,
            paid: dates.paid,
            tax_period: dates.tax_period_override,
        }
    }
}

/// One movement of an event. The sign is the direction: positive is into the
/// account or the custody place.
#[derive(Debug, Clone, PartialEq, Eq)]
pub struct JournalLegDto {
    pub kind: JournalLegKindDto,
    pub account: Uuid,
    pub custody: Option<Uuid>,
    pub instrument: Option<Uuid>,
    pub amount: Option<String>,
    pub currency: Option<CurrencyDto>,
    pub quantity: Option<String>,
}

impl JournalLegDto {
    /// What the wire form says of the record it was rendered from.
    pub open spec fn shows(self, leg: Leg) -> bool {
        &&& self.kind.denotes() == leg.kind
        &&& self.account == leg.account.0
        &&& relate::both(self.custody, leg.custody, |uuid: Uuid, id: CustodyId| uuid == id.0)
        &&& relate::both(
            self.instrument,
            leg.instrument,
            |uuid: Uuid, id: InstrumentId| uuid == id.0,
        )
        &&& relate::both(self.amount, leg.money, |text: String, value: Money| text@ == value.text())
        &&& relate::both(
            self.currency,
            leg.money,
            |dto: CurrencyDto, money: Money| dto.denotes() == money.currency,
        )
        &&& relate::both(
            self.quantity,
            leg.quantity,
            |text: String, value: Decimal| text@ == value.text(),
        )
    }

    /// The wire form of the record.
    pub fn from_domain(leg: &Leg) -> (dto: Self)
        ensures
            dto.shows(*leg),
    {
        Self {
            kind: JournalLegKindDto::from_domain(leg.kind),
            account: leg.account.0,
            custody: leg.custody.map(CustodyId::inner),
            instrument: leg.instrument.map(InstrumentId::inner),
            amount: match &leg.money { Some(value) => Some(value.to_text()), None => None },
            currency: match leg.money {
                Some(money) => Some(CurrencyDto::from_domain(money.currency)),
                None => None,
            },
            quantity: match &leg.quantity { Some(value) => Some(value.to_text()), None => None },
        }
    }
}

/// A recorded event, as the journal holds it.
#[derive(Debug, Clone, PartialEq, Eq)]
pub struct JournalEventReadDto {
    pub event: Uuid,
    pub account: Uuid,
    /// The date the journal orders the event by.
    pub effective_date: Date,
    /// The order within that date.
    pub sequence: u32,
    /// The time of day the source stated.
    pub source_time: Option<String>,
    pub kind: String,
    pub dates: JournalEventDatesDto,
    /// The movements, as recorded. Nothing is summed.
    pub legs: Vec<JournalLegDto>,
    pub relation: JournalRelationDto,
    pub confidence: JournalConfidenceDto,
    pub idempotency_key: Option<String>,
    pub source: Uuid,
    pub import: Option<Uuid>,
    pub source_operation_id: Option<String>,
    pub source_category: Option<String>,
    pub source_kind: Option<String>,
    pub description: Option<String>,
    pub import_session: Option<Uuid>,
}

impl JournalEventReadDto {
    /// What the wire form says of the record it was rendered from.
    pub open spec fn shows(self, view: JournalEventView) -> bool {
        &&& self.event == view.event.0
        &&& self.account == view.account.0
        &&& self.effective_date == view.effective_date
        &&& self.sequence == view.sequence
        &&& relate::both(
            self.source_time,
            view.source_time,
            |text: String, time: SourceTime| text@ == time.text(),
        )
        &&& self.kind == view.kind
        &&& self.dates.shows(view.dates)
        &&& relate::each(self.legs@, view.legs@, |dto: JournalLegDto, value: Leg| dto.shows(value))
        &&& self.relation == JournalRelationDto::rendering(view.relation)
        &&& self.confidence.denotes() == view.confidence
        &&& self.idempotency_key == view.idempotency_key
        &&& self.source == view.source.0
        &&& relate::both(self.import, view.import, |uuid: Uuid, id: ImportId| uuid == id.0)
        &&& self.source_operation_id == view.source_operation_id
        &&& self.source_category == view.source_category
        &&& self.source_kind == view.source_kind
        &&& self.description == view.description
        &&& relate::both(
            self.import_session,
            view.import_session,
            |uuid: Uuid, id: ImportSessionId| uuid == id.0,
        )
    }

    /// The wire form of the record.
    pub fn from_domain(view: &JournalEventView) -> (dto: Self)
        ensures
            dto.shows(*view),
    {
        Self {
            event: view.event.0,
            account: view.account.0,
            effective_date: view.effective_date,
            sequence: view.sequence,
            source_time: match view.source_time {
                Some(time) => Some(format_source_time(time)),
                None => None,
            },
            kind: view.kind.clone(),
            dates: JournalEventDatesDto::from_domain(view.dates),
            legs: map_each(&view.legs, JournalLegDto::from_domain),
            relation: JournalRelationDto::from_domain(view.relation),
            confidence: JournalConfidenceDto::from_domain(view.confidence),
            idempotency_key: view.idempotency_key.clone(),
            source: view.source.0,
            import: view.import.map(ImportId::inner),
            source_operation_id: view.source_operation_id.clone(),
            source_category: view.source_category.clone(),
            source_kind: view.source_kind.clone(),
            description: view.description.clone(),
            import_session: view.import_session.map(ImportSessionId::inner),
        }
    }
}

/// A page of the journal, and where the next one starts. No next means that
/// this was the last.
#[derive(Debug, Clone, PartialEq, Eq)]
pub struct JournalPageDto {
    pub rows: Vec<JournalEventReadDto>,
    pub next: Option<String>,
}

/// An amount and its currency are stated together or not at all.
pub proof fn law_a_leg_states_an_amount_with_its_currency(dto: JournalLegDto, leg: Leg)
    requires
        dto.shows(leg),
    ensures
        dto.amount is Some <==> dto.currency is Some,
        dto.amount is Some <==> leg.money is Some,
{
}

/// Each `JournalLegKindDto` denotes its namesake in the ledger, and no two denote one.
pub proof fn law_journal_leg_kind_denotes_its_namesake(dto: JournalLegKindDto)
    ensures
        dto is Cash <==> dto.denotes() is Cash,
        dto is SecurityQuantity <==> dto.denotes() is SecurityQuantity,
        dto is Principal <==> dto.denotes() is Principal,
        dto is Fee <==> dto.denotes() is Fee,
        dto is Tax <==> dto.denotes() is Tax,
{
}

/// Each `JournalConfidenceDto` denotes its namesake in the ledger, and no two denote one.
pub proof fn law_journal_confidence_denotes_its_namesake(dto: JournalConfidenceDto)
    ensures
        dto is Known <==> dto.denotes() is Known,
        dto is Estimated <==> dto.denotes() is Estimated,
        dto is Unknown <==> dto.denotes() is Unknown,
{
}

/// A `JournalEventDatesDto` tells each part of what it shows in a field of its own.
pub proof fn law_journal_event_dates_is_told_part_by_part(
    dto: JournalEventDatesDto,
    dates: EventDates,
)
    requires
        dto.shows(dates),
    ensures
        dto.trade == dates.trade,
        dto.settled == dates.settled,
        dto.cash_posted == dates.cash_posted,
        dto.entitlement == dates.entitlement,
        dto.paid == dates.paid,
        dto.tax_period == dates.tax_period_override,
{
}

/// A `JournalLegDto` tells each part of what it shows in a field of its own.
pub proof fn law_journal_leg_is_told_part_by_part(
    dto: JournalLegDto,
    leg: Leg,
)
    requires
        dto.shows(leg),
    ensures
        dto.kind.denotes() == leg.kind,
        dto.account == leg.account.0,
        match (dto.custody, leg.custody) {
            (Some(told), Some(meant)) => told == meant.0,
            (None, None) => true,
            _ => false,
        },
        match (dto.instrument, leg.instrument) {
            (Some(told), Some(meant)) => told == meant.0,
            (None, None) => true,
            _ => false,
        },
        match (dto.amount, leg.money) {
            (Some(told), Some(meant)) => told@ == meant.text(),
            (None, None) => true,
            _ => false,
        },
        match (dto.currency, leg.money) {
            (Some(told), Some(meant)) => told.denotes() == meant.currency,
            (None, None) => true,
            _ => false,
        },
        match (dto.quantity, leg.quantity) {
            (Some(told), Some(meant)) => told@ == meant.text(),
            (None, None) => true,
            _ => false,
        },
{
}

/// A `JournalEventReadDto` tells each part of what it shows in a field of its own.
pub proof fn law_journal_event_read_is_told_part_by_part(
    dto: JournalEventReadDto,
    view: JournalEventView,
)
    requires
        dto.shows(view),
    ensures
        dto.event == view.event.0,
        dto.account == view.account.0,
        dto.effective_date == view.effective_date,
        dto.sequence == view.sequence,
        match (dto.source_time, view.source_time) {
            (Some(told), Some(meant)) => told@ == meant.text(),
            (None, None) => true,
            _ => false,
        },
        dto.kind == view.kind,
        dto.dates.shows(view.dates),
        dto.legs@.len() == view.legs@.len(),
        forall|i: int| 0 <= i < view.legs@.len() ==> (#[trigger] dto.legs@[i]).shows(view.legs@[i]),
        dto.relation == JournalRelationDto::rendering(view.relation),
        dto.confidence.denotes() == view.confidence,
        dto.idempotency_key == view.idempotency_key,
        dto.source == view.source.0,
        match (dto.import, view.import) {
            (Some(told), Some(meant)) => told == meant.0,
            (None, None) => true,
            _ => false,
        },
        dto.source_operation_id == view.source_operation_id,
        dto.source_category == view.source_category,
        dto.source_kind == view.source_kind,
        dto.description == view.description,
        match (dto.import_session, view.import_session) {
            (Some(told), Some(meant)) => told == meant.0,
            (None, None) => true,
            _ => false,
        },
{
}

/// A relation is shown as its namesake, with the event that it corrects.
pub proof fn law_a_relation_is_shown_as_its_namesake(relation: Relation)
    ensures
        relation is Standalone <==> JournalRelationDto::rendering(relation).kind is Standalone,
        relation is Reversal <==> JournalRelationDto::rendering(relation).kind is Reversal,
        relation is Replacement <==> JournalRelationDto::rendering(relation).kind is Replacement,
        relation matches Relation::Reversal { target } ==> JournalRelationDto::rendering(
            relation,
        ).target == Some(target.0),
        relation matches Relation::Replacement { target } ==> JournalRelationDto::rendering(
            relation,
        ).target == Some(target.0),
        relation is Standalone ==> JournalRelationDto::rendering(relation).target is None,
{
}

} // verus!
