//! Journal facts the ledger takes and journal events it hands over.

use crate::calendar::{Date, SourceTime};
use crate::ids::{AccountId, CustodyId, EventId, ImportId, ImportSessionId, InstrumentId, SourceId};
use crate::money::{Decimal, Money};
use vstd::prelude::*;

verus! {

/// What a leg moves.
#[derive(Debug, Clone, Copy, PartialEq, Eq, Structural)]
pub enum LegKind {
    Cash,
    SecurityQuantity,
    Principal,
    Fee,
    Tax,
}

/// How far a fact is confirmed by its source.
#[derive(Debug, Clone, Copy, PartialEq, Eq, Structural)]
pub enum EventConfidence {
    Known,
    Estimated,
    Unknown,
}

/// Whether an event stands alone or corrects another.
#[derive(Debug, Clone, Copy, PartialEq, Eq, Structural)]
pub enum Relation {
    Standalone,
    Reversal { target: EventId },
    Replacement { target: EventId },
}

/// The dates an event carries. Absent means unknown.
#[derive(Debug, Clone, Copy, PartialEq, Eq, Structural)]
pub struct EventDates {
    pub trade: Option<Date>,
    pub settled: Option<Date>,
    pub cash_posted: Option<Date>,
    pub entitlement: Option<Date>,
    pub paid: Option<Date>,
    pub tax_period_override: Option<i32>,
}

/// One movement of an event.
#[derive(Debug, Clone, Copy, PartialEq, Eq, Structural)]
pub struct Leg {
    pub kind: LegKind,
    pub account: AccountId,
    pub custody: Option<CustodyId>,
    pub instrument: Option<InstrumentId>,
    pub money: Option<Money>,
    pub quantity: Option<Decimal>,
}

/// A recorded event, as the journal holds it.
#[derive(Debug, Clone, PartialEq, Eq)]
pub struct JournalEventView {
    pub event: EventId,
    pub account: AccountId,
    pub effective_date: Date,
    pub sequence: u32,
    pub source_time: Option<SourceTime>,
    pub kind: String,
    pub dates: EventDates,
    pub legs: Vec<Leg>,
    pub relation: Relation,
    pub confidence: EventConfidence,
    pub idempotency_key: Option<String>,
    pub source: SourceId,
    pub import: Option<ImportId>,
    pub source_operation_id: Option<String>,
    pub source_category: Option<String>,
    pub source_kind: Option<String>,
    pub description: Option<String>,
    pub import_session: Option<ImportSessionId>,
}

} // verus!
