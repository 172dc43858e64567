//! Documents and stated balances on the wire.

use crate::calendar::Date;
use crate::dto::action::ActionDto;
use crate::dto::currency::CurrencyDto;
use crate::dto::reconciliation::{BalancePointDto, ReconciliationStatusDto, TaintDto};
use crate::dto::session::RecordedEventDto;
use crate::dto::verdict::VerdictDto;
use crate::ids::Uuid;
use vstd::prelude::*;

verus! {

/// The account a listing of documents is about.
#[derive(Debug, Clone, PartialEq, Eq)]
pub struct DocumentParams {
    pub account: Option<Uuid>,
}

/// A document that was read, and the verdict on each of its rows.
#[derive(Debug, Clone, PartialEq, Eq)]
pub struct DocumentDto {
    pub document_hash: String,
    pub source: Uuid,
    pub broker: String,
    pub format: String,
    pub parser_version: String,
    pub period_from: Option<Date>,
    pub period_to: Option<Date>,
    pub rows: Vec<VerdictDto>,
}

/// The interval a reconciliation is asked about.
#[derive(Debug, Clone, PartialEq, Eq)]
pub struct ReconciliationParams {
    pub account: Uuid,
    pub from: String,
    pub to: String,
}

/// Cash the owner states to be there.
#[derive(Debug, Clone, PartialEq, Eq)]
pub struct OwnerCashDto {
    pub currency: CurrencyDto,
    pub amount: String,
}

/// A position the owner states to be there.
#[derive(Debug, Clone, PartialEq, Eq)]
pub struct OwnerPositionDto {
    pub instrument: Uuid,
    pub custody: Uuid,
    pub quantity: String,
}

/// What the owner states to be there at one end of an interval.
#[derive(Debug, Clone, PartialEq, Eq)]
pub struct OwnerBalanceRequest {
    pub account: Uuid,
    pub from: Date,
    pub to: Date,
    pub at: BalancePointDto,
    pub cash: Option<OwnerCashDto>,
    pub positions: Vec<OwnerPositionDto>,
    pub source_hash: Option<String>,
}

/// What a stated balance recorded, and where the interval stands with it.
#[derive(Debug, Clone, PartialEq, Eq)]
pub struct OwnerBalanceOutcomeDto {
    pub control_assertions: Vec<RecordedEventDto>,
    pub statuses: Vec<ReconciliationStatusDto>,
}

/// Where an interval stands, what is missing, and what would close it.
#[derive(Debug, Clone, PartialEq, Eq)]
pub struct ReconciliationResponseDto {
    pub statuses: Vec<ReconciliationStatusDto>,
    pub gaps: Vec<TaintDto>,
    pub actions: Vec<ActionDto>,
}

} // verus!
