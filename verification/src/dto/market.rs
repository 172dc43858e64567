//! Contours, exchange rates and market series on the wire.

use crate::calendar::Date;
use crate::dto::currency::CurrencyDto;
use crate::dto::price::{QuotationBasisDto, QuotationBasisStatusDto};
use crate::ids::Uuid;
use vstd::prelude::*;

verus! {

/// A contour to open, or a version of one.
#[derive(Debug, Clone, PartialEq, Eq)]
pub struct CreateContourVersionRequest {
    pub contour: Option<Uuid>,
    pub title: String,
    pub accounts: Vec<Uuid>,
}

/// A version to add to a contour.
#[derive(Debug, Clone, PartialEq, Eq)]
pub struct AddContourVersionRequest {
    pub accounts: Vec<Uuid>,
    pub title: Option<String>,
    pub expected_version: Option<u32>,
}

/// A version of a contour, and whether it was made by this call.
#[derive(Debug, Clone, PartialEq, Eq)]
pub struct ContourVersionDto {
    pub contour: Uuid,
    pub version: u32,
    pub title: String,
    pub accounts: Vec<Uuid>,
    pub created: bool,
}

/// A contour at its latest version.
#[derive(Debug, Clone, PartialEq, Eq)]
pub struct ContourDto {
    pub contour: Uuid,
    pub title: String,
    pub version: u32,
    pub accounts: Vec<Uuid>,
}

/// An exchange rate on a day.
#[derive(Debug, Clone, PartialEq, Eq)]
pub struct FxRateDto {
    pub base: CurrencyDto,
    pub quote: CurrencyDto,
    pub date: Date,
    pub rate: String,
}

/// One observed price. The recorded basis stands beside the one in force.
#[derive(Debug, Clone, PartialEq, Eq)]
pub struct MarketPriceDto {
    pub instrument: Uuid,
    pub board: String,
    pub session: i64,
    pub kind: String,
    pub value: String,
    pub currency: String,
    pub quotation_basis: QuotationBasisDto,
    pub recorded_quotation_basis: String,
    pub quotation_basis_status: QuotationBasisStatusDto,
    pub basis_evidence: Option<String>,
    pub date: Date,
    pub source: String,
    pub observed_at: String,
    pub quality: String,
}

/// One observed exchange rate, as published and per unit.
#[derive(Debug, Clone, PartialEq, Eq)]
pub struct MarketFxDto {
    pub base: CurrencyDto,
    pub quote: CurrencyDto,
    pub nominal: u32,
    pub value: String,
    pub unit_rate: String,
    pub date: Date,
    pub source: String,
    pub observed_at: String,
    pub quality: String,
}

/// One interval of a key rate.
#[derive(Debug, Clone, PartialEq, Eq)]
pub struct MarketKeyRateDto {
    pub value: String,
    pub from: Date,
    pub until: Option<Date>,
    pub source: String,
    pub observed_at: String,
    pub quality: String,
    pub boundary: String,
}

/// A series of prices and the day it is complete through.
#[derive(Debug, Clone, PartialEq, Eq)]
pub struct MarketPriceSeriesDto {
    pub rows: Vec<MarketPriceDto>,
    pub complete_through: Option<Date>,
}

/// A series of exchange rates and the day it is complete through.
#[derive(Debug, Clone, PartialEq, Eq)]
pub struct MarketFxSeriesDto {
    pub rows: Vec<MarketFxDto>,
    pub complete_through: Option<Date>,
}

/// A series of key rates and the day it is complete through.
#[derive(Debug, Clone, PartialEq, Eq)]
pub struct MarketKeyRateSeriesDto {
    pub rows: Vec<MarketKeyRateDto>,
    pub complete_through: Option<Date>,
}

/// The versions a running service works at.
#[derive(Debug, Clone, PartialEq, Eq)]
pub struct HealthDto {
    pub status: String,
    pub schema_version: u32,
    pub projection_version: u32,
}

} // verus!
