//! The asset snapshot on the wire.

use crate::action_catalog::ActionCatalog;
use crate::calendar::Date;
use crate::dto::balance::{CashFigureDto, PositionQuantityDto};
use crate::dto::computed::CalcMoneyDto;
use crate::dto::currency::CurrencyDto;
use crate::dto::price::SelectedPriceDto;
use crate::dto::report::{ConfidenceDto, HeldRowsDto, PopulationDto};
use crate::ids::{AccountId, Uuid};
use crate::ledger::asset::{
    AssetAccount, AssetSnapshot, CandidateUncoveredReason, CashClassTotal, CashSide, HoldingValue,
    PositionsSide, PriceDecision,
};
use crate::ledger::balance::{CashFigure, PositionQuantity};
use crate::ledger::report::HeldRows;
use crate::money::CalcMoney;
use crate::relate::map_each;
use crate::relate;
use vstd::prelude::*;

verus! {

/// The word for why a holding has no price.
pub fn holding_uncovered_reason(reason: CandidateUncoveredReason) -> (word: &'static str)
    ensures
        word@ == reason.word(),
{
    reason.code()
}

/// The price of a holding, or why it has none.
#[derive(Debug, Clone, PartialEq, Eq)]
pub enum HoldingPriceDto {
    Selected { price: Box<SelectedPriceDto> },
    LegacyDerived { amount: String, currency: CurrencyDto, as_of: Date, quality: String },
    Uncovered { reason: String },
}

impl HoldingPriceDto {
    /// What the wire form says of a decision: nothing where a price of an older
    /// kind is not at hand.
    pub open spec fn shown(rendered: Option<Self>, decision: PriceDecision) -> bool {
        match decision {
            PriceDecision::Selected(selected) => rendered matches Some(Self::Selected { price })
                && price.shows(selected),
            PriceDecision::LegacyDerived { quality, price } => match price {
                Some(price) => rendered matches Some(
                    Self::LegacyDerived { amount, currency, as_of, quality: word },
                ) && amount@ == price.price.text() && currency.denotes() == price.currency && as_of
                    == price.as_of && word@ == quality.word(),
                None => rendered is None,
            },
            PriceDecision::Uncovered(reason) => rendered matches Some(
                Self::Uncovered { reason: word },
            ) && word@ == reason.word(),
        }
    }

    /// The wire form of a decision.
    pub fn from_domain(decision: &PriceDecision) -> (rendered: Option<Self>)
        ensures
            Self::shown(rendered, *decision),
    {
        match decision {
            PriceDecision::Selected(price) => Some(
                Self::Selected { price: Box::new(SelectedPriceDto::from_domain(price)) },
            ),
            PriceDecision::LegacyDerived { quality, price } => match price {
                Some(price) => Some(
                    Self::LegacyDerived {
                        amount: price.price.to_text(),
                        currency: CurrencyDto::from_domain(price.currency),
                        as_of: price.as_of,
                        quality: quality.to_word(),
                    },
                ),
                None => None,
            },
            PriceDecision::Uncovered(reason) => Some(
                Self::Uncovered { reason: holding_uncovered_reason(*reason).to_owned() },
            ),
        }
    }
}

/// One class of cash and what it holds.
#[derive(Debug, Clone, PartialEq, Eq)]
pub struct CashClassTotalDto {
    pub cash_class: Option<String>,
    pub accounts: Vec<Uuid>,
    pub totals: Vec<CashFigureDto>,
}

impl CashClassTotalDto {
    /// What the wire form says of the record it was rendered from.
    pub open spec fn shows(self, class: CashClassTotal) -> bool {
        &&& self.cash_class == class.cash_class
        &&& relate::each(self.accounts@, class.accounts@, |uuid: Uuid, id: AccountId| uuid == id.0)
        &&& relate::each(
            self.totals@,
            class.totals@,
            |dto: CashFigureDto, value: CashFigure| dto.shows(value),
        )
    }

    /// The wire form of the record.
    pub fn from_domain(class: &CashClassTotal) -> (dto: Self)
        ensures
            dto.shows(*class),
    {
        Self {
            cash_class: class.cash_class.clone(),
            accounts: map_each(&class.accounts, AccountId::uuid),
            totals: map_each(&class.totals, CashFigureDto::from_domain),
        }
    }
}

/// The exact half of a snapshot.
#[derive(Debug, Clone, PartialEq, Eq)]
pub struct CashSideDto {
    pub classes: Vec<CashClassTotalDto>,
    pub totals: Vec<CashFigureDto>,
}

impl CashSideDto {
    /// What the wire form says of the record it was rendered from.
    pub open spec fn shows(self, cash: CashSide) -> bool {
        &&& relate::each(
            self.classes@,
            cash.classes@,
            |dto: CashClassTotalDto, value: CashClassTotal| dto.shows(value),
        )
        &&& relate::each(
            self.totals@,
            cash.totals@,
            |dto: CashFigureDto, value: CashFigure| dto.shows(value),
        )
    }

    /// The wire form of the record.
    pub fn from_domain(cash: &CashSide) -> (dto: Self)
        ensures
            dto.shows(*cash),
    {
        Self {
            classes: map_each(&cash.classes, CashClassTotalDto::from_domain),
            totals: map_each(&cash.totals, CashFigureDto::from_domain),
        }
    }
}

/// One holding, its price and its value.
#[derive(Debug, Clone, PartialEq, Eq)]
pub struct HoldingValueDto {
    pub instrument: Uuid,
    pub quantity: String,
    pub price: Option<HoldingPriceDto>,
    pub value: Option<CalcMoneyDto>,
}

impl HoldingValueDto {
    /// What the wire form says of the record it was rendered from.
    pub open spec fn shows(self, holding: HoldingValue) -> bool {
        &&& self.instrument == holding.instrument.0
        &&& self.quantity@ == holding.quantity.text()
        &&& HoldingPriceDto::shown(self.price, holding.price)
        &&& relate::both(
            self.value,
            holding.value,
            |dto: CalcMoneyDto, value: CalcMoney| dto.shows(value),
        )
    }

    /// The wire form of the record.
    pub fn from_domain(holding: &HoldingValue) -> (dto: Self)
        ensures
            dto.shows(*holding),
    {
        Self {
            instrument: holding.instrument.0,
            quantity: holding.quantity.to_text(),
            price: HoldingPriceDto::from_domain(&holding.price),
            value: holding.value.as_ref().map(CalcMoneyDto::from_domain),
        }
    }
}

/// The market-dependent half of a snapshot.
#[derive(Debug, Clone, PartialEq, Eq)]
pub struct PositionsSideDto {
    pub holdings: Vec<HoldingValueDto>,
    pub oldest_price_date: Option<Date>,
    pub totals: Vec<CalcMoneyDto>,
}

impl PositionsSideDto {
    /// What the wire form says of the record it was rendered from.
    pub open spec fn shows(self, positions: PositionsSide) -> bool {
        &&& relate::each(
            self.holdings@,
            positions.holdings@,
            |dto: HoldingValueDto, value: HoldingValue| dto.shows(value),
        )
        &&& self.oldest_price_date == positions.oldest_price_date
        &&& relate::each(
            self.totals@,
            positions.totals@,
            |dto: CalcMoneyDto, value: CalcMoney| dto.shows(value),
        )
    }

    /// The wire form of the record.
    pub fn from_domain(positions: &PositionsSide) -> (dto: Self)
        ensures
            dto.shows(*positions),
    {
        Self {
            holdings: map_each(&positions.holdings, HoldingValueDto::from_domain),
            oldest_price_date: positions.oldest_price_date,
            totals: map_each(&positions.totals, CalcMoneyDto::from_domain),
        }
    }
}

/// The rows the totals were folded from.
#[derive(Debug, Clone, PartialEq, Eq)]
pub struct AssetAccountDto {
    pub account: Uuid,
    pub cash_class: Option<String>,
    pub cash: Vec<CashFigureDto>,
    pub positions: Vec<PositionQuantityDto>,
}

impl AssetAccountDto {
    /// What the wire form says of the record it was rendered from.
    pub open spec fn shows(self, row: AssetAccount) -> bool {
        &&& self.account == row.account.0
        &&& self.cash_class == row.cash_class
        &&& relate::each(
            self.cash@,
            row.cash@,
            |dto: CashFigureDto, value: CashFigure| dto.shows(value),
        )
        &&& relate::each(
            self.positions@,
            row.positions@,
            |dto: PositionQuantityDto, value: PositionQuantity| dto.shows(value),
        )
    }

    /// The wire form of the record.
    pub fn from_domain(row: &AssetAccount) -> (dto: Self)
        ensures
            dto.shows(*row),
    {
        Self {
            account: row.account.0,
            cash_class: row.cash_class.clone(),
            cash: map_each(&row.cash, CashFigureDto::from_domain),
            positions: map_each(&row.positions, PositionQuantityDto::from_domain),
        }
    }
}

/// Everything held at a date.
#[derive(Debug, Clone, PartialEq, Eq)]
pub struct AssetSnapshotDto {
    pub confidence: ConfidenceDto,
    pub as_of: Date,
    pub cash: CashSideDto,
    pub positions: PositionsSideDto,
    pub total: Vec<CalcMoneyDto>,
    pub accounts: Vec<AssetAccountDto>,
    pub population: PopulationDto,
    pub held_rows: HeldRowsDto,
}

impl AssetSnapshotDto {
    /// What the wire form says of the snapshot.
    pub open spec fn shows(
        self,
        snapshot: AssetSnapshot,
        held_rows: HeldRows,
        catalog: ActionCatalog,
    ) -> bool {
        &&& self.confidence.shows(snapshot.confidence, catalog)
        &&& self.as_of == snapshot.as_of
        &&& self.cash.shows(snapshot.cash)
        &&& self.positions.shows(snapshot.positions)
        &&& relate::each(
            self.total@,
            snapshot.total@,
            |dto: CalcMoneyDto, value: CalcMoney| dto.shows(value),
        )
        &&& relate::each(
            self.accounts@,
            snapshot.accounts@,
            |dto: AssetAccountDto, row: AssetAccount| dto.shows(row),
        )
        &&& self.population.shows(snapshot.population)
        &&& self.held_rows.shows(held_rows)
    }

    /// The wire form of the snapshot.
    pub fn from_domain(
        snapshot: &AssetSnapshot,
        held_rows: &HeldRows,
        catalog: &ActionCatalog,
    ) -> (dto: Self)
        requires
            snapshot.confidence.is_resolved_by(*catalog),
        ensures
            dto.shows(*snapshot, *held_rows, *catalog),
    {
        Self {
            confidence: ConfidenceDto::from_domain(&snapshot.confidence, catalog),
            as_of: snapshot.as_of,
            cash: CashSideDto::from_domain(&snapshot.cash),
            positions: PositionsSideDto::from_domain(&snapshot.positions),
            total: map_each(&snapshot.total, CalcMoneyDto::from_domain),
            accounts: map_each(&snapshot.accounts, AssetAccountDto::from_domain),
            population: PopulationDto::from_domain(&snapshot.population),
            held_rows: HeldRowsDto::from_domain(held_rows),
        }
    }
}

/// A `CashClassTotalDto` tells each part of what it shows in a field of its own.
pub proof fn law_cash_class_total_is_told_part_by_part(
    dto: CashClassTotalDto,
    class: CashClassTotal,
)
    requires
        dto.shows(class),
    ensures
        dto.cash_class == class.cash_class,
        dto.accounts@.len() == class.accounts@.len(),
        forall|i: int| 0 <= i < class.accounts@.len() ==> (
            #[trigger] dto.accounts@[i]
        ) == class.accounts@[i].0,
        dto.totals@.len() == class.totals@.len(),
        forall|i: int| 0 <= i < class.totals@.len() ==> (
            #[trigger] dto.totals@[i]
        ).shows(class.totals@[i]),
{
}

/// A `CashSideDto` tells each part of what it shows in a field of its own.
pub proof fn law_cash_side_is_told_part_by_part(
    dto: CashSideDto,
    cash: CashSide,
)
    requires
        dto.shows(cash),
    ensures
        dto.classes@.len() == cash.classes@.len(),
        forall|i: int| 0 <= i < cash.classes@.len() ==> (
            #[trigger] dto.classes@[i]
        ).shows(cash.classes@[i]),
        dto.totals@.len() == cash.totals@.len(),
        forall|i: int| 0 <= i < cash.totals@.len() ==> (
            #[trigger] dto.totals@[i]
        ).shows(cash.totals@[i]),
{
}

/// A `HoldingValueDto` tells each part of what it shows in a field of its own.
pub proof fn law_holding_value_is_told_part_by_part(
    dto: HoldingValueDto,
    holding: HoldingValue,
)
    requires
        dto.shows(holding),
    ensures
        dto.instrument == holding.instrument.0,
        dto.quantity@ == holding.quantity.text(),
        HoldingPriceDto::shown(dto.price, holding.price),
        match (dto.value, holding.value) {
            (Some(told), Some(meant)) => told.shows(meant),
            (None, None) => true,
            _ => false,
        },
{
}

/// A `PositionsSideDto` tells each part of what it shows in a field of its own.
pub proof fn law_positions_side_is_told_part_by_part(
    dto: PositionsSideDto,
    positions: PositionsSide,
)
    requires
        dto.shows(positions),
    ensures
        dto.holdings@.len() == positions.holdings@.len(),
        forall|i: int| 0 <= i < positions.holdings@.len() ==> (
            #[trigger] dto.holdings@[i]
        ).shows(positions.holdings@[i]),
        dto.oldest_price_date == positions.oldest_price_date,
        dto.totals@.len() == positions.totals@.len(),
        forall|i: int| 0 <= i < positions.totals@.len() ==> (
            #[trigger] dto.totals@[i]
        ).shows(positions.totals@[i]),
{
}

/// An `AssetAccountDto` tells each part of what it shows in a field of its own.
pub proof fn law_asset_account_is_told_part_by_part(
    dto: AssetAccountDto,
    row: AssetAccount,
)
    requires
        dto.shows(row),
    ensures
        dto.account == row.account.0,
        dto.cash_class == row.cash_class,
        dto.cash@.len() == row.cash@.len(),
        forall|i: int| 0 <= i < row.cash@.len() ==> (#[trigger] dto.cash@[i]).shows(row.cash@[i]),
        dto.positions@.len() == row.positions@.len(),
        forall|i: int| 0 <= i < row.positions@.len() ==> (
            #[trigger] dto.positions@[i]
        ).shows(row.positions@[i]),
{
}

/// An `AssetSnapshotDto` tells each part of what it shows in a field of its own.
pub proof fn law_asset_snapshot_is_told_part_by_part(
    dto: AssetSnapshotDto,
    snapshot: AssetSnapshot,
    held_rows: HeldRows,
    catalog: ActionCatalog,
)
    requires
        dto.shows(snapshot, held_rows, catalog),
    ensures
        dto.confidence.shows(snapshot.confidence, catalog),
        dto.as_of == snapshot.as_of,
        dto.cash.shows(snapshot.cash),
        dto.positions.shows(snapshot.positions),
        dto.total@.len() == snapshot.total@.len(),
        forall|i: int| 0 <= i < snapshot.total@.len() ==> (
            #[trigger] dto.total@[i]
        ).shows(snapshot.total@[i]),
        dto.accounts@.len() == snapshot.accounts@.len(),
        forall|i: int| 0 <= i < snapshot.accounts@.len() ==> (
            #[trigger] dto.accounts@[i]
        ).shows(snapshot.accounts@[i]),
        dto.population.shows(snapshot.population),
        dto.held_rows.shows(held_rows),
{
}

/// A price decision is shown as what it was: the price that was selected, the older price
/// with its date and quality where there is one, the reason where there is none.
pub proof fn law_a_price_decision_is_shown_as_itself(
    rendered: Option<HoldingPriceDto>,
    decision: PriceDecision,
)
    requires
        HoldingPriceDto::shown(rendered, decision),
    ensures
        decision matches PriceDecision::Selected(selected) ==> (rendered matches Some(
            HoldingPriceDto::Selected { price },
        ) && price.shows(selected)),
        decision matches PriceDecision::LegacyDerived { quality, price } ==> {
            &&& rendered is Some <==> price is Some
            &&& price is Some ==> (rendered matches Some(
                HoldingPriceDto::LegacyDerived { amount, currency, as_of, quality: word },
            ) && amount@ == price->0.price.text() && currency.denotes() == price->0.currency
                && as_of == price->0.as_of && word@ == quality.word())
        },
        decision matches PriceDecision::Uncovered(reason) ==> (rendered matches Some(
            HoldingPriceDto::Uncovered { reason: word },
        ) && word@ == reason.word()),
{
}

} // verus!
