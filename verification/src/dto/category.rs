//! Categories and their rules on the wire.

use crate::calendar::Date;
use crate::ids::{CategoryId, CategoryRuleId, Uuid};
use crate::ledger::category::{
    CategoryMove, CategoryRuleImpact, CategoryRuleView, CategoryView, MonthlyImpact,
};
use crate::relate::map_each;
use crate::relate;
use vstd::prelude::*;

verus! {

/// A category.
#[derive(Debug, Clone, PartialEq, Eq)]
pub struct CategoryDto {
    pub id: Uuid,
    pub group: Uuid,
    pub title: String,
    pub retired_at: Option<String>,
}

impl CategoryDto {
    /// What the wire form says of the record it was rendered from.
    pub open spec fn shows(self, category: CategoryView) -> bool {
        &&& self.id == category.id.0
        &&& self.group == category.group.0
        &&& self.title == category.title
        &&& self.retired_at == category.retired_at
    }

    /// The wire form of the record.
    pub fn from_port(category: CategoryView) -> (dto: Self)
        ensures
            dto.shows(category),
    {
        Self {
            id: category.id.0,
            group: category.group.0,
            title: category.title,
            retired_at: category.retired_at,
        }
    }
}

/// A category rule. The matcher is its stored text.
#[derive(Debug, Clone, PartialEq, Eq)]
pub struct CategoryRuleDto {
    pub id: Uuid,
    pub version: u32,
    pub matcher: String,
    pub category: Uuid,
    pub valid_from: Option<Date>,
    pub valid_to: Option<Date>,
    pub created_at: String,
    pub retired_at: Option<String>,
    pub replaces: Option<Uuid>,
}

impl CategoryRuleDto {
    /// What the wire form says of the record it was rendered from.
    pub open spec fn shows(self, rule: CategoryRuleView) -> bool {
        &&& self.id == rule.id.0
        &&& self.version == rule.version
        &&& self.matcher == rule.matcher
        &&& self.category == rule.category.0
        &&& self.valid_from == rule.valid_from
        &&& self.valid_to == rule.valid_to
        &&& self.created_at == rule.created_at
        &&& self.retired_at == rule.retired_at
        &&& relate::both(
            self.replaces,
            rule.replaces,
            |uuid: Uuid, id: CategoryRuleId| uuid == id.0,
        )
    }

    /// The wire form of the record.
    pub fn from_port(rule: CategoryRuleView) -> (dto: Self)
        ensures
            dto.shows(rule),
    {
        Self {
            id: rule.id.0,
            version: rule.version,
            matcher: rule.matcher,
            category: rule.category.0,
            valid_from: rule.valid_from,
            valid_to: rule.valid_to,
            created_at: rule.created_at,
            retired_at: rule.retired_at,
            replaces: rule.replaces.map(CategoryRuleId::inner),
        }
    }
}

/// Rows that would move from one category to another, and their amount.
#[derive(Debug, Clone, PartialEq, Eq)]
pub struct CategoryMoveDto {
    pub from: Option<Uuid>,
    pub to: Uuid,
    pub amount: String,
    pub rows: u64,
}

impl CategoryMoveDto {
    /// What the wire form says of the record it was rendered from.
    pub open spec fn shows(self, movement: CategoryMove) -> bool {
        &&& relate::both(self.from, movement.from, |uuid: Uuid, id: CategoryId| uuid == id.0)
        &&& self.to == movement.to.0
        &&& self.amount@ == movement.amount.text()
        &&& self.rows == movement.rows
    }

    /// The wire form of the record.
    pub fn from_domain(movement: &CategoryMove) -> (dto: Self)
        ensures
            dto.shows(*movement),
    {
        Self {
            from: movement.from.map(CategoryId::inner),
            to: movement.to.0,
            amount: movement.amount.to_text(),
            rows: movement.rows,
        }
    }
}

/// What a rule would move in one month.
#[derive(Debug, Clone, PartialEq, Eq)]
pub struct MonthlyImpactDto {
    pub month: Date,
    pub moved: Vec<CategoryMoveDto>,
}

impl MonthlyImpactDto {
    /// What the wire form says of the record it was rendered from.
    pub open spec fn shows(self, month: MonthlyImpact) -> bool {
        &&& self.month == month.month
        &&& relate::each(
            self.moved@,
            month.moved@,
            |dto: CategoryMoveDto, value: CategoryMove| dto.shows(value),
        )
    }

    /// The wire form of the record.
    pub fn from_domain(month: &MonthlyImpact) -> (dto: Self)
        ensures
            dto.shows(*month),
    {
        Self {
            month: month.month,
            moved: map_each(&month.moved, CategoryMoveDto::from_domain),
        }
    }
}

/// What a rule would change before it is recorded.
#[derive(Debug, Clone, PartialEq, Eq)]
pub struct CategoryRuleImpactDto {
    pub rows: u64,
    pub months: Vec<MonthlyImpactDto>,
}

impl CategoryRuleImpactDto {
    /// What the wire form says of the record it was rendered from.
    pub open spec fn shows(self, impact: CategoryRuleImpact) -> bool {
        &&& self.rows == impact.rows
        &&& relate::each(
            self.months@,
            impact.months@,
            |dto: MonthlyImpactDto, value: MonthlyImpact| dto.shows(value),
        )
    }

    /// The wire form of the record.
    pub fn from_domain(impact: &CategoryRuleImpact) -> (dto: Self)
        ensures
            dto.shows(*impact),
    {
        Self {
            rows: impact.rows,
            months: map_each(&impact.months, MonthlyImpactDto::from_domain),
        }
    }
}

/// A group of categories to open.
#[derive(Debug, Clone, PartialEq, Eq)]
pub struct CategoryGroupRequest {
    pub title: String,
    pub is_income: bool,
}

/// A group of categories.
#[derive(Debug, Clone, PartialEq, Eq)]
pub struct CategoryGroupDto {
    pub id: Uuid,
    pub title: String,
    pub retired_at: Option<String>,
    pub is_income: bool,
}

/// A category to open.
#[derive(Debug, Clone, PartialEq, Eq)]
pub struct CategoryRequest {
    pub group: Uuid,
    pub title: String,
}

/// A category rule to record. The matcher is JSON text.
#[derive(Debug, Clone, PartialEq, Eq)]
pub struct CategoryRuleRequest {
    pub matcher: String,
    pub category: Uuid,
    pub valid_from: Option<Date>,
    pub valid_to: Option<Date>,
    pub replaces: Option<Uuid>,
}

/// A `CategoryDto` tells each part of what it shows in a field of its own.
pub proof fn law_category_is_told_part_by_part(
    dto: CategoryDto,
    category: CategoryView,
)
    requires
        dto.shows(category),
    ensures
        dto.id == category.id.0,
        dto.group == category.group.0,
        dto.title == category.title,
        dto.retired_at == category.retired_at,
{
}

/// A `CategoryRuleDto` tells each part of what it shows in a field of its own.
pub proof fn law_category_rule_is_told_part_by_part(
    dto: CategoryRuleDto,
    rule: CategoryRuleView,
)
    requires
        dto.shows(rule),
    ensures
        dto.id == rule.id.0,
        dto.version == rule.version,
        dto.matcher == rule.matcher,
        dto.category == rule.category.0,
        dto.valid_from == rule.valid_from,
        dto.valid_to == rule.valid_to,
        dto.created_at == rule.created_at,
        dto.retired_at == rule.retired_at,
        match (dto.replaces, rule.replaces) {
            (Some(told), Some(meant)) => told == meant.0,
            (None, None) => true,
            _ => false,
        },
{
}

/// A `CategoryMoveDto` tells each part of what it shows in a field of its own.
pub proof fn law_category_move_is_told_part_by_part(
    dto: CategoryMoveDto,
    movement: CategoryMove,
)
    requires
        dto.shows(movement),
    ensures
        match (dto.from, movement.from) {
            (Some(told), Some(meant)) => told == meant.0,
            (None, None) => true,
            _ => false,
        },
        dto.to == movement.to.0,
        dto.amount@ == movement.amount.text(),
        dto.rows == movement.rows,
{
}

/// A `MonthlyImpactDto` tells each part of what it shows in a field of its own.
pub proof fn law_monthly_impact_is_told_part_by_part(
    dto: MonthlyImpactDto,
    month: MonthlyImpact,
)
    requires
        dto.shows(month),
    ensures
        dto.month == month.month,
        dto.moved@.len() == month.moved@.len(),
        forall|i: int| 0 <= i < month.moved@.len() ==> (
            #[trigger] dto.moved@[i]
        ).shows(month.moved@[i]),
{
}

/// A `CategoryRuleImpactDto` tells each part of what it shows in a field of its own.
pub proof fn law_category_rule_impact_is_told_part_by_part(
    dto: CategoryRuleImpactDto,
    impact: CategoryRuleImpact,
)
    requires
        dto.shows(impact),
    ensures
        dto.rows == impact.rows,
        dto.months@.len() == impact.months@.len(),
        forall|i: int| 0 <= i < impact.months@.len() ==> (
            #[trigger] dto.months@[i]
        ).shows(impact.months@[i]),
{
}

} // verus!
