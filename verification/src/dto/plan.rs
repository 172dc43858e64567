//! The assessment of an import session on the wire: what a commit would record,
//! and what stands in its way.

use crate::calendar::Date;
use crate::dto::action::{AccountCandidateDto, OwnerQuestionDto};
use crate::dto::amount::minor_amount;
use crate::dto::amount;
use crate::dto::answer::AnswerAlternativeDto;
use crate::dto::control::{BatchTotalDto, ControlReconciliationDto};
use crate::dto::currency::CurrencyDto;
use crate::dto::rule::RuleMatcherDto;
use crate::dto::session::{ImportRowDto, ImportSessionDto, QuestionSettlementDto};
use crate::ids::{AccountId, EventId, ImportId, SourceId, Uuid};
use crate::ledger::action::AccountCandidate;
use crate::ledger::answer::Alternative;
use crate::ledger::control::BatchTotal;
use crate::ledger::plan::{
    AccountResolution, AmountSpan, CashLeg, CommitDelta, ConfirmedPairing, DaySpan, ImportPlan,
    Interpretation, LegOrigin, MirroredPair, Movement, OfferedRule, OpenQuestion, PairingCandidate,
    PairingEvidence, PlannedFact, PlannedOrigin, PrintedRow, Proposals, Readiness, ResemblingRow,
    RetainedRow, RetentionReason, RowGroup, RowShape, ScopeAssessment, SettledRow, SharedMovement,
    SharedRow, SourceInventory, WithheldOffer,
};
use crate::ledger::session::{FactBasis, HeldRow, NoFactReason, QuestionSettlement};
use crate::money::{CurrencyCode, MinorUnits};
use crate::relate::{map_each, map_each_with};
use crate::relate;
use crate::text::natural_text;
use crate::text;
use vstd::prelude::*;

verus! {

/// The word of a direction.
pub fn movement_code(movement: Movement) -> (word: String)
    ensures
        word@ == movement.word(),
{
    movement.code().to_owned()
}

fn shared_movement_code(movement: SharedMovement) -> (word: String)
    ensures
        word@ == movement.word(),
{
    match movement {
        SharedMovement::Stated(stated) => movement_code(stated),
        SharedMovement::NoneStated => "unstated".to_owned(),
    }
}

/// What the rows came from.
#[derive(Debug, Clone, PartialEq, Eq)]
pub struct SourceInventoryDto {
    pub source: Option<Uuid>,
    pub import: Option<Uuid>,
    pub documents: Vec<String>,
    pub row_count: usize,
    pub period_from: Option<Date>,
    pub period_to: Option<Date>,
    pub accounts: Vec<Uuid>,
}

impl SourceInventoryDto {
    /// What the wire form says of the record it was rendered from.
    pub open spec fn shows(self, inventory: SourceInventory) -> bool {
        &&& relate::both(self.source, inventory.source, |uuid: Uuid, id: SourceId| uuid == id.0)
        &&& relate::both(self.import, inventory.import, |uuid: Uuid, id: ImportId| uuid == id.0)
        &&& self.documents@ == inventory.documents@
        &&& self.row_count == inventory.rows
        &&& self.period_from == (
            match inventory.period { Some(period) => Some(period.from), None => None }
        )
        &&& self.period_to == (
            match inventory.period { Some(period) => Some(period.to), None => None }
        )
        &&& relate::each(
            self.accounts@,
            inventory.accounts@,
            |uuid: Uuid, id: AccountId| uuid == id.0,
        )
    }

    /// The wire form of the record.
    pub fn from_domain(inventory: &SourceInventory) -> (dto: Self)
        ensures
            dto.shows(*inventory),
    {
        Self {
            source: inventory.source.map(SourceId::inner),
            import: inventory.import.map(ImportId::inner),
            documents: inventory.documents.clone(),
            row_count: inventory.rows,
            period_from: match inventory.period { Some(period) => Some(period.from), None => None },
            period_to: match inventory.period { Some(period) => Some(period.to), None => None },
            accounts: map_each(&inventory.accounts, AccountId::uuid),
        }
    }
}

/// The accounts the rows are on, as far as the directory knows them.
#[derive(Debug, Clone, PartialEq, Eq)]
pub struct AccountResolutionDto {
    pub resolved: Vec<Uuid>,
    pub missing: Vec<Uuid>,
    pub conflicting: Vec<String>,
    pub unrecognised: Vec<String>,
}

impl AccountResolutionDto {
    /// What the wire form says of the record it was rendered from.
    pub open spec fn shows(self, resolution: AccountResolution) -> bool {
        &&& relate::each(
            self.resolved@,
            resolution.resolved@,
            |uuid: Uuid, id: AccountId| uuid == id.0,
        )
        &&& relate::each(
            self.missing@,
            resolution.missing@,
            |uuid: Uuid, id: AccountId| uuid == id.0,
        )
        &&& self.conflicting@ == resolution.conflicting@
        &&& self.unrecognised@ == resolution.unrecognised@
    }

    /// The wire form of the record.
    pub fn from_domain(resolution: &AccountResolution) -> (dto: Self)
        ensures
            dto.shows(*resolution),
    {
        Self {
            resolved: map_each(&resolution.resolved, AccountId::uuid),
            missing: map_each(&resolution.missing, AccountId::uuid),
            conflicting: resolution.conflicting.clone(),
            unrecognised: resolution.unrecognised.clone(),
        }
    }
}

/// The accounts the rows are on, as far as the perimeter holds them.
#[derive(Debug, Clone, PartialEq, Eq)]
pub struct ScopeAssessmentDto {
    pub in_contour: Vec<Uuid>,
    pub explicitly_outside: Vec<Uuid>,
    pub awaiting_disposition: Vec<Uuid>,
}

impl ScopeAssessmentDto {
    /// What the wire form says of the record it was rendered from.
    pub open spec fn shows(self, scope: ScopeAssessment) -> bool {
        &&& relate::each(
            self.in_contour@,
            scope.in_contour@,
            |uuid: Uuid, id: AccountId| uuid == id.0,
        )
        &&& relate::each(
            self.explicitly_outside@,
            scope.explicitly_outside@,
            |uuid: Uuid, id: AccountId| uuid == id.0,
        )
        &&& relate::each(
            self.awaiting_disposition@,
            scope.awaiting_disposition@,
            |uuid: Uuid, id: AccountId| uuid == id.0,
        )
    }

    /// The wire form of the record.
    pub fn from_domain(scope: &ScopeAssessment) -> (dto: Self)
        ensures
            dto.shows(*scope),
    {
        Self {
            in_contour: map_each(&scope.in_contour, AccountId::uuid),
            explicitly_outside: map_each(&scope.explicitly_outside, AccountId::uuid),
            awaiting_disposition: map_each(&scope.awaiting_disposition, AccountId::uuid),
        }
    }
}

/// The identity one account's facts will carry.
#[derive(Debug, Clone, PartialEq, Eq)]
pub struct PlannedOriginDto {
    pub account: Uuid,
    pub source: Uuid,
    pub import: Option<Uuid>,
}

impl PlannedOriginDto {
    /// What the wire form says of the record it was rendered from.
    pub open spec fn shows(self, origin: PlannedOrigin) -> bool {
        &&& self.account == origin.account.0
        &&& self.source == origin.source.0
        &&& relate::both(self.import, origin.import, |uuid: Uuid, id: ImportId| uuid == id.0)
    }

    /// The wire form of the record.
    pub fn from_domain(origin: &PlannedOrigin) -> (dto: Self)
        ensures
            dto.shows(*origin),
    {
        Self {
            account: origin.account.0,
            source: origin.source.0,
            import: origin.import.map(ImportId::inner),
        }
    }
}

/// A fact a commit would write.
#[derive(Debug, Clone, PartialEq, Eq)]
pub struct PlannedFactDto {
    pub row: u32,
    pub account: Uuid,
    /// The kind of the event.
    pub records_as: String,
    /// On whose word the row was settled.
    pub settled_by: String,
    pub settled_by_explanation: String,
    /// The standing rule that settled the row.
    pub settled_by_rule: Option<String>,
    /// The cash the row moves on its own account.
    pub amount: String,
    pub currency: CurrencyDto,
    pub date: Option<Date>,
    pub idempotency_key: Option<String>,
}

impl PlannedFactDto {
    /// What the wire form says of the record it was rendered from.
    pub open spec fn shows(self, fact: PlannedFact, units: MinorUnits) -> bool {
        &&& self.row == fact.row
        &&& self.account == fact.account.0
        &&& self.records_as == fact.records_as
        &&& self.settled_by@ == fact.settled_by.word()
        &&& self.settled_by_explanation == fact.settled_by_explanation
        &&& self.settled_by_rule == (
            match fact.settled_by { FactBasis::Rule { rule, version } => Some(rule), _ => None }
        )
        &&& self.amount@ == amount::minor_text(fact.amount_minor, fact.currency, units)
        &&& self.currency.denotes() == fact.currency
        &&& self.date == fact.date
        &&& self.idempotency_key == fact.idempotency_key
    }

    /// The wire form of the record.
    pub fn from_domain(fact: &PlannedFact, units: &MinorUnits) -> (dto: Self)
        ensures
            dto.shows(*fact, *units),
    {
        Self {
            row: fact.row,
            account: fact.account.0,
            records_as: fact.records_as.clone(),
            settled_by: fact.settled_by.code().to_owned(),
            settled_by_explanation: fact.settled_by_explanation.clone(),
            settled_by_rule: match &fact.settled_by {
                FactBasis::Rule { rule, version } => Some(rule.clone()),
                FactBasis::Concluded => None,
                FactBasis::Directory => None,
                FactBasis::SourceAsserted => None,
                FactBasis::Answered => None,
            },
            amount: minor_amount(fact.amount_minor, fact.currency, units),
            currency: CurrencyDto::from_domain(fact.currency),
            date: fact.date,
            idempotency_key: fact.idempotency_key.clone(),
        }
    }
}

/// The row a question is about, as the source printed it.
#[derive(Debug, Clone, PartialEq, Eq)]
pub struct PrintedRowDto {
    pub account: Uuid,
    pub title: Option<String>,
    pub institution: Option<String>,
    pub amount: String,
    pub currency: CurrencyDto,
    pub date: Option<Date>,
    pub direction: Option<String>,
    pub counterparty: Option<String>,
    pub source_category: Option<String>,
}

impl PrintedRowDto {
    /// What the wire form says of the record it was rendered from.
    pub open spec fn shows(self, printed: PrintedRow, units: MinorUnits) -> bool {
        &&& self.account == printed.account.0
        &&& self.title == printed.title
        &&& self.institution == printed.institution
        &&& self.amount@ == amount::minor_text(printed.amount_minor, printed.currency, units)
        &&& self.currency.denotes() == printed.currency
        &&& self.date == printed.date
        &&& relate::both(
            self.direction,
            printed.movement,
            |text: String, movement: Movement| text@ == movement.word(),
        )
        &&& self.counterparty == printed.counterparty
        &&& self.source_category == printed.source_category
    }

    /// The wire form of the record.
    pub fn from_domain(printed: &PrintedRow, units: &MinorUnits) -> (dto: Self)
        ensures
            dto.shows(*printed, *units),
    {
        Self {
            account: printed.account.0,
            title: printed.title.clone(),
            institution: printed.institution.clone(),
            amount: minor_amount(printed.amount_minor, printed.currency, units),
            currency: CurrencyDto::from_domain(printed.currency),
            date: printed.date,
            direction: printed.movement.map(movement_code),
            counterparty: printed.counterparty.clone(),
            source_category: printed.source_category.clone(),
        }
    }
}

/// What a set of rows is, as far as the source said.
#[derive(Debug, Clone, PartialEq, Eq)]
pub struct RowShapeDto {
    pub direction: Option<String>,
    pub counterparty_named: bool,
    pub rows: Vec<u32>,
}

impl RowShapeDto {
    /// What the wire form says of the record it was rendered from.
    pub open spec fn shows(self, shape: RowShape) -> bool {
        &&& relate::both(
            self.direction,
            shape.movement,
            |text: String, movement: Movement| text@ == movement.word(),
        )
        &&& self.counterparty_named == shape.counterparty_named
        &&& self.rows@ == shape.rows@
    }

    /// The wire form of the record.
    pub fn from_domain(shape: &RowShape) -> (dto: Self)
        ensures
            dto.shows(*shape),
    {
        Self {
            direction: shape.movement.map(movement_code),
            counterparty_named: shape.counterparty_named,
            rows: shape.rows.clone(),
        }
    }
}

/// The other leg of one movement, and the identifier the two questions share.
#[derive(Debug, Clone, Copy, PartialEq, Eq, Structural)]
pub struct MirroredPairDto {
    pub id: Uuid,
    pub row: u32,
}

impl MirroredPairDto {
    /// What the wire form says of the record it was rendered from.
    pub open spec fn shows(self, pair: MirroredPair) -> bool {
        &&& self.id == pair.id
        &&& self.row == pair.row
    }

    /// The wire form of the record.
    pub fn from_domain(pair: MirroredPair) -> (dto: Self)
        ensures
            dto.shows(pair),
    {
        Self {
            id: pair.id,
            row: pair.row,
        }
    }
}

/// A question the session waits on.
#[derive(Debug, Clone, PartialEq, Eq)]
pub struct OpenQuestionDto {
    pub row: u32,
    pub question: Uuid,
    pub prompt: String,
    /// The row, as the source printed it.
    pub printed: Option<PrintedRowDto>,
    /// What may be said in answer.
    pub alternatives: Vec<AnswerAlternativeDto>,
    /// The other rows whose question is the same decision.
    pub alike: Vec<u32>,
    /// The other leg, where the row is one of two.
    pub pair: Option<MirroredPairDto>,
}

impl OpenQuestionDto {
    /// What the wire form says of the record it was rendered from.
    pub open spec fn shows(self, open: OpenQuestion, units: MinorUnits) -> bool {
        &&& self.row == open.row
        &&& self.question == open.question.0
        &&& self.prompt == open.prompt
        &&& relate::both(
            self.printed,
            open.printed,
            |dto: PrintedRowDto, value: PrintedRow| dto.shows(value, units),
        )
        &&& relate::each(
            self.alternatives@,
            open.alternatives@,
            |dto: AnswerAlternativeDto, value: Alternative| dto.shows(value),
        )
        &&& self.alike@ == open.alike@
        &&& relate::both(
            self.pair,
            open.pair,
            |dto: MirroredPairDto, pair: MirroredPair| dto.shows(pair),
        )
    }

    /// The wire form of the record.
    pub fn from_domain(open: &OpenQuestion, units: &MinorUnits) -> (dto: Self)
        ensures
            dto.shows(*open, *units),
    {
        Self {
            row: open.row,
            question: open.question.0,
            prompt: open.prompt.clone(),
            printed: match &open.printed {
                Some(value) => Some(PrintedRowDto::from_domain(value, units)),
                None => None,
            },
            alternatives: map_each(&open.alternatives, AnswerAlternativeDto::from_domain),
            alike: open.alike.clone(),
            pair: open.pair.map(MirroredPairDto::from_domain),
        }
    }
}

/// A standing decision the rows offer. It offers a condition and never an
/// outcome.
#[derive(Debug, Clone, PartialEq, Eq)]
pub struct OfferedRuleDto {
    pub matcher: RuleMatcherDto,
    pub question: OwnerQuestionDto,
    pub covers: Vec<u32>,
    pub contains: RowShapeDto,
}

impl OfferedRuleDto {
    /// What the wire form says of the record it was rendered from.
    pub open spec fn shows(self, offered: OfferedRule) -> bool {
        &&& self.matcher.shows(offered.matcher)
        &&& self.question.shows(offered.question)
        &&& self.covers@ == offered.covers@
        &&& self.contains.shows(offered.contains)
    }

    /// The wire form of the record.
    pub fn from_domain(offered: &OfferedRule) -> (dto: Self)
        ensures
            dto.shows(*offered),
    {
        Self {
            matcher: RuleMatcherDto::from_domain(&offered.matcher),
            question: OwnerQuestionDto::from_domain(&offered.question),
            covers: offered.covers.clone(),
            contains: RowShapeDto::from_domain(&offered.contains),
        }
    }
}

/// A word whose rows are not one thing, and why no rule is offered on it.
#[derive(Debug, Clone, PartialEq, Eq)]
pub struct WithheldOfferDto {
    pub source_category: String,
    pub covers: Vec<u32>,
    pub contains: Vec<RowShapeDto>,
    pub reason: String,
}

impl WithheldOfferDto {
    /// What the wire form says of the record it was rendered from.
    pub open spec fn shows(self, withheld: WithheldOffer) -> bool {
        &&& self.source_category == withheld.source_category
        &&& self.covers@ == withheld.covers@
        &&& relate::each(
            self.contains@,
            withheld.contains@,
            |dto: RowShapeDto, value: RowShape| dto.shows(value),
        )
        &&& self.reason == withheld.reason
    }

    /// The wire form of the record.
    pub fn from_domain(withheld: &WithheldOffer) -> (dto: Self)
        ensures
            dto.shows(*withheld),
    {
        Self {
            source_category: withheld.source_category.clone(),
            covers: withheld.covers.clone(),
            contains: map_each(&withheld.contains, RowShapeDto::from_domain),
            reason: withheld.reason.clone(),
        }
    }
}

/// The days a group runs between.
#[derive(Debug, Clone, Copy, PartialEq, Eq, Structural)]
pub struct DaySpanDto {
    pub earliest: Date,
    pub latest: Date,
}

impl DaySpanDto {
    /// What the wire form says of the record it was rendered from.
    pub open spec fn shows(self, days: DaySpan) -> bool {
        &&& self.earliest == days.earliest
        &&& self.latest == days.latest
    }

    /// The wire form of the record.
    pub fn from_domain(days: DaySpan) -> (dto: Self)
        ensures
            dto.shows(days),
    {
        Self {
            earliest: days.earliest,
            latest: days.latest,
        }
    }
}

/// What every member of a group states alike.
#[derive(Debug, Clone, PartialEq, Eq)]
pub struct SharedRowDto {
    pub account: Option<AccountCandidateDto>,
    pub currency: Option<CurrencyDto>,
    pub direction: Option<String>,
    pub counterparty: Option<String>,
    pub source_category: Option<String>,
    pub description: Option<String>,
}

impl SharedRowDto {
    /// What the wire form says of the record it was rendered from.
    pub open spec fn shows(self, common: SharedRow) -> bool {
        &&& relate::both(
            self.account,
            common.account,
            |dto: AccountCandidateDto, value: AccountCandidate| dto.shows(value),
        )
        &&& relate::both(
            self.currency,
            common.currency,
            |dto: CurrencyDto, value: CurrencyCode| dto.denotes() == value,
        )
        &&& relate::both(
            self.direction,
            common.movement,
            |text: String, movement: SharedMovement| text@ == movement.word(),
        )
        &&& self.counterparty == common.counterparty
        &&& self.source_category == common.source_category
        &&& self.description == common.description
    }

    /// The wire form of the record.
    pub fn from_domain(common: &SharedRow) -> (dto: Self)
        ensures
            dto.shows(*common),
    {
        Self {
            account: common.account.as_ref().map(AccountCandidateDto::from_domain),
            currency: common.currency.map(CurrencyDto::from_domain),
            direction: common.movement.map(shared_movement_code),
            counterparty: common.counterparty.clone(),
            source_category: common.source_category.clone(),
            description: common.description.clone(),
        }
    }
}

/// The smallest and the largest amount of a group, with the signs the source
/// printed.
#[derive(Debug, Clone, PartialEq, Eq)]
pub struct AmountSpanDto {
    pub smallest: String,
    pub largest: String,
}

impl AmountSpanDto {
    /// What the wire form says of the span.
    pub open spec fn shows(
        self,
        span: AmountSpan,
        currency: CurrencyCode,
        units: MinorUnits,
    ) -> bool {
        &&& self.smallest@ == amount::minor_text(span.smallest_minor, currency, units)
        &&& self.largest@ == amount::minor_text(span.largest_minor, currency, units)
    }
}

/// Open rows that are put to a person as one thing.
#[derive(Debug, Clone, PartialEq, Eq)]
pub struct RowGroupDto {
    /// What makes the rows one group.
    pub basis: String,
    pub rows: Vec<u32>,
    /// What every member states alike.
    pub common: SharedRowDto,
    pub days: Option<DaySpanDto>,
    /// Absent unless the members share a currency.
    pub amounts: Option<AmountSpanDto>,
    /// How far an answer must reach to settle the group.
    pub settles: String,
    pub question: OwnerQuestionDto,
}

impl RowGroupDto {
    /// What the wire form says of the group. Amounts over two currencies are a pair
    /// of numbers without a unit, and are left out.
    pub open spec fn shows(self, group: RowGroup, units: MinorUnits) -> bool {
        &&& self.basis@ == group.basis.word()
        &&& self.rows@ == group.rows@
        &&& self.common.shows(group.common)
        &&& relate::both(
            self.days,
            group.days,
            |dto: DaySpanDto, days: DaySpan| dto.shows(days),
        )
        &&& match (group.amounts, group.common.currency) {
            (Some(span), Some(currency)) => self.amounts matches Some(dto) && dto.shows(
                span,
                currency,
                units,
            ),
            _ => self.amounts is None,
        }
        &&& self.settles@ == group.settles.word()
        &&& self.question.shows(group.question)
    }

    /// The wire form of the group.
    pub fn from_domain(group: &RowGroup, units: &MinorUnits) -> (dto: Self)
        ensures
            dto.shows(*group, *units),
    {
        let amounts = match (group.amounts, group.common.currency) {
            (Some(span), Some(currency)) => Some(
                AmountSpanDto {
                    smallest: minor_amount(span.smallest_minor, currency, units),
                    largest: minor_amount(span.largest_minor, currency, units),
                },
            ),
            _ => None,
        };
        Self {
            basis: group.basis.code().to_owned(),
            rows: group.rows.clone(),
            common: SharedRowDto::from_domain(&group.common),
            days: group.days.map(DaySpanDto::from_domain),
            amounts,
            settles: group.settles.code().to_owned(),
            question: OwnerQuestionDto::from_domain(&group.question),
        }
    }
}

/// A span of amounts is never published without the currency it is in.
pub proof fn law_amounts_come_with_a_currency(dto: RowGroupDto, group: RowGroup, units: MinorUnits)
    requires
        dto.shows(group, units),
    ensures
        dto.amounts is Some ==> dto.common.currency is Some,
        dto.amounts is Some <==> group.amounts is Some && group.common.currency is Some,
{
}

/// The reach a group publishes is a word the answering call takes.
pub proof fn law_a_group_publishes_a_reach_that_can_be_sent(
    dto: RowGroupDto,
    group: RowGroup,
    units: MinorUnits,
)
    requires
        dto.shows(group, units),
    ensures
        dto.settles@ == "this_row"@ || dto.settles@ == "every_like_row_in_this_session"@,
{
}

/// What the rows are taken to be, and what is still asked.
#[derive(Debug, Clone, PartialEq, Eq)]
pub struct InterpretationDto {
    pub resolved: Vec<PlannedFactDto>,
    pub open_questions: Vec<OpenQuestionDto>,
    pub offered_rules: Vec<OfferedRuleDto>,
    pub withheld_offers: Vec<WithheldOfferDto>,
    /// The accounts an answer may name.
    pub answer_accounts: Vec<AccountCandidateDto>,
    pub groups: Vec<RowGroupDto>,
}

impl InterpretationDto {
    /// What the wire form says of the record it was rendered from.
    pub open spec fn shows(self, interpretation: Interpretation, units: MinorUnits) -> bool {
        &&& relate::each(
            self.resolved@,
            interpretation.resolved@,
            |dto: PlannedFactDto, value: PlannedFact| dto.shows(value, units),
        )
        &&& relate::each(
            self.open_questions@,
            interpretation.open_questions@,
            |dto: OpenQuestionDto, value: OpenQuestion| dto.shows(value, units),
        )
        &&& relate::each(
            self.offered_rules@,
            interpretation.offered_rules@,
            |dto: OfferedRuleDto, value: OfferedRule| dto.shows(value),
        )
        &&& relate::each(
            self.withheld_offers@,
            interpretation.withheld_offers@,
            |dto: WithheldOfferDto, value: WithheldOffer| dto.shows(value),
        )
        &&& relate::each(
            self.answer_accounts@,
            interpretation.answer_accounts@,
            |dto: AccountCandidateDto, value: AccountCandidate| dto.shows(value),
        )
        &&& relate::each(
            self.groups@,
            interpretation.groups@,
            |dto: RowGroupDto, value: RowGroup| dto.shows(value, units),
        )
    }

    /// The wire form of the record.
    pub fn from_domain(interpretation: &Interpretation, units: &MinorUnits) -> (dto: Self)
        ensures
            dto.shows(*interpretation, *units),
    {
        Self {
            resolved: map_each_with(&interpretation.resolved, units, PlannedFactDto::from_domain),
            open_questions: map_each_with(
                &interpretation.open_questions,
                units,
                OpenQuestionDto::from_domain,
            ),
            offered_rules: map_each(&interpretation.offered_rules, OfferedRuleDto::from_domain),
            withheld_offers: map_each(
                &interpretation.withheld_offers,
                WithheldOfferDto::from_domain,
            ),
            answer_accounts: map_each(
                &interpretation.answer_accounts,
                AccountCandidateDto::from_domain,
            ),
            groups: map_each_with(&interpretation.groups, units, RowGroupDto::from_domain),
        }
    }
}

/// How far a resemblance goes in the hierarchy of matches: it is the last level,
/// which proves nothing.
pub const RESEMBLANCE_LEVEL: u8 = 5;

/// A row the journal can prove nothing about, which looks like a fact it holds.
#[derive(Debug, Clone, PartialEq, Eq)]
pub struct ResemblingRowDto {
    pub row: u32,
    pub account: Uuid,
    pub records_as: String,
    pub settled_by: String,
    pub amount: String,
    pub currency: CurrencyDto,
    pub date: Option<Date>,
    pub idempotency_key: Option<String>,
    /// The event it resembles.
    pub resembles: Uuid,
    pub match_level: u8,
}

impl ResemblingRowDto {
    /// What the wire form says of the row.
    pub open spec fn shows(self, row: ResemblingRow, units: MinorUnits) -> bool {
        &&& self.row == row.fact.row
        &&& self.account == row.fact.account.0
        &&& self.records_as == row.fact.records_as
        &&& self.settled_by@ == row.fact.settled_by.word()
        &&& self.amount@ == amount::minor_text(row.fact.amount_minor, row.fact.currency, units)
        &&& self.currency.denotes() == row.fact.currency
        &&& self.date == row.fact.date
        &&& self.idempotency_key == row.fact.idempotency_key
        &&& self.resembles == row.resembles.0
        &&& self.match_level == RESEMBLANCE_LEVEL
    }

    /// The wire form of the row.
    pub fn from_domain(row: &ResemblingRow, units: &MinorUnits) -> (dto: Self)
        ensures
            dto.shows(*row, *units),
    {
        let fact = PlannedFactDto::from_domain(&row.fact, units);
        Self {
            row: fact.row,
            account: fact.account,
            records_as: fact.records_as,
            settled_by: fact.settled_by,
            amount: fact.amount,
            currency: fact.currency,
            date: fact.date,
            idempotency_key: fact.idempotency_key,
            resembles: row.resembles.0,
            match_level: RESEMBLANCE_LEVEL,
        }
    }
}

/// A row that is settled and correctly becomes no fact.
#[derive(Debug, Clone, PartialEq, Eq)]
pub struct SettledRowDto {
    pub row: u32,
    pub reason: String,
    pub explanation: String,
    /// The account two payment instruments belong to.
    pub account: Option<Uuid>,
    /// The row whose fact carries the movement.
    pub records: Option<u32>,
}

impl SettledRowDto {
    /// What the wire form says of the row.
    pub open spec fn shows(self, settled: SettledRow) -> bool {
        &&& self.row == settled.row
        &&& self.reason@ == settled.reason.word()
        &&& self.explanation == settled.explanation
        &&& match settled.reason {
            NoFactReason::OneAccountTwoInstruments { account } => self.account == Some(account.0)
                && self.records is None,
            NoFactReason::SecondLegOfOneMovement { records } => self.account is None
                && self.records == Some(records),
        }
    }

    /// The wire form of the row.
    pub fn from_domain(settled: &SettledRow) -> (dto: Self)
        ensures
            dto.shows(*settled),
    {
        let (account, records) = match settled.reason {
            NoFactReason::OneAccountTwoInstruments { account } => (Some(account.0), None),
            NoFactReason::SecondLegOfOneMovement { records } => (None, Some(records)),
        };
        Self {
            row: settled.row,
            reason: settled.reason.code().to_owned(),
            explanation: settled.explanation.clone(),
            account,
            records,
        }
    }
}

/// A settled row is about an account or about another row, and never about both.
pub proof fn law_a_settled_row_names_one_ground(dto: SettledRowDto, settled: SettledRow)
    requires
        dto.shows(settled),
    ensures
        dto.account is Some <==> dto.reason@ == "one_account_two_instruments"@,
        dto.records is Some <==> dto.reason@ == "second_leg_of_one_movement"@,
        dto.account is Some <==> dto.records is None,
{
    reveal_strlit("one_account_two_instruments");
    reveal_strlit("second_leg_of_one_movement");
    assert(dto.reason@[0] == settled.reason.word()[0]);
}

/// A row that stays in the session and becomes no fact.
#[derive(Debug, Clone, PartialEq, Eq)]
pub struct RetainedRowDto {
    pub row: u32,
    pub reason: String,
    pub question: Option<Uuid>,
    pub field: Option<String>,
    pub expected: Option<String>,
    pub actual: Option<String>,
}

impl RetainedRowDto {
    /// What the wire form says of the row.
    pub open spec fn shows(self, retained: RetainedRow) -> bool {
        &&& self.row == retained.row
        &&& match retained.reason {
            RetentionReason::Unreadable { field, expected, actual } => {
                &&& self.reason@ == "unreadable"@
                &&& self.question is None
                &&& self.field == Some(field)
                &&& self.expected == Some(expected)
                &&& self.actual == Some(actual)
            },
            RetentionReason::Unanswered { question } => {
                &&& self.reason@ == "unanswered"@
                &&& self.question == Some(question.0)
                &&& self.field is None
                &&& self.expected is None
                &&& self.actual is None
            },
        }
    }

    /// The wire form of the row.
    pub fn from_domain(retained: &RetainedRow) -> (dto: Self)
        ensures
            dto.shows(*retained),
    {
        match &retained.reason {
            RetentionReason::Unreadable { field, expected, actual } => Self {
                row: retained.row,
                reason: "unreadable".to_owned(),
                question: None,
                field: Some(field.clone()),
                expected: Some(expected.clone()),
                actual: Some(actual.clone()),
            },
            RetentionReason::Unanswered { question } => Self {
                row: retained.row,
                reason: "unanswered".to_owned(),
                question: Some(question.0),
                field: None,
                expected: None,
                actual: None,
            },
        }
    }
}

/// A retained row owes an answer or a repair, and never both.
pub proof fn law_a_retained_row_owes_one_thing(dto: RetainedRowDto, retained: RetainedRow)
    requires
        dto.shows(retained),
    ensures
        dto.question is Some <==> dto.field is None,
        dto.field is Some <==> dto.expected is Some,
        dto.field is Some <==> dto.actual is Some,
{
}

/// What the journal gains, and what it does not.
#[derive(Debug, Clone, PartialEq, Eq)]
pub struct CommitDeltaDto {
    pub facts: Vec<PlannedFactDto>,
    /// Rows the journal already holds.
    pub duplicates: Vec<PlannedFactDto>,
    /// Rows the journal holds no key for, and whose shape it already holds.
    pub resembles_recorded: Vec<ResemblingRowDto>,
    pub retained_unrecorded: Vec<RetainedRowDto>,
    pub settled_without_fact: Vec<SettledRowDto>,
    pub fact_origins: Vec<PlannedOriginDto>,
    pub fact_totals: Vec<BatchTotalDto>,
    pub duplicate_totals: Vec<BatchTotalDto>,
}

impl CommitDeltaDto {
    /// What the wire form says of the record it was rendered from.
    pub open spec fn shows(self, delta: CommitDelta, units: MinorUnits) -> bool {
        &&& relate::each(
            self.facts@,
            delta.facts@,
            |dto: PlannedFactDto, value: PlannedFact| dto.shows(value, units),
        )
        &&& relate::each(
            self.duplicates@,
            delta.duplicates@,
            |dto: PlannedFactDto, value: PlannedFact| dto.shows(value, units),
        )
        &&& relate::each(
            self.resembles_recorded@,
            delta.resembles_recorded@,
            |dto: ResemblingRowDto, value: ResemblingRow| dto.shows(value, units),
        )
        &&& relate::each(
            self.retained_unrecorded@,
            delta.retained_unrecorded@,
            |dto: RetainedRowDto, value: RetainedRow| dto.shows(value),
        )
        &&& relate::each(
            self.settled_without_fact@,
            delta.settled_without_fact@,
            |dto: SettledRowDto, value: SettledRow| dto.shows(value),
        )
        &&& relate::each(
            self.fact_origins@,
            delta.fact_origins@,
            |dto: PlannedOriginDto, value: PlannedOrigin| dto.shows(value),
        )
        &&& relate::each(
            self.fact_totals@,
            delta.fact_totals@,
            |dto: BatchTotalDto, value: BatchTotal| dto.shows(value, units),
        )
        &&& relate::each(
            self.duplicate_totals@,
            delta.duplicate_totals@,
            |dto: BatchTotalDto, value: BatchTotal| dto.shows(value, units),
        )
    }

    /// The wire form of the record.
    pub fn from_domain(delta: &CommitDelta, units: &MinorUnits) -> (dto: Self)
        ensures
            dto.shows(*delta, *units),
    {
        Self {
            facts: map_each_with(&delta.facts, units, PlannedFactDto::from_domain),
            duplicates: map_each_with(&delta.duplicates, units, PlannedFactDto::from_domain),
            resembles_recorded: map_each_with(
                &delta.resembles_recorded,
                units,
                ResemblingRowDto::from_domain,
            ),
            retained_unrecorded: map_each(&delta.retained_unrecorded, RetainedRowDto::from_domain),
            settled_without_fact: map_each(&delta.settled_without_fact, SettledRowDto::from_domain),
            fact_origins: map_each(&delta.fact_origins, PlannedOriginDto::from_domain),
            fact_totals: map_each_with(&delta.fact_totals, units, BatchTotalDto::from_domain),
            duplicate_totals: map_each_with(
                &delta.duplicate_totals,
                units,
                BatchTotalDto::from_domain,
            ),
        }
    }
}

/// One side of a cash movement, which may or may not be half of a transfer.
#[derive(Debug, Clone, PartialEq, Eq)]
pub struct TransferLegDto {
    /// The event, where the leg is recorded.
    pub event: Option<Uuid>,
    /// The session and the row, where the leg is still an observation.
    pub session: Option<Uuid>,
    pub row: Option<u32>,
    pub account: Uuid,
    pub direction: String,
    pub amount: String,
    pub currency: CurrencyDto,
    pub date: Date,
    pub reference: Option<String>,
    pub import: Option<Uuid>,
}

impl TransferLegDto {
    /// What the wire form says of the leg.
    pub open spec fn shows(self, leg: CashLeg, units: MinorUnits) -> bool {
        &&& match leg.origin {
            LegOrigin::Recorded { event } => self.event == Some(event.0) && self.session is None
                && self.row is None,
            LegOrigin::Observed { session, row } => self.event is None && self.session == Some(
                session.0,
            ) && self.row == Some(row),
        }
        &&& self.account == leg.account.0
        &&& self.direction@ == leg.direction.word()
        &&& self.amount@ == amount::minor_text(leg.amount_minor, leg.currency, units)
        &&& self.currency.denotes() == leg.currency
        &&& self.date == leg.date
        &&& self.reference == leg.reference
        &&& relate::both(self.import, leg.import, |uuid: Uuid, id: ImportId| uuid == id.0)
    }

    /// The wire form of the leg.
    pub fn from_domain(leg: &CashLeg, units: &MinorUnits) -> (dto: Self)
        ensures
            dto.shows(*leg, *units),
    {
        let (event, session, row) = match leg.origin {
            LegOrigin::Recorded { event } => (Some(event.0), None, None),
            LegOrigin::Observed { session, row } => (None, Some(session.0), Some(row)),
        };
        Self {
            event,
            session,
            row,
            account: leg.account.0,
            direction: movement_code(leg.direction),
            amount: minor_amount(leg.amount_minor, leg.currency, units),
            currency: CurrencyDto::from_domain(leg.currency),
            date: leg.date,
            reference: leg.reference.clone(),
            import: leg.import.map(ImportId::inner),
        }
    }
}

/// A leg is recorded or observed: it names an event, or a session and a row.
pub proof fn law_a_leg_names_one_origin(dto: TransferLegDto, leg: CashLeg, units: MinorUnits)
    requires
        dto.shows(leg, units),
    ensures
        dto.event is Some <==> dto.session is None,
        dto.session is Some <==> dto.row is Some,
{
}

/// What two legs agree on.
#[derive(Debug, Clone, PartialEq, Eq)]
pub struct PairingEvidenceDto {
    pub amount: String,
    pub currency: CurrencyDto,
    pub outgoing_date: Date,
    pub incoming_date: Date,
    pub days_apart: i64,
    pub outgoing_reference: Option<String>,
    pub incoming_reference: Option<String>,
    pub sole_candidate: bool,
}

impl PairingEvidenceDto {
    /// What the wire form says of the record it was rendered from.
    pub open spec fn shows(self, evidence: PairingEvidence, units: MinorUnits) -> bool {
        &&& self.amount@ == amount::minor_text(evidence.amount_minor, evidence.currency, units)
        &&& self.currency.denotes() == evidence.currency
        &&& self.outgoing_date == evidence.outgoing_date
        &&& self.incoming_date == evidence.incoming_date
        &&& self.days_apart == evidence.days_apart
        &&& self.outgoing_reference == evidence.outgoing_reference
        &&& self.incoming_reference == evidence.incoming_reference
        &&& self.sole_candidate == evidence.sole_candidate
    }

    /// The wire form of the record.
    pub fn from_domain(evidence: &PairingEvidence, units: &MinorUnits) -> (dto: Self)
        ensures
            dto.shows(*evidence, *units),
    {
        Self {
            amount: minor_amount(evidence.amount_minor, evidence.currency, units),
            currency: CurrencyDto::from_domain(evidence.currency),
            outgoing_date: evidence.outgoing_date,
            incoming_date: evidence.incoming_date,
            days_apart: evidence.days_apart,
            outgoing_reference: evidence.outgoing_reference.clone(),
            incoming_reference: evidence.incoming_reference.clone(),
            sole_candidate: evidence.sole_candidate,
        }
    }
}

/// Two legs that are proposed as one movement.
#[derive(Debug, Clone, PartialEq, Eq)]
pub struct PairingCandidateDto {
    pub outgoing: TransferLegDto,
    pub incoming: TransferLegDto,
    pub evidence: PairingEvidenceDto,
}

impl PairingCandidateDto {
    /// What the wire form says of the record it was rendered from.
    pub open spec fn shows(self, candidate: PairingCandidate, units: MinorUnits) -> bool {
        &&& self.outgoing.shows(candidate.outgoing, units)
        &&& self.incoming.shows(candidate.incoming, units)
        &&& self.evidence.shows(candidate.evidence, units)
    }

    /// The wire form of the record.
    pub fn from_domain(candidate: &PairingCandidate, units: &MinorUnits) -> (dto: Self)
        ensures
            dto.shows(*candidate, *units),
    {
        Self {
            outgoing: TransferLegDto::from_domain(&candidate.outgoing, units),
            incoming: TransferLegDto::from_domain(&candidate.incoming, units),
            evidence: PairingEvidenceDto::from_domain(&candidate.evidence, units),
        }
    }
}

/// Transfers that are proposed out of two movements, and the movements nothing
/// was paired with.
#[derive(Debug, Clone, PartialEq, Eq)]
pub struct CrossSourceMatchingDto {
    pub candidates: Vec<PairingCandidateDto>,
    pub without_counterpart: Vec<TransferLegDto>,
}

impl CrossSourceMatchingDto {
    /// What the wire form says of the record it was rendered from.
    pub open spec fn shows(self, proposals: Proposals, units: MinorUnits) -> bool {
        &&& relate::each(
            self.candidates@,
            proposals.candidates@,
            |dto: PairingCandidateDto, value: PairingCandidate| dto.shows(value, units),
        )
        &&& relate::each(
            self.without_counterpart@,
            proposals.unmatched@,
            |dto: TransferLegDto, value: CashLeg| dto.shows(value, units),
        )
    }

    /// The wire form of the record.
    pub fn from_domain(proposals: &Proposals, units: &MinorUnits) -> (dto: Self)
        ensures
            dto.shows(*proposals, *units),
    {
        Self {
            candidates: map_each_with(
                &proposals.candidates,
                units,
                PairingCandidateDto::from_domain,
            ),
            without_counterpart: map_each_with(
                &proposals.unmatched,
                units,
                TransferLegDto::from_domain,
            ),
        }
    }
}

/// Two recorded legs to relate.
#[derive(Debug, Clone, PartialEq, Eq)]
pub struct ConfirmTransferPairingRequest {
    pub outgoing: Uuid,
    pub incoming: Uuid,
    pub acknowledge_retraction: bool,
}

/// What confirming a pairing wrote. No transfer means that the journal already
/// held it.
#[derive(Debug, Clone, PartialEq, Eq)]
pub struct ConfirmedPairingDto {
    pub outgoing: Uuid,
    pub incoming: Uuid,
    pub transfer: Option<Uuid>,
}

impl ConfirmedPairingDto {
    /// What the wire form says of the record it was rendered from.
    pub open spec fn shows(self, confirmed: ConfirmedPairing) -> bool {
        &&& self.outgoing == confirmed.outgoing.0
        &&& self.incoming == confirmed.incoming.0
        &&& relate::both(self.transfer, confirmed.transfer, |uuid: Uuid, id: EventId| uuid == id.0)
    }

    /// The wire form of the record.
    pub fn from_domain(confirmed: &ConfirmedPairing) -> (dto: Self)
        ensures
            dto.shows(*confirmed),
    {
        Self {
            outgoing: confirmed.outgoing.0,
            incoming: confirmed.incoming.0,
            transfer: confirmed.transfer.map(EventId::inner),
        }
    }
}

/// What is said beside the word of a readiness: nothing where the session is ready,
/// the reason where it is blocked, the counts where it waits or does not reconcile.
pub open spec fn readiness_told(readiness: Readiness) -> Option<Seq<char>> {
    match readiness {
        Readiness::Ready => None,
        Readiness::Blocked { reason } => Some(reason@),
        Readiness::RequiresOwnerDecision {
            unanswered_questions,
            transfer_candidates,
            rows_resembling_recorded,
        } => Some(
            text::digits(unanswered_questions as nat) + " question(s) unanswered, "@ + text::digits(
                transfer_candidates as nat,
            ) + " transfer candidate(s) unconfirmed, "@ + text::digits(
                rows_resembling_recorded as nat,
            )
                + " row(s) resembling facts the journal already holds; see commit_delta.resembles_recorded"@,
        ),
        Readiness::DoesNotReconcile { mismatched_figures, misplaced_rows } => Some(
            text::digits(mismatched_figures as nat)
                + " control figure(s) the source printed do not agree with the rows, and "@
                + text::digits(misplaced_rows as nat)
                + " row(s) fall outside the interval it states; see control_reconciliation"@,
        ),
    }
}

/// What is said beside the word of a readiness.
pub fn readiness_detail(readiness: &Readiness) -> (detail: Option<String>)
    ensures
        relate::says(detail, readiness_told(*readiness)),
{
    match readiness {
        Readiness::Ready => None,
        Readiness::Blocked { reason } => Some(reason.clone()),
        Readiness::RequiresOwnerDecision {
            unanswered_questions,
            transfer_candidates,
            rows_resembling_recorded,
        } => {
            let mut detail = natural_text(*unanswered_questions as u64);
            detail.append(" question(s) unanswered, ");
            detail.append(natural_text(*transfer_candidates as u64).as_str());
            detail.append(" transfer candidate(s) unconfirmed, ");
            detail.append(natural_text(*rows_resembling_recorded as u64).as_str());
            detail.append(
                " row(s) resembling facts the journal already holds; see commit_delta.resembles_recorded",
            );
            Some(detail)
        },
        Readiness::DoesNotReconcile { mismatched_figures, misplaced_rows } => {
            let mut detail = natural_text(*mismatched_figures as u64);
            detail.append(
                " control figure(s) the source printed do not agree with the rows, and ",
            );
            detail.append(natural_text(*misplaced_rows as u64).as_str());
            detail.append(
                " row(s) fall outside the interval it states; see control_reconciliation",
            );
            Some(detail)
        },
    }
}

/// The assessment of a session.
#[derive(Debug, Clone, PartialEq, Eq)]
pub struct ImportPlanDto {
    pub session: ImportSessionDto,
    pub revision: String,
    pub source_inventory: SourceInventoryDto,
    pub account_resolution: AccountResolutionDto,
    pub scope_assessment: ScopeAssessmentDto,
    pub interpretation: InterpretationDto,
    pub cross_source_matching: CrossSourceMatchingDto,
    pub commit_delta: CommitDeltaDto,
    pub control_reconciliation: ControlReconciliationDto,
    pub readiness: String,
    pub readiness_detail: Option<String>,
}

impl ImportPlanDto {
    /// What the wire form says of the plan.
    pub open spec fn shows(self, plan: ImportPlan, units: MinorUnits) -> bool {
        &&& self.session.shows(plan.session)
        &&& self.revision == plan.revision
        &&& self.source_inventory.shows(plan.source_inventory)
        &&& self.account_resolution.shows(plan.account_resolution)
        &&& self.scope_assessment.shows(plan.scope_assessment)
        &&& self.interpretation.shows(plan.interpretation, units)
        &&& self.cross_source_matching.shows(plan.cross_source_matching, units)
        &&& self.commit_delta.shows(plan.commit_delta, units)
        &&& self.control_reconciliation.shows(plan.control_reconciliation, units)
        &&& self.readiness@ == plan.readiness.word()
        &&& relate::says(self.readiness_detail, readiness_told(plan.readiness))
    }

    /// The wire form of the plan.
    pub fn from_domain(plan: &ImportPlan, units: &MinorUnits) -> (dto: Self)
        requires
            plan.control_reconciliation.is_countable(),
        ensures
            dto.shows(*plan, *units),
    {
        Self {
            session: ImportSessionDto::from_domain(&plan.session),
            revision: plan.revision.clone(),
            source_inventory: SourceInventoryDto::from_domain(&plan.source_inventory),
            account_resolution: AccountResolutionDto::from_domain(&plan.account_resolution),
            scope_assessment: ScopeAssessmentDto::from_domain(&plan.scope_assessment),
            interpretation: InterpretationDto::from_domain(&plan.interpretation, units),
            cross_source_matching: CrossSourceMatchingDto::from_domain(
                &plan.cross_source_matching,
                units,
            ),
            commit_delta: CommitDeltaDto::from_domain(&plan.commit_delta, units),
            control_reconciliation: ControlReconciliationDto::from_domain(
                &plan.control_reconciliation,
                units,
            ),
            readiness: plan.readiness.code().to_owned(),
            readiness_detail: readiness_detail(&plan.readiness),
        }
    }
}

/// A plan says what stands in its way exactly where something does.
pub proof fn law_a_plan_that_is_not_ready_says_why(
    dto: ImportPlanDto,
    plan: ImportPlan,
    units: MinorUnits,
)
    requires
        dto.shows(plan, units),
    ensures
        dto.readiness_detail is None <==> plan.readiness is Ready,
        dto.readiness@ == "ready"@ <==> plan.readiness is Ready,
{
    reveal_strlit("ready");
    reveal_strlit("blocked");
    reveal_strlit("requires_owner_decision");
    reveal_strlit("does_not_reconcile");
    assert(dto.readiness@.len() == plan.readiness.word().len());
}

/// No row is lost between a plan and what is published of it: every list has one
/// entry for each of the plan's.
pub proof fn law_a_published_plan_loses_no_row(
    dto: ImportPlanDto,
    plan: ImportPlan,
    units: MinorUnits,
)
    requires
        dto.shows(plan, units),
    ensures
        dto.commit_delta.facts@.len() == plan.commit_delta.facts@.len(),
        dto.commit_delta.duplicates@.len() == plan.commit_delta.duplicates@.len(),
        dto.commit_delta.resembles_recorded@.len() == plan.commit_delta.resembles_recorded@.len(),
        dto.commit_delta.retained_unrecorded@.len()
            == plan.commit_delta.retained_unrecorded@.len(),
        dto.commit_delta.settled_without_fact@.len()
            == plan.commit_delta.settled_without_fact@.len(),
        dto.interpretation.open_questions@.len() == plan.interpretation.open_questions@.len(),
        dto.cross_source_matching.candidates@.len()
            == plan.cross_source_matching.candidates@.len(),
        dto.cross_source_matching.without_counterpart@.len()
            == plan.cross_source_matching.unmatched@.len(),
{
}

/// A question that was settled without an answer and the row it is about carry one
/// word for one determination, wherever the row is published.
pub proof fn law_one_determination_has_one_word(
    settled: QuestionSettlementDto,
    settlement: QuestionSettlement,
    fact: PlannedFactDto,
    planned: PlannedFact,
    without_fact: SettledRowDto,
    row: SettledRow,
    held: ImportRowDto,
    held_row: HeldRow,
    units: MinorUnits,
)
    requires
        settled.shows(settlement),
        fact.shows(planned, units),
        without_fact.shows(row),
        held.shows(held_row),
        held_row matches HeldRow::Settled { row: position, reason, explanation } ==> reason
            == row.reason,
    ensures
        match settlement {
            QuestionSettlement::Fact { basis, explanation } => basis == planned.settled_by
                ==> settled.code@ == fact.settled_by@,
            QuestionSettlement::NoFact { reason, explanation } => reason == row.reason
                ==> settled.code@ == without_fact.reason@,
        },
        held.reason matches Some(reason) ==> reason@ == without_fact.reason@,
{
}

/// A rule is named exactly where a rule settled the row.
pub proof fn law_a_rule_is_named_where_it_settled(
    fact: PlannedFactDto,
    planned: PlannedFact,
    units: MinorUnits,
)
    requires
        fact.shows(planned, units),
    ensures
        fact.settled_by_rule is Some <==> fact.settled_by@ == "rule"@,
{
    reveal_strlit("concluded");
    reveal_strlit("directory");
    reveal_strlit("source_asserted");
    reveal_strlit("rule");
    reveal_strlit("answered");
    assert(fact.settled_by@.len() == planned.settled_by.word().len());
}

/// A `SourceInventoryDto` tells each part of what it shows in a field of its own.
pub proof fn law_source_inventory_is_told_part_by_part(
    dto: SourceInventoryDto,
    inventory: SourceInventory,
)
    requires
        dto.shows(inventory),
    ensures
        match (dto.source, inventory.source) {
            (Some(told), Some(meant)) => told == meant.0,
            (None, None) => true,
            _ => false,
        },
        match (dto.import, inventory.import) {
            (Some(told), Some(meant)) => told == meant.0,
            (None, None) => true,
            _ => false,
        },
        dto.documents@ == inventory.documents@,
        dto.row_count == inventory.rows,
        dto.period_from == (
            match inventory.period { Some(period) => Some(period.from), None => None }
        ),
        dto.period_to == (
            match inventory.period { Some(period) => Some(period.to), None => None }
        ),
        dto.accounts@.len() == inventory.accounts@.len(),
        forall|i: int| 0 <= i < inventory.accounts@.len() ==> (
            #[trigger] dto.accounts@[i]
        ) == inventory.accounts@[i].0,
{
}

/// An `AccountResolutionDto` tells each part of what it shows in a field of its own.
pub proof fn law_account_resolution_is_told_part_by_part(
    dto: AccountResolutionDto,
    resolution: AccountResolution,
)
    requires
        dto.shows(resolution),
    ensures
        dto.resolved@.len() == resolution.resolved@.len(),
        forall|i: int| 0 <= i < resolution.resolved@.len() ==> (
            #[trigger] dto.resolved@[i]
        ) == resolution.resolved@[i].0,
        dto.missing@.len() == resolution.missing@.len(),
        forall|i: int| 0 <= i < resolution.missing@.len() ==> (
            #[trigger] dto.missing@[i]
        ) == resolution.missing@[i].0,
        dto.conflicting@ == resolution.conflicting@,
        dto.unrecognised@ == resolution.unrecognised@,
{
}

/// A `ScopeAssessmentDto` tells each part of what it shows in a field of its own.
pub proof fn law_scope_assessment_is_told_part_by_part(
    dto: ScopeAssessmentDto,
    scope: ScopeAssessment,
)
    requires
        dto.shows(scope),
    ensures
        dto.in_contour@.len() == scope.in_contour@.len(),
        forall|i: int| 0 <= i < scope.in_contour@.len() ==> (
            #[trigger] dto.in_contour@[i]
        ) == scope.in_contour@[i].0,
        dto.explicitly_outside@.len() == scope.explicitly_outside@.len(),
        forall|i: int| 0 <= i < scope.explicitly_outside@.len() ==> (
            #[trigger] dto.explicitly_outside@[i]
        ) == scope.explicitly_outside@[i].0,
        dto.awaiting_disposition@.len() == scope.awaiting_disposition@.len(),
        forall|i: int| 0 <= i < scope.awaiting_disposition@.len() ==> (
            #[trigger] dto.awaiting_disposition@[i]
        ) == scope.awaiting_disposition@[i].0,
{
}

/// A `PlannedOriginDto` tells each part of what it shows in a field of its own.
pub proof fn law_planned_origin_is_told_part_by_part(
    dto: PlannedOriginDto,
    origin: PlannedOrigin,
)
    requires
        dto.shows(origin),
    ensures
        dto.account == origin.account.0,
        dto.source == origin.source.0,
        match (dto.import, origin.import) {
            (Some(told), Some(meant)) => told == meant.0,
            (None, None) => true,
            _ => false,
        },
{
}

/// A `PlannedFactDto` tells each part of what it shows in a field of its own.
pub proof fn law_planned_fact_is_told_part_by_part(
    dto: PlannedFactDto,
    fact: PlannedFact,
    units: MinorUnits,
)
    requires
        dto.shows(fact, units),
    ensures
        dto.row == fact.row,
        dto.account == fact.account.0,
        dto.records_as == fact.records_as,
        dto.settled_by@ == fact.settled_by.word(),
        dto.settled_by_explanation == fact.settled_by_explanation,
        dto.settled_by_rule == (
            match fact.settled_by { FactBasis::Rule { rule, version } => Some(rule), _ => None }
        ),
        dto.amount@ == amount::minor_text(fact.amount_minor, fact.currency, units),
        dto.currency.denotes() == fact.currency,
        dto.date == fact.date,
        dto.idempotency_key == fact.idempotency_key,
{
}

/// A `PrintedRowDto` tells each part of what it shows in a field of its own.
pub proof fn law_printed_row_is_told_part_by_part(
    dto: PrintedRowDto,
    printed: PrintedRow,
    units: MinorUnits,
)
    requires
        dto.shows(printed, units),
    ensures
        dto.account == printed.account.0,
        dto.title == printed.title,
        dto.institution == printed.institution,
        dto.amount@ == amount::minor_text(printed.amount_minor, printed.currency, units),
        dto.currency.denotes() == printed.currency,
        dto.date == printed.date,
        match (dto.direction, printed.movement) {
            (Some(told), Some(meant)) => told@ == meant.word(),
            (None, None) => true,
            _ => false,
        },
        dto.counterparty == printed.counterparty,
        dto.source_category == printed.source_category,
{
}

/// A `RowShapeDto` tells each part of what it shows in a field of its own.
pub proof fn law_row_shape_is_told_part_by_part(
    dto: RowShapeDto,
    shape: RowShape,
)
    requires
        dto.shows(shape),
    ensures
        match (dto.direction, shape.movement) {
            (Some(told), Some(meant)) => told@ == meant.word(),
            (None, None) => true,
            _ => false,
        },
        dto.counterparty_named == shape.counterparty_named,
        dto.rows@ == shape.rows@,
{
}

/// A `MirroredPairDto` tells each part of what it shows in a field of its own.
pub proof fn law_mirrored_pair_is_told_part_by_part(
    dto: MirroredPairDto,
    pair: MirroredPair,
)
    requires
        dto.shows(pair),
    ensures
        dto.id == pair.id,
        dto.row == pair.row,
{
}

/// An `OpenQuestionDto` tells each part of what it shows in a field of its own.
pub proof fn law_open_question_is_told_part_by_part(
    dto: OpenQuestionDto,
    open: OpenQuestion,
    units: MinorUnits,
)
    requires
        dto.shows(open, units),
    ensures
        dto.row == open.row,
        dto.question == open.question.0,
        dto.prompt == open.prompt,
        match (dto.printed, open.printed) {
            (Some(told), Some(meant)) => told.shows(meant, units),
            (None, None) => true,
            _ => false,
        },
        dto.alternatives@.len() == open.alternatives@.len(),
        forall|i: int| 0 <= i < open.alternatives@.len() ==> (
            #[trigger] dto.alternatives@[i]
        ).shows(open.alternatives@[i]),
        dto.alike@ == open.alike@,
        match (dto.pair, open.pair) {
            (Some(told), Some(meant)) => told.shows(meant),
            (None, None) => true,
            _ => false,
        },
{
}

/// An `OfferedRuleDto` tells each part of what it shows in a field of its own.
pub proof fn law_offered_rule_is_told_part_by_part(
    dto: OfferedRuleDto,
    offered: OfferedRule,
)
    requires
        dto.shows(offered),
    ensures
        dto.matcher.shows(offered.matcher),
        dto.question.shows(offered.question),
        dto.covers@ == offered.covers@,
        dto.contains.shows(offered.contains),
{
}

/// A `WithheldOfferDto` tells each part of what it shows in a field of its own.
pub proof fn law_withheld_offer_is_told_part_by_part(
    dto: WithheldOfferDto,
    withheld: WithheldOffer,
)
    requires
        dto.shows(withheld),
    ensures
        dto.source_category == withheld.source_category,
        dto.covers@ == withheld.covers@,
        dto.contains@.len() == withheld.contains@.len(),
        forall|i: int| 0 <= i < withheld.contains@.len() ==> (
            #[trigger] dto.contains@[i]
        ).shows(withheld.contains@[i]),
        dto.reason == withheld.reason,
{
}

/// A `DaySpanDto` tells each part of what it shows in a field of its own.
pub proof fn law_day_span_is_told_part_by_part(
    dto: DaySpanDto,
    days: DaySpan,
)
    requires
        dto.shows(days),
    ensures
        dto.earliest == days.earliest,
        dto.latest == days.latest,
{
}

/// A `SharedRowDto` tells each part of what it shows in a field of its own.
pub proof fn law_shared_row_is_told_part_by_part(
    dto: SharedRowDto,
    common: SharedRow,
)
    requires
        dto.shows(common),
    ensures
        match (dto.account, common.account) {
            (Some(told), Some(meant)) => told.shows(meant),
            (None, None) => true,
            _ => false,
        },
        match (dto.currency, common.currency) {
            (Some(told), Some(meant)) => told.denotes() == meant,
            (None, None) => true,
            _ => false,
        },
        match (dto.direction, common.movement) {
            (Some(told), Some(meant)) => told@ == meant.word(),
            (None, None) => true,
            _ => false,
        },
        dto.counterparty == common.counterparty,
        dto.source_category == common.source_category,
        dto.description == common.description,
{
}

/// An `AmountSpanDto` tells each part of what it shows in a field of its own.
pub proof fn law_amount_span_is_told_part_by_part(
    dto: AmountSpanDto,
    span: AmountSpan,
    currency: CurrencyCode,
    units: MinorUnits,
)
    requires
        dto.shows(span, currency, units),
    ensures
        dto.smallest@ == amount::minor_text(span.smallest_minor, currency, units),
        dto.largest@ == amount::minor_text(span.largest_minor, currency, units),
{
}

/// A `RowGroupDto` tells each part of what it shows in a field of its own.
pub proof fn law_row_group_is_told_part_by_part(
    dto: RowGroupDto,
    group: RowGroup,
    units: MinorUnits,
)
    requires
        dto.shows(group, units),
    ensures
        dto.basis@ == group.basis.word(),
        dto.rows@ == group.rows@,
        dto.common.shows(group.common),
        match (dto.days, group.days) {
            (Some(told), Some(meant)) => told.shows(meant),
            (None, None) => true,
            _ => false,
        },
        match (group.amounts, group.common.currency) {
            (Some(span), Some(currency)) => dto.amounts matches Some(dto) && dto.shows(
                span,
                currency,
                units,
            ),
            _ => dto.amounts is None,
        },
        dto.settles@ == group.settles.word(),
        dto.question.shows(group.question),
{
}

/// An `InterpretationDto` tells each part of what it shows in a field of its own.
pub proof fn law_interpretation_is_told_part_by_part(
    dto: InterpretationDto,
    interpretation: Interpretation,
    units: MinorUnits,
)
    requires
        dto.shows(interpretation, units),
    ensures
        dto.resolved@.len() == interpretation.resolved@.len(),
        forall|i: int| 0 <= i < interpretation.resolved@.len() ==> (#[trigger] dto.resolved@[i]).shows(
            interpretation.resolved@[i],
            units,
        ),
        dto.open_questions@.len() == interpretation.open_questions@.len(),
        forall|i: int| 0 <= i < interpretation.open_questions@.len() ==> (#[trigger] dto.open_questions@[i]).shows(
            interpretation.open_questions@[i],
            units,
        ),
        dto.offered_rules@.len() == interpretation.offered_rules@.len(),
        forall|i: int| 0 <= i < interpretation.offered_rules@.len() ==> (
            #[trigger] dto.offered_rules@[i]
        ).shows(interpretation.offered_rules@[i]),
        dto.withheld_offers@.len() == interpretation.withheld_offers@.len(),
        forall|i: int| 0 <= i < interpretation.withheld_offers@.len() ==> (
            #[trigger] dto.withheld_offers@[i]
        ).shows(interpretation.withheld_offers@[i]),
        dto.answer_accounts@.len() == interpretation.answer_accounts@.len(),
        forall|i: int| 0 <= i < interpretation.answer_accounts@.len() ==> (
            #[trigger] dto.answer_accounts@[i]
        ).shows(interpretation.answer_accounts@[i]),
        dto.groups@.len() == interpretation.groups@.len(),
        forall|i: int| 0 <= i < interpretation.groups@.len() ==> (#[trigger] dto.groups@[i]).shows(
            interpretation.groups@[i],
            units,
        ),
{
}

/// A `ResemblingRowDto` tells each part of what it shows in a field of its own.
pub proof fn law_resembling_row_is_told_part_by_part(
    dto: ResemblingRowDto,
    row: ResemblingRow,
    units: MinorUnits,
)
    requires
        dto.shows(row, units),
    ensures
        dto.row == row.fact.row,
        dto.account == row.fact.account.0,
        dto.records_as == row.fact.records_as,
        dto.settled_by@ == row.fact.settled_by.word(),
        dto.amount@ == amount::minor_text(row.fact.amount_minor, row.fact.currency, units),
        dto.currency.denotes() == row.fact.currency,
        dto.date == row.fact.date,
        dto.idempotency_key == row.fact.idempotency_key,
        dto.resembles == row.resembles.0,
        dto.match_level == RESEMBLANCE_LEVEL,
{
}

/// A `SettledRowDto` tells each part of what it shows in a field of its own.
pub proof fn law_settled_row_is_told_part_by_part(
    dto: SettledRowDto,
    settled: SettledRow,
)
    requires
        dto.shows(settled),
    ensures
        dto.row == settled.row,
        dto.reason@ == settled.reason.word(),
        dto.explanation == settled.explanation,
        match settled.reason {
            NoFactReason::OneAccountTwoInstruments { account } => dto.account == Some(account.0)
                && dto.records is None,
            NoFactReason::SecondLegOfOneMovement { records } => dto.account is None
                && dto.records == Some(records),
        },
{
}

/// A `RetainedRowDto` tells each part of what it shows in a field of its own.
pub proof fn law_retained_row_is_told_part_by_part(
    dto: RetainedRowDto,
    retained: RetainedRow,
)
    requires
        dto.shows(retained),
    ensures
        dto.row == retained.row,
        match retained.reason {
            RetentionReason::Unreadable { field, expected, actual } => {
                &&& dto.reason@ == "unreadable"@
                &&& dto.question is None
                &&& dto.field == Some(field)
                &&& dto.expected == Some(expected)
                &&& dto.actual == Some(actual)
            },
            RetentionReason::Unanswered { question } => {
                &&& dto.reason@ == "unanswered"@
                &&& dto.question == Some(question.0)
                &&& dto.field is None
                &&& dto.expected is None
                &&& dto.actual is None
            },
        },
{
}

/// A `CommitDeltaDto` tells each part of what it shows in a field of its own.
pub proof fn law_commit_delta_is_told_part_by_part(
    dto: CommitDeltaDto,
    delta: CommitDelta,
    units: MinorUnits,
)
    requires
        dto.shows(delta, units),
    ensures
        dto.facts@.len() == delta.facts@.len(),
        forall|i: int| 0 <= i < delta.facts@.len() ==> (
            #[trigger] dto.facts@[i]
        ).shows(delta.facts@[i], units),
        dto.duplicates@.len() == delta.duplicates@.len(),
        forall|i: int| 0 <= i < delta.duplicates@.len() ==> (
            #[trigger] dto.duplicates@[i]
        ).shows(delta.duplicates@[i], units),
        dto.resembles_recorded@.len() == delta.resembles_recorded@.len(),
        forall|i: int| 0 <= i < delta.resembles_recorded@.len() ==> (
            #[trigger] dto.resembles_recorded@[i]
        ).shows(delta.resembles_recorded@[i], units),
        dto.retained_unrecorded@.len() == delta.retained_unrecorded@.len(),
        forall|i: int| 0 <= i < delta.retained_unrecorded@.len() ==> (
            #[trigger] dto.retained_unrecorded@[i]
        ).shows(delta.retained_unrecorded@[i]),
        dto.settled_without_fact@.len() == delta.settled_without_fact@.len(),
        forall|i: int| 0 <= i < delta.settled_without_fact@.len() ==> (
            #[trigger] dto.settled_without_fact@[i]
        ).shows(delta.settled_without_fact@[i]),
        dto.fact_origins@.len() == delta.fact_origins@.len(),
        forall|i: int| 0 <= i < delta.fact_origins@.len() ==> (
            #[trigger] dto.fact_origins@[i]
        ).shows(delta.fact_origins@[i]),
        dto.fact_totals@.len() == delta.fact_totals@.len(),
        forall|i: int| 0 <= i < delta.fact_totals@.len() ==> (
            #[trigger] dto.fact_totals@[i]
        ).shows(delta.fact_totals@[i], units),
        dto.duplicate_totals@.len() == delta.duplicate_totals@.len(),
        forall|i: int| 0 <= i < delta.duplicate_totals@.len() ==> (
            #[trigger] dto.duplicate_totals@[i]
        ).shows(delta.duplicate_totals@[i], units),
{
}

/// A `TransferLegDto` tells each part of what it shows in a field of its own.
pub proof fn law_transfer_leg_is_told_part_by_part(
    dto: TransferLegDto,
    leg: CashLeg,
    units: MinorUnits,
)
    requires
        dto.shows(leg, units),
    ensures
        match leg.origin {
            LegOrigin::Recorded { event } => dto.event == Some(event.0) && dto.session is None
                && dto.row is None,
            LegOrigin::Observed { session, row } => dto.event is None && dto.session == Some(
                session.0,
            ) && dto.row == Some(row),
        },
        dto.account == leg.account.0,
        dto.direction@ == leg.direction.word(),
        dto.amount@ == amount::minor_text(leg.amount_minor, leg.currency, units),
        dto.currency.denotes() == leg.currency,
        dto.date == leg.date,
        dto.reference == leg.reference,
        match (dto.import, leg.import) {
            (Some(told), Some(meant)) => told == meant.0,
            (None, None) => true,
            _ => false,
        },
{
}

/// A `PairingEvidenceDto` tells each part of what it shows in a field of its own.
pub proof fn law_pairing_evidence_is_told_part_by_part(
    dto: PairingEvidenceDto,
    evidence: PairingEvidence,
    units: MinorUnits,
)
    requires
        dto.shows(evidence, units),
    ensures
        dto.amount@ == amount::minor_text(evidence.amount_minor, evidence.currency, units),
        dto.currency.denotes() == evidence.currency,
        dto.outgoing_date == evidence.outgoing_date,
        dto.incoming_date == evidence.incoming_date,
        dto.days_apart == evidence.days_apart,
        dto.outgoing_reference == evidence.outgoing_reference,
        dto.incoming_reference == evidence.incoming_reference,
        dto.sole_candidate == evidence.sole_candidate,
{
}

/// A `PairingCandidateDto` tells each part of what it shows in a field of its own.
pub proof fn law_pairing_candidate_is_told_part_by_part(
    dto: PairingCandidateDto,
    candidate: PairingCandidate,
    units: MinorUnits,
)
    requires
        dto.shows(candidate, units),
    ensures
        dto.outgoing.shows(candidate.outgoing, units),
        dto.incoming.shows(candidate.incoming, units),
        dto.evidence.shows(candidate.evidence, units),
{
}

/// A `CrossSourceMatchingDto` tells each part of what it shows in a field of its own.
pub proof fn law_cross_source_matching_is_told_part_by_part(
    dto: CrossSourceMatchingDto,
    proposals: Proposals,
    units: MinorUnits,
)
    requires
        dto.shows(proposals, units),
    ensures
        dto.candidates@.len() == proposals.candidates@.len(),
        forall|i: int| 0 <= i < proposals.candidates@.len() ==> (#[trigger] dto.candidates@[i]).shows(
            proposals.candidates@[i],
            units,
        ),
        dto.without_counterpart@.len() == proposals.unmatched@.len(),
        forall|i: int| 0 <= i < proposals.unmatched@.len() ==> (
            #[trigger] dto.without_counterpart@[i]
        ).shows(proposals.unmatched@[i], units),
{
}

/// A `ConfirmedPairingDto` tells each part of what it shows in a field of its own.
pub proof fn law_confirmed_pairing_is_told_part_by_part(
    dto: ConfirmedPairingDto,
    confirmed: ConfirmedPairing,
)
    requires
        dto.shows(confirmed),
    ensures
        dto.outgoing == confirmed.outgoing.0,
        dto.incoming == confirmed.incoming.0,
        match (dto.transfer, confirmed.transfer) {
            (Some(told), Some(meant)) => told == meant.0,
            (None, None) => true,
            _ => false,
        },
{
}

/// An `ImportPlanDto` tells each part of what it shows in a field of its own.
pub proof fn law_import_plan_is_told_part_by_part(
    dto: ImportPlanDto,
    plan: ImportPlan,
    units: MinorUnits,
)
    requires
        dto.shows(plan, units),
    ensures
        dto.session.shows(plan.session),
        dto.revision == plan.revision,
        dto.source_inventory.shows(plan.source_inventory),
        dto.account_resolution.shows(plan.account_resolution),
        dto.scope_assessment.shows(plan.scope_assessment),
        dto.interpretation.shows(plan.interpretation, units),
        dto.cross_source_matching.shows(plan.cross_source_matching, units),
        dto.commit_delta.shows(plan.commit_delta, units),
        dto.control_reconciliation.shows(plan.control_reconciliation, units),
        dto.readiness@ == plan.readiness.word(),
        relate::says(dto.readiness_detail, readiness_told(plan.readiness)),
{
}

/// Each readiness is told in its own sentence, with its own counts in their places.
pub proof fn law_each_readiness_is_told_with_its_own_counts(readiness: Readiness)
    ensures
        readiness is Ready ==> readiness_told(readiness) is None,
        readiness matches Readiness::Blocked { reason } ==> readiness_told(readiness) == Some(
            reason@,
        ),
        readiness matches Readiness::RequiresOwnerDecision {
            unanswered_questions,
            transfer_candidates,
            rows_resembling_recorded,
        } ==> readiness_told(readiness) == Some(
            text::digits(unanswered_questions as nat) + " question(s) unanswered, "@ + text::digits(
                transfer_candidates as nat,
            ) + " transfer candidate(s) unconfirmed, "@ + text::digits(
                rows_resembling_recorded as nat,
            )
                + " row(s) resembling facts the journal already holds; see commit_delta.resembles_recorded"@,
        ),
        readiness matches Readiness::DoesNotReconcile { mismatched_figures, misplaced_rows }
            ==> readiness_told(readiness) == Some(
            text::digits(mismatched_figures as nat)
                + " control figure(s) the source printed do not agree with the rows, and "@
                + text::digits(misplaced_rows as nat)
                + " row(s) fall outside the interval it states; see control_reconciliation"@,
        ),
{
}

} // verus!
