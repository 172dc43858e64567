//! Classification rules on the wire. What a rule is read as is what it may be
//! sent back as.

use crate::ids::{AccountId, Uuid};
use crate::ledger::rule::{
    ClassificationRuleView, ClassifiedAs, OutcomeWords, ParsedRule, PlannedCorrection, RuleChange,
    RuleMatcher,
};
use crate::relate::map_each;
use crate::relate;
use vstd::prelude::*;

verus! {

/// What a rule asks of a row. Every member narrows; the members that are there
/// are joined.
#[derive(Debug, Clone, PartialEq, Eq)]
pub struct RuleMatcherDto {
    /// The counterparty the source printed, matched exactly.
    pub counterparty_account: Option<String>,
    /// A substring of the payment purpose.
    pub description_contains: Option<String>,
    /// The word the source used for the operation.
    pub kind: Option<String>,
    /// The category the source filed the row under.
    pub source_category: Option<String>,
}

impl RuleMatcherDto {
    /// What the wire form says of the record it was rendered from.
    pub open spec fn shows(self, matcher: RuleMatcher) -> bool {
        &&& self.counterparty_account == matcher.counterparty_account
        &&& self.description_contains == matcher.description_contains
        &&& self.kind == matcher.kind
        &&& self.source_category == matcher.source_category
    }

    /// The wire form of the record.
    pub fn from_domain(matcher: &RuleMatcher) -> (dto: Self)
        ensures
            dto.shows(*matcher),
    {
        Self {
            counterparty_account: matcher.counterparty_account.clone(),
            description_contains: matcher.description_contains.clone(),
            kind: matcher.kind.clone(),
            source_category: matcher.source_category.clone(),
        }
    }
}

/// A classification, in the words a rule is written in.
#[derive(Debug, Clone, PartialEq, Eq)]
pub struct ClassifiedAsDto {
    /// One of the kinds a rule may decide.
    pub kind: String,
    /// The receiving account of a transfer.
    pub to: Option<Uuid>,
    /// The origin of a fee.
    pub origin: Option<String>,
    /// The earning an income is.
    pub income_kind: Option<String>,
}

impl ClassifiedAsDto {
    /// What the wire form says of the record it was rendered from.
    pub open spec fn shows(self, classification: ClassifiedAs) -> bool {
        &&& self.kind == classification.kind
        &&& relate::both(self.to, classification.to, |uuid: Uuid, id: AccountId| uuid == id.0)
        &&& self.origin == classification.origin
        &&& self.income_kind == classification.income_kind
    }

    /// The wire form of the record.
    pub fn from_domain(classification: &ClassifiedAs) -> (dto: Self)
        ensures
            dto.shows(*classification),
    {
        Self {
            kind: classification.kind.clone(),
            to: classification.to.map(AccountId::inner),
            origin: classification.origin.clone(),
            income_kind: classification.income_kind.clone(),
        }
    }
}

impl RuleMatcherDto {
    /// The matcher of the ledger.
    pub fn to_domain(&self) -> (matcher: RuleMatcher)
        ensures
            self.shows(matcher),
    {
        RuleMatcher {
            counterparty_account: self.counterparty_account.clone(),
            description_contains: self.description_contains.clone(),
            kind: self.kind.clone(),
            source_category: self.source_category.clone(),
        }
    }
}

/// A matcher survives the way out and the way back: a form shows one matcher and no
/// other.
pub proof fn law_a_matcher_reads_back(
    dto: RuleMatcherDto,
    matcher: RuleMatcher,
    again: RuleMatcher,
)
    requires
        dto.shows(matcher),
        dto.shows(again),
    ensures
        again == matcher,
{
}

impl ClassifiedAsDto {
    /// What is handed to the reader of stored rules: the words as they came, the
    /// account as text.
    pub open spec fn states(self, words: OutcomeWords) -> bool {
        &&& words.kind == self.kind
        &&& relate::both(words.to, self.to, |text: String, account: Uuid| text@ == account.text())
        &&& words.origin == self.origin
        &&& words.income_kind == self.income_kind
    }

    /// The words for the reader of stored rules. There is one reader of them, and it
    /// is not here: a word that is accepted is one the classifier can act on.
    pub fn to_domain(&self) -> (words: OutcomeWords)
        ensures
            self.states(words),
    {
        OutcomeWords {
            kind: self.kind.clone(),
            to: match &self.to {
                Some(account) => Some(account.to_text()),
                None => None,
            },
            origin: self.origin.clone(),
            income_kind: self.income_kind.clone(),
        }
    }
}

/// A classification read off the wire and sent back states the words it was listed
/// with.
pub proof fn law_a_classification_may_be_sent_back(
    dto: ClassifiedAsDto,
    classification: ClassifiedAs,
    words: OutcomeWords,
)
    requires
        dto.shows(classification),
        dto.states(words),
    ensures
        words.kind == classification.kind,
        match classification.to {
            Some(account) => words.to matches Some(text) && text@ == account.0.text(),
            None => words.to is None,
        },
        words.origin == classification.origin,
        words.income_kind == classification.income_kind,
{
}

/// A classification rule.
#[derive(Debug, Clone, PartialEq, Eq)]
pub struct ClassificationRuleDto {
    pub id: Uuid,
    pub version: u64,
    pub matcher: RuleMatcherDto,
    pub outcome: ClassifiedAsDto,
    pub created_at: String,
    pub retired_at: Option<String>,
    pub replaces: Option<Uuid>,
}

impl ClassificationRuleDto {
    /// What the wire form says of a stored rule and of what was read out of it.
    pub open spec fn shows(self, rule: ClassificationRuleView, parsed: ParsedRule) -> bool {
        &&& self.id == rule.id
        &&& self.version == parsed.version
        &&& self.matcher.shows(parsed.matcher)
        &&& self.outcome.shows(parsed.outcome)
        &&& self.created_at == rule.created_at
        &&& self.retired_at == rule.retired_at
        &&& self.replaces == rule.replaces
    }

    /// A stored rule and what the classifier reads in it, or the failure of that
    /// reading: a stored rule can hold what the classifier cannot read.
    pub fn from_port<E>(rule: ClassificationRuleView, parsed: Result<ParsedRule, E>) -> (rendered:
        Result<Self, E>)
        ensures
            match parsed {
                Ok(parsed) => rendered matches Ok(dto) && dto.shows(rule, parsed),
                Err(failure) => rendered == Err::<Self, E>(failure),
            },
    {
        match parsed {
            Ok(parsed) => Ok(
                Self {
                    id: rule.id,
                    version: parsed.version as u64,
                    matcher: RuleMatcherDto::from_domain(&parsed.matcher),
                    outcome: ClassifiedAsDto::from_domain(&parsed.outcome),
                    created_at: rule.created_at,
                    retired_at: rule.retired_at,
                    replaces: rule.replaces,
                },
            ),
            Err(failure) => Err(failure),
        }
    }
}

/// An event a change of the rules requires to be corrected.
#[derive(Debug, Clone, PartialEq, Eq)]
pub struct PlannedCorrectionDto {
    pub event: Uuid,
    pub was: ClassifiedAsDto,
    pub becomes: ClassifiedAsDto,
}

impl PlannedCorrectionDto {
    /// What the wire form says of the record it was rendered from.
    pub open spec fn shows(self, correction: PlannedCorrection) -> bool {
        &&& self.event == correction.event.0
        &&& self.was.shows(correction.was)
        &&& self.becomes.shows(correction.becomes)
    }

    /// The wire form of the record.
    pub fn from_domain(correction: &PlannedCorrection) -> (dto: Self)
        ensures
            dto.shows(*correction),
    {
        Self {
            event: correction.event.0,
            was: ClassifiedAsDto::from_domain(&correction.was),
            becomes: ClassifiedAsDto::from_domain(&correction.becomes),
        }
    }
}

/// What a change of the rules would correct. It has not been applied, and that is
/// stated.
#[derive(Debug, Clone, PartialEq, Eq)]
pub struct RecomputePlanDto {
    pub applied: bool,
    pub corrections: Vec<PlannedCorrectionDto>,
}

impl RecomputePlanDto {
    /// What the wire form says of the plan.
    pub open spec fn shows(self, plan: Seq<PlannedCorrection>) -> bool {
        &&& !self.applied
        &&& relate::each(
            self.corrections@,
            plan,
            |dto: PlannedCorrectionDto, correction: PlannedCorrection| dto.shows(correction),
        )
    }

    /// The wire form of the plan.
    pub fn from_domain(plan: Vec<PlannedCorrection>) -> (dto: Self)
        ensures
            dto.shows(plan@),
    {
        Self {
            applied: false,
            corrections: map_each(&plan, PlannedCorrectionDto::from_domain),
        }
    }
}

/// A rule together with the history its arrival or retirement corrects.
#[derive(Debug, Clone, PartialEq, Eq)]
pub struct ClassificationRuleChangeDto {
    pub rule: ClassificationRuleDto,
    pub plan: RecomputePlanDto,
}

impl ClassificationRuleChangeDto {
    /// What the wire form says of the change.
    pub open spec fn shows(self, change: RuleChange, parsed: ParsedRule) -> bool {
        &&& self.rule.shows(change.rule, parsed)
        &&& self.plan.shows(change.plan@)
    }

    /// The wire form of the change, or the failure to read its rule.
    pub fn from_domain<E>(change: RuleChange, parsed: Result<ParsedRule, E>) -> (rendered: Result<
        Self,
        E,
    >)
        ensures
            match parsed {
                Ok(parsed) => rendered matches Ok(dto) && dto.shows(change, parsed),
                Err(failure) => rendered == Err::<Self, E>(failure),
            },
    {
        match ClassificationRuleDto::from_port(change.rule, parsed) {
            Ok(rule) => Ok(Self { rule, plan: RecomputePlanDto::from_domain(change.plan) }),
            Err(failure) => Err(failure),
        }
    }
}

/// A plan is shown and never applied by showing it.
pub proof fn law_a_shown_plan_is_not_applied(
    dto: ClassificationRuleChangeDto,
    change: RuleChange,
    parsed: ParsedRule,
)
    requires
        dto.shows(change, parsed),
    ensures
        !dto.plan.applied,
        dto.plan.corrections@.len() == change.plan@.len(),
{
}

/// A rule to record. The two halves are the objects a listing prints.
#[derive(Debug, Clone, PartialEq, Eq)]
pub struct ClassificationRuleRequest {
    pub matcher: RuleMatcherDto,
    pub outcome: ClassifiedAsDto,
    pub replaces: Option<Uuid>,
}

/// A `RuleMatcherDto` tells each part of what it shows in a field of its own.
pub proof fn law_rule_matcher_is_told_part_by_part(
    dto: RuleMatcherDto,
    matcher: RuleMatcher,
)
    requires
        dto.shows(matcher),
    ensures
        dto.counterparty_account == matcher.counterparty_account,
        dto.description_contains == matcher.description_contains,
        dto.kind == matcher.kind,
        dto.source_category == matcher.source_category,
{
}

/// A `ClassifiedAsDto` tells each part of what it shows in a field of its own.
pub proof fn law_classified_as_is_told_part_by_part(
    dto: ClassifiedAsDto,
    classification: ClassifiedAs,
)
    requires
        dto.shows(classification),
    ensures
        dto.kind == classification.kind,
        match (dto.to, classification.to) {
            (Some(told), Some(meant)) => told == meant.0,
            (None, None) => true,
            _ => false,
        },
        dto.origin == classification.origin,
        dto.income_kind == classification.income_kind,
{
}

/// A `ClassificationRuleDto` tells each part of what it shows in a field of its own.
pub proof fn law_classification_rule_is_told_part_by_part(
    dto: ClassificationRuleDto,
    rule: ClassificationRuleView,
    parsed: ParsedRule,
)
    requires
        dto.shows(rule, parsed),
    ensures
        dto.id == rule.id,
        dto.version == parsed.version,
        dto.matcher.shows(parsed.matcher),
        dto.outcome.shows(parsed.outcome),
        dto.created_at == rule.created_at,
        dto.retired_at == rule.retired_at,
        dto.replaces == rule.replaces,
{
}

/// A `PlannedCorrectionDto` tells each part of what it shows in a field of its own.
pub proof fn law_planned_correction_is_told_part_by_part(
    dto: PlannedCorrectionDto,
    correction: PlannedCorrection,
)
    requires
        dto.shows(correction),
    ensures
        dto.event == correction.event.0,
        dto.was.shows(correction.was),
        dto.becomes.shows(correction.becomes),
{
}

/// A `RecomputePlanDto` tells each part of what it shows in a field of its own.
pub proof fn law_recompute_plan_is_told_part_by_part(
    dto: RecomputePlanDto,
    plan: Seq<PlannedCorrection>,
)
    requires
        dto.shows(plan),
    ensures
        !dto.applied,
        dto.corrections@.len() == plan.len(),
        forall|i: int| 0 <= i < plan.len() ==> (#[trigger] dto.corrections@[i]).shows(plan[i]),
{
}

/// A `ClassificationRuleChangeDto` tells each part of what it shows in a field of its own.
pub proof fn law_classification_rule_change_is_told_part_by_part(
    dto: ClassificationRuleChangeDto,
    change: RuleChange,
    parsed: ParsedRule,
)
    requires
        dto.shows(change, parsed),
    ensures
        dto.rule.shows(change.rule, parsed),
        dto.plan.shows(change.plan@),
{
}

/// Each word of a classification is handed on as it came, the account as its text.
pub proof fn law_every_word_of_a_classification_is_handed_on(
    dto: ClassifiedAsDto,
    words: OutcomeWords,
)
    requires
        dto.states(words),
    ensures
        words.kind == dto.kind,
        match (words.to, dto.to) {
            (Some(told), Some(meant)) => told@ == meant.text(),
            (None, None) => true,
            _ => false,
        },
        words.origin == dto.origin,
        words.income_kind == dto.income_kind,
{
}

} // verus!
