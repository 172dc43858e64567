//! Outstanding work on the wire.

use crate::ids::Uuid;
use crate::ledger::action::{AccountCandidate, OwnerQuestion, ReportStanding};
use vstd::prelude::*;

verus! {

/// A question to the owner, in the two parts that are owed: what is asked and
/// what turns on the answer.
#[derive(Debug, Clone, PartialEq, Eq)]
pub struct OwnerQuestionDto {
    pub ask: String,
    pub consequence: String,
}

impl OwnerQuestionDto {
    /// What the wire form says of the record it was rendered from.
    pub open spec fn shows(self, question: OwnerQuestion) -> bool {
        &&& self.ask == question.ask
        &&& self.consequence == question.consequence
    }

    /// The wire form of the record.
    pub fn from_domain(question: &OwnerQuestion) -> (dto: Self)
        ensures
            dto.shows(*question),
    {
        Self {
            ask: question.ask.clone(),
            consequence: question.consequence.clone(),
        }
    }
}

/// What stands in the way of one report.
#[derive(Debug, Clone, PartialEq, Eq)]
pub struct ReportStandingDto {
    pub goal: String,
    pub answers: String,
    pub blocked_by: Vec<String>,
}

impl ReportStandingDto {
    /// What the wire form says of the record it was rendered from.
    pub open spec fn shows(self, standing: ReportStanding) -> bool {
        &&& self.goal@ == standing.goal.word()
        &&& self.answers == standing.answers
        &&& self.blocked_by@ == standing.blocked_by@
    }

    /// The wire form of the record.
    pub fn from_domain(standing: &ReportStanding) -> (dto: Self)
        ensures
            dto.shows(*standing),
    {
        Self {
            goal: standing.goal.code().to_owned(),
            answers: standing.answers.clone(),
            blocked_by: standing.blocked_by.clone(),
        }
    }
}

/// An account an answer may name: the identifier to send and the title to read.
#[derive(Debug, Clone, PartialEq, Eq)]
pub struct AccountCandidateDto {
    pub id: Uuid,
    pub title: String,
    pub institution: Option<String>,
}

impl AccountCandidateDto {
    /// What the wire form says of the candidate.
    pub open spec fn shows(self, candidate: AccountCandidate) -> bool {
        &&& self.id == candidate.id.0
        &&& self.title == candidate.title
        &&& self.institution == candidate.institution
    }

    /// The wire form of the candidate.
    pub fn from_domain(candidate: &AccountCandidate) -> (dto: Self)
        ensures
            dto.shows(*candidate),
    {
        Self {
            id: candidate.id.0,
            title: candidate.title.clone(),
            institution: candidate.institution.clone(),
        }
    }
}

/// Whether a flag is not set. A flag that is not set is left out of the wire form.
pub fn is_not_set(flag: &bool) -> (unset: bool)
    ensures
        unset == !*flag,
{
    !*flag
}

/// An answer proposed to the owner, and what it would cover.
#[derive(Debug, Clone, PartialEq, Eq)]
pub struct ProposedAnswerDto {
    pub value: String,
    pub question: OwnerQuestionDto,
    pub covers: Vec<String>,
}

/// An input an alternative needs.
#[derive(Debug, Clone, PartialEq, Eq)]
pub struct RequiredInputDto {
    pub pointer: String,
    pub provided_by: String,
    pub prompt: Option<OwnerQuestionDto>,
    pub candidates: Option<Vec<AccountCandidateDto>>,
}

/// One value an input may take.
#[derive(Debug, Clone, PartialEq, Eq)]
pub struct InputAlternativeDto {
    pub value: String,
    pub requires_inputs: Vec<RequiredInputDto>,
    pub consequence: Option<String>,
}

/// An input that is still to be provided.
#[derive(Debug, Clone, PartialEq, Eq)]
pub struct MissingInputDto {
    pub pointer: String,
    pub provided_by: String,
    pub prompt: Option<OwnerQuestionDto>,
    pub candidates: Option<Vec<AccountCandidateDto>>,
    pub alternatives: Vec<InputAlternativeDto>,
    pub optional: bool,
    pub proposal: Option<ProposedAnswerDto>,
}

/// A field of a request that is already decided, as JSON text.
#[derive(Debug, Clone, PartialEq, Eq)]
pub struct PresetDto {
    pub name: String,
    pub value: String,
}

/// What of a request is decided and what is missing.
#[derive(Debug, Clone, PartialEq, Eq)]
pub struct RequestPlanDto {
    pub preset: Vec<PresetDto>,
    pub missing: Vec<MissingInputDto>,
}

/// One call that would close an action.
#[derive(Debug, Clone, PartialEq, Eq)]
pub struct ResolutionOptionDto {
    pub operation_id: String,
    pub method: String,
    pub path: String,
    pub request_schema: Option<String>,
    pub required_scope: String,
    pub request: RequestPlanDto,
}

/// What an action is about.
#[derive(Debug, Clone, PartialEq, Eq)]
pub enum ActionSubjectDto {
    Account { id: Uuid, title: String, institution: Option<String> },
    Event { id: Uuid },
}

/// What closes an action: one call, a choice of calls, or nothing in this API.
#[derive(Debug, Clone, PartialEq, Eq)]
pub enum ActionTargetDto {
    Operation {
        operation_id: String,
        method: String,
        path: String,
        request_schema: Option<String>,
        required_scope: String,
        request: RequestPlanDto,
    },
    Options { options: Vec<ResolutionOptionDto> },
    NoTarget,
}

/// One outstanding action.
#[derive(Debug, Clone, PartialEq, Eq)]
pub struct ActionDto {
    pub id: String,
    pub kind: String,
    pub category: String,
    pub goals: Vec<String>,
    pub state: String,
    pub reason: String,
    pub required_scope: Option<String>,
    pub subject: Option<ActionSubjectDto>,
    pub target: ActionTargetDto,
}

/// The outstanding work, and what stands in the way of each report.
#[derive(Debug, Clone, PartialEq, Eq)]
pub struct ActionsResponseDto {
    pub items: Vec<ActionDto>,
    pub reports: Vec<ReportStandingDto>,
}

/// An `OwnerQuestionDto` tells each part of what it shows in a field of its own.
pub proof fn law_owner_question_is_told_part_by_part(
    dto: OwnerQuestionDto,
    question: OwnerQuestion,
)
    requires
        dto.shows(question),
    ensures
        dto.ask == question.ask,
        dto.consequence == question.consequence,
{
}

/// A `ReportStandingDto` tells each part of what it shows in a field of its own.
pub proof fn law_report_standing_is_told_part_by_part(
    dto: ReportStandingDto,
    standing: ReportStanding,
)
    requires
        dto.shows(standing),
    ensures
        dto.goal@ == standing.goal.word(),
        dto.answers == standing.answers,
        dto.blocked_by@ == standing.blocked_by@,
{
}

/// An `AccountCandidateDto` tells each part of what it shows in a field of its own.
pub proof fn law_account_candidate_is_told_part_by_part(
    dto: AccountCandidateDto,
    candidate: AccountCandidate,
)
    requires
        dto.shows(candidate),
    ensures
        dto.id == candidate.id.0,
        dto.title == candidate.title,
        dto.institution == candidate.institution,
{
}

} // verus!
