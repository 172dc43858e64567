//! Import sessions on the wire.

use crate::dto::action::AccountCandidateDto;
use crate::dto::answer::AnswerAlternativeDto;
use crate::dto::control::ControlSectionDto;
use crate::dto::correction::DeclaredSourceDto;
use crate::dto::operation::OperationDto;
use crate::dto::rule::{ClassificationRuleRequest, ClassifiedAsDto, RuleMatcherDto};
use crate::dto::verdict::VerdictDto;
use crate::ids::{ImportId, SourceId, Uuid};
use crate::ledger::action::AccountCandidate;
use crate::ledger::answer::Alternative;
use crate::ledger::session::{
    AnswerableQuestion, AnsweredQuestions, FactBasis, Generalisation, HeldRow,
    ImportSessionSummaryView, ImportSessionView, QuestionSettlement, Recorded,
};
use crate::outside;
use crate::relate::map_each;
use crate::relate;
use vstd::prelude::*;

verus! {

/// An event that was recorded, or found already recorded.
#[derive(Debug, Clone, PartialEq, Eq)]
pub struct RecordedEventDto {
    pub outcome: String,
    pub event: Uuid,
}

impl RecordedEventDto {
    /// What the wire form says of the outcome.
    pub open spec fn shows(self, recorded: Recorded) -> bool {
        &&& self.outcome@ == recorded.word()
        &&& self.event == (match recorded {
            Recorded::Inserted { id } => id.0,
            Recorded::Duplicate { existing } => existing.0,
        })
    }

    /// The wire form of the outcome.
    pub fn from_domain(recorded: &Recorded) -> (dto: Self)
        ensures
            dto.shows(*recorded),
    {
        match recorded {
            Recorded::Inserted { id } => Self { outcome: "inserted".to_owned(), event: id.0 },
            Recorded::Duplicate { existing } => Self {
                outcome: "duplicate".to_owned(),
                event: existing.0,
            },
        }
    }
}

/// A session to open, and the source it is for.
#[derive(Debug, Clone, PartialEq, Eq)]
pub struct OpenImportSessionRequest {
    pub source: Option<DeclaredSourceDto>,
}

/// The account a session was opened for.
#[derive(Debug, Clone, PartialEq, Eq)]
pub struct DeclaredAccountDto {
    pub id: Uuid,
    pub title: String,
    pub institution: Option<String>,
}

/// Rows to hand to a session.
#[derive(Debug, Clone, PartialEq, Eq)]
pub struct AddImportRowsRequest {
    pub operations: Vec<OperationDto>,
}

/// A session. The account is stated by the call that opens one for it.
#[derive(Debug, Clone, PartialEq, Eq)]
pub struct ImportSessionDto {
    pub session: Uuid,
    pub state: String,
    pub source: Option<Uuid>,
    pub import: Option<Uuid>,
    pub opened_at: String,
    pub closed_at: Option<String>,
    /// Where the assessment of the session is read.
    pub assessment: String,
    pub account: Option<DeclaredAccountDto>,
}

impl ImportSessionDto {
    /// Where the assessment of a session is read.
    pub open spec fn assessment_of(session: Uuid) -> Seq<char> {
        "/v1/import-sessions/"@ + session.text() + "/assessment"@
    }

    /// What the wire form says of the session.
    pub open spec fn shows(self, session: ImportSessionView) -> bool {
        &&& self.session == session.id.0
        &&& self.state@ == session.state.word()
        &&& relate::both(self.source, session.source, |uuid: Uuid, id: SourceId| uuid == id.0)
        &&& relate::both(self.import, session.import, |uuid: Uuid, id: ImportId| uuid == id.0)
        &&& self.opened_at == session.opened_at
        &&& self.closed_at == session.closed_at
        &&& self.assessment@ == Self::assessment_of(session.id.0)
        &&& self.account is None
    }

    /// The wire form of the session.
    pub fn from_domain(session: &ImportSessionView) -> (dto: Self)
        ensures
            dto.shows(*session),
    {
        let mut assessment = "/v1/import-sessions/".to_owned();
        assessment.append(session.id.0.to_text().as_str());
        assessment.append("/assessment");
        Self {
            session: session.id.0,
            state: session.state.code().to_owned(),
            source: session.source.map(SourceId::inner),
            import: session.import.map(ImportId::inner),
            opened_at: session.opened_at.clone(),
            closed_at: session.closed_at.clone(),
            assessment,
            account: None,
        }
    }
}

/// A session, and how much of it waits.
#[derive(Debug, Clone, PartialEq, Eq)]
pub struct ImportSessionSummaryDto {
    pub session: ImportSessionDto,
    pub row_count: usize,
    pub unanswered: usize,
}

impl ImportSessionSummaryDto {
    /// What the wire form says of the record it was rendered from.
    pub open spec fn shows(self, summary: ImportSessionSummaryView) -> bool {
        &&& self.session.shows(summary.session)
        &&& self.row_count == summary.row_count
        &&& self.unanswered == summary.unanswered
    }

    /// The wire form of the record.
    pub fn from_domain(summary: &ImportSessionSummaryView) -> (dto: Self)
        ensures
            dto.shows(*summary),
    {
        Self {
            session: ImportSessionDto::from_domain(&summary.session),
            row_count: summary.row_count,
            unanswered: summary.unanswered,
        }
    }
}

/// Why a question stopped waiting without an answer, in the word the row itself
/// carries.
#[derive(Debug, Clone, PartialEq, Eq)]
pub struct QuestionSettlementDto {
    pub code: String,
    /// The same in a sentence.
    pub explanation: String,
}

impl QuestionSettlementDto {
    /// What the wire form says of the settlement.
    pub open spec fn shows(self, settlement: QuestionSettlement) -> bool {
        &&& self.code@ == settlement.word()
        &&& self.explanation@ == settlement.told()
    }

    /// The wire form of the settlement.
    pub fn from_domain(settlement: &QuestionSettlement) -> (dto: Self)
        ensures
            dto.shows(*settlement),
    {
        match settlement {
            QuestionSettlement::Fact { basis, explanation } => Self {
                code: basis.code().to_owned(),
                explanation: explanation.clone(),
            },
            QuestionSettlement::NoFact { reason, explanation } => Self {
                code: reason.code().to_owned(),
                explanation: explanation.clone(),
            },
        }
    }
}

/// A row an answer reached beyond the question it was given to.
#[derive(Debug, Clone, PartialEq, Eq)]
pub struct AlsoSettledDto {
    pub row: u32,
    pub question: Uuid,
}

impl AlsoSettledDto {
    /// What the wire form says of the question that was reached.
    pub open spec fn shows(self, also: AnswerableQuestion) -> bool {
        &&& self.row == also.view.row
        &&& self.question == also.view.id.0
    }

    fn from_question(also: &AnswerableQuestion) -> (dto: Self)
        ensures
            dto.shows(*also),
    {
        Self { row: also.view.row, question: also.view.id.0 }
    }
}

/// Whether a standing rule stands for an answer, and if not, what would make one.
#[derive(Debug, Clone, PartialEq, Eq)]
pub struct QuestionGeneralisationDto {
    pub state: String,
    /// The rule the answer created.
    pub rule: Option<Uuid>,
    /// The rule the answer would generalise into, ready to be sent as it stands.
    pub proposal: Option<ClassificationRuleRequest>,
}

impl QuestionGeneralisationDto {
    /// What the wire form says of the generalisation. A stored identifier that
    /// cannot be read costs the identifier and not the word.
    pub open spec fn shows(self, generalisation: Generalisation) -> bool {
        &&& self.state@ == generalisation.word()
        &&& match generalisation {
            Generalisation::Recorded { rule } => self.proposal is None && match self.rule {
                Some(id) => outside::uuid_read(rule@) == Some(id.value),
                None => outside::uuid_read(rule@) is None,
            },
            Generalisation::Available { matcher, outcome } => {
                &&& self.rule is None
                &&& self.proposal matches Some(proposal) && proposal.matcher.shows(matcher)
                    && proposal.outcome.shows(outcome) && proposal.replaces is None
            },
            Generalisation::Impossible => self.rule is None && self.proposal is None,
            Generalisation::Unanswered => self.rule is None && self.proposal is None,
        }
    }

    /// The wire form of the generalisation.
    pub fn from_domain(generalisation: &Generalisation) -> (dto: Self)
        ensures
            dto.shows(*generalisation),
    {
        let state = generalisation.code().to_owned();
        match generalisation {
            Generalisation::Recorded { rule } => Self {
                state,
                rule: Uuid::parse_str(rule.as_str()),
                proposal: None,
            },
            Generalisation::Available { matcher, outcome } => Self {
                state,
                rule: None,
                proposal: Some(
                    ClassificationRuleRequest {
                        matcher: RuleMatcherDto::from_domain(matcher),
                        outcome: ClassifiedAsDto::from_domain(outcome),
                        replaces: None,
                    },
                ),
            },
            Generalisation::Impossible => Self { state, rule: None, proposal: None },
            Generalisation::Unanswered => Self { state, rule: None, proposal: None },
        }
    }
}

/// A proposal is there exactly where a rule is available, and the rule is named
/// exactly where one was recorded, provided that the stored identifier can be read.
/// A proposal replaces no rule.
pub proof fn law_a_generalisation_names_its_own_state(
    dto: QuestionGeneralisationDto,
    generalisation: Generalisation,
)
    requires
        dto.shows(generalisation),
        generalisation matches Generalisation::Recorded { rule } ==> outside::uuid_read(
            rule@,
        ) is Some,
    ensures
        dto.rule is Some <==> dto.state@ == "recorded"@,
        dto.proposal is Some <==> dto.state@ == "available"@,
        dto.proposal matches Some(proposal) ==> proposal.replaces is None,
{
    reveal_strlit("recorded");
    reveal_strlit("available");
    reveal_strlit("impossible");
    reveal_strlit("unanswered");
    assert(dto.state@[0] == generalisation.word()[0]);
}

/// A question, the words that answer it, and what became of it.
#[derive(Debug, Clone, PartialEq, Eq)]
pub struct ImportQuestionDto {
    pub question: Uuid,
    pub session: Uuid,
    pub row: u32,
    pub prompt: String,
    pub alternatives: Vec<AnswerAlternativeDto>,
    /// The accounts an answer may name.
    pub accounts: Vec<AccountCandidateDto>,
    pub asked_at: String,
    pub answered_at: Option<String>,
    pub generalisation: QuestionGeneralisationDto,
    /// The other questions the answering call settled.
    pub also_settled: Vec<AlsoSettledDto>,
    pub settled_without_answer: Option<QuestionSettlementDto>,
}

impl ImportQuestionDto {
    /// What the wire form says of the question itself.
    pub open spec fn publishes(self, asked: AnswerableQuestion) -> bool {
        &&& self.question == asked.view.id.0
        &&& self.session == asked.view.session.0
        &&& self.row == asked.view.row
        &&& self.prompt == asked.view.prompt
        &&& relate::each(
            self.alternatives@,
            asked.view.alternatives@,
            |dto: AnswerAlternativeDto, alternative: Alternative| dto.shows(alternative),
        )
        &&& relate::each(
            self.accounts@,
            asked.accounts@,
            |dto: AccountCandidateDto, candidate: AccountCandidate| dto.shows(candidate),
        )
        &&& self.asked_at == asked.view.asked_at
        &&& self.answered_at == asked.view.answered_at
        &&& self.generalisation.shows(asked.generalisation)
        &&& relate::both(
            self.settled_without_answer,
            asked.settled_without_answer,
            |dto: QuestionSettlementDto, settlement: QuestionSettlement| dto.shows(settlement),
        )
    }

    /// What the wire form says of a question that was read: nothing about which
    /// call settled it.
    pub open spec fn shows(self, asked: AnswerableQuestion) -> bool {
        &&& self.publishes(asked)
        &&& self.also_settled@.len() == 0
    }

    /// What the wire form says of a question that was answered.
    pub open spec fn shows_answered(self, answered: AnsweredQuestions) -> bool {
        &&& self.publishes(answered.asked)
        &&& relate::each(
            self.also_settled@,
            answered.also_settled@,
            |dto: AlsoSettledDto, also: AnswerableQuestion| dto.shows(also),
        )
    }

    /// The question the caller addressed, with what its answer also settled.
    pub fn from_answered(answered: &AnsweredQuestions) -> (dto: Self)
        ensures
            dto.shows_answered(*answered),
    {
        Self {
            also_settled: map_each(&answered.also_settled, AlsoSettledDto::from_question),
            ..Self::from_domain(&answered.asked)
        }
    }

    /// The wire form of the question.
    pub fn from_domain(asked: &AnswerableQuestion) -> (dto: Self)
        ensures
            dto.shows(*asked),
    {
        let question = &asked.view;
        Self {
            question: question.id.0,
            session: question.session.0,
            row: question.row,
            prompt: question.prompt.clone(),
            alternatives: map_each(&question.alternatives, AnswerAlternativeDto::from_domain),
            accounts: map_each(&asked.accounts, AccountCandidateDto::from_domain),
            asked_at: question.asked_at.clone(),
            answered_at: question.answered_at.clone(),
            generalisation: QuestionGeneralisationDto::from_domain(&asked.generalisation),
            also_settled: Vec::new(),
            settled_without_answer: asked.settled_without_answer.as_ref().map(
                QuestionSettlementDto::from_domain,
            ),
        }
    }
}

/// A question that was merely read says nothing about what settled it, and one that
/// a rule settled publishes the rule's word and no answer.
pub proof fn law_settled_is_not_answered(
    dto: ImportQuestionDto,
    asked: AnswerableQuestion,
    rule: String,
    version: u32,
    explanation: String,
)
    requires
        dto.shows(asked),
        asked.view.answered_at is None,
        asked.settled_without_answer == Some(
            (QuestionSettlement::Fact { basis: FactBasis::Rule { rule, version }, explanation }),
        ),
    ensures
        dto.also_settled@.len() == 0,
        dto.answered_at is None,
        dto.settled_without_answer matches Some(settled) && settled.code@ == "rule"@
            && settled.explanation@ == explanation@,
{
}

/// Everything a session holds. The rows are counted here and published by the
/// assessment.
#[derive(Debug, Clone, PartialEq, Eq)]
pub struct ImportSessionContentsDto {
    pub session: ImportSessionDto,
    pub row_count: usize,
    pub questions: Vec<ImportQuestionDto>,
    pub unanswered: usize,
    pub control_figures: Vec<ControlSectionDto>,
}

/// What a commit recorded.
#[derive(Debug, Clone, PartialEq, Eq)]
pub struct ImportCommitDto {
    pub session: ImportSessionDto,
    pub revision: String,
    pub rows: Vec<VerdictDto>,
    pub control_assertions: Vec<RecordedEventDto>,
    pub coverage_gaps: Vec<RecordedEventDto>,
}

/// A row a session is holding. Nothing is recorded of it yet.
#[derive(Debug, Clone, PartialEq, Eq)]
pub struct ImportRowDto {
    /// The position of the row in the session.
    pub row: u32,
    pub state: String,
    /// Why the row will produce no fact.
    pub reason: Option<String>,
    pub explanation: Option<String>,
    /// The question the row raised.
    pub question_id: Option<Uuid>,
    pub prompt: Option<String>,
    pub alternatives: Option<Vec<AnswerAlternativeDto>>,
    /// The field that could not be read.
    pub field: Option<String>,
    pub expected: Option<String>,
    pub actual: Option<String>,
}

impl ImportRowDto {
    /// The word of the state a row is in.
    pub open spec fn state_of(held: HeldRow) -> Seq<char> {
        match held {
            HeldRow::Held { row } => "held"@,
            HeldRow::Questioned { row, asked } => "needs_classification"@,
            HeldRow::Settled { row, reason, explanation } => "settled"@,
            HeldRow::Rejected { row, rejection } => "rejected"@,
        }
    }

    /// What the wire form says of the row: its state, and the fields that belong to
    /// that state and to no other.
    pub open spec fn shows(self, held: HeldRow) -> bool {
        &&& self.row == held.position()
        &&& self.state@ == Self::state_of(held)
        &&& match held {
            HeldRow::Settled { row, reason, explanation } => {
                &&& self.reason matches Some(code) && code@ == reason.word()
                &&& self.explanation matches Some(told) && told == explanation
            },
            _ => self.reason is None && self.explanation is None,
        }
        &&& match held {
            HeldRow::Questioned { row, asked } => {
                &&& self.question_id == Some(asked.question.0)
                &&& self.prompt == Some(asked.prompt)
                &&& self.alternatives matches Some(alternatives) && relate::each(
                    alternatives@,
                    asked.alternatives@,
                    |dto: AnswerAlternativeDto, alternative: Alternative| dto.shows(alternative),
                )
            },
            _ => self.question_id is None && self.prompt is None && self.alternatives is None,
        }
        &&& match held {
            HeldRow::Rejected { row, rejection } => {
                &&& self.field == Some(rejection.field)
                &&& self.expected == Some(rejection.expected)
                &&& self.actual == Some(rejection.actual)
            },
            _ => self.field is None && self.expected is None && self.actual is None,
        }
    }

    /// The wire form of the row.
    pub fn from_domain(held: &HeldRow) -> (dto: Self)
        ensures
            dto.shows(*held),
    {
        let base = Self {
            row: held.row(),
            state: String::new(),
            reason: None,
            explanation: None,
            question_id: None,
            prompt: None,
            alternatives: None,
            field: None,
            expected: None,
            actual: None,
        };
        match held {
            HeldRow::Held { row } => Self { state: "held".to_owned(), ..base },
            HeldRow::Questioned { row, asked } => Self {
                state: "needs_classification".to_owned(),
                question_id: Some(asked.question.0),
                prompt: Some(asked.prompt.clone()),
                alternatives: Some(
                    map_each(&asked.alternatives, AnswerAlternativeDto::from_domain),
                ),
                ..base
            },
            HeldRow::Settled { row, reason, explanation } => Self {
                state: "settled".to_owned(),
                reason: Some(reason.code().to_owned()),
                explanation: Some(explanation.clone()),
                ..base
            },
            HeldRow::Rejected { row, rejection } => Self {
                state: "rejected".to_owned(),
                field: Some(rejection.field.clone()),
                expected: Some(rejection.expected.clone()),
                actual: Some(rejection.actual.clone()),
                ..base
            },
        }
    }
}

/// A held row never shows a question and a refusal at once, and one that will
/// become a fact shows neither, nor a reason to become none.
pub proof fn law_a_held_row_shows_one_state(dto: ImportRowDto, held: HeldRow)
    requires
        dto.shows(held),
    ensures
        !(dto.question_id is Some && dto.field is Some),
        !(dto.question_id is Some && dto.reason is Some),
        !(dto.reason is Some && dto.field is Some),
        held is Held ==> dto.question_id is None && dto.field is None && dto.reason is None,
{
}

/// A session to commit, against the reading that was approved.
#[derive(Debug, Clone, PartialEq, Eq)]
pub struct CommitImportSessionRequest {
    pub revision: Option<String>,
    pub accept_control_mismatch: bool,
}

/// A `RecordedEventDto` tells each part of what it shows in a field of its own.
pub proof fn law_recorded_event_is_told_part_by_part(
    dto: RecordedEventDto,
    recorded: Recorded,
)
    requires
        dto.shows(recorded),
    ensures
        dto.outcome@ == recorded.word(),
        dto.event == (match recorded {
            Recorded::Inserted { id } => id.0,
            Recorded::Duplicate { existing } => existing.0,
        }),
{
}

/// An `ImportSessionDto` tells each part of what it shows in a field of its own.
pub proof fn law_import_session_is_told_part_by_part(
    dto: ImportSessionDto,
    session: ImportSessionView,
)
    requires
        dto.shows(session),
    ensures
        dto.session == session.id.0,
        dto.state@ == session.state.word(),
        match (dto.source, session.source) {
            (Some(told), Some(meant)) => told == meant.0,
            (None, None) => true,
            _ => false,
        },
        match (dto.import, session.import) {
            (Some(told), Some(meant)) => told == meant.0,
            (None, None) => true,
            _ => false,
        },
        dto.opened_at == session.opened_at,
        dto.closed_at == session.closed_at,
        dto.assessment@ == ImportSessionDto::assessment_of(session.id.0),
        dto.account is None,
{
}

/// An `ImportSessionSummaryDto` tells each part of what it shows in a field of its own.
pub proof fn law_import_session_summary_is_told_part_by_part(
    dto: ImportSessionSummaryDto,
    summary: ImportSessionSummaryView,
)
    requires
        dto.shows(summary),
    ensures
        dto.session.shows(summary.session),
        dto.row_count == summary.row_count,
        dto.unanswered == summary.unanswered,
{
}

/// A `QuestionSettlementDto` tells each part of what it shows in a field of its own.
pub proof fn law_question_settlement_is_told_part_by_part(
    dto: QuestionSettlementDto,
    settlement: QuestionSettlement,
)
    requires
        dto.shows(settlement),
    ensures
        dto.code@ == settlement.word(),
        dto.explanation@ == settlement.told(),
{
}

/// An `AlsoSettledDto` tells each part of what it shows in a field of its own.
pub proof fn law_also_settled_is_told_part_by_part(
    dto: AlsoSettledDto,
    also: AnswerableQuestion,
)
    requires
        dto.shows(also),
    ensures
        dto.row == also.view.row,
        dto.question == also.view.id.0,
{
}

/// A `QuestionGeneralisationDto` tells each part of what it shows in a field of its own.
pub proof fn law_question_generalisation_is_told_part_by_part(
    dto: QuestionGeneralisationDto,
    generalisation: Generalisation,
)
    requires
        dto.shows(generalisation),
    ensures
        dto.state@ == generalisation.word(),
        match generalisation {
            Generalisation::Recorded { rule } => dto.proposal is None && match dto.rule {
                Some(id) => outside::uuid_read(rule@) == Some(id.value),
                None => outside::uuid_read(rule@) is None,
            },
            Generalisation::Available { matcher, outcome } => {
                &&& dto.rule is None
                &&& dto.proposal matches Some(proposal) && proposal.matcher.shows(matcher)
                    && proposal.outcome.shows(outcome) && proposal.replaces is None
            },
            Generalisation::Impossible => dto.rule is None && dto.proposal is None,
            Generalisation::Unanswered => dto.rule is None && dto.proposal is None,
        },
{
}

/// An `ImportQuestionDto` tells each part of what it shows in a field of its own.
pub proof fn law_import_question_is_told_part_by_part(
    dto: ImportQuestionDto,
    asked: AnswerableQuestion,
)
    requires
        dto.shows(asked),
    ensures
        dto.publishes(asked),
        dto.also_settled@.len() == 0,
{
}

/// An `ImportRowDto` tells each part of what it shows in a field of its own.
pub proof fn law_import_row_is_told_part_by_part(
    dto: ImportRowDto,
    held: HeldRow,
)
    requires
        dto.shows(held),
    ensures
        dto.row == held.position(),
        dto.state@ == ImportRowDto::state_of(held),
        match held {
            HeldRow::Settled { row, reason, explanation } => {
                &&& dto.reason matches Some(code) && code@ == reason.word()
                &&& dto.explanation matches Some(told) && told == explanation
            },
            _ => dto.reason is None && dto.explanation is None,
        },
        match held {
            HeldRow::Questioned { row, asked } => {
                &&& dto.question_id == Some(asked.question.0)
                &&& dto.prompt == Some(asked.prompt)
                &&& dto.alternatives matches Some(alternatives) && relate::each(
                    alternatives@,
                    asked.alternatives@,
                    |dto: AnswerAlternativeDto, alternative: Alternative| dto.shows(alternative),
                )
            },
            _ => dto.question_id is None && dto.prompt is None && dto.alternatives is None,
        },
        match held {
            HeldRow::Rejected { row, rejection } => {
                &&& dto.field == Some(rejection.field)
                &&& dto.expected == Some(rejection.expected)
                &&& dto.actual == Some(rejection.actual)
            },
            _ => dto.field is None && dto.expected is None && dto.actual is None,
        },
{
}

/// The assessment of a session is read at the session's own address.
pub proof fn law_an_assessment_is_read_at_its_session(session: Uuid)
    ensures
        ImportSessionDto::assessment_of(session) == "/v1/import-sessions/"@ + session.text()
            + "/assessment"@,
{
}

/// A row is in the state it was left in, and each state has its own word.
pub proof fn law_each_state_of_a_row_has_its_own_word(held: HeldRow)
    ensures
        ImportRowDto::state_of(held) == "held"@ <==> held is Held,
        ImportRowDto::state_of(held) == "needs_classification"@ <==> held is Questioned,
        ImportRowDto::state_of(held) == "settled"@ <==> held is Settled,
        ImportRowDto::state_of(held) == "rejected"@ <==> held is Rejected,
{
    reveal_strlit("held");
    reveal_strlit("needs_classification");
    reveal_strlit("settled");
    reveal_strlit("rejected");
    assert(ImportRowDto::state_of(held).len() > 0);
}

/// A question is published with each part of it in a field of its own.
pub proof fn law_a_question_is_published_part_by_part(
    dto: ImportQuestionDto,
    asked: AnswerableQuestion,
)
    requires
        dto.publishes(asked),
    ensures
        dto.question == asked.view.id.0,
        dto.session == asked.view.session.0,
        dto.row == asked.view.row,
        dto.prompt == asked.view.prompt,
        dto.alternatives@.len() == asked.view.alternatives@.len(),
        forall|i: int| 0 <= i < asked.view.alternatives@.len() ==> (
            #[trigger] dto.alternatives@[i]
        ).shows(asked.view.alternatives@[i]),
        dto.accounts@.len() == asked.accounts@.len(),
        forall|i: int| 0 <= i < asked.accounts@.len() ==> (
            #[trigger] dto.accounts@[i]
        ).shows(asked.accounts@[i]),
        dto.asked_at == asked.view.asked_at,
        dto.answered_at == asked.view.answered_at,
        dto.generalisation.shows(asked.generalisation),
        match (dto.settled_without_answer, asked.settled_without_answer) {
            (Some(told), Some(meant)) => told.shows(meant),
            (None, None) => true,
            _ => false,
        },
{
}

/// An answered question is published as any question is, with the others that its answer
/// settled, in order.
pub proof fn law_an_answered_question_tells_what_else_it_settled(
    dto: ImportQuestionDto,
    answered: AnsweredQuestions,
)
    requires
        dto.shows_answered(answered),
    ensures
        dto.publishes(answered.asked),
        dto.also_settled@.len() == answered.also_settled@.len(),
        forall|i: int| 0 <= i < answered.also_settled@.len() ==> (
            #[trigger] dto.also_settled@[i]
        ).shows(answered.also_settled@[i]),
{
}

} // verus!
