//! Import sessions as the ledger keeps them.

use crate::ids::{AccountId, EventId, ImportId, ImportQuestionId, ImportSessionId, SourceId};
use crate::ledger::action::AccountCandidate;
use crate::ledger::answer::Alternative;
use crate::ledger::rejection::Rejection;
use crate::ledger::report::ImportSessionState;
use crate::ledger::rule::{ClassifiedAs, RuleMatcher};
use vstd::prelude::*;

verus! {

/// On whose word a row was settled.
#[derive(Debug, Clone, PartialEq, Eq)]
pub enum FactBasis {
    Concluded,
    Directory,
    SourceAsserted,
    Rule { rule: String, version: u32 },
    Answered,
}

/// Why a row correctly becomes no fact.
#[derive(Debug, Clone, Copy, PartialEq, Eq, Structural)]
pub enum NoFactReason {
    OneAccountTwoInstruments { account: AccountId },
    SecondLegOfOneMovement { records: u32 },
}

/// Why a question stopped waiting without an answer: a determination about the row,
/// and the sentence that tells it.
#[derive(Debug, Clone, PartialEq, Eq)]
pub enum QuestionSettlement {
    Fact { basis: FactBasis, explanation: String },
    NoFact { reason: NoFactReason, explanation: String },
}

impl QuestionSettlement {
    /// The word of the determination, which is the word the row itself carries.
    pub open spec fn word(self) -> Seq<char> {
        match self {
            Self::Fact { basis, explanation } => basis.word(),
            Self::NoFact { reason, explanation } => reason.word(),
        }
    }

    /// The sentence that tells it.
    pub open spec fn told(self) -> Seq<char> {
        match self {
            Self::Fact { basis, explanation } => explanation@,
            Self::NoFact { reason, explanation } => explanation@,
        }
    }
}

/// Whether a standing rule stands for an answer, and if not, what would make one.
#[derive(Debug, Clone, PartialEq, Eq)]
pub enum Generalisation {
    Recorded { rule: String },
    Available { matcher: RuleMatcher, outcome: ClassifiedAs },
    Impossible,
    Unanswered,
}

/// An event that was recorded, or found already recorded.
#[derive(Debug, Clone, Copy, PartialEq, Eq, Structural)]
pub enum Recorded {
    Inserted { id: EventId },
    Duplicate { existing: EventId },
}

/// What a session made of a row it was handed.
#[derive(Debug, Clone, PartialEq, Eq)]
pub enum HeldRow {
    Held { row: u32 },
    Questioned { row: u32, asked: AskedQuestion },
    Settled { row: u32, reason: NoFactReason, explanation: String },
    Rejected { row: u32, rejection: Rejection },
}

impl HeldRow {
    /// The position of the row in the session.
    pub open spec fn position(self) -> u32 {
        match self {
            Self::Held { row } => row,
            Self::Questioned { row, asked } => row,
            Self::Settled { row, reason, explanation } => row,
            Self::Rejected { row, rejection } => row,
        }
    }

    /// The position of the row in the session.
    pub fn row(&self) -> (row: u32)
        ensures
            row == self.position(),
    {
        match self {
            Self::Held { row } => *row,
            Self::Questioned { row, asked } => *row,
            Self::Settled { row, reason, explanation } => *row,
            Self::Rejected { row, rejection } => *row,
        }
    }
}

/// A question a row raised.
#[derive(Debug, Clone, PartialEq, Eq)]
pub struct AskedQuestion {
    pub question: ImportQuestionId,
    pub prompt: String,
    pub alternatives: Vec<Alternative>,
}

impl FactBasis {
    /// The word of the determination.
    pub open spec fn word(self) -> Seq<char> {
        match self {
            Self::Concluded => "concluded"@,
            Self::Directory => "directory"@,
            Self::SourceAsserted => "source_asserted"@,
            Self::Rule { rule, version } => "rule"@,
            Self::Answered => "answered"@,
        }
    }

    /// The word of the determination.
    pub fn code(&self) -> (code: &'static str)
        ensures
            code@ == self.word(),
    {
        match self {
            Self::Concluded => "concluded",
            Self::Directory => "directory",
            Self::SourceAsserted => "source_asserted",
            Self::Rule { rule, version } => "rule",
            Self::Answered => "answered",
        }
    }
}

impl NoFactReason {
    /// The word of the determination.
    pub open spec fn word(self) -> Seq<char> {
        match self {
            Self::OneAccountTwoInstruments { account } => "one_account_two_instruments"@,
            Self::SecondLegOfOneMovement { records } => "second_leg_of_one_movement"@,
        }
    }

    /// The word of the determination.
    pub fn code(self) -> (code: &'static str)
        ensures
            code@ == self.word(),
    {
        match self {
            Self::OneAccountTwoInstruments { account } => "one_account_two_instruments",
            Self::SecondLegOfOneMovement { records } => "second_leg_of_one_movement",
        }
    }
}

impl Generalisation {
    /// The word of the state.
    pub open spec fn word(self) -> Seq<char> {
        match self {
            Self::Recorded { rule } => "recorded"@,
            Self::Available { matcher, outcome } => "available"@,
            Self::Impossible => "impossible"@,
            Self::Unanswered => "unanswered"@,
        }
    }

    /// The word of the state.
    pub fn code(&self) -> (code: &'static str)
        ensures
            code@ == self.word(),
    {
        match self {
            Self::Recorded { rule } => "recorded",
            Self::Available { matcher, outcome } => "available",
            Self::Impossible => "impossible",
            Self::Unanswered => "unanswered",
        }
    }
}

impl Recorded {
    /// The word of the outcome.
    pub open spec fn word(self) -> Seq<char> {
        match self {
            Self::Inserted { id } => "inserted"@,
            Self::Duplicate { existing } => "duplicate"@,
        }
    }

    /// The word of the outcome.
    pub fn code(self) -> (code: &'static str)
        ensures
            code@ == self.word(),
    {
        match self {
            Self::Inserted { id } => "inserted",
            Self::Duplicate { existing } => "duplicate",
        }
    }
}

/// A session.
#[derive(Debug, Clone, PartialEq, Eq)]
pub struct ImportSessionView {
    pub id: ImportSessionId,
    pub state: ImportSessionState,
    pub source: Option<SourceId>,
    pub import: Option<ImportId>,
    pub opened_at: String,
    pub closed_at: Option<String>,
}

/// A session, and how much of it waits.
#[derive(Debug, Clone, PartialEq, Eq)]
pub struct ImportSessionSummaryView {
    pub session: ImportSessionView,
    pub row_count: usize,
    pub unanswered: usize,
}

/// A stored question, with its alternatives as they were stored.
#[derive(Debug, Clone, PartialEq, Eq)]
pub struct ImportQuestionView {
    pub id: ImportQuestionId,
    pub session: ImportSessionId,
    pub row: u32,
    pub prompt: String,
    pub alternatives: Vec<Alternative>,
    pub asked_at: String,
    pub answered_at: Option<String>,
}

/// A question, the accounts an answer may name, and what became of it.
#[derive(Debug, Clone, PartialEq, Eq)]
pub struct AnswerableQuestion {
    pub view: ImportQuestionView,
    pub accounts: Vec<AccountCandidate>,
    pub generalisation: Generalisation,
    pub settled_without_answer: Option<QuestionSettlement>,
}

/// A question that was answered, and the ones the answer also settled.
#[derive(Debug, Clone, PartialEq, Eq)]
pub struct AnsweredQuestions {
    pub asked: AnswerableQuestion,
    pub also_settled: Vec<AnswerableQuestion>,
}

/// Each `FactBasis` goes by a word of its own, and that word names no other.
pub proof fn law_fact_basis_goes_by_its_own_word(value: FactBasis)
    ensures
        value.word() == "concluded"@ <==> value is Concluded,
        value.word() == "directory"@ <==> value is Directory,
        value.word() == "source_asserted"@ <==> value is SourceAsserted,
        value.word() == "rule"@ <==> value is Rule,
        value.word() == "answered"@ <==> value is Answered,
{
    reveal_strlit("concluded");
    reveal_strlit("directory");
    reveal_strlit("source_asserted");
    reveal_strlit("rule");
    reveal_strlit("answered");
    assert("concluded"@[0] == 'c');
    assert("directory"@[0] == 'd');
    assert(value.word().len() > 0);
}

/// Each `NoFactReason` goes by a word of its own, and that word names no other.
pub proof fn law_no_fact_reason_goes_by_its_own_word(value: NoFactReason)
    ensures
        value.word() == "one_account_two_instruments"@ <==> value is OneAccountTwoInstruments,
        value.word() == "second_leg_of_one_movement"@ <==> value is SecondLegOfOneMovement,
{
    reveal_strlit("one_account_two_instruments");
    reveal_strlit("second_leg_of_one_movement");
    assert(value.word().len() > 0);
}

/// Each `Generalisation` goes by a word of its own, and that word names no other.
pub proof fn law_generalisation_goes_by_its_own_word(value: Generalisation)
    ensures
        value.word() == "recorded"@ <==> value is Recorded,
        value.word() == "available"@ <==> value is Available,
        value.word() == "impossible"@ <==> value is Impossible,
        value.word() == "unanswered"@ <==> value is Unanswered,
{
    reveal_strlit("recorded");
    reveal_strlit("available");
    reveal_strlit("impossible");
    reveal_strlit("unanswered");
    assert("impossible"@[0] == 'i');
    assert("unanswered"@[0] == 'u');
    assert(value.word().len() > 0);
}

/// Each `Recorded` goes by a word of its own, and that word names no other.
pub proof fn law_recorded_goes_by_its_own_word(value: Recorded)
    ensures
        value.word() == "inserted"@ <==> value is Inserted,
        value.word() == "duplicate"@ <==> value is Duplicate,
{
    reveal_strlit("inserted");
    reveal_strlit("duplicate");
    assert(value.word().len() > 0);
}

/// A settlement goes by the word of what settled the question, and tells its own sentence.
pub proof fn law_a_settlement_tells_what_settled_it(settlement: QuestionSettlement)
    ensures
        settlement matches QuestionSettlement::Fact { basis, explanation } ==> settlement.word()
            == basis.word() && settlement.told() == explanation@,
        settlement matches QuestionSettlement::NoFact { reason, explanation } ==> settlement.word()
            == reason.word() && settlement.told() == explanation@,
{
}

/// A row keeps its position in the session, whatever became of it.
pub proof fn law_a_row_keeps_its_position(held: HeldRow)
    ensures
        held matches HeldRow::Held { row } ==> held.position() == row,
        held matches HeldRow::Questioned { row, asked } ==> held.position() == row,
        held matches HeldRow::Settled { row, reason, explanation } ==> held.position() == row,
        held matches HeldRow::Rejected { row, rejection } ==> held.position() == row,
{
}

} // verus!
