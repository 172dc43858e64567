//! The answers a question admits, and the owner's answer to one.

use crate::dto::kinds::{FeeOriginDto, IncomeKindDto};
use crate::ids::{AccountId, Uuid};
use crate::ledger::answer::{Alternative, Answer, AnswerReach, AnswerShape};
use crate::ledger::kinds::{FeeOrigin, IncomeKind};
use crate::ledger::rejection::{Rejection, RejectionView};
use crate::ledger::rejection;
use crate::relate;
use crate::text::same_text;
use vstd::prelude::*;

verus! {

/// One answer a question admits: the word, whether it names an account, and
/// what it decides.
#[derive(Debug, Clone, PartialEq, Eq)]
pub struct AnswerAlternativeDto {
    pub answer: String,
    pub needs_account: bool,
    pub consequence: String,
}

impl AnswerAlternativeDto {
    /// What the wire form says of the record it was rendered from.
    pub open spec fn shows(self, alternative: Alternative) -> bool {
        &&& self.answer@ == alternative.shape.word()
        &&& self.needs_account == alternative.shape.names_account()
        &&& self.consequence == alternative.consequence
    }

    /// The wire form of the record.
    pub fn from_domain(alternative: &Alternative) -> (dto: Self)
        ensures
            dto.shows(*alternative),
    {
        Self {
            answer: alternative.shape.code().to_owned(),
            needs_account: alternative.shape.needs_account(),
            consequence: alternative.consequence.clone(),
        }
    }
}

/// The owner's answer to one question.
#[derive(Debug, Clone, PartialEq, Eq)]
pub struct AnswerImportQuestionRequest {
    pub answer: String,
    /// How far the answer reaches. Absent means this row alone.
    pub settles: Option<String>,
    /// The account on the other side, for the two answers that name one.
    pub account: Option<Uuid>,
    /// Where a fee came from, for the fee answer alone.
    pub origin: Option<FeeOriginDto>,
    /// Which earning it was, for the income answer alone.
    pub income_kind: Option<IncomeKindDto>,
}

/// Whether a word is one of the seven.
pub open spec fn is_answer_word(word: Seq<char>) -> bool {
    exists|shape: AnswerShape| #[trigger] shape.word() == word
}

impl AnswerImportQuestionRequest {
    /// The refusal of a word that is no answer.
    pub open spec fn unknown_word(self) -> RejectionView {
        RejectionView {
            field: "answer"@,
            expected:
                "sent_to_own_account, received_from_own_account, paid, received, fee, income or refund"@,
            actual: self.answer@,
        }
    }

    /// The refusal of the request when its word is an answer: a missing account
    /// first, then an account, an origin and an earning the answer does not take.
    pub open spec fn refusal(self, shape: AnswerShape) -> Option<RejectionView> {
        rejection::first(
            if shape.names_account() && self.account is None {
                Some(
                    RejectionView {
                        field: "account"@,
                        expected: "the owner's account this answer names"@,
                        actual: "absent"@,
                    },
                )
            } else {
                None
            },
            rejection::first(
                match self.account {
                    Some(account) if !shape.names_account() => Some(
                        RejectionView {
                            field: "account"@,
                            expected: "no account: the `"@ + shape.word() + "` answer names none"@,
                            actual: account.text(),
                        },
                    ),
                    _ => None,
                },
                rejection::first(
                    match self.origin {
                        Some(origin) if shape != AnswerShape::Fee => Some(
                            RejectionView {
                                field: "origin"@,
                                expected: "no origin: only the `"@ + AnswerShape::Fee.word()
                                    + "` answer carries one"@,
                                actual: origin.word(),
                            },
                        ),
                        _ => None,
                    },
                    match self.income_kind {
                        Some(kind) if shape != AnswerShape::Income => Some(
                            RejectionView {
                                field: "income_kind"@,
                                expected: "no income kind: only the `"@ + AnswerShape::Income.word()
                                    + "` answer carries one"@,
                                actual: kind.word(),
                            },
                        ),
                        _ => None,
                    },
                ),
            ),
        )
    }

    /// Whether a decision is the one the request states. A fee of no stated
    /// origin is of another origin, and an income of no stated kind has none.
    pub open spec fn states(self, answer: Answer) -> bool {
        &&& self.answer@ == answer.shaped().word()
        &&& self.refusal(answer.shaped()) is None
        &&& match answer {
            Answer::SentToOwnAccount { to } => self.account == Some(to.0),
            Answer::ReceivedFromOwnAccount { from } => self.account == Some(from.0),
            Answer::Fee { origin } => origin == (match self.origin {
                Some(stated) => stated.denotes(),
                None => FeeOrigin::Other,
            }),
            Answer::Income { kind } => relate::both(
                self.income_kind,
                kind,
                |dto: IncomeKindDto, kind: IncomeKind| dto.denotes() == kind,
            ),
            _ => true,
        }
    }

    /// How far the caller said the answer reaches. A word that is neither is
    /// refused: it is not read as the narrow word, nor as the wide one.
    pub fn to_reach(&self) -> (reach: Result<AnswerReach, Rejection>)
        ensures
            match reach {
                Ok(reach) => match self.settles {
                    Some(word) => word@ == reach.word(),
                    None => reach == AnswerReach::ThisRow,
                },
                Err(rejection) => self.settles matches Some(word) && word@ != "this_row"@ && word@
                    != "every_like_row_in_this_session"@ && rejection@ == (RejectionView {
                    field: "settles"@,
                    expected: "this_row or every_like_row_in_this_session"@,
                    actual: word@,
                }),
            },
    {
        match &self.settles {
            None => Ok(AnswerReach::ThisRow),
            Some(word) => if same_text(word.as_str(), "this_row") {
                Ok(AnswerReach::ThisRow)
            } else if same_text(word.as_str(), "every_like_row_in_this_session") {
                Ok(AnswerReach::EveryLikeRowInThisSession)
            } else {
                Err(
                    Rejection::of(
                        "settles",
                        "this_row or every_like_row_in_this_session",
                        word.as_str(),
                    ),
                )
            },
        }
    }

    /// The word of the request.
    fn shape(&self) -> (shape: Option<AnswerShape>)
        ensures
            match shape {
                Some(shape) => shape.word() == self.answer@,
                None => !is_answer_word(self.answer@),
            },
    {
        let word = self.answer.as_str();
        if same_text(word, "sent_to_own_account") {
            Some(AnswerShape::SentToOwnAccount)
        } else if same_text(word, "received_from_own_account") {
            Some(AnswerShape::ReceivedFromOwnAccount)
        } else if same_text(word, "paid") {
            Some(AnswerShape::Paid)
        } else if same_text(word, "received") {
            Some(AnswerShape::Received)
        } else if same_text(word, "fee") {
            Some(AnswerShape::Fee)
        } else if same_text(word, "income") {
            Some(AnswerShape::Income)
        } else if same_text(word, "refund") {
            Some(AnswerShape::Refund)
        } else {
            None
        }
    }

    /// The refusal of an answer that names an account and came without one.
    pub fn missing_account(&self) -> (rejection: Rejection)
        ensures
            rejection@ == (RejectionView {
                field: "account"@,
                expected: "the owner's account this answer names"@,
                actual: "absent"@,
            }),
    {
        Rejection::of("account", "the owner's account this answer names", "absent")
    }

    /// The owner's decision. A field the answer does not take is refused rather
    /// than dropped: it is the mark of a caller that believes it gave another
    /// answer.
    pub fn to_domain(&self) -> (read: Result<Answer, Rejection>)
        ensures
            match read {
                Ok(answer) => self.states(answer),
                Err(rejection) => {
                    ||| !is_answer_word(self.answer@) && rejection@ == self.unknown_word()
                    ||| exists|shape: AnswerShape| #[trigger]
                        shape.word() == self.answer@ && self.refusal(shape) == Some(rejection@)
                },
            },
    {
        let shape = match self.shape() {
            Some(shape) => shape,
            None => {
                return Err(
                    Rejection::of(
                        "answer",
                        "sent_to_own_account, received_from_own_account, paid, received, fee, income or refund",
                        self.answer.as_str(),
                    ),
                );
            },
        };
        if shape.needs_account() && self.account.is_none() {
            return Err(self.missing_account());
        }
        if let Some(superfluous) = self.account {
            if !shape.needs_account() {
                let mut expected = "no account: the `".to_owned();
                expected.append(shape.code());
                expected.append("` answer names none");
                return Err(
                    Rejection::of("account", expected.as_str(), superfluous.to_text().as_str()),
                );
            }
        }
        if let Some(superfluous) = self.origin {
            if shape != AnswerShape::Fee {
                let mut expected = "no origin: only the `".to_owned();
                expected.append(AnswerShape::Fee.code());
                expected.append("` answer carries one");
                return Err(Rejection::of("origin", expected.as_str(), superfluous.code()));
            }
        }
        if let Some(superfluous) = self.income_kind {
            if shape != AnswerShape::Income {
                let mut expected = "no income kind: only the `".to_owned();
                expected.append(AnswerShape::Income.code());
                expected.append("` answer carries one");
                return Err(Rejection::of("income_kind", expected.as_str(), superfluous.code()));
            }
        }
        Ok(
            match (shape, self.account) {
                (AnswerShape::SentToOwnAccount, Some(account)) => Answer::SentToOwnAccount {
                    to: AccountId(account),
                },
                (AnswerShape::ReceivedFromOwnAccount, Some(account)) => {
                    Answer::ReceivedFromOwnAccount { from: AccountId(account) }
                },
                (AnswerShape::Paid, _) => Answer::Paid,
                (AnswerShape::Received, _) => Answer::Received,
                (AnswerShape::Fee, _) => Answer::Fee {
                    origin: match self.origin {
                        Some(origin) => origin.to_domain(),
                        None => FeeOrigin::Other,
                    },
                },
                (AnswerShape::Income, _) => Answer::Income {
                    kind: self.income_kind.map(IncomeKindDto::to_domain),
                },
                _ => Answer::Refund,
            },
        )
    }
}

/// An answer takes exactly the fields its word takes: a decision was reached with
/// an account exactly where the word names one, with an origin only for a fee and
/// with an earning only for an income.
pub proof fn law_an_answer_takes_only_its_own_fields(
    request: AnswerImportQuestionRequest,
    answer: Answer,
)
    requires
        request.states(answer),
    ensures
        request.account is Some <==> answer.shaped().names_account(),
        request.origin is Some ==> answer is Fee,
        request.income_kind is Some ==> answer is Income,
{
}

/// A request states at most one decision.
pub proof fn law_a_request_states_one_decision(
    request: AnswerImportQuestionRequest,
    one: Answer,
    other: Answer,
)
    requires
        request.states(one),
        request.states(other),
    ensures
        one == other,
{
    crate::ledger::answer::law_every_answer_has_its_own_word(one.shaped(), other.shaped());
}

/// Every publisher of a question publishes the same words, in the same order, with
/// the same consequences.
pub proof fn law_publishers_of_one_question_agree(
    one: Seq<AnswerAlternativeDto>,
    other: Seq<AnswerAlternativeDto>,
    stored: Seq<Alternative>,
)
    requires
        relate::each(
            one,
            stored,
            |dto: AnswerAlternativeDto, alternative: Alternative| dto.shows(alternative),
        ),
        relate::each(
            other,
            stored,
            |dto: AnswerAlternativeDto, alternative: Alternative| dto.shows(alternative),
        ),
    ensures
        one.len() == other.len(),
        forall|i: int|
            0 <= i < one.len() ==> {
                &&& (#[trigger] one[i]).answer@ == other[i].answer@
                &&& one[i].needs_account == other[i].needs_account
                &&& one[i].consequence@ == other[i].consequence@
            },
{
    assert forall|i: int| 0 <= i < one.len() implies {
        &&& (#[trigger] one[i]).answer@ == other[i].answer@
        &&& one[i].needs_account == other[i].needs_account
        &&& one[i].consequence@ == other[i].consequence@
    } by {
        assert(one[i].shows(stored[i]));
        assert(other[i].shows(stored[i]));
    }
}

/// An `AnswerAlternativeDto` tells each part of what it shows in a field of its own.
pub proof fn law_answer_alternative_is_told_part_by_part(
    dto: AnswerAlternativeDto,
    alternative: Alternative,
)
    requires
        dto.shows(alternative),
    ensures
        dto.answer@ == alternative.shape.word(),
        dto.needs_account == alternative.shape.names_account(),
        dto.consequence == alternative.consequence,
{
}

/// A decision is stated by its own word and by no other: what was said to be paid is
/// never settled as received, nor the other way round.
pub proof fn law_a_decision_is_stated_by_its_own_word(
    request: AnswerImportQuestionRequest,
    answer: Answer,
)
    requires
        request.states(answer),
    ensures
        request.answer@ == "sent_to_own_account"@ <==> answer is SentToOwnAccount,
        request.answer@ == "received_from_own_account"@ <==> answer is ReceivedFromOwnAccount,
        request.answer@ == "paid"@ <==> answer is Paid,
        request.answer@ == "received"@ <==> answer is Received,
        request.answer@ == "fee"@ <==> answer is Fee,
        request.answer@ == "income"@ <==> answer is Income,
        request.answer@ == "refund"@ <==> answer is Refund,
{
    crate::ledger::answer::law_answer_shape_goes_by_its_own_word(answer.shaped());
}

/// A decision carries what the request carries: the account it names, the origin it
/// states or another origin where it states none, the earning it states or none.
pub proof fn law_a_decision_carries_what_was_stated(
    request: AnswerImportQuestionRequest,
    answer: Answer,
)
    requires
        request.states(answer),
    ensures
        answer matches Answer::SentToOwnAccount { to } ==> request.account == Some(to.0),
        answer matches Answer::ReceivedFromOwnAccount { from } ==> request.account == Some(from.0),
        answer is SentToOwnAccount || answer is ReceivedFromOwnAccount || request.account is None,
        answer matches Answer::Fee { origin } ==> {
            &&& request.origin is None ==> origin is Other
            &&& request.origin is Some ==> origin == request.origin->0.denotes()
        },
        answer is Fee || request.origin is None,
        answer matches Answer::Income { kind } ==> {
            &&& kind is Some <==> request.income_kind is Some
            &&& kind is Some ==> kind->0 == request.income_kind->0.denotes()
        },
        answer is Income || request.income_kind is None,
{
}

/// A word that is none of the seven is refused as an answer, and the refusal says which
/// words there are and which came.
pub proof fn law_only_the_seven_words_are_answers(request: AnswerImportQuestionRequest)
    ensures
        is_answer_word(request.answer@) <==> {
            ||| request.answer@ == "sent_to_own_account"@
            ||| request.answer@ == "received_from_own_account"@
            ||| request.answer@ == "paid"@
            ||| request.answer@ == "received"@
            ||| request.answer@ == "fee"@
            ||| request.answer@ == "income"@
            ||| request.answer@ == "refund"@
        },
        request.unknown_word().field == "answer"@,
        request.unknown_word().actual == request.answer@,
        request.unknown_word().expected
            == "sent_to_own_account, received_from_own_account, paid, received, fee, income or refund"@,
{
    assert(AnswerShape::SentToOwnAccount.word() == "sent_to_own_account"@);
    assert(AnswerShape::ReceivedFromOwnAccount.word() == "received_from_own_account"@);
    assert(AnswerShape::Paid.word() == "paid"@);
    assert(AnswerShape::Received.word() == "received"@);
    assert(AnswerShape::Fee.word() == "fee"@);
    assert(AnswerShape::Income.word() == "income"@);
    assert(AnswerShape::Refund.word() == "refund"@);
}

/// An answer is refused for the first of these: an account that it names and that is
/// missing, an account that it does not name, an origin beside another answer than a fee,
/// an earning beside another answer than an income; and for nothing else.
pub proof fn law_an_answer_is_refused_for_cause(
    request: AnswerImportQuestionRequest,
    shape: AnswerShape,
)
    ensures
        ({
            let refusal = request.refusal(shape);
            let moves = shape is SentToOwnAccount || shape is ReceivedFromOwnAccount;
            let missing = moves && request.account is None;
            let superfluous = !moves && request.account is Some;
            let odd_origin = !(shape is Fee) && request.origin is Some;
            let odd_kind = !(shape is Income) && request.income_kind is Some;
            &&& refusal is None <==> !missing && !superfluous && !odd_origin && !odd_kind
            &&& missing ==> refusal->0.field == "account"@ && refusal->0.actual == "absent"@
                && refusal->0.expected == "the owner's account this answer names"@
            &&& superfluous ==> refusal->0.field == "account"@ && refusal->0.actual
                == request.account->0.text() && refusal->0.expected == "no account: the `"@
                + shape.word() + "` answer names none"@
            &&& !missing && !superfluous && odd_origin ==> refusal->0.field == "origin"@
                && refusal->0.actual == request.origin->0.word() && refusal->0.expected
                == "no origin: only the `"@ + "fee"@ + "` answer carries one"@
            &&& !missing && !superfluous && !odd_origin && odd_kind ==> refusal->0.field
                == "income_kind"@ && refusal->0.actual == request.income_kind->0.word()
                && refusal->0.expected == "no income kind: only the `"@ + "income"@
                + "` answer carries one"@
        }),
{
}

} // verus!
