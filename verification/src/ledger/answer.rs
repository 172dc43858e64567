//! The answers a question admits.

use crate::ids::AccountId;
use crate::ledger::kinds::{FeeOrigin, IncomeKind};
use vstd::prelude::*;

verus! {

/// The words a question can be answered with.
#[derive(Debug, Clone, Copy, PartialEq, Eq, Structural)]
pub enum AnswerShape {
    SentToOwnAccount,
    ReceivedFromOwnAccount,
    Paid,
    Received,
    Fee,
    Income,
    Refund,
}

impl AnswerShape {
    /// The word to answer with.
    pub open spec fn word(self) -> Seq<char> {
        match self {
            Self::SentToOwnAccount => "sent_to_own_account"@,
            Self::ReceivedFromOwnAccount => "received_from_own_account"@,
            Self::Paid => "paid"@,
            Self::Received => "received"@,
            Self::Fee => "fee"@,
            Self::Income => "income"@,
            Self::Refund => "refund"@,
        }
    }

    /// The word to answer with.
    pub fn code(self) -> (code: &'static str)
        ensures
            code@ == self.word(),
    {
        match self {
            Self::SentToOwnAccount => "sent_to_own_account",
            Self::ReceivedFromOwnAccount => "received_from_own_account",
            Self::Paid => "paid",
            Self::Received => "received",
            Self::Fee => "fee",
            Self::Income => "income",
            Self::Refund => "refund",
        }
    }

    /// The word it goes by, as a text of its own.
    pub fn to_word(&self) -> (word: String)
        ensures
            word@ == self.word(),
    {
        self.code().to_owned()
    }
}

impl AnswerShape {
    /// Whether the answer names one of the owner's accounts: exactly the two
    /// movements between the owner's own accounts do.
    pub open spec fn names_account(self) -> bool {
        self == Self::SentToOwnAccount || self == Self::ReceivedFromOwnAccount
    }

    /// Whether the answer names one of the owner's accounts.
    pub fn needs_account(self) -> (needs: bool)
        ensures
            needs == self.names_account(),
    {
        match self {
            Self::SentToOwnAccount => true,
            Self::ReceivedFromOwnAccount => true,
            _ => false,
        }
    }
}

/// One answer a question admits, with the sentence that says what it decides.
#[derive(Debug, Clone, PartialEq, Eq)]
pub struct Alternative {
    pub shape: AnswerShape,
    pub consequence: String,
}

/// The owner's decision about a row.
#[derive(Debug, Clone, Copy, PartialEq, Eq, Structural)]
pub enum Answer {
    SentToOwnAccount { to: AccountId },
    ReceivedFromOwnAccount { from: AccountId },
    Paid,
    Received,
    Fee { origin: FeeOrigin },
    Income { kind: Option<IncomeKind> },
    Refund,
}

impl Answer {
    /// The word the decision is stated with.
    pub open spec fn shaped(self) -> AnswerShape {
        match self {
            Self::SentToOwnAccount { to } => AnswerShape::SentToOwnAccount,
            Self::ReceivedFromOwnAccount { from } => AnswerShape::ReceivedFromOwnAccount,
            Self::Paid => AnswerShape::Paid,
            Self::Received => AnswerShape::Received,
            Self::Fee { origin } => AnswerShape::Fee,
            Self::Income { kind } => AnswerShape::Income,
            Self::Refund => AnswerShape::Refund,
        }
    }

    /// The word the decision is stated with.
    pub fn shape(&self) -> (shape: AnswerShape)
        ensures
            shape == self.shaped(),
    {
        match self {
            Self::SentToOwnAccount { to } => AnswerShape::SentToOwnAccount,
            Self::ReceivedFromOwnAccount { from } => AnswerShape::ReceivedFromOwnAccount,
            Self::Paid => AnswerShape::Paid,
            Self::Received => AnswerShape::Received,
            Self::Fee { origin } => AnswerShape::Fee,
            Self::Income { kind } => AnswerShape::Income,
            Self::Refund => AnswerShape::Refund,
        }
    }
}

/// How far an answer reaches.
#[derive(Debug, Clone, Copy, PartialEq, Eq, Structural)]
pub enum AnswerReach {
    ThisRow,
    EveryLikeRowInThisSession,
}

impl AnswerReach {
    /// The word to state it with.
    pub open spec fn word(self) -> Seq<char> {
        match self {
            Self::ThisRow => "this_row"@,
            Self::EveryLikeRowInThisSession => "every_like_row_in_this_session"@,
        }
    }

    /// The word to state it with.
    pub fn code(self) -> (code: &'static str)
        ensures
            code@ == self.word(),
    {
        match self {
            Self::ThisRow => "this_row",
            Self::EveryLikeRowInThisSession => "every_like_row_in_this_session",
        }
    }

    /// The word it goes by, as a text of its own.
    pub fn to_word(&self) -> (word: String)
        ensures
            word@ == self.word(),
    {
        self.code().to_owned()
    }
}

/// No two answers go by one word.
pub proof fn law_every_answer_has_its_own_word(one: AnswerShape, other: AnswerShape)
    ensures
        one.word() == other.word() ==> one == other,
{
    reveal_strlit("sent_to_own_account");
    reveal_strlit("received_from_own_account");
    reveal_strlit("paid");
    reveal_strlit("received");
    reveal_strlit("fee");
    reveal_strlit("income");
    reveal_strlit("refund");
    assert("income"@[0] == 'i');
    assert("refund"@[0] == 'r');
    if one.word() == other.word() {
        assert(one.word().len() == other.word().len());
        assert(one.word()[0] == other.word()[0]);
    }
}

/// Each `AnswerShape` goes by a word of its own, and that word names no other.
pub proof fn law_answer_shape_goes_by_its_own_word(value: AnswerShape)
    ensures
        value.word() == "sent_to_own_account"@ <==> value is SentToOwnAccount,
        value.word() == "received_from_own_account"@ <==> value is ReceivedFromOwnAccount,
        value.word() == "paid"@ <==> value is Paid,
        value.word() == "received"@ <==> value is Received,
        value.word() == "fee"@ <==> value is Fee,
        value.word() == "income"@ <==> value is Income,
        value.word() == "refund"@ <==> value is Refund,
{
    reveal_strlit("sent_to_own_account");
    reveal_strlit("received_from_own_account");
    reveal_strlit("paid");
    reveal_strlit("received");
    reveal_strlit("fee");
    reveal_strlit("income");
    reveal_strlit("refund");
    assert("income"@[0] == 'i');
    assert("refund"@[0] == 'r');
    assert(value.word().len() > 0);
}

/// Each `AnswerReach` goes by a word of its own, and that word names no other.
pub proof fn law_answer_reach_goes_by_its_own_word(value: AnswerReach)
    ensures
        value.word() == "this_row"@ <==> value is ThisRow,
        value.word() == "every_like_row_in_this_session"@ <==> value is EveryLikeRowInThisSession,
{
    reveal_strlit("this_row");
    reveal_strlit("every_like_row_in_this_session");
    assert(value.word().len() > 0);
}

/// A decision is shaped as its namesake, and exactly the two movements between the
/// owner's own accounts name an account.
pub proof fn law_a_decision_is_shaped_as_its_namesake(answer: Answer, shape: AnswerShape)
    ensures
        answer is SentToOwnAccount <==> answer.shaped() is SentToOwnAccount,
        answer is ReceivedFromOwnAccount <==> answer.shaped() is ReceivedFromOwnAccount,
        answer is Paid <==> answer.shaped() is Paid,
        answer is Received <==> answer.shaped() is Received,
        answer is Fee <==> answer.shaped() is Fee,
        answer is Income <==> answer.shaped() is Income,
        answer is Refund <==> answer.shaped() is Refund,
        shape.names_account() <==> shape is SentToOwnAccount || shape is ReceivedFromOwnAccount,
{
}

} // verus!
