//! What became of a submitted row.

use crate::ids::{AccountId, EventId};
use crate::ledger::rejection::Rejection;
use vstd::prelude::*;

verus! {

/// What became of a submitted row. A possible duplicate carries the level of
/// the match.
#[derive(Debug, Clone, PartialEq, Eq)]
pub enum Verdict {
    Accepted { event: EventId },
    Provisional { event: EventId },
    PossibleDuplicate { event: EventId, of: EventId, level: u8 },
    Discrepancy { event: EventId, account: AccountId, dimension: String, detail: String },
    NeedsReconciliation { account: AccountId, dimension: String },
    Duplicate { existing: EventId },
    NeedsClassification { question: String },
    Unsupported { reason: String },
    Rejected { rejection: Rejection },
    Quarantined { reason: String },
    NoFact { reason: String },
}

impl Verdict {
    /// The word of the verdict.
    pub open spec fn word(self) -> Seq<char> {
        match self {
            Self::Accepted { .. } => "accepted"@,
            Self::Provisional { .. } => "provisional"@,
            Self::PossibleDuplicate { .. } => "possible_duplicate"@,
            Self::Discrepancy { .. } => "discrepancy"@,
            Self::NeedsReconciliation { .. } => "needs_reconciliation"@,
            Self::Duplicate { .. } => "duplicate"@,
            Self::NeedsClassification { .. } => "needs_classification"@,
            Self::Unsupported { .. } => "unsupported"@,
            Self::Rejected { .. } => "rejected"@,
            Self::Quarantined { .. } => "quarantined"@,
            Self::NoFact { .. } => "no_fact"@,
        }
    }

    /// The word of the verdict.
    pub fn code(&self) -> (code: &'static str)
        ensures
            code@ == self.word(),
    {
        match self {
            Self::Accepted { .. } => "accepted",
            Self::Provisional { .. } => "provisional",
            Self::PossibleDuplicate { .. } => "possible_duplicate",
            Self::Discrepancy { .. } => "discrepancy",
            Self::NeedsReconciliation { .. } => "needs_reconciliation",
            Self::Duplicate { .. } => "duplicate",
            Self::NeedsClassification { .. } => "needs_classification",
            Self::Unsupported { .. } => "unsupported",
            Self::Rejected { .. } => "rejected",
            Self::Quarantined { .. } => "quarantined",
            Self::NoFact { .. } => "no_fact",
        }
    }
}

/// Each `Verdict` goes by a word of its own, and that word names no other.
pub proof fn law_verdict_goes_by_its_own_word(value: Verdict)
    ensures
        value.word() == "accepted"@ <==> value is Accepted,
        value.word() == "provisional"@ <==> value is Provisional,
        value.word() == "possible_duplicate"@ <==> value is PossibleDuplicate,
        value.word() == "discrepancy"@ <==> value is Discrepancy,
        value.word() == "needs_reconciliation"@ <==> value is NeedsReconciliation,
        value.word() == "duplicate"@ <==> value is Duplicate,
        value.word() == "needs_classification"@ <==> value is NeedsClassification,
        value.word() == "unsupported"@ <==> value is Unsupported,
        value.word() == "rejected"@ <==> value is Rejected,
        value.word() == "quarantined"@ <==> value is Quarantined,
        value.word() == "no_fact"@ <==> value is NoFact,
{
    reveal_strlit("accepted");
    reveal_strlit("provisional");
    reveal_strlit("possible_duplicate");
    reveal_strlit("discrepancy");
    reveal_strlit("needs_reconciliation");
    reveal_strlit("duplicate");
    reveal_strlit("needs_classification");
    reveal_strlit("unsupported");
    reveal_strlit("rejected");
    reveal_strlit("quarantined");
    reveal_strlit("no_fact");
    assert("accepted"@[0] == 'a');
    assert("discrepancy"@[0] == 'd');
    assert("needs_classification"@[6] == 'c');
    assert("needs_reconciliation"@[6] == 'r');
    assert("provisional"@[0] == 'p');
    assert("quarantined"@[0] == 'q');
    assert("rejected"@[0] == 'r');
    assert("unsupported"@[0] == 'u');
    assert(value.word().len() > 0);
}

} // verus!
