//! What became of a submitted row, on the wire.

use crate::dto::answer::AnswerAlternativeDto;
use crate::ids::Uuid;
use crate::ledger::verdict::Verdict;
use crate::relate;
use vstd::prelude::*;

verus! {

/// The verdicts, as words.
#[derive(Debug, Clone, Copy, PartialEq, Eq, Structural)]
pub enum VerdictCodeDto {
    Accepted,
    Provisional,
    PossibleDuplicate,
    Discrepancy,
    NeedsReconciliation,
    Duplicate,
    NeedsClassification,
    Unsupported,
    Rejected,
    Quarantined,
    NoFact,
}

impl VerdictCodeDto {
    /// The word on the wire.
    pub open spec fn word(self) -> Seq<char> {
        match self {
            Self::Accepted => "accepted"@,
            Self::Provisional => "provisional"@,
            Self::PossibleDuplicate => "possible_duplicate"@,
            Self::Discrepancy => "discrepancy"@,
            Self::NeedsReconciliation => "needs_reconciliation"@,
            Self::Duplicate => "duplicate"@,
            Self::NeedsClassification => "needs_classification"@,
            Self::Unsupported => "unsupported"@,
            Self::Rejected => "rejected"@,
            Self::Quarantined => "quarantined"@,
            Self::NoFact => "no_fact"@,
        }
    }

    /// The word on the wire.
    pub fn code(self) -> (code: &'static str)
        ensures
            code@ == self.word(),
    {
        match self {
            Self::Accepted => "accepted",
            Self::Provisional => "provisional",
            Self::PossibleDuplicate => "possible_duplicate",
            Self::Discrepancy => "discrepancy",
            Self::NeedsReconciliation => "needs_reconciliation",
            Self::Duplicate => "duplicate",
            Self::NeedsClassification => "needs_classification",
            Self::Unsupported => "unsupported",
            Self::Rejected => "rejected",
            Self::Quarantined => "quarantined",
            Self::NoFact => "no_fact",
        }
    }
}

impl VerdictCodeDto {
    /// The code of a verdict, which goes by the verdict's own word.
    pub fn from_domain(verdict: &Verdict) -> (dto: Self)
        ensures
            dto.word() == verdict.word(),
    {
        match verdict {
            Verdict::Accepted { .. } => Self::Accepted,
            Verdict::Provisional { .. } => Self::Provisional,
            Verdict::PossibleDuplicate { .. } => Self::PossibleDuplicate,
            Verdict::Discrepancy { .. } => Self::Discrepancy,
            Verdict::NeedsReconciliation { .. } => Self::NeedsReconciliation,
            Verdict::Duplicate { .. } => Self::Duplicate,
            Verdict::NeedsClassification { .. } => Self::NeedsClassification,
            Verdict::Unsupported { .. } => Self::Unsupported,
            Verdict::Rejected { .. } => Self::Rejected,
            Verdict::Quarantined { .. } => Self::Quarantined,
            Verdict::NoFact { .. } => Self::NoFact,
        }
    }
}

/// No two verdicts go by one word.
pub proof fn law_every_verdict_has_its_own_word(one: VerdictCodeDto, other: VerdictCodeDto)
    ensures
        one.word() == other.word() ==> one == other,
{
    reveal_strlit("accepted");
    reveal_strlit("provisional");
    reveal_strlit("possible_duplicate");
    reveal_strlit("discrepancy");
    reveal_strlit("needs_reconciliation");
    reveal_strlit("duplicate");
    reveal_strlit("needs_classification");
    reveal_strlit("unsupported");
    reveal_strlit("rejected");
    reveal_strlit("quarantined");
    reveal_strlit("no_fact");
    assert("accepted"@[0] == 'a');
    assert("rejected"@[0] == 'r');
    assert("provisional"@[0] == 'p');
    assert("discrepancy"@[0] == 'd');
    assert("unsupported"@[0] == 'u');
    assert("quarantined"@[0] == 'q');
    assert("needs_reconciliation"@[6] == 'r');
    assert("needs_classification"@[6] == 'c');
    if one.word() == other.word() {
        assert(one.word().len() == other.word().len());
        assert(one.word()[0] == other.word()[0]);
        assert(one.word()[6] == other.word()[6]);
    }
}

/// What became of one row. Beside the verdict stand exactly the fields that
/// explain it.
#[derive(Debug, Clone, PartialEq, Eq)]
pub struct VerdictDto {
    pub row: usize,
    pub verdict: VerdictCodeDto,
    pub event_id: Option<Uuid>,
    pub of_event_id: Option<Uuid>,
    pub level: Option<u8>,
    pub field: Option<String>,
    pub expected: Option<String>,
    pub actual: Option<String>,
    pub detail: Option<String>,
    pub account_id: Option<Uuid>,
    pub dimension: Option<String>,
    pub session_id: Option<Uuid>,
    pub question_id: Option<Uuid>,
    pub alternatives: Option<Vec<AnswerAlternativeDto>>,
}

/// The event a verdict names.
pub open spec fn verdict_event(verdict: Verdict) -> Option<Uuid> {
    match verdict {
        Verdict::Accepted { event } => Some(event.0),
        Verdict::Provisional { event } => Some(event.0),
        Verdict::PossibleDuplicate { event, of, level } => Some(event.0),
        Verdict::Discrepancy { event, account, dimension, detail } => Some(event.0),
        Verdict::Duplicate { existing } => Some(existing.0),
        _ => None,
    }
}

/// The explanation a verdict carries in words.
pub open spec fn verdict_detail(verdict: Verdict) -> Option<Seq<char>> {
    match verdict {
        Verdict::Discrepancy { event, account, dimension, detail } => Some(detail@),
        Verdict::NeedsClassification { question } => Some(question@),
        Verdict::Unsupported { reason } => Some(reason@),
        Verdict::Quarantined { reason } => Some(reason@),
        Verdict::NoFact { reason } => Some(reason@),
        _ => None,
    }
}

impl VerdictDto {
    /// What the wire form says of the verdict on a row.
    pub open spec fn shows(self, row: usize, verdict: Verdict) -> bool {
        &&& self.row == row
        &&& self.verdict.word() == verdict.word()
        &&& self.event_id == verdict_event(verdict)
        &&& relate::says(self.detail, verdict_detail(verdict))
        &&& match verdict {
            Verdict::PossibleDuplicate { event, of, level } => self.of_event_id == Some(of.0)
                && self.level == Some(level),
            _ => self.of_event_id is None && self.level is None,
        }
        &&& match verdict {
            Verdict::Rejected { rejection } => {
                &&& self.field == Some(rejection.field)
                &&& self.expected == Some(rejection.expected)
                &&& self.actual == Some(rejection.actual)
            },
            _ => self.field is None && self.expected is None && self.actual is None,
        }
        &&& match verdict {
            Verdict::Discrepancy { event, account, dimension, detail } => self.account_id == Some(
                account.0,
            ) && self.dimension == Some(dimension),
            Verdict::NeedsReconciliation { account, dimension } => self.account_id == Some(
                account.0,
            ) && self.dimension == Some(dimension),
            _ => self.account_id is None && self.dimension is None,
        }
        &&& self.session_id is None
        &&& self.question_id is None
        &&& self.alternatives is None
    }

    /// The wire form of the verdict on a row.
    pub fn from_domain(row: usize, verdict: &Verdict) -> (dto: Self)
        ensures
            dto.shows(row, *verdict),
    {
        let base = Self {
            row,
            verdict: VerdictCodeDto::from_domain(verdict),
            event_id: None,
            of_event_id: None,
            level: None,
            field: None,
            expected: None,
            actual: None,
            detail: None,
            account_id: None,
            dimension: None,
            session_id: None,
            question_id: None,
            alternatives: None,
        };
        match verdict {
            Verdict::Accepted { event } => Self { event_id: Some(event.0), ..base },
            Verdict::Provisional { event } => Self { event_id: Some(event.0), ..base },
            Verdict::PossibleDuplicate { event, of, level } => Self {
                event_id: Some(event.0),
                of_event_id: Some(of.0),
                level: Some(*level),
                ..base
            },
            Verdict::Discrepancy { event, account, dimension, detail } => Self {
                event_id: Some(event.0),
                account_id: Some(account.0),
                dimension: Some(dimension.clone()),
                detail: Some(detail.clone()),
                ..base
            },
            Verdict::NeedsReconciliation { account, dimension } => Self {
                account_id: Some(account.0),
                dimension: Some(dimension.clone()),
                ..base
            },
            Verdict::Duplicate { existing } => Self { event_id: Some(existing.0), ..base },
            Verdict::NeedsClassification { question } => Self {
                detail: Some(question.clone()),
                ..base
            },
            Verdict::Unsupported { reason } => Self { detail: Some(reason.clone()), ..base },
            Verdict::Rejected { rejection } => Self {
                field: Some(rejection.field.clone()),
                expected: Some(rejection.expected.clone()),
                actual: Some(rejection.actual.clone()),
                ..base
            },
            Verdict::Quarantined { reason } => Self { detail: Some(reason.clone()), ..base },
            Verdict::NoFact { reason } => Self { detail: Some(reason.clone()), ..base },
        }
    }
}

/// The verdicts of a batch are numbered from one, in the order of the rows.
pub fn numbered(verdicts: &Vec<Verdict>) -> (rows: Vec<VerdictDto>)
    ensures
        rows@.len() == verdicts@.len(),
        forall|i: int|
            0 <= i < verdicts@.len() ==> (#[trigger] rows@[i]).shows(
                (i + 1) as usize,
                verdicts@[i],
            ),
{
    let mut rows: Vec<VerdictDto> = Vec::new();
    let mut next: usize = 0;
    while next < verdicts.len()
        invariant
            next <= verdicts@.len(),
            rows@.len() == next,
            forall|i: int|
                0 <= i < next ==> (#[trigger] rows@[i]).shows((i + 1) as usize, verdicts@[i]),
        decreases verdicts@.len() - next,
    {
        rows.push(VerdictDto::from_domain(next + 1, &verdicts[next]));
        next = next + 1;
    }
    rows
}

/// A row is explained by the refused field exactly where it was rejected, and a
/// row that names an event is never one that was rejected or held.
pub proof fn law_a_verdict_carries_only_its_own_fields(
    dto: VerdictDto,
    row: usize,
    verdict: Verdict,
)
    requires
        dto.shows(row, verdict),
    ensures
        dto.field is Some <==> verdict is Rejected,
        dto.expected is Some <==> verdict is Rejected,
        dto.actual is Some <==> verdict is Rejected,
        dto.level is Some <==> verdict is PossibleDuplicate,
        dto.account_id is Some <==> dto.dimension is Some,
        verdict is Rejected ==> dto.event_id is None && dto.detail is None,
{
}

/// Each `VerdictCodeDto` goes by a word of its own, and that word names no other.
pub proof fn law_verdict_code_goes_by_its_own_word(value: VerdictCodeDto)
    ensures
        value.word() == "accepted"@ <==> value is Accepted,
        value.word() == "provisional"@ <==> value is Provisional,
        value.word() == "possible_duplicate"@ <==> value is PossibleDuplicate,
        value.word() == "discrepancy"@ <==> value is Discrepancy,
        value.word() == "needs_reconciliation"@ <==> value is NeedsReconciliation,
        value.word() == "duplicate"@ <==> value is Duplicate,
        value.word() == "needs_classification"@ <==> value is NeedsClassification,
        value.word() == "unsupported"@ <==> value is Unsupported,
        value.word() == "rejected"@ <==> value is Rejected,
        value.word() == "quarantined"@ <==> value is Quarantined,
        value.word() == "no_fact"@ <==> value is NoFact,
{
    reveal_strlit("accepted");
    reveal_strlit("provisional");
    reveal_strlit("possible_duplicate");
    reveal_strlit("discrepancy");
    reveal_strlit("needs_reconciliation");
    reveal_strlit("duplicate");
    reveal_strlit("needs_classification");
    reveal_strlit("unsupported");
    reveal_strlit("rejected");
    reveal_strlit("quarantined");
    reveal_strlit("no_fact");
    assert("accepted"@[0] == 'a');
    assert("discrepancy"@[0] == 'd');
    assert("needs_classification"@[6] == 'c');
    assert("needs_reconciliation"@[6] == 'r');
    assert("provisional"@[0] == 'p');
    assert("quarantined"@[0] == 'q');
    assert("rejected"@[0] == 'r');
    assert("unsupported"@[0] == 'u');
    assert(value.word().len() > 0);
}

/// A `VerdictDto` tells each part of what it shows in a field of its own.
pub proof fn law_verdict_is_told_part_by_part(
    dto: VerdictDto,
    row: usize,
    verdict: Verdict,
)
    requires
        dto.shows(row, verdict),
    ensures
        dto.row == row,
        dto.verdict.word() == verdict.word(),
        dto.event_id == verdict_event(verdict),
        relate::says(dto.detail, verdict_detail(verdict)),
        match verdict {
            Verdict::PossibleDuplicate { event, of, level } => dto.of_event_id == Some(of.0)
                && dto.level == Some(level),
            _ => dto.of_event_id is None && dto.level is None,
        },
        match verdict {
            Verdict::Rejected { rejection } => {
                &&& dto.field == Some(rejection.field)
                &&& dto.expected == Some(rejection.expected)
                &&& dto.actual == Some(rejection.actual)
            },
            _ => dto.field is None && dto.expected is None && dto.actual is None,
        },
        match verdict {
            Verdict::Discrepancy { event, account, dimension, detail } => dto.account_id == Some(
                account.0,
            ) && dto.dimension == Some(dimension),
            Verdict::NeedsReconciliation { account, dimension } => dto.account_id == Some(
                account.0,
            ) && dto.dimension == Some(dimension),
            _ => dto.account_id is None && dto.dimension is None,
        },
        dto.session_id is None,
        dto.question_id is None,
        dto.alternatives is None,
{
}

/// A verdict names the event it is about: the recorded one, or the one that is there
/// already; a verdict that recorded nothing names none.
pub proof fn law_a_verdict_names_its_own_event(verdict: Verdict)
    ensures
        verdict matches Verdict::Accepted { event } ==> verdict_event(verdict) == Some(event.0),
        verdict matches Verdict::Provisional { event } ==> verdict_event(verdict) == Some(event.0),
        verdict matches Verdict::PossibleDuplicate { event, of, level } ==> verdict_event(verdict)
            == Some(event.0),
        verdict matches Verdict::Discrepancy { event, account, dimension, detail }
            ==> verdict_event(verdict) == Some(event.0),
        verdict matches Verdict::Duplicate { existing } ==> verdict_event(verdict) == Some(
            existing.0,
        ),
        verdict is NeedsReconciliation || verdict is NeedsClassification || verdict is Unsupported
            || verdict is Rejected || verdict is Quarantined || verdict is NoFact ==> verdict_event(
            verdict,
        ) is None,
{
}

/// A verdict is explained in the words it carries, and in none where it carries none.
pub proof fn law_a_verdict_is_explained_in_its_own_words(verdict: Verdict)
    ensures
        verdict matches Verdict::Discrepancy { event, account, dimension, detail }
            ==> verdict_detail(verdict) == Some(detail@),
        verdict matches Verdict::NeedsClassification { question } ==> verdict_detail(verdict)
            == Some(question@),
        verdict matches Verdict::Unsupported { reason } ==> verdict_detail(verdict) == Some(
            reason@,
        ),
        verdict matches Verdict::Quarantined { reason } ==> verdict_detail(verdict) == Some(
            reason@,
        ),
        verdict matches Verdict::NoFact { reason } ==> verdict_detail(verdict) == Some(reason@),
        verdict is Accepted || verdict is Provisional || verdict is PossibleDuplicate || verdict
            is Duplicate || verdict is NeedsReconciliation || verdict is Rejected
            ==> verdict_detail(verdict) is None,
{
}

} // verus!
