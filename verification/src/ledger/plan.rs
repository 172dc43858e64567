//! The assessment of an import session: what a commit would record, and what
//! stands in its way.

use crate::calendar::{Date, Period};
use crate::ids::{AccountId, EventId, ImportId, ImportQuestionId, ImportSessionId, SourceId, Uuid};
use crate::ledger::action::{AccountCandidate, OwnerQuestion};
use crate::ledger::answer::{Alternative, AnswerReach};
use crate::ledger::control::{BatchTotal, ControlReconciliation};
use crate::ledger::rule::RuleMatcher;
use crate::ledger::session::{FactBasis, ImportSessionView, NoFactReason};
use crate::money::CurrencyCode;
use vstd::prelude::*;

verus! {

/// Which way money went.
#[derive(Debug, Clone, Copy, PartialEq, Eq, Structural)]
pub enum Movement {
    In,
    Out,
}

/// What the members of a group say alike about which way money went.
#[derive(Debug, Clone, Copy, PartialEq, Eq, Structural)]
pub enum SharedMovement {
    Stated(Movement),
    NoneStated,
}

impl SharedMovement {
    /// The word for it. That all of them state nothing has a word of its own.
    pub open spec fn word(self) -> Seq<char> {
        match self {
            Self::Stated(movement) => movement.word(),
            Self::NoneStated => "unstated"@,
        }
    }
}

/// What makes rows one group.
#[derive(Debug, Clone, Copy, PartialEq, Eq, Structural)]
pub enum GroupBasis {
    OneDecision,
    OneMovement,
}

/// Where a session stands before its commit.
#[derive(Debug, Clone, PartialEq, Eq)]
pub enum Readiness {
    Ready,
    Blocked { reason: String },
    RequiresOwnerDecision {
        unanswered_questions: usize,
        transfer_candidates: usize,
        rows_resembling_recorded: usize,
    },
    DoesNotReconcile { mismatched_figures: usize, misplaced_rows: usize },
}

/// Why a row stays in the session.
#[derive(Debug, Clone, PartialEq, Eq)]
pub enum RetentionReason {
    Unreadable { field: String, expected: String, actual: String },
    Unanswered { question: ImportQuestionId },
}

/// Where a cash movement was seen.
#[derive(Debug, Clone, Copy, PartialEq, Eq, Structural)]
pub enum LegOrigin {
    Recorded { event: EventId },
    Observed { session: ImportSessionId, row: u32 },
}

impl Movement {
    /// The word of the direction.
    pub open spec fn word(self) -> Seq<char> {
        match self {
            Self::In => "in"@,
            Self::Out => "out"@,
        }
    }

    /// The word of the direction.
    pub fn code(self) -> (code: &'static str)
        ensures
            code@ == self.word(),
    {
        match self {
            Self::In => "in",
            Self::Out => "out",
        }
    }
}

impl GroupBasis {
    /// The word of the basis.
    pub open spec fn word(self) -> Seq<char> {
        match self {
            Self::OneDecision => "one_decision"@,
            Self::OneMovement => "one_movement"@,
        }
    }

    /// The word of the basis.
    pub fn code(self) -> (code: &'static str)
        ensures
            code@ == self.word(),
    {
        match self {
            Self::OneDecision => "one_decision",
            Self::OneMovement => "one_movement",
        }
    }
}

impl Readiness {
    /// The word of the state.
    pub open spec fn word(self) -> Seq<char> {
        match self {
            Self::Ready => "ready"@,
            Self::Blocked { reason } => "blocked"@,
            Self::RequiresOwnerDecision {
                unanswered_questions,
                transfer_candidates,
                rows_resembling_recorded,
            } => "requires_owner_decision"@,
            Self::DoesNotReconcile { mismatched_figures, misplaced_rows } => "does_not_reconcile"@,
        }
    }

    /// The word of the state.
    pub fn code(&self) -> (code: &'static str)
        ensures
            code@ == self.word(),
    {
        match self {
            Self::Ready => "ready",
            Self::Blocked { reason } => "blocked",
            Self::RequiresOwnerDecision {
                unanswered_questions,
                transfer_candidates,
                rows_resembling_recorded,
            } => "requires_owner_decision",
            Self::DoesNotReconcile { mismatched_figures, misplaced_rows } => "does_not_reconcile",
        }
    }
}

/// What the rows came from.
#[derive(Debug, Clone, PartialEq, Eq)]
pub struct SourceInventory {
    pub source: Option<SourceId>,
    pub import: Option<ImportId>,
    pub documents: Vec<String>,
    pub rows: usize,
    pub period: Option<Period>,
    pub accounts: Vec<AccountId>,
}

/// The accounts the rows are on, as far as the directory knows them.
#[derive(Debug, Clone, PartialEq, Eq)]
pub struct AccountResolution {
    pub resolved: Vec<AccountId>,
    pub missing: Vec<AccountId>,
    pub conflicting: Vec<String>,
    pub unrecognised: Vec<String>,
}

/// The accounts the rows are on, as far as the perimeter holds them.
#[derive(Debug, Clone, PartialEq, Eq)]
pub struct ScopeAssessment {
    pub in_contour: Vec<AccountId>,
    pub explicitly_outside: Vec<AccountId>,
    pub awaiting_disposition: Vec<AccountId>,
}

/// The identity one account's facts will carry.
#[derive(Debug, Clone, Copy, PartialEq, Eq, Structural)]
pub struct PlannedOrigin {
    pub account: AccountId,
    pub source: SourceId,
    pub import: Option<ImportId>,
}

/// A fact a commit would write. The amount is in minor units.
#[derive(Debug, Clone, PartialEq, Eq)]
pub struct PlannedFact {
    pub row: u32,
    pub account: AccountId,
    pub records_as: String,
    pub settled_by: FactBasis,
    pub settled_by_explanation: String,
    pub amount_minor: i64,
    pub currency: CurrencyCode,
    pub date: Option<Date>,
    pub idempotency_key: Option<String>,
}

/// The row a question is about, as the source printed it. The amount is in
/// minor units.
#[derive(Debug, Clone, PartialEq, Eq)]
pub struct PrintedRow {
    pub account: AccountId,
    pub title: Option<String>,
    pub institution: Option<String>,
    pub amount_minor: i64,
    pub currency: CurrencyCode,
    pub date: Option<Date>,
    pub movement: Option<Movement>,
    pub counterparty: Option<String>,
    pub source_category: Option<String>,
}

/// What a set of rows is, as far as the source said.
#[derive(Debug, Clone, PartialEq, Eq)]
pub struct RowShape {
    pub movement: Option<Movement>,
    pub counterparty_named: bool,
    pub rows: Vec<u32>,
}

/// The other leg of one movement, and the identifier the two questions share.
#[derive(Debug, Clone, Copy, PartialEq, Eq, Structural)]
pub struct MirroredPair {
    pub id: Uuid,
    pub row: u32,
}

/// A question the session waits on.
#[derive(Debug, Clone, PartialEq, Eq)]
pub struct OpenQuestion {
    pub row: u32,
    pub question: ImportQuestionId,
    pub prompt: String,
    pub printed: Option<PrintedRow>,
    pub alternatives: Vec<Alternative>,
    pub alike: Vec<u32>,
    pub pair: Option<MirroredPair>,
}

/// A standing decision the rows offer.
#[derive(Debug, Clone, PartialEq, Eq)]
pub struct OfferedRule {
    pub matcher: RuleMatcher,
    pub question: OwnerQuestion,
    pub covers: Vec<u32>,
    pub contains: RowShape,
}

/// A word whose rows are not one thing.
#[derive(Debug, Clone, PartialEq, Eq)]
pub struct WithheldOffer {
    pub source_category: String,
    pub covers: Vec<u32>,
    pub contains: Vec<RowShape>,
    pub reason: String,
}

/// The days a group runs between.
#[derive(Debug, Clone, Copy, PartialEq, Eq, Structural)]
pub struct DaySpan {
    pub earliest: Date,
    pub latest: Date,
}

/// What every member of a group states alike.
#[derive(Debug, Clone, PartialEq, Eq)]
pub struct SharedRow {
    pub account: Option<AccountCandidate>,
    pub currency: Option<CurrencyCode>,
    pub movement: Option<SharedMovement>,
    pub counterparty: Option<String>,
    pub source_category: Option<String>,
    pub description: Option<String>,
}

/// The smallest and the largest amount of a group, in minor units.
#[derive(Debug, Clone, Copy, PartialEq, Eq, Structural)]
pub struct AmountSpan {
    pub smallest_minor: i64,
    pub largest_minor: i64,
}

/// Open rows that are put to a person as one thing.
#[derive(Debug, Clone, PartialEq, Eq)]
pub struct RowGroup {
    pub basis: GroupBasis,
    pub rows: Vec<u32>,
    pub common: SharedRow,
    pub days: Option<DaySpan>,
    pub amounts: Option<AmountSpan>,
    pub settles: AnswerReach,
    pub question: OwnerQuestion,
}

/// What the rows are taken to be, and what is still asked.
#[derive(Debug, Clone, PartialEq, Eq)]
pub struct Interpretation {
    pub resolved: Vec<PlannedFact>,
    pub open_questions: Vec<OpenQuestion>,
    pub offered_rules: Vec<OfferedRule>,
    pub withheld_offers: Vec<WithheldOffer>,
    pub answer_accounts: Vec<AccountCandidate>,
    pub groups: Vec<RowGroup>,
}

/// A row that looks like a fact the journal holds.
#[derive(Debug, Clone, PartialEq, Eq)]
pub struct ResemblingRow {
    pub fact: PlannedFact,
    pub resembles: EventId,
}

/// A row that is settled and correctly becomes no fact, and the sentence that
/// tells why.
#[derive(Debug, Clone, PartialEq, Eq)]
pub struct SettledRow {
    pub row: u32,
    pub reason: NoFactReason,
    pub explanation: String,
}

/// A row that stays in the session and becomes no fact.
#[derive(Debug, Clone, PartialEq, Eq)]
pub struct RetainedRow {
    pub row: u32,
    pub reason: RetentionReason,
}

/// What the journal gains, and what it does not.
#[derive(Debug, Clone, PartialEq, Eq)]
pub struct CommitDelta {
    pub facts: Vec<PlannedFact>,
    pub duplicates: Vec<PlannedFact>,
    pub resembles_recorded: Vec<ResemblingRow>,
    pub retained_unrecorded: Vec<RetainedRow>,
    pub settled_without_fact: Vec<SettledRow>,
    pub fact_origins: Vec<PlannedOrigin>,
    pub fact_totals: Vec<BatchTotal>,
    pub duplicate_totals: Vec<BatchTotal>,
}

/// One side of a cash movement. The amount is in minor units.
#[derive(Debug, Clone, PartialEq, Eq)]
pub struct CashLeg {
    pub origin: LegOrigin,
    pub account: AccountId,
    pub direction: Movement,
    pub amount_minor: i64,
    pub currency: CurrencyCode,
    pub date: Date,
    pub reference: Option<String>,
    pub import: Option<ImportId>,
}

/// What two legs agree on. The amount is in minor units.
#[derive(Debug, Clone, PartialEq, Eq)]
pub struct PairingEvidence {
    pub amount_minor: i64,
    pub currency: CurrencyCode,
    pub outgoing_date: Date,
    pub incoming_date: Date,
    pub days_apart: i64,
    pub outgoing_reference: Option<String>,
    pub incoming_reference: Option<String>,
    pub sole_candidate: bool,
}

/// Two legs that are proposed as one movement.
#[derive(Debug, Clone, PartialEq, Eq)]
pub struct PairingCandidate {
    pub outgoing: CashLeg,
    pub incoming: CashLeg,
    pub evidence: PairingEvidence,
}

/// Transfers that are proposed out of two movements, and the movements nothing
/// was paired with.
#[derive(Debug, Clone, PartialEq, Eq)]
pub struct Proposals {
    pub candidates: Vec<PairingCandidate>,
    pub unmatched: Vec<CashLeg>,
}

/// What confirming a pairing wrote.
#[derive(Debug, Clone, Copy, PartialEq, Eq, Structural)]
pub struct ConfirmedPairing {
    pub outgoing: EventId,
    pub incoming: EventId,
    pub transfer: Option<EventId>,
}

/// The assessment of a session.
#[derive(Debug, Clone, PartialEq, Eq)]
pub struct ImportPlan {
    pub session: ImportSessionView,
    pub revision: String,
    pub source_inventory: SourceInventory,
    pub account_resolution: AccountResolution,
    pub scope_assessment: ScopeAssessment,
    pub interpretation: Interpretation,
    pub cross_source_matching: Proposals,
    pub commit_delta: CommitDelta,
    pub control_reconciliation: ControlReconciliation,
    pub readiness: Readiness,
}

/// Each `Movement` goes by a word of its own, and that word names no other.
pub proof fn law_movement_goes_by_its_own_word(value: Movement)
    ensures
        value.word() == "in"@ <==> value is In,
        value.word() == "out"@ <==> value is Out,
{
    reveal_strlit("in");
    reveal_strlit("out");
    assert(value.word().len() > 0);
}

/// Each `GroupBasis` goes by a word of its own, and that word names no other.
pub proof fn law_group_basis_goes_by_its_own_word(value: GroupBasis)
    ensures
        value.word() == "one_decision"@ <==> value is OneDecision,
        value.word() == "one_movement"@ <==> value is OneMovement,
{
    reveal_strlit("one_decision");
    reveal_strlit("one_movement");
    assert("one_decision"@[4] == 'd');
    assert("one_movement"@[4] == 'm');
    assert(value.word().len() > 0);
}

/// Each `Readiness` goes by a word of its own, and that word names no other.
pub proof fn law_readiness_goes_by_its_own_word(value: Readiness)
    ensures
        value.word() == "ready"@ <==> value is Ready,
        value.word() == "blocked"@ <==> value is Blocked,
        value.word() == "requires_owner_decision"@ <==> value is RequiresOwnerDecision,
        value.word() == "does_not_reconcile"@ <==> value is DoesNotReconcile,
{
    reveal_strlit("ready");
    reveal_strlit("blocked");
    reveal_strlit("requires_owner_decision");
    reveal_strlit("does_not_reconcile");
    assert(value.word().len() > 0);
}

/// What rows share goes by the word of the movement they state, or by a word of its own
/// where none states any.
pub proof fn law_a_shared_movement_goes_by_what_is_stated(value: SharedMovement)
    ensures
        value matches SharedMovement::Stated(movement) ==> value.word() == movement.word(),
        value is NoneStated ==> value.word() == "unstated"@,
{
}

} // verus!
