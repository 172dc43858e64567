//! What every report says about itself: its caveats, its population and the
//! rows it did not include.

use crate::action_catalog::ActionCatalog;
use crate::calendar::Date;
use crate::ids::{AccountId, ContourId, ImportSessionId, InstrumentId};
use crate::ledger::goal::ReportGoal;
use crate::money::CurrencyCode;
use vstd::prelude::*;

verus! {

/// What a caveat is about.
#[derive(Debug, Clone, Copy, PartialEq, Eq, Structural)]
pub enum CaveatSubject {
    Report,
    Account(AccountId),
    AccountCurrency { account: AccountId, currency: CurrencyCode },
    Instrument(InstrumentId),
}

/// One specific thing a report's figures do not account for, and the calls that
/// act on it by the identifiers of their operations.
#[derive(Debug, Clone, PartialEq, Eq)]
pub struct Caveat {
    pub kind: String,
    pub subject: CaveatSubject,
    pub detail: String,
    pub see: String,
    pub closed_by: Vec<String>,
}

impl Caveat {
    /// Every call the caveat names is in the catalog.
    pub open spec fn is_resolved_by(self, catalog: ActionCatalog) -> bool {
        forall|i: int|
            0 <= i < self.closed_by@.len() ==> catalog.resolves((#[trigger] self.closed_by@[i])@)
    }
}

/// The caveats of a report that answers a goal.
#[derive(Debug, Clone, PartialEq, Eq)]
pub struct ReportConfidence {
    pub goal: ReportGoal,
    pub caveats: Vec<Caveat>,
}

impl ReportConfidence {
    /// Every call a caveat names is in the catalog.
    pub open spec fn is_resolved_by(self, catalog: ActionCatalog) -> bool {
        forall|i: int|
            0 <= i < self.caveats@.len() ==> (#[trigger] self.caveats@[i]).is_resolved_by(catalog)
    }

    /// Whether nothing known is missing: exactly, whether there is no caveat.
    pub fn complete(&self) -> (complete: bool)
        ensures
            complete == (self.caveats@.len() == 0),
    {
        self.caveats.is_empty()
    }
}

/// Where an account stands towards a report's scope.
#[derive(Debug, Clone, Copy, PartialEq, Eq, Structural)]
pub enum Standing {
    Covered,
    OutsideByDecision,
    OutsidePlacedElsewhere,
    OutsideUndecided,
}

impl Standing {
    /// The word it goes by.
    pub open spec fn word(self) -> Seq<char> {
        match self {
            Self::Covered => "covered"@,
            Self::OutsideByDecision => "outside_by_decision"@,
            Self::OutsidePlacedElsewhere => "outside_placed_elsewhere"@,
            Self::OutsideUndecided => "outside_undecided"@,
        }
    }

    /// The word it goes by.
    pub fn code(self) -> (code: &'static str)
        ensures
            code@ == self.word(),
    {
        match self {
            Self::Covered => "covered",
            Self::OutsideByDecision => "outside_by_decision",
            Self::OutsidePlacedElsewhere => "outside_placed_elsewhere",
            Self::OutsideUndecided => "outside_undecided",
        }
    }

    /// The word it goes by, as a text of its own.
    pub fn to_word(&self) -> (word: String)
        ensures
            word@ == self.word(),
    {
        self.code().to_owned()
    }
}

/// How much of what is known a report answered about.
#[derive(Debug, Clone, Copy, PartialEq, Eq, Structural)]
pub enum KnownAccountCoverage {
    /// Every known account is covered.
    Whole,
    /// Accounts are outside, and the owner has ruled on each of them.
    Bounded,
    /// Accounts are outside that nobody has ruled on.
    Undecided,
}

impl KnownAccountCoverage {
    /// The word it goes by.
    pub open spec fn word(self) -> Seq<char> {
        match self {
            Self::Whole => "whole"@,
            Self::Bounded => "bounded"@,
            Self::Undecided => "undecided"@,
        }
    }

    /// The word it goes by.
    pub fn code(self) -> (code: &'static str)
        ensures
            code@ == self.word(),
    {
        match self {
            Self::Whole => "whole",
            Self::Bounded => "bounded",
            Self::Undecided => "undecided",
        }
    }

    /// The word it goes by, as a text of its own.
    pub fn to_word(&self) -> (word: String)
        ensures
            word@ == self.word(),
    {
        self.code().to_owned()
    }
}

/// One account a report knows of.
#[derive(Debug, Clone, PartialEq, Eq)]
pub struct PopulationAccount {
    pub account: AccountId,
    pub title: String,
    pub institution: Option<String>,
    pub standing: Standing,
    pub retirement: Option<Date>,
}

/// The accounts a report knows of, and the coordinates of its answer.
#[derive(Debug, Clone, PartialEq, Eq)]
pub struct ReportPopulation {
    pub contour: ContourId,
    pub version: u32,
    pub accounts: Vec<PopulationAccount>,
    pub retirement_revision: u32,
}

impl ReportPopulation {
    /// Whether some account has a standing.
    pub open spec fn has(self, standing: Standing) -> bool {
        exists|i: int|
            0 <= i < self.accounts@.len() && (#[trigger] self.accounts@[i]).standing == standing
    }

    /// The coverage: one account nobody has ruled on is enough to be undecided,
    /// and one account outside is enough not to be whole.
    pub open spec fn coverage(self) -> KnownAccountCoverage {
        if self.has(Standing::OutsideUndecided) {
            KnownAccountCoverage::Undecided
        } else if self.has(Standing::OutsideByDecision) || self.has(
            Standing::OutsidePlacedElsewhere,
        ) {
            KnownAccountCoverage::Bounded
        } else {
            KnownAccountCoverage::Whole
        }
    }

    fn has_standing(&self, standing: Standing) -> (has: bool)
        ensures
            has == self.has(standing),
    {
        let mut next: usize = 0;
        while next < self.accounts.len()
            invariant
                next <= self.accounts@.len(),
                forall|i: int|
                    0 <= i < next ==> (#[trigger] self.accounts@[i]).standing != standing,
            decreases self.accounts@.len() - next,
        {
            if self.accounts[next].standing == standing {
                assert(self.accounts@[next as int].standing == standing);
                return true;
            }
            next = next + 1;
        }
        false
    }

    /// How much of what is known the report answered about.
    pub fn known_account_coverage(&self) -> (coverage: KnownAccountCoverage)
        ensures
            coverage == self.coverage(),
    {
        if self.has_standing(Standing::OutsideUndecided) {
            KnownAccountCoverage::Undecided
        } else if self.has_standing(Standing::OutsideByDecision) || self.has_standing(
            Standing::OutsidePlacedElsewhere,
        ) {
            KnownAccountCoverage::Bounded
        } else {
            KnownAccountCoverage::Whole
        }
    }
}

/// Which held rows a report was asked to fold.
#[derive(Debug, Clone, Copy, PartialEq, Eq, Structural)]
pub enum HeldScope {
    Nothing,
    All,
    Named,
}

impl HeldScope {
    /// The word it goes by.
    pub open spec fn word(self) -> Seq<char> {
        match self {
            Self::Nothing => "none"@,
            Self::All => "all"@,
            Self::Named => "named"@,
        }
    }

    /// The word it goes by.
    pub fn code(self) -> (code: &'static str)
        ensures
            code@ == self.word(),
    {
        match self {
            Self::Nothing => "none",
            Self::All => "all",
            Self::Named => "named",
        }
    }

    /// The word it goes by, as a text of its own.
    pub fn to_word(&self) -> (word: String)
        ensures
            word@ == self.word(),
    {
        self.code().to_owned()
    }
}

/// Where an import session is in its life.
#[derive(Debug, Clone, Copy, PartialEq, Eq, Structural)]
pub enum ImportSessionState {
    Open,
    Committed,
    Abandoned,
}

impl ImportSessionState {
    /// The word it goes by.
    pub open spec fn word(self) -> Seq<char> {
        match self {
            Self::Open => "open"@,
            Self::Committed => "committed"@,
            Self::Abandoned => "abandoned"@,
        }
    }

    /// The word it goes by.
    pub fn code(self) -> (code: &'static str)
        ensures
            code@ == self.word(),
    {
        match self {
            Self::Open => "open",
            Self::Committed => "committed",
            Self::Abandoned => "abandoned",
        }
    }

    /// The word it goes by, as a text of its own.
    pub fn to_word(&self) -> (word: String)
        ensures
            word@ == self.word(),
    {
        self.code().to_owned()
    }
}

/// What a report folded of an open session's plan.
#[derive(Debug, Clone, PartialEq, Eq)]
pub struct FoldedPlan {
    pub revision: String,
    pub facts: usize,
    pub beyond_the_report_date: usize,
    pub already_in_journal: usize,
    pub retained_unrecorded: usize,
    pub settled_without_fact: usize,
}

/// What a held session put into a report's figures.
#[derive(Debug, Clone, PartialEq, Eq)]
pub enum HeldContribution {
    Folded(FoldedPlan),
    AlreadyInJournal,
    Abandoned,
}

impl HeldContribution {
    /// The word it goes by.
    pub open spec fn word(self) -> Seq<char> {
        match self {
            Self::Folded(_) => "folded"@,
            Self::AlreadyInJournal => "already_in_journal"@,
            Self::Abandoned => "abandoned"@,
        }
    }

    /// The word it goes by.
    pub fn code(&self) -> (code: &'static str)
        ensures
            code@ == self.word(),
    {
        match self {
            Self::Folded(_) => "folded",
            Self::AlreadyInJournal => "already_in_journal",
            Self::Abandoned => "abandoned",
        }
    }

    /// The word it goes by, as a text of its own.
    pub fn to_word(&self) -> (word: String)
        ensures
            word@ == self.word(),
    {
        self.code().to_owned()
    }
}

/// A session a report was asked to fold.
#[derive(Debug, Clone, PartialEq, Eq)]
pub struct HeldSession {
    pub session: ImportSessionId,
    pub state: ImportSessionState,
    pub contribution: HeldContribution,
}

/// What a figure was folded over beyond the journal.
#[derive(Debug, Clone, PartialEq, Eq)]
pub struct HeldRows {
    pub requested: HeldScope,
    pub sessions: Vec<HeldSession>,
    pub retained_unrecorded: usize,
}

/// Each `Standing` goes by a word of its own, and that word names no other.
pub proof fn law_standing_goes_by_its_own_word(value: Standing)
    ensures
        value.word() == "covered"@ <==> value is Covered,
        value.word() == "outside_by_decision"@ <==> value is OutsideByDecision,
        value.word() == "outside_placed_elsewhere"@ <==> value is OutsidePlacedElsewhere,
        value.word() == "outside_undecided"@ <==> value is OutsideUndecided,
{
    reveal_strlit("covered");
    reveal_strlit("outside_by_decision");
    reveal_strlit("outside_placed_elsewhere");
    reveal_strlit("outside_undecided");
    assert(value.word().len() > 0);
}

/// Each `KnownAccountCoverage` goes by a word of its own, and that word names no other.
pub proof fn law_known_account_coverage_goes_by_its_own_word(value: KnownAccountCoverage)
    ensures
        value.word() == "whole"@ <==> value is Whole,
        value.word() == "bounded"@ <==> value is Bounded,
        value.word() == "undecided"@ <==> value is Undecided,
{
    reveal_strlit("whole");
    reveal_strlit("bounded");
    reveal_strlit("undecided");
    assert(value.word().len() > 0);
}

/// Each `HeldScope` goes by a word of its own, and that word names no other.
pub proof fn law_held_scope_goes_by_its_own_word(value: HeldScope)
    ensures
        value.word() == "none"@ <==> value is Nothing,
        value.word() == "all"@ <==> value is All,
        value.word() == "named"@ <==> value is Named,
{
    reveal_strlit("none");
    reveal_strlit("all");
    reveal_strlit("named");
    assert(value.word().len() > 0);
}

/// Each `ImportSessionState` goes by a word of its own, and that word names no other.
pub proof fn law_import_session_state_goes_by_its_own_word(value: ImportSessionState)
    ensures
        value.word() == "open"@ <==> value is Open,
        value.word() == "committed"@ <==> value is Committed,
        value.word() == "abandoned"@ <==> value is Abandoned,
{
    reveal_strlit("open");
    reveal_strlit("committed");
    reveal_strlit("abandoned");
    assert("abandoned"@[0] == 'a');
    assert("committed"@[0] == 'c');
    assert(value.word().len() > 0);
}

/// Each `HeldContribution` goes by a word of its own, and that word names no other.
pub proof fn law_held_contribution_goes_by_its_own_word(value: HeldContribution)
    ensures
        value.word() == "folded"@ <==> value is Folded,
        value.word() == "already_in_journal"@ <==> value is AlreadyInJournal,
        value.word() == "abandoned"@ <==> value is Abandoned,
{
    reveal_strlit("folded");
    reveal_strlit("already_in_journal");
    reveal_strlit("abandoned");
    assert(value.word().len() > 0);
}

/// A population is undecided where nobody has ruled on some account, bounded where every
/// account is ruled on and one is outside, and whole where every account is covered.
pub proof fn law_coverage_is_what_the_accounts_stand_at(population: ReportPopulation)
    ensures
        population.coverage() is Whole <==> forall|i: int|
            0 <= i < population.accounts@.len() ==> (
            #[trigger] population.accounts@[i]).standing is Covered,
        population.coverage() is Undecided <==> exists|i: int|
            0 <= i < population.accounts@.len() && (#[trigger] population.accounts@[i]).standing
                is OutsideUndecided,
        population.coverage() is Bounded <==> (forall|i: int|
            0 <= i < population.accounts@.len() ==> !((
            #[trigger] population.accounts@[i]).standing is OutsideUndecided)) && exists|i: int|
            0 <= i < population.accounts@.len() && !((
            #[trigger] population.accounts@[i]).standing is Covered),
{
    if population.has(Standing::OutsideByDecision) {
        let i = choose|i: int|
            0 <= i < population.accounts@.len() && (#[trigger] population.accounts@[i]).standing
                == Standing::OutsideByDecision;
        assert(!(population.accounts@[i].standing is Covered));
    }
    if population.has(Standing::OutsidePlacedElsewhere) {
        let i = choose|i: int|
            0 <= i < population.accounts@.len() && (#[trigger] population.accounts@[i]).standing
                == Standing::OutsidePlacedElsewhere;
        assert(!(population.accounts@[i].standing is Covered));
    }
    if population.has(Standing::OutsideUndecided) {
        let i = choose|i: int|
            0 <= i < population.accounts@.len() && (#[trigger] population.accounts@[i]).standing
                == Standing::OutsideUndecided;
        assert(!(population.accounts@[i].standing is Covered));
    }
}

} // verus!
