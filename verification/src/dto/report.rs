//! What every report says about itself, on the wire.

use crate::action_catalog::{ActionCatalog, ActionOperation};
use crate::calendar::Date;
use crate::dto::currency::CurrencyDto;
use crate::ids::Uuid;
use crate::ledger::report::{
    Caveat, CaveatSubject, HeldContribution, HeldRows, HeldSession, KnownAccountCoverage,
    PopulationAccount, ReportConfidence, ReportPopulation, Standing,
};
use crate::relate::{map_each, map_each_with};
use crate::relate;
use vstd::prelude::*;

verus! {

/// What a caveat is about.
#[derive(Debug, Clone, Copy, PartialEq, Eq, Structural)]
pub enum CaveatSubjectDto {
    Report,
    Account { id: Uuid },
    AccountCurrency { account: Uuid, currency: CurrencyDto },
    Instrument { id: Uuid },
}

impl CaveatSubjectDto {
    /// What the wire form says of the subject.
    pub open spec fn shows(self, subject: CaveatSubject) -> bool {
        match subject {
            CaveatSubject::Report => self == Self::Report,
            CaveatSubject::Account(account) => self == (Self::Account { id: account.0 }),
            CaveatSubject::AccountCurrency { account, currency } => self
                matches Self::AccountCurrency { account: id, currency: code } && id == account.0
                && code.denotes() == currency,
            CaveatSubject::Instrument(instrument) => self == (Self::Instrument {
                id: instrument.0,
            }),
        }
    }

    /// The wire form of the subject.
    pub fn from_domain(subject: CaveatSubject) -> (dto: Self)
        ensures
            dto.shows(subject),
    {
        match subject {
            CaveatSubject::Report => Self::Report,
            CaveatSubject::Account(account) => Self::Account { id: account.0 },
            CaveatSubject::AccountCurrency { account, currency } => Self::AccountCurrency {
                account: account.0,
                currency: CurrencyDto::from_domain(currency),
            },
            CaveatSubject::Instrument(instrument) => Self::Instrument { id: instrument.0 },
        }
    }
}

/// A call that acts on a caveat, with its address.
#[derive(Debug, Clone, PartialEq, Eq)]
pub struct ClosingOperationDto {
    pub operation_id: String,
    pub method: String,
    pub path: String,
    pub request_schema: Option<String>,
    pub required_scope: String,
}

impl ClosingOperationDto {
    /// Whether the call is an entry of the catalog.
    pub open spec fn shows(self, operation: ActionOperation) -> bool {
        &&& self.operation_id == operation.operation_id
        &&& self.method == operation.method
        &&& self.path == operation.path
        &&& self.request_schema == operation.request_schema
        &&& self.required_scope@ == operation.required_scope.word()
    }

    /// Whether the call is the one the catalog resolves an identifier to.
    pub open spec fn closes(self, operation_id: String, catalog: ActionCatalog) -> bool {
        exists|i: int|
            #[trigger] catalog.is_first(i, operation_id@) && self.shows(catalog.operations@[i])
    }

    /// The call the catalog resolves an identifier to.
    pub fn from_catalog(operation_id: &String, catalog: &ActionCatalog) -> (dto: Self)
        requires
            catalog.resolves(operation_id@),
        ensures
            dto.closes(*operation_id, *catalog),
    {
        let resolved = catalog.operation(operation_id.as_str());
        Self {
            operation_id: resolved.operation_id.clone(),
            method: resolved.method.clone(),
            path: resolved.path.clone(),
            request_schema: resolved.request_schema.clone(),
            required_scope: resolved.required_scope.to_word(),
        }
    }
}

/// One specific, checkable thing a report's figures do not account for.
#[derive(Debug, Clone, PartialEq, Eq)]
pub struct CaveatDto {
    pub kind: String,
    pub subject: CaveatSubjectDto,
    pub detail: String,
    pub see: String,
    pub closed_by: Vec<ClosingOperationDto>,
}

impl CaveatDto {
    /// What the wire form says of the caveat, with every call resolved.
    pub open spec fn shows(self, caveat: Caveat, catalog: ActionCatalog) -> bool {
        &&& self.kind == caveat.kind
        &&& self.subject.shows(caveat.subject)
        &&& self.detail == caveat.detail
        &&& self.see == caveat.see
        &&& relate::each(
            self.closed_by@,
            caveat.closed_by@,
            |dto: ClosingOperationDto, operation_id: String| dto.closes(operation_id, catalog),
        )
    }

    /// The wire form of the caveat.
    pub fn from_domain(caveat: &Caveat, catalog: &ActionCatalog) -> (dto: Self)
        requires
            caveat.is_resolved_by(*catalog),
        ensures
            dto.shows(*caveat, *catalog),
    {
        Self {
            kind: caveat.kind.clone(),
            subject: CaveatSubjectDto::from_domain(caveat.subject),
            detail: caveat.detail.clone(),
            see: caveat.see.clone(),
            closed_by: map_each_with(
                &caveat.closed_by,
                catalog,
                ClosingOperationDto::from_catalog,
            ),
        }
    }
}

/// What would have to be true for a report's figures to be complete, and which of
/// those things are not.
#[derive(Debug, Clone, PartialEq, Eq)]
pub struct ConfidenceDto {
    pub goal: String,
    pub complete: bool,
    pub caveats: Vec<CaveatDto>,
}

impl ConfidenceDto {
    /// What the wire form says of the confidence.
    pub open spec fn shows(self, confidence: ReportConfidence, catalog: ActionCatalog) -> bool {
        &&& self.goal@ == confidence.goal.word()
        &&& self.complete == (confidence.caveats@.len() == 0)
        &&& relate::each(
            self.caveats@,
            confidence.caveats@,
            |dto: CaveatDto, caveat: Caveat| dto.shows(caveat, catalog),
        )
    }

    /// The wire form of the confidence.
    pub fn from_domain(confidence: &ReportConfidence, catalog: &ActionCatalog) -> (dto: Self)
        requires
            confidence.is_resolved_by(*catalog),
        ensures
            dto.shows(*confidence, *catalog),
    {
        Self {
            goal: confidence.goal.to_word(),
            complete: confidence.complete(),
            caveats: map_each_with(&confidence.caveats, catalog, CaveatDto::from_domain),
        }
    }
}

/// A report is complete exactly where it carries no caveat.
pub proof fn law_complete_means_no_caveat(
    dto: ConfidenceDto,
    confidence: ReportConfidence,
    catalog: ActionCatalog,
)
    requires
        dto.shows(confidence, catalog),
    ensures
        dto.complete <==> dto.caveats@.len() == 0,
{
}

/// One account a report knows of.
#[derive(Debug, Clone, PartialEq, Eq)]
pub struct PopulationAccountDto {
    pub account: Uuid,
    pub title: String,
    pub institution: Option<String>,
    pub standing: String,
    pub retirement: Option<Date>,
}

impl PopulationAccountDto {
    /// What the wire form says of the record it was rendered from.
    pub open spec fn shows(self, entry: PopulationAccount) -> bool {
        &&& self.account == entry.account.0
        &&& self.title == entry.title
        &&& self.institution == entry.institution
        &&& self.standing@ == entry.standing.word()
        &&& self.retirement == entry.retirement
    }

    /// The wire form of the record.
    pub fn from_domain(entry: &PopulationAccount) -> (dto: Self)
        ensures
            dto.shows(*entry),
    {
        Self {
            account: entry.account.0,
            title: entry.title.clone(),
            institution: entry.institution.clone(),
            standing: entry.standing.code().to_owned(),
            retirement: entry.retirement,
        }
    }
}

/// The accounts a report answered about and the known accounts it did not.
#[derive(Debug, Clone, PartialEq, Eq)]
pub struct PopulationDto {
    pub contour: Uuid,
    pub contour_version: u32,
    pub known_account_coverage: String,
    pub covered: Vec<PopulationAccountDto>,
    pub outside: Vec<PopulationAccountDto>,
    pub retirement_revision: u32,
}

/// The accounts of a population that are covered, or those that are not, in
/// order.
pub open spec fn selected(accounts: Seq<PopulationAccount>, covered: bool) -> Seq<
    PopulationAccount,
> {
    accounts.filter(|entry: PopulationAccount| (entry.standing == Standing::Covered) == covered)
}

fn select(accounts: &Vec<PopulationAccount>, covered: bool) -> (rendered: Vec<PopulationAccountDto>)
    ensures
        relate::each(
            rendered@,
            selected(accounts@, covered),
            |dto: PopulationAccountDto, entry: PopulationAccount| dto.shows(entry),
        ),
{
    let mut rendered: Vec<PopulationAccountDto> = Vec::new();
    let mut next: usize = 0;
    let ghost keep = |entry: PopulationAccount| (entry.standing == Standing::Covered) == covered;
    while next < accounts.len()
        invariant
            keep == (|entry: PopulationAccount| (entry.standing == Standing::Covered) == covered),
            next <= accounts@.len(),
            relate::each(
                rendered@,
                accounts@.take(next as int).filter(keep),
                |dto: PopulationAccountDto, entry: PopulationAccount| dto.shows(entry),
            ),
        decreases accounts@.len() - next,
    {
        proof {
            let taken = accounts@.take(next + 1);
            assert(taken.drop_last() =~= accounts@.take(next as int));
            reveal(Seq::filter);
        }
        if (accounts[next].standing == Standing::Covered) == covered {
            rendered.push(PopulationAccountDto::from_domain(&accounts[next]));
        }
        next = next + 1;
    }
    assert(accounts@.take(next as int) =~= accounts@);
    rendered
}

impl PopulationDto {
    /// What the wire form says of the population.
    pub open spec fn shows(self, population: ReportPopulation) -> bool {
        &&& self.contour == population.contour.0
        &&& self.contour_version == population.version
        &&& self.known_account_coverage@ == population.coverage().word()
        &&& relate::each(
            self.covered@,
            selected(population.accounts@, true),
            |dto: PopulationAccountDto, entry: PopulationAccount| dto.shows(entry),
        )
        &&& relate::each(
            self.outside@,
            selected(population.accounts@, false),
            |dto: PopulationAccountDto, entry: PopulationAccount| dto.shows(entry),
        )
        &&& self.retirement_revision == population.retirement_revision
    }

    /// The wire form of the population.
    pub fn from_domain(population: &ReportPopulation) -> (dto: Self)
        ensures
            dto.shows(*population),
    {
        Self {
            contour: population.contour.0,
            contour_version: population.version,
            known_account_coverage: population.known_account_coverage().to_word(),
            covered: select(&population.accounts, true),
            outside: select(&population.accounts, false),
            retirement_revision: population.retirement_revision,
        }
    }
}

proof fn lemma_partition(accounts: Seq<PopulationAccount>)
    ensures
        selected(accounts, true).len() + selected(accounts, false).len() == accounts.len(),
    decreases accounts.len(),
{
    reveal(Seq::filter);
    if accounts.len() > 0 {
        lemma_partition(accounts.drop_last());
    }
}

/// The covered and the outside accounts together are the whole denominator.
pub proof fn law_covered_and_outside_are_the_whole_denominator(
    dto: PopulationDto,
    population: ReportPopulation,
)
    requires
        dto.shows(population),
    ensures
        dto.covered@.len() + dto.outside@.len() == population.accounts@.len(),
{
    lemma_partition(population.accounts@);
}

proof fn lemma_none_outside(accounts: Seq<PopulationAccount>)
    ensures
        selected(accounts, false).len() == 0 <==> forall|i: int|
            0 <= i < accounts.len() ==> (#[trigger] accounts[i]).standing == Standing::Covered,
    decreases accounts.len(),
{
    reveal(Seq::filter);
    if accounts.len() > 0 {
        lemma_none_outside(accounts.drop_last());
        assert forall|i: int| 0 <= i < accounts.len() - 1 implies accounts.drop_last()[i]
            == #[trigger] accounts[i] by {}
        assert(accounts.last() == accounts[accounts.len() - 1]);
    }
}

/// A report covers the whole of what is known exactly where nothing known is
/// outside it.
pub proof fn law_whole_means_nothing_outside(dto: PopulationDto, population: ReportPopulation)
    requires
        dto.shows(population),
    ensures
        population.coverage() == KnownAccountCoverage::Whole <==> dto.outside@.len() == 0,
{
    lemma_none_outside(population.accounts@);
    if population.coverage() == KnownAccountCoverage::Whole {
        assert forall|i: int| 0 <= i < population.accounts@.len() implies (
        #[trigger] population.accounts@[i]).standing == Standing::Covered by {
            match population.accounts@[i].standing {
                Standing::Covered => {},
                Standing::OutsideByDecision => {
                    assert(population.has(Standing::OutsideByDecision));
                },
                Standing::OutsidePlacedElsewhere => {
                    assert(population.has(Standing::OutsidePlacedElsewhere));
                },
                Standing::OutsideUndecided => {
                    assert(population.has(Standing::OutsideUndecided));
                },
            }
        }
    }
}

/// One session a report was asked to fold, and what it contributed. The stamp and
/// the counts are present exactly where the session was folded.
#[derive(Debug, Clone, PartialEq, Eq)]
pub struct HeldSessionDto {
    pub session: Uuid,
    pub state: String,
    pub contribution: String,
    pub revision: Option<String>,
    pub facts: Option<usize>,
    pub beyond_the_report_date: Option<usize>,
    pub already_in_journal: Option<usize>,
    pub retained_unrecorded: Option<usize>,
    pub settled_without_fact: Option<usize>,
}

impl HeldSessionDto {
    /// What the wire form says of the session.
    pub open spec fn shows(self, session: HeldSession) -> bool {
        &&& self.session == session.session.0
        &&& self.state@ == session.state.word()
        &&& self.contribution@ == session.contribution.word()
        &&& match session.contribution {
            HeldContribution::Folded(folded) => {
                &&& self.revision == Some(folded.revision)
                &&& self.facts == Some(folded.facts)
                &&& self.beyond_the_report_date == Some(folded.beyond_the_report_date)
                &&& self.already_in_journal == Some(folded.already_in_journal)
                &&& self.retained_unrecorded == Some(folded.retained_unrecorded)
                &&& self.settled_without_fact == Some(folded.settled_without_fact)
            },
            _ => {
                &&& self.revision is None
                &&& self.facts is None
                &&& self.beyond_the_report_date is None
                &&& self.already_in_journal is None
                &&& self.retained_unrecorded is None
                &&& self.settled_without_fact is None
            },
        }
    }

    /// The wire form of the session.
    pub fn from_domain(session: &HeldSession) -> (dto: Self)
        ensures
            dto.shows(*session),
    {
        let base = Self {
            session: session.session.0,
            state: session.state.to_word(),
            contribution: session.contribution.to_word(),
            revision: None,
            facts: None,
            beyond_the_report_date: None,
            already_in_journal: None,
            retained_unrecorded: None,
            settled_without_fact: None,
        };
        match &session.contribution {
            HeldContribution::Folded(folded) => Self {
                revision: Some(folded.revision.clone()),
                facts: Some(folded.facts),
                beyond_the_report_date: Some(folded.beyond_the_report_date),
                already_in_journal: Some(folded.already_in_journal),
                retained_unrecorded: Some(folded.retained_unrecorded),
                settled_without_fact: Some(folded.settled_without_fact),
                ..base
            },
            HeldContribution::AlreadyInJournal => base,
            HeldContribution::Abandoned => base,
        }
    }
}

/// A held session's counts are present exactly where it was folded.
pub proof fn law_counts_are_present_exactly_when_folded(dto: HeldSessionDto, session: HeldSession)
    requires
        dto.shows(session),
    ensures
        session.contribution is Folded <==> dto.revision is Some,
        session.contribution is Folded <==> dto.facts is Some,
        session.contribution is Folded <==> dto.beyond_the_report_date is Some,
        session.contribution is Folded <==> dto.already_in_journal is Some,
        session.contribution is Folded <==> dto.retained_unrecorded is Some,
        session.contribution is Folded <==> dto.settled_without_fact is Some,
{
}

/// What a figure was folded over beyond the journal, and what it could not
/// include.
#[derive(Debug, Clone, PartialEq, Eq)]
pub struct HeldRowsDto {
    pub requested: String,
    pub sessions: Vec<HeldSessionDto>,
    pub retained_unrecorded: usize,
}

impl HeldRowsDto {
    /// What the wire form says of the record it was rendered from.
    pub open spec fn shows(self, held: HeldRows) -> bool {
        &&& self.requested@ == held.requested.word()
        &&& relate::each(
            self.sessions@,
            held.sessions@,
            |dto: HeldSessionDto, value: HeldSession| dto.shows(value),
        )
        &&& self.retained_unrecorded == held.retained_unrecorded
    }

    /// The wire form of the record.
    pub fn from_domain(held: &HeldRows) -> (dto: Self)
        ensures
            dto.shows(*held),
    {
        Self {
            requested: held.requested.code().to_owned(),
            sessions: map_each(&held.sessions, HeldSessionDto::from_domain),
            retained_unrecorded: held.retained_unrecorded,
        }
    }
}

/// A `CaveatSubjectDto` shows each kind of record as that kind, with its own parts.
pub proof fn law_caveat_subject_is_told_part_by_part(
    dto: CaveatSubjectDto,
    subject: CaveatSubject,
)
    requires
        dto.shows(subject),
    ensures
        match subject {
            CaveatSubject::Report => dto == CaveatSubjectDto::Report,
            CaveatSubject::Account(account) => dto == (CaveatSubjectDto::Account { id: account.0 }),
            CaveatSubject::AccountCurrency { account, currency } => dto
                matches CaveatSubjectDto::AccountCurrency {
                    account: id,
                    currency: code,
                } && id == account.0
                && code.denotes() == currency,
            CaveatSubject::Instrument(instrument) => dto == (CaveatSubjectDto::Instrument {
                id: instrument.0,
            }),
        },
{
}

/// A `ClosingOperationDto` tells each part of what it shows in a field of its own.
pub proof fn law_closing_operation_is_told_part_by_part(
    dto: ClosingOperationDto,
    operation: ActionOperation,
)
    requires
        dto.shows(operation),
    ensures
        dto.operation_id == operation.operation_id,
        dto.method == operation.method,
        dto.path == operation.path,
        dto.request_schema == operation.request_schema,
        dto.required_scope@ == operation.required_scope.word(),
{
}

/// A `CaveatDto` tells each part of what it shows in a field of its own.
pub proof fn law_caveat_is_told_part_by_part(
    dto: CaveatDto,
    caveat: Caveat,
    catalog: ActionCatalog,
)
    requires
        dto.shows(caveat, catalog),
    ensures
        dto.kind == caveat.kind,
        dto.subject.shows(caveat.subject),
        dto.detail == caveat.detail,
        dto.see == caveat.see,
        dto.closed_by@.len() == caveat.closed_by@.len(),
        forall|i: int| 0 <= i < caveat.closed_by@.len() ==> (#[trigger] dto.closed_by@[i]).closes(
            caveat.closed_by@[i],
            catalog,
        ),
{
}

/// A `ConfidenceDto` tells each part of what it shows in a field of its own.
pub proof fn law_confidence_is_told_part_by_part(
    dto: ConfidenceDto,
    confidence: ReportConfidence,
    catalog: ActionCatalog,
)
    requires
        dto.shows(confidence, catalog),
    ensures
        dto.goal@ == confidence.goal.word(),
        dto.complete == (confidence.caveats@.len() == 0),
        dto.caveats@.len() == confidence.caveats@.len(),
        forall|i: int| 0 <= i < confidence.caveats@.len() ==> (#[trigger] dto.caveats@[i]).shows(
            confidence.caveats@[i],
            catalog,
        ),
{
}

/// A `PopulationAccountDto` tells each part of what it shows in a field of its own.
pub proof fn law_population_account_is_told_part_by_part(
    dto: PopulationAccountDto,
    entry: PopulationAccount,
)
    requires
        dto.shows(entry),
    ensures
        dto.account == entry.account.0,
        dto.title == entry.title,
        dto.institution == entry.institution,
        dto.standing@ == entry.standing.word(),
        dto.retirement == entry.retirement,
{
}

/// A `PopulationDto` tells each part of what it shows in a field of its own.
pub proof fn law_population_is_told_part_by_part(
    dto: PopulationDto,
    population: ReportPopulation,
)
    requires
        dto.shows(population),
    ensures
        dto.contour == population.contour.0,
        dto.contour_version == population.version,
        dto.known_account_coverage@ == population.coverage().word(),
        dto.covered@.len() == selected(population.accounts@, true).len(),
        forall|i: int| 0 <= i < selected(population.accounts@, true).len() ==> (#[trigger] dto.covered@[i]).shows(
            selected(population.accounts@, true)[i],
        ),
        dto.outside@.len() == selected(population.accounts@, false).len(),
        forall|i: int| 0 <= i < selected(population.accounts@, false).len() ==> (#[trigger] dto.outside@[i]).shows(
            selected(population.accounts@, false)[i],
        ),
        dto.retirement_revision == population.retirement_revision,
{
}

/// A `HeldSessionDto` tells each part of what it shows in a field of its own.
pub proof fn law_held_session_is_told_part_by_part(
    dto: HeldSessionDto,
    session: HeldSession,
)
    requires
        dto.shows(session),
    ensures
        dto.session == session.session.0,
        dto.state@ == session.state.word(),
        dto.contribution@ == session.contribution.word(),
        match session.contribution {
            HeldContribution::Folded(folded) => {
                &&& dto.revision == Some(folded.revision)
                &&& dto.facts == Some(folded.facts)
                &&& dto.beyond_the_report_date == Some(folded.beyond_the_report_date)
                &&& dto.already_in_journal == Some(folded.already_in_journal)
                &&& dto.retained_unrecorded == Some(folded.retained_unrecorded)
                &&& dto.settled_without_fact == Some(folded.settled_without_fact)
            },
            _ => {
                &&& dto.revision is None
                &&& dto.facts is None
                &&& dto.beyond_the_report_date is None
                &&& dto.already_in_journal is None
                &&& dto.retained_unrecorded is None
                &&& dto.settled_without_fact is None
            },
        },
{
}

/// A `HeldRowsDto` tells each part of what it shows in a field of its own.
pub proof fn law_held_rows_is_told_part_by_part(
    dto: HeldRowsDto,
    held: HeldRows,
)
    requires
        dto.shows(held),
    ensures
        dto.requested@ == held.requested.word(),
        dto.sessions@.len() == held.sessions@.len(),
        forall|i: int| 0 <= i < held.sessions@.len() ==> (
            #[trigger] dto.sessions@[i]
        ).shows(held.sessions@[i]),
        dto.retained_unrecorded == held.retained_unrecorded,
{
}

/// A call that closes a caveat is the first call of the catalog that goes by the caveat's
/// identifier, shown whole.
pub proof fn law_a_closing_call_is_the_catalogs_own(
    dto: ClosingOperationDto,
    operation_id: String,
    catalog: ActionCatalog,
)
    requires
        dto.closes(operation_id, catalog),
    ensures
        dto.operation_id@ == operation_id@,
        exists|i: int|
            0 <= i < catalog.operations@.len() && dto.shows(#[trigger] catalog.operations@[i])
                && catalog.operations@[i].operation_id@ == operation_id@,
{
    let i = choose|i: int|
        #[trigger] catalog.is_first(i, operation_id@) && dto.shows(catalog.operations@[i]);
    assert(dto.shows(catalog.operations@[i]));
}

/// An account of a population is shown among the covered exactly where it is covered, and
/// among those outside exactly where it is not; none is shown that is not of it.
pub proof fn law_an_account_is_shown_where_it_stands(
    accounts: Seq<PopulationAccount>,
    entry: PopulationAccount,
)
    ensures
        selected(accounts, true).contains(entry) <==> accounts.contains(entry) && entry.standing
            is Covered,
        selected(accounts, false).contains(entry) <==> accounts.contains(entry) && !(
        entry.standing is Covered),
    decreases accounts.len(),
{
    reveal(Seq::filter);
    if accounts.len() > 0 {
        let shorter = accounts.drop_last();
        let last = accounts.last();
        law_an_account_is_shown_where_it_stands(shorter, entry);
        assert(accounts =~= shorter.push(last));
        lemma_in_longer(shorter, last, entry);
        lemma_in_longer(selected(shorter, true), last, entry);
        lemma_in_longer(selected(shorter, false), last, entry);
    }
}

proof fn lemma_in_longer(
    shorter: Seq<PopulationAccount>,
    last: PopulationAccount,
    entry: PopulationAccount,
)
    ensures
        shorter.push(last).contains(entry) <==> shorter.contains(entry) || last == entry,
{
    let longer = shorter.push(last);
    if shorter.contains(entry) {
        let i = choose|i: int| 0 <= i < shorter.len() && shorter[i] == entry;
        assert(longer[i] == entry);
    }
    if longer.contains(entry) {
        let i = choose|i: int| 0 <= i < longer.len() && longer[i] == entry;
        if i < shorter.len() {
            assert(shorter[i] == entry);
        }
    }
    assert(longer[shorter.len() as int] == last);
}

/// Accounts are shown in their own order, each once: one account more is shown behind the
/// others of its side, and on no other side.
pub proof fn law_accounts_are_shown_in_their_order(
    accounts: Seq<PopulationAccount>,
    another: PopulationAccount,
)
    ensures
        selected(seq![], true).len() == 0,
        selected(seq![], false).len() == 0,
        another.standing is Covered ==> selected(accounts.push(another), true) == selected(
            accounts,
            true,
        ).push(another) && selected(accounts.push(another), false) == selected(accounts, false),
        !(another.standing is Covered) ==> selected(accounts.push(another), false) == selected(
            accounts,
            false,
        ).push(another) && selected(accounts.push(another), true) == selected(accounts, true),
{
    reveal(Seq::filter);
    assert(accounts.push(another).drop_last() =~= accounts);
}

} // verus!
