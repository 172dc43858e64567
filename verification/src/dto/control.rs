//! Control figures of a source, and how the rows compare with them, on the
//! wire.

use crate::calendar::Date;
use crate::dto::amount::{minor_amount, optional_minor_amount};
use crate::dto::amount;
use crate::dto::currency::CurrencyDto;
use crate::ids::Uuid;
use crate::ledger::control::{
    BatchTotal, ControlCheck, ControlComparison, ControlReconciliation, ControlSection,
    IntervalFit,
};
use crate::money::{CurrencyCode, MinorUnits};
use crate::relate::map_each_with;
use crate::relate;
use vstd::prelude::*;

verus! {

/// The figures a source printed for one account and currency.
#[derive(Debug, Clone, PartialEq, Eq)]
pub struct StatedControlFiguresDto {
    pub account: Uuid,
    pub currency: CurrencyDto,
    pub opening: Option<String>,
    pub closing: Option<String>,
    pub debit_turnover: Option<String>,
    pub credit_turnover: Option<String>,
}

/// The figures a source printed for an interval.
#[derive(Debug, Clone, PartialEq, Eq)]
pub struct StateImportControlFiguresRequest {
    pub from: Date,
    pub to: Date,
    pub figures: Vec<StatedControlFiguresDto>,
}

/// A control section as a session holds it.
#[derive(Debug, Clone, PartialEq, Eq)]
pub struct ControlSectionDto {
    pub account: Uuid,
    pub currency: CurrencyDto,
    pub period_from: Date,
    pub period_to: Date,
    pub opening: Option<String>,
    pub closing: Option<String>,
    pub debit_turnover: Option<String>,
    pub credit_turnover: Option<String>,
}

impl ControlSectionDto {
    /// What the wire form says of the record it was rendered from.
    pub open spec fn shows(self, section: ControlSection, units: MinorUnits) -> bool {
        &&& self.account == section.account.0
        &&& self.currency.denotes() == section.currency
        &&& self.period_from == section.period.from
        &&& self.period_to == section.period.to
        &&& relate::both(
            self.opening,
            section.opening,
            |text: String, minor: i64| text@ == amount::minor_text(minor, section.currency, units),
        )
        &&& relate::both(
            self.closing,
            section.closing,
            |text: String, minor: i64| text@ == amount::minor_text(minor, section.currency, units),
        )
        &&& relate::both(
            self.debit_turnover,
            section.debit_turnover,
            |text: String, minor: i64| text@ == amount::minor_text(minor, section.currency, units),
        )
        &&& relate::both(
            self.credit_turnover,
            section.credit_turnover,
            |text: String, minor: i64| text@ == amount::minor_text(minor, section.currency, units),
        )
    }

    /// The wire form of the record.
    pub fn from_domain(section: &ControlSection, units: &MinorUnits) -> (dto: Self)
        ensures
            dto.shows(*section, *units),
    {
        Self {
            account: section.account.0,
            currency: CurrencyDto::from_domain(section.currency),
            period_from: section.period.from,
            period_to: section.period.to,
            opening: optional_minor_amount(section.opening, section.currency, units),
            closing: optional_minor_amount(section.closing, section.currency, units),
            debit_turnover: optional_minor_amount(section.debit_turnover, section.currency, units),
            credit_turnover: optional_minor_amount(
                section.credit_turnover,
                section.currency,
                units,
            ),
        }
    }
}

/// What one account's rows in one currency come to. The two sides are absolute;
/// the net is signed.
#[derive(Debug, Clone, PartialEq, Eq)]
pub struct BatchTotalDto {
    pub account: Uuid,
    pub currency: CurrencyDto,
    pub rows: usize,
    pub debit: String,
    pub credit: String,
    pub net: String,
}

impl BatchTotalDto {
    /// What the wire form says of the record it was rendered from.
    pub open spec fn shows(self, total: BatchTotal, units: MinorUnits) -> bool {
        &&& self.account == total.account.0
        &&& self.currency.denotes() == total.currency
        &&& self.rows == total.rows
        &&& self.debit@ == amount::minor_text(total.debit, total.currency, units)
        &&& self.credit@ == amount::minor_text(total.credit, total.currency, units)
        &&& self.net@ == amount::minor_text(total.net, total.currency, units)
    }

    /// The wire form of the record.
    pub fn from_domain(total: &BatchTotal, units: &MinorUnits) -> (dto: Self)
        ensures
            dto.shows(*total, *units),
    {
        Self {
            account: total.account.0,
            currency: CurrencyDto::from_domain(total.currency),
            rows: total.rows,
            debit: minor_amount(total.debit, total.currency, units),
            credit: minor_amount(total.credit, total.currency, units),
            net: minor_amount(total.net, total.currency, units),
        }
    }
}

/// Whether the rows a comparison folded are the rows its figures are about.
#[derive(Debug, Clone, Copy, PartialEq, Eq, Structural)]
pub struct IntervalFitDto {
    /// Rows dated outside the interval.
    pub outside: usize,
    /// Rows that carry no date.
    pub undated: usize,
    /// The earliest of the rows dated outside.
    pub outside_from: Option<Date>,
    /// The latest of them.
    pub outside_to: Option<Date>,
}

impl IntervalFitDto {
    /// What the wire form says of the fit.
    pub open spec fn shows(self, fit: IntervalFit) -> bool {
        &&& self.outside == fit.outside
        &&& self.undated == fit.undated
        &&& match fit.span {
            Some(span) => self.outside_from == Some(span.from) && self.outside_to == Some(span.to),
            None => self.outside_from is None && self.outside_to is None,
        }
    }

    /// The wire form of the fit.
    pub fn from_domain(fit: IntervalFit) -> (dto: Self)
        ensures
            dto.shows(fit),
    {
        Self {
            outside: fit.outside,
            undated: fit.undated,
            outside_from: match fit.span {
                Some(span) => Some(span.from),
                None => None,
            },
            outside_to: match fit.span {
                Some(span) => Some(span.to),
                None => None,
            },
        }
    }
}

/// A stated figure beside what the rows come to.
#[derive(Debug, Clone, PartialEq, Eq)]
pub struct ControlCheckDto {
    pub figure: String,
    pub outcome: String,
    /// What the source stated.
    pub claimed: String,
    /// What the rows come to.
    pub observed: Option<String>,
    /// How far the two are apart.
    pub delta: Option<String>,
    /// Why nothing was compared.
    pub reason: Option<String>,
}

impl ControlCheckDto {
    /// What the wire form says of the check: both numbers where they were compared,
    /// the difference where they disagree, the reason where they were not compared.
    pub open spec fn shows(
        self,
        check: ControlCheck,
        currency: CurrencyCode,
        units: MinorUnits,
    ) -> bool {
        &&& self.figure@ == check.compared().word()
        &&& self.outcome@ == check.word()
        &&& match check {
            ControlCheck::Matched { figure, claimed, observed } => {
                &&& self.claimed@ == amount::minor_text(claimed, currency, units)
                &&& self.observed matches Some(text) && text@ == amount::minor_text(
                    observed,
                    currency,
                    units,
                )
                &&& self.delta is None
                &&& self.reason is None
            },
            ControlCheck::Mismatched { figure, claimed, observed, delta } => {
                &&& self.claimed@ == amount::minor_text(claimed, currency, units)
                &&& self.observed matches Some(text) && text@ == amount::minor_text(
                    observed,
                    currency,
                    units,
                )
                &&& self.delta matches Some(text) && text@ == amount::minor_text(
                    delta,
                    currency,
                    units,
                )
                &&& self.reason is None
            },
            ControlCheck::NotChecked { figure, claimed, reason } => {
                &&& self.claimed@ == amount::minor_text(claimed, currency, units)
                &&& self.observed is None
                &&& self.delta is None
                &&& self.reason matches Some(word) && word@ == reason.word()
            },
        }
    }

    /// The wire form of the check.
    pub fn from_domain(check: &ControlCheck, currency: CurrencyCode, units: &MinorUnits) -> (dto:
        Self)
        ensures
            dto.shows(*check, currency, *units),
    {
        let base = Self {
            figure: check.figure().code().to_owned(),
            outcome: check.code().to_owned(),
            claimed: String::new(),
            observed: None,
            delta: None,
            reason: None,
        };
        match check {
            ControlCheck::Matched { figure, claimed, observed } => Self {
                claimed: minor_amount(*claimed, currency, units),
                observed: Some(minor_amount(*observed, currency, units)),
                ..base
            },
            ControlCheck::Mismatched { figure, claimed, observed, delta } => Self {
                claimed: minor_amount(*claimed, currency, units),
                observed: Some(minor_amount(*observed, currency, units)),
                delta: Some(minor_amount(*delta, currency, units)),
                ..base
            },
            ControlCheck::NotChecked { figure, claimed, reason } => Self {
                claimed: minor_amount(*claimed, currency, units),
                reason: Some(reason.code().to_owned()),
                ..base
            },
        }
    }
}

/// What the source said and what the rows say, for one account and currency.
#[derive(Debug, Clone, PartialEq, Eq)]
pub struct ControlComparisonDto {
    pub account: Uuid,
    pub currency: CurrencyDto,
    /// The section the source printed.
    pub stated: Option<ControlSectionDto>,
    /// What the rows come to.
    pub observed: BatchTotalDto,
    /// One entry for each figure the source stated.
    pub checks: Vec<ControlCheckDto>,
    /// Whether the rows fall inside the stated interval.
    pub fit: Option<IntervalFitDto>,
}

impl ControlComparisonDto {
    /// What the wire form says of the comparison.
    pub open spec fn shows(self, comparison: ControlComparison, units: MinorUnits) -> bool {
        &&& self.account == comparison.account.0
        &&& self.currency.denotes() == comparison.currency
        &&& relate::both(
            self.stated,
            comparison.stated,
            |dto: ControlSectionDto, section: ControlSection| dto.shows(section, units),
        )
        &&& self.observed.shows(comparison.observed, units)
        &&& relate::each(
            self.checks@,
            comparison.checks@,
            |dto: ControlCheckDto, check: ControlCheck|
                dto.shows(check, comparison.currency, units),
        )
        &&& relate::both(
            self.fit,
            comparison.fit,
            |dto: IntervalFitDto, fit: IntervalFit| dto.shows(fit),
        )
    }

    /// The wire form of the comparison.
    pub fn from_domain(comparison: &ControlComparison, units: &MinorUnits) -> (dto: Self)
        ensures
            dto.shows(*comparison, *units),
    {
        let mut checks: Vec<ControlCheckDto> = Vec::new();
        let mut next: usize = 0;
        while next < comparison.checks.len()
            invariant
                next <= comparison.checks@.len(),
                relate::each(
                    checks@,
                    comparison.checks@.take(next as int),
                    |dto: ControlCheckDto, check: ControlCheck|
                        dto.shows(check, comparison.currency, *units),
                ),
            decreases comparison.checks@.len() - next,
        {
            checks.push(
                ControlCheckDto::from_domain(&comparison.checks[next], comparison.currency, units),
            );
            next = next + 1;
        }
        assert(comparison.checks@.take(next as int) =~= comparison.checks@);
        Self {
            account: comparison.account.0,
            currency: CurrencyDto::from_domain(comparison.currency),
            stated: match &comparison.stated {
                Some(section) => Some(ControlSectionDto::from_domain(section, units)),
                None => None,
            },
            observed: BatchTotalDto::from_domain(&comparison.observed, units),
            checks,
            fit: comparison.fit.map(IntervalFitDto::from_domain),
        }
    }
}

/// A batch beside the control figures its own source printed. No comparison at all
/// says that the source stated nothing, and not that it agreed.
#[derive(Debug, Clone, PartialEq, Eq)]
pub struct ControlReconciliationDto {
    pub comparisons: Vec<ControlComparisonDto>,
    /// How many stated figures disagree with the rows.
    pub mismatched_figures: usize,
    /// How many rows the stated intervals do not cover.
    pub rows_outside_interval: usize,
}

impl ControlReconciliationDto {
    /// What the wire form says of the comparisons.
    pub open spec fn shows(self, control: ControlReconciliation, units: MinorUnits) -> bool {
        &&& relate::each(
            self.comparisons@,
            control.comparisons@,
            |dto: ControlComparisonDto, comparison: ControlComparison|
                dto.shows(comparison, units),
        )
        &&& self.mismatched_figures == crate::ledger::control::mismatched_figures(
            control.comparisons@,
        )
        &&& self.rows_outside_interval == crate::ledger::control::uncovered_rows(
            control.comparisons@,
        )
    }

    /// The wire form of the comparisons.
    pub fn from_domain(control: &ControlReconciliation, units: &MinorUnits) -> (dto: Self)
        requires
            control.is_countable(),
        ensures
            dto.shows(*control, *units),
    {
        Self {
            comparisons: map_each_with(
                &control.comparisons,
                units,
                ControlComparisonDto::from_domain,
            ),
            mismatched_figures: control.mismatches(),
            rows_outside_interval: control.misplaced_rows(),
        }
    }
}

/// A figure that could not be checked is not counted as a mismatch: a batch in which
/// no check disagrees has none.
pub proof fn law_an_unchecked_figure_is_no_mismatch(comparisons: Seq<ControlComparison>)
    requires
        forall|i: int, j: int|
            0 <= i < comparisons.len() && 0 <= j < comparisons[i].checks@.len()
                ==> !(#[trigger] comparisons[i].checks@[j] is Mismatched),
    ensures
        crate::ledger::control::mismatched_figures(comparisons) == 0,
    decreases comparisons.len(),
{
    if comparisons.len() > 0 {
        let shorter = comparisons.drop_last();
        assert forall|i: int, j: int|
            0 <= i < shorter.len() && 0 <= j < shorter[i].checks@.len() implies !(
        #[trigger] shorter[i].checks@[j] is Mismatched) by {
            assert(shorter[i] == comparisons[i]);
            assert(!(comparisons[i].checks@[j] is Mismatched));
        }
        law_an_unchecked_figure_is_no_mismatch(shorter);
        let checks = comparisons.last().checks@;
        assert forall|j: int| 0 <= j < checks.len() implies !(
            #[trigger] checks[j] is Mismatched
        ) by {
            assert(!(comparisons[comparisons.len() - 1].checks@[j] is Mismatched));
        }
        lemma_no_disagreement(checks);
    }
}

proof fn lemma_no_disagreement(checks: Seq<ControlCheck>)
    requires
        forall|j: int| 0 <= j < checks.len() ==> !(#[trigger] checks[j] is Mismatched),
    ensures
        crate::ledger::control::disagreeing(checks) == 0,
    decreases checks.len(),
{
    if checks.len() > 0 {
        let shorter = checks.drop_last();
        assert forall|j: int| 0 <= j < shorter.len() implies !(
        #[trigger] shorter[j] is Mismatched) by {
            assert(shorter[j] == checks[j]);
        }
        lemma_no_disagreement(shorter);
        assert(!(checks[checks.len() - 1] is Mismatched));
    }
}

/// Both numbers are on the page wherever they were compared, and nothing is stated
/// of the rows where they were not.
pub proof fn law_a_check_shows_what_it_compared(
    dto: ControlCheckDto,
    check: ControlCheck,
    currency: CurrencyCode,
    units: MinorUnits,
)
    requires
        dto.shows(check, currency, units),
    ensures
        dto.observed is Some <==> !(check is NotChecked),
        dto.reason is Some <==> check is NotChecked,
        dto.delta is Some <==> check is Mismatched,
{
}

/// The days that rows outside an interval run between are stated together or not at
/// all.
pub proof fn law_the_days_outside_are_stated_together(dto: IntervalFitDto, fit: IntervalFit)
    requires
        dto.shows(fit),
    ensures
        dto.outside_from is Some <==> dto.outside_to is Some,
{
}

/// The published number of mismatched figures is the number of places, a comparison
/// and a check in it, at which a check of the batch disagrees.
pub proof fn law_the_published_number_counts_every_disagreement(
    dto: ControlReconciliationDto,
    control: ControlReconciliation,
    units: MinorUnits,
)
    requires
        dto.shows(control, units),
    ensures
        dto.mismatched_figures == Set::new(
            |at: (int, int)|
                0 <= at.0 < control.comparisons@.len() && 0 <= at.1
                    < control.comparisons@[at.0].checks@.len()
                    && control.comparisons@[at.0].checks@[at.1] is Mismatched,
        ).len(),
{
    crate::ledger::control::law_every_disagreement_is_counted_once(control.comparisons@);
}

/// A batch published with one disagreeing figure more is published with a number one
/// higher.
pub proof fn law_a_further_disagreement_is_published(
    dto: ControlReconciliationDto,
    control: ControlReconciliation,
    another: ControlReconciliationDto,
    longer: ControlReconciliation,
    place: int,
    check: ControlCheck,
    units: MinorUnits,
)
    requires
        dto.shows(control, units),
        another.shows(longer, units),
        0 <= place < control.comparisons@.len(),
        longer.comparisons@ == control.comparisons@.update(place, longer.comparisons@[place]),
        longer.comparisons@[place].checks@ == control.comparisons@[place].checks@.push(check),
        check is Mismatched,
    ensures
        another.mismatched_figures == dto.mismatched_figures + 1,
{
    crate::ledger::control::law_a_further_disagreement_is_one_more(
        control.comparisons@,
        place,
        longer.comparisons@[place],
        check,
    );
}

/// A `ControlSectionDto` tells each part of what it shows in a field of its own.
pub proof fn law_control_section_is_told_part_by_part(
    dto: ControlSectionDto,
    section: ControlSection,
    units: MinorUnits,
)
    requires
        dto.shows(section, units),
    ensures
        dto.account == section.account.0,
        dto.currency.denotes() == section.currency,
        dto.period_from == section.period.from,
        dto.period_to == section.period.to,
        match (dto.opening, section.opening) {
            (Some(told), Some(meant)) => told@ == amount::minor_text(
                meant,
                section.currency,
                units,
            ),
            (None, None) => true,
            _ => false,
        },
        match (dto.closing, section.closing) {
            (Some(told), Some(meant)) => told@ == amount::minor_text(
                meant,
                section.currency,
                units,
            ),
            (None, None) => true,
            _ => false,
        },
        match (dto.debit_turnover, section.debit_turnover) {
            (Some(told), Some(meant)) => told@ == amount::minor_text(
                meant,
                section.currency,
                units,
            ),
            (None, None) => true,
            _ => false,
        },
        match (dto.credit_turnover, section.credit_turnover) {
            (Some(told), Some(meant)) => told@ == amount::minor_text(
                meant,
                section.currency,
                units,
            ),
            (None, None) => true,
            _ => false,
        },
{
}

/// A `BatchTotalDto` tells each part of what it shows in a field of its own.
pub proof fn law_batch_total_is_told_part_by_part(
    dto: BatchTotalDto,
    total: BatchTotal,
    units: MinorUnits,
)
    requires
        dto.shows(total, units),
    ensures
        dto.account == total.account.0,
        dto.currency.denotes() == total.currency,
        dto.rows == total.rows,
        dto.debit@ == amount::minor_text(total.debit, total.currency, units),
        dto.credit@ == amount::minor_text(total.credit, total.currency, units),
        dto.net@ == amount::minor_text(total.net, total.currency, units),
{
}

/// An `IntervalFitDto` tells each part of what it shows in a field of its own.
pub proof fn law_interval_fit_is_told_part_by_part(
    dto: IntervalFitDto,
    fit: IntervalFit,
)
    requires
        dto.shows(fit),
    ensures
        dto.outside == fit.outside,
        dto.undated == fit.undated,
        match fit.span {
            Some(span) => dto.outside_from == Some(span.from) && dto.outside_to == Some(span.to),
            None => dto.outside_from is None && dto.outside_to is None,
        },
{
}

/// A `ControlCheckDto` tells each part of what it shows in a field of its own.
pub proof fn law_control_check_is_told_part_by_part(
    dto: ControlCheckDto,
    check: ControlCheck,
    currency: CurrencyCode,
    units: MinorUnits,
)
    requires
        dto.shows(check, currency, units),
    ensures
        dto.figure@ == check.compared().word(),
        dto.outcome@ == check.word(),
        match check {
            ControlCheck::Matched { figure, claimed, observed } => {
                &&& dto.claimed@ == amount::minor_text(claimed, currency, units)
                &&& dto.observed matches Some(text) && text@ == amount::minor_text(
                    observed,
                    currency,
                    units,
                )
                &&& dto.delta is None
                &&& dto.reason is None
            },
            ControlCheck::Mismatched { figure, claimed, observed, delta } => {
                &&& dto.claimed@ == amount::minor_text(claimed, currency, units)
                &&& dto.observed matches Some(text) && text@ == amount::minor_text(
                    observed,
                    currency,
                    units,
                )
                &&& dto.delta matches Some(text) && text@ == amount::minor_text(
                    delta,
                    currency,
                    units,
                )
                &&& dto.reason is None
            },
            ControlCheck::NotChecked { figure, claimed, reason } => {
                &&& dto.claimed@ == amount::minor_text(claimed, currency, units)
                &&& dto.observed is None
                &&& dto.delta is None
                &&& dto.reason matches Some(word) && word@ == reason.word()
            },
        },
{
}

/// A `ControlComparisonDto` tells each part of what it shows in a field of its own.
pub proof fn law_control_comparison_is_told_part_by_part(
    dto: ControlComparisonDto,
    comparison: ControlComparison,
    units: MinorUnits,
)
    requires
        dto.shows(comparison, units),
    ensures
        dto.account == comparison.account.0,
        dto.currency.denotes() == comparison.currency,
        match (dto.stated, comparison.stated) {
            (Some(told), Some(meant)) => told.shows(meant, units),
            (None, None) => true,
            _ => false,
        },
        dto.observed.shows(comparison.observed, units),
        dto.checks@.len() == comparison.checks@.len(),
        forall|i: int| 0 <= i < comparison.checks@.len() ==> (#[trigger] dto.checks@[i]).shows(
            comparison.checks@[i],
            comparison.currency,
            units,
        ),
        match (dto.fit, comparison.fit) {
            (Some(told), Some(meant)) => told.shows(meant),
            (None, None) => true,
            _ => false,
        },
{
}

/// A `ControlReconciliationDto` tells each part of what it shows in a field of its own.
pub proof fn law_control_reconciliation_is_told_part_by_part(
    dto: ControlReconciliationDto,
    control: ControlReconciliation,
    units: MinorUnits,
)
    requires
        dto.shows(control, units),
    ensures
        dto.comparisons@.len() == control.comparisons@.len(),
        forall|i: int| 0 <= i < control.comparisons@.len() ==> (
            #[trigger] dto.comparisons@[i]
        ).shows(control.comparisons@[i], units),
        dto.mismatched_figures == crate::ledger::control::mismatched_figures(
            control.comparisons@,
        ),
        dto.rows_outside_interval == crate::ledger::control::uncovered_rows(
            control.comparisons@,
        ),
{
}

} // verus!
