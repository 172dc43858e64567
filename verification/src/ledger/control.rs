//! Control figures of a source, and how the rows compare with them.

use crate::calendar::Period;
use crate::ids::AccountId;
use crate::money::CurrencyCode;
use vstd::prelude::*;

verus! {

/// A control section as a session holds it. Amounts are in minor units.
#[derive(Debug, Clone, Copy, PartialEq, Eq, Structural)]
pub struct ControlSection {
    pub account: AccountId,
    pub currency: CurrencyCode,
    pub period: Period,
    pub opening: Option<i64>,
    pub closing: Option<i64>,
    pub debit_turnover: Option<i64>,
    pub credit_turnover: Option<i64>,
}

/// What one account's rows in one currency come to, in minor units.
#[derive(Debug, Clone, Copy, PartialEq, Eq, Structural)]
pub struct BatchTotal {
    pub account: AccountId,
    pub currency: CurrencyCode,
    pub rows: usize,
    pub debit: i64,
    pub credit: i64,
    pub net: i64,
}

/// How many rows an interval does not cover, and the days they run between.
#[derive(Debug, Clone, Copy, PartialEq, Eq, Structural)]
pub struct IntervalFit {
    pub outside: usize,
    pub undated: usize,
    pub span: Option<Period>,
}

/// A figure that is compared.
#[derive(Debug, Clone, Copy, PartialEq, Eq, Structural)]
pub enum ControlFigure {
    ClosingBalance,
    DebitTurnover,
    CreditTurnover,
}

/// Why a figure was compared with nothing.
#[derive(Debug, Clone, Copy, PartialEq, Eq, Structural)]
pub enum NotChecked {
    OpeningBalanceNotStated,
}

/// A stated figure beside what the rows come to. Amounts are in minor units.
#[derive(Debug, Clone, Copy, PartialEq, Eq, Structural)]
pub enum ControlCheck {
    Matched { figure: ControlFigure, claimed: i64, observed: i64 },
    Mismatched { figure: ControlFigure, claimed: i64, observed: i64, delta: i64 },
    NotChecked { figure: ControlFigure, claimed: i64, reason: NotChecked },
}

impl ControlCheck {
    /// The figure that was compared.
    pub open spec fn compared(self) -> ControlFigure {
        match self {
            Self::Matched { figure, claimed, observed } => figure,
            Self::Mismatched { figure, claimed, observed, delta } => figure,
            Self::NotChecked { figure, claimed, reason } => figure,
        }
    }

    /// The figure that was compared.
    pub fn figure(self) -> (figure: ControlFigure)
        ensures
            figure == self.compared(),
    {
        match self {
            Self::Matched { figure, claimed, observed } => figure,
            Self::Mismatched { figure, claimed, observed, delta } => figure,
            Self::NotChecked { figure, claimed, reason } => figure,
        }
    }

    /// The word of the outcome.
    pub open spec fn word(self) -> Seq<char> {
        match self {
            Self::Matched { figure, claimed, observed } => "matched"@,
            Self::Mismatched { figure, claimed, observed, delta } => "mismatched"@,
            Self::NotChecked { figure, claimed, reason } => "not_checked"@,
        }
    }

    /// The word of the outcome.
    pub fn code(self) -> (code: &'static str)
        ensures
            code@ == self.word(),
    {
        match self {
            Self::Matched { figure, claimed, observed } => "matched",
            Self::Mismatched { figure, claimed, observed, delta } => "mismatched",
            Self::NotChecked { figure, claimed, reason } => "not_checked",
        }
    }
}

/// What the source said and what the rows say, for one account and currency.
#[derive(Debug, Clone, PartialEq, Eq)]
pub struct ControlComparison {
    pub account: AccountId,
    pub currency: CurrencyCode,
    pub stated: Option<ControlSection>,
    pub observed: BatchTotal,
    pub checks: Vec<ControlCheck>,
    pub fit: Option<IntervalFit>,
}

/// Every comparison of a batch.
#[derive(Debug, Clone, PartialEq, Eq)]
pub struct ControlReconciliation {
    pub comparisons: Vec<ControlComparison>,
}

/// How many checks disagree. A figure that could not be checked is not one of them.
pub open spec fn disagreeing(checks: Seq<ControlCheck>) -> nat
    decreases checks.len(),
{
    if checks.len() == 0 {
        0
    } else {
        disagreeing(checks.drop_last()) + if checks.last() is Mismatched {
            1nat
        } else {
            0nat
        }
    }
}

/// How many stated figures disagree with the rows, over all comparisons.
pub open spec fn mismatched_figures(comparisons: Seq<ControlComparison>) -> nat
    decreases comparisons.len(),
{
    if comparisons.len() == 0 {
        0
    } else {
        mismatched_figures(comparisons.drop_last()) + disagreeing(comparisons.last().checks@)
    }
}

/// How many rows the stated intervals do not cover: dated outside one, or carrying
/// no date to be placed by.
pub open spec fn uncovered_rows(comparisons: Seq<ControlComparison>) -> nat
    decreases comparisons.len(),
{
    if comparisons.len() == 0 {
        0
    } else {
        uncovered_rows(comparisons.drop_last()) + match comparisons.last().fit {
            Some(fit) => (fit.outside + fit.undated) as nat,
            None => 0nat,
        }
    }
}

/// A longer run of comparisons has no fewer disagreements and uncovered rows.
proof fn lemma_counts_grow(comparisons: Seq<ControlComparison>, count: int)
    requires
        0 <= count <= comparisons.len(),
    ensures
        mismatched_figures(comparisons.take(count)) <= mismatched_figures(comparisons),
        uncovered_rows(comparisons.take(count)) <= uncovered_rows(comparisons),
    decreases comparisons.len(),
{
    if count == comparisons.len() {
        assert(comparisons.take(count) =~= comparisons);
    } else {
        assert(comparisons.drop_last().take(count) =~= comparisons.take(count));
        lemma_counts_grow(comparisons.drop_last(), count);
    }
}

fn count_disagreeing(checks: &Vec<ControlCheck>) -> (count: usize)
    ensures
        count == disagreeing(checks@),
        count <= checks@.len(),
{
    let mut count: usize = 0;
    let mut next: usize = 0;
    while next < checks.len()
        invariant
            next <= checks@.len(),
            count <= next,
            count == disagreeing(checks@.take(next as int)),
        decreases checks@.len() - next,
    {
        assert(checks@.take(next + 1).drop_last() =~= checks@.take(next as int));
        match checks[next] {
            ControlCheck::Mismatched { figure, claimed, observed, delta } => {
                count = count + 1;
            },
            _ => {},
        }
        next = next + 1;
    }
    assert(checks@.take(next as int) =~= checks@);
    count
}

impl ControlReconciliation {
    /// Whether the numbers of disagreements and of uncovered rows can be counted.
    pub open spec fn is_countable(self) -> bool {
        &&& mismatched_figures(self.comparisons@) <= usize::MAX
        &&& uncovered_rows(self.comparisons@) <= usize::MAX
    }

    /// How many stated figures disagree with the rows.
    pub fn mismatches(&self) -> (count: usize)
        requires
            self.is_countable(),
        ensures
            count == mismatched_figures(self.comparisons@),
    {
        let mut count: usize = 0;
        let mut next: usize = 0;
        while next < self.comparisons.len()
            invariant
                next <= self.comparisons@.len(),
                self.is_countable(),
                count == mismatched_figures(self.comparisons@.take(next as int)),
            decreases self.comparisons@.len() - next,
        {
            proof {
                let taken = self.comparisons@.take(next + 1);
                assert(taken.drop_last() =~= self.comparisons@.take(next as int));
                lemma_counts_grow(self.comparisons@, next + 1);
            }
            count = count + count_disagreeing(&self.comparisons[next].checks);
            next = next + 1;
        }
        assert(self.comparisons@.take(next as int) =~= self.comparisons@);
        count
    }

    /// How many rows the stated intervals do not cover.
    pub fn misplaced_rows(&self) -> (count: usize)
        requires
            self.is_countable(),
        ensures
            count == uncovered_rows(self.comparisons@),
    {
        let mut count: usize = 0;
        let mut next: usize = 0;
        while next < self.comparisons.len()
            invariant
                next <= self.comparisons@.len(),
                self.is_countable(),
                count == uncovered_rows(self.comparisons@.take(next as int)),
            decreases self.comparisons@.len() - next,
        {
            proof {
                let taken = self.comparisons@.take(next + 1);
                assert(taken.drop_last() =~= self.comparisons@.take(next as int));
                lemma_counts_grow(self.comparisons@, next + 1);
            }
            match self.comparisons[next].fit {
                Some(fit) => {
                    count = count + fit.outside + fit.undated;
                },
                None => {},
            }
            next = next + 1;
        }
        assert(self.comparisons@.take(next as int) =~= self.comparisons@);
        count
    }
}

impl ControlFigure {
    /// The word of the figure.
    pub open spec fn word(self) -> Seq<char> {
        match self {
            Self::ClosingBalance => "closing_balance"@,
            Self::DebitTurnover => "debit_turnover"@,
            Self::CreditTurnover => "credit_turnover"@,
        }
    }

    /// The word of the figure.
    pub fn code(self) -> (code: &'static str)
        ensures
            code@ == self.word(),
    {
        match self {
            Self::ClosingBalance => "closing_balance",
            Self::DebitTurnover => "debit_turnover",
            Self::CreditTurnover => "credit_turnover",
        }
    }
}

impl NotChecked {
    /// The word of the reason.
    pub open spec fn word(self) -> Seq<char> {
        match self {
            Self::OpeningBalanceNotStated => "opening_balance_not_stated"@,
        }
    }

    /// The word of the reason.
    pub fn code(self) -> (code: &'static str)
        ensures
            code@ == self.word(),
    {
        match self {
            Self::OpeningBalanceNotStated => "opening_balance_not_stated",
        }
    }
}

/// The figure that was compared is the one the check names, however it came out.
pub proof fn law_a_check_is_about_its_own_figure(check: ControlCheck)
    ensures
        check matches ControlCheck::Matched { figure, claimed, observed } ==> check.compared()
            == figure,
        check matches ControlCheck::Mismatched { figure, claimed, observed, delta }
            ==> check.compared() == figure,
        check matches ControlCheck::NotChecked { figure, claimed, reason } ==> check.compared()
            == figure,
{
}

/// The places of the first comparisons' disagreements, and of the first disagreements
/// of the last one, are as many as are counted there.
proof fn lemma_disagreements_have_places(comparisons: Seq<ControlComparison>, count: int)
    requires
        comparisons.len() > 0,
        0 <= count <= comparisons.last().checks@.len(),
    ensures
        Set::new(
            |at: (int, int)|
                0 <= at.0 < comparisons.len() && 0 <= at.1 < comparisons[at.0].checks@.len()
                    && comparisons[at.0].checks@[at.1] is Mismatched && (at.0 < comparisons.len()
                    - 1 || at.1 < count),
        ).finite(),
        Set::new(
            |at: (int, int)|
                0 <= at.0 < comparisons.len() && 0 <= at.1 < comparisons[at.0].checks@.len()
                    && comparisons[at.0].checks@[at.1] is Mismatched && (at.0 < comparisons.len()
                    - 1 || at.1 < count),
        ).len() == mismatched_figures(comparisons.drop_last()) + disagreeing(
            comparisons.last().checks@.take(count),
        ),
    decreases comparisons.len(), count,
{
    let last = comparisons.len() - 1;
    let checks = comparisons.last().checks@;
    let places = Set::new(
        |at: (int, int)|
            0 <= at.0 < comparisons.len() && 0 <= at.1 < comparisons[at.0].checks@.len()
                && comparisons[at.0].checks@[at.1] is Mismatched && (at.0 < comparisons.len() - 1
                || at.1 < count),
    );
    if count == 0 {
        let shorter = comparisons.drop_last();
        assert(checks.take(0) =~= seq![]);
        if shorter.len() == 0 {
            assert(places =~= Set::empty());
        } else {
            let whole = shorter.last().checks@.len() as int;
            lemma_disagreements_have_places(shorter, whole);
            assert(shorter.last().checks@.take(whole) =~= shorter.last().checks@);
            assert(places =~= Set::new(
                |at: (int, int)|
                    0 <= at.0 < shorter.len() && 0 <= at.1 < shorter[at.0].checks@.len()
                        && shorter[at.0].checks@[at.1] is Mismatched && (at.0 < shorter.len() - 1
                        || at.1 < whole),
            ));
        }
    } else {
        let before = Set::new(
            |at: (int, int)|
                0 <= at.0 < comparisons.len() && 0 <= at.1 < comparisons[at.0].checks@.len()
                    && comparisons[at.0].checks@[at.1] is Mismatched && (at.0 < comparisons.len()
                    - 1 || at.1 < count - 1),
        );
        lemma_disagreements_have_places(comparisons, count - 1);
        assert(checks.take(count).drop_last() =~= checks.take(count - 1));
        assert(checks.take(count).last() == checks[count - 1]);
        if checks[count - 1] is Mismatched {
            assert(places =~= before.insert((last, count - 1)));
        } else {
            assert(places =~= before);
        }
    }
}

/// The number of mismatched figures is the number of places, a comparison and a check
/// in it, at which a check disagrees.
pub proof fn law_every_disagreement_is_counted_once(comparisons: Seq<ControlComparison>)
    ensures
        Set::new(
            |at: (int, int)|
                0 <= at.0 < comparisons.len() && 0 <= at.1 < comparisons[at.0].checks@.len()
                    && comparisons[at.0].checks@[at.1] is Mismatched,
        ).finite(),
        mismatched_figures(comparisons) == Set::new(
            |at: (int, int)|
                0 <= at.0 < comparisons.len() && 0 <= at.1 < comparisons[at.0].checks@.len()
                    && comparisons[at.0].checks@[at.1] is Mismatched,
        ).len(),
{
    let places = Set::new(
        |at: (int, int)|
            0 <= at.0 < comparisons.len() && 0 <= at.1 < comparisons[at.0].checks@.len()
                && comparisons[at.0].checks@[at.1] is Mismatched,
    );
    if comparisons.len() == 0 {
        assert(places =~= Set::empty());
    } else {
        let whole = comparisons.last().checks@.len() as int;
        lemma_disagreements_have_places(comparisons, whole);
        assert(comparisons.last().checks@.take(whole) =~= comparisons.last().checks@);
        assert(places =~= Set::new(
            |at: (int, int)|
                0 <= at.0 < comparisons.len() && 0 <= at.1 < comparisons[at.0].checks@.len()
                    && comparisons[at.0].checks@[at.1] is Mismatched && (at.0 < comparisons.len()
                    - 1 || at.1 < whole),
        ));
    }
}

/// A figure more that disagrees raises the number by one, wherever its comparison
/// stands; one that agrees or was not checked leaves it.
pub proof fn law_a_further_disagreement_is_one_more(
    comparisons: Seq<ControlComparison>,
    place: int,
    longer: ControlComparison,
    check: ControlCheck,
)
    requires
        0 <= place < comparisons.len(),
        longer.checks@ == comparisons[place].checks@.push(check),
    ensures
        mismatched_figures(comparisons.update(place, longer)) == mismatched_figures(comparisons)
            + if check is Mismatched {
            1nat
        } else {
            0nat
        },
    decreases comparisons.len(),
{
    let updated = comparisons.update(place, longer);
    if place == comparisons.len() - 1 {
        assert(updated.drop_last() =~= comparisons.drop_last());
        assert(longer.checks@.drop_last() =~= comparisons[place].checks@);
    } else {
        assert(updated.drop_last() =~= comparisons.drop_last().update(place, longer));
        assert(updated.last() == comparisons.last());
        law_a_further_disagreement_is_one_more(comparisons.drop_last(), place, longer, check);
    }
}

/// No comparison leaves no row outside, and one comparison more adds the rows that its
/// fit states: those dated outside the interval and those that carry no date.
pub proof fn law_every_uncovered_row_is_counted(
    comparisons: Seq<ControlComparison>,
    another: ControlComparison,
)
    ensures
        uncovered_rows(seq![]) == 0,
        another.fit is None ==> uncovered_rows(comparisons.push(another)) == uncovered_rows(
            comparisons,
        ),
        another.fit matches Some(fit) ==> uncovered_rows(comparisons.push(another))
            == uncovered_rows(comparisons) + fit.outside + fit.undated,
{
    assert(comparisons.push(another).drop_last() =~= comparisons);
}

/// Each `ControlCheck` goes by a word of its own, and that word names no other.
pub proof fn law_control_check_goes_by_its_own_word(value: ControlCheck)
    ensures
        value.word() == "matched"@ <==> value is Matched,
        value.word() == "mismatched"@ <==> value is Mismatched,
        value.word() == "not_checked"@ <==> value is NotChecked,
{
    reveal_strlit("matched");
    reveal_strlit("mismatched");
    reveal_strlit("not_checked");
    assert(value.word().len() > 0);
}

/// Each `ControlFigure` goes by a word of its own, and that word names no other.
pub proof fn law_control_figure_goes_by_its_own_word(value: ControlFigure)
    ensures
        value.word() == "closing_balance"@ <==> value is ClosingBalance,
        value.word() == "debit_turnover"@ <==> value is DebitTurnover,
        value.word() == "credit_turnover"@ <==> value is CreditTurnover,
{
    reveal_strlit("closing_balance");
    reveal_strlit("debit_turnover");
    reveal_strlit("credit_turnover");
    assert("closing_balance"@[1] == 'l');
    assert("credit_turnover"@[1] == 'r');
    assert(value.word().len() > 0);
}

/// Each `NotChecked` goes by a word of its own, and that word names no other.
pub proof fn law_not_checked_goes_by_its_own_word(value: NotChecked)
    ensures
        value.word() == "opening_balance_not_stated"@,
{
}

} // verus!
