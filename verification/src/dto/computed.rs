//! Figures that may not be computable, on the wire.

use crate::dto::currency::CurrencyDto;
use crate::ledger::computed::{Computed, NotComputable, RateOutcome};
use crate::money::{CalcMoney, Decimal};
use vstd::prelude::*;

verus! {

/// The reasons a figure is not computable, as words.
#[derive(Debug, Clone, Copy, PartialEq, Eq, Structural)]
pub enum NotComputableCodeDto {
    MissingPrice,
    MissingFxRate,
    QuotationBasisUnknown,
    QuotationBasisContradictsEvidence,
    RemainingFaceUnknown,
    SolverRefused,
    NoExternalFlows,
    StateNewerThanReport,
    Numeric,
    UnsupportedFinancing,
    ScheduleMissing,
    AccruedObservationMissing,
    CouponUndetermined,
    OutsideScheduleCoverage,
    OverlappingScheduleCoverage,
    ExitNotExecutable,
    PrincipalUnknown,
    NonPositiveDuration,
    NonPositiveInitialCapital,
    NegativeTerminalWealth,
    AcquisitionBasisUnknown,
    AccruedInterestAtAcquisitionUnknown,
    HistoricalReceiptsUnknown,
    CohortGap,
    CurrencyMismatch,
    ExpenseUnknown,
}

impl NotComputableCodeDto {
    /// The word on the wire.
    pub open spec fn word(self) -> Seq<char> {
        match self {
            Self::MissingPrice => "missing_price"@,
            Self::MissingFxRate => "missing_fx_rate"@,
            Self::QuotationBasisUnknown => "quotation_basis_unknown"@,
            Self::QuotationBasisContradictsEvidence => "quotation_basis_contradicts_evidence"@,
            Self::RemainingFaceUnknown => "remaining_face_unknown"@,
            Self::SolverRefused => "solver_refused"@,
            Self::NoExternalFlows => "no_external_flows"@,
            Self::StateNewerThanReport => "state_newer_than_report"@,
            Self::Numeric => "numeric"@,
            Self::UnsupportedFinancing => "unsupported_financing"@,
            Self::ScheduleMissing => "schedule_missing"@,
            Self::AccruedObservationMissing => "accrued_observation_missing"@,
            Self::CouponUndetermined => "coupon_undetermined"@,
            Self::OutsideScheduleCoverage => "outside_schedule_coverage"@,
            Self::OverlappingScheduleCoverage => "overlapping_schedule_coverage"@,
            Self::ExitNotExecutable => "exit_not_executable"@,
            Self::PrincipalUnknown => "principal_unknown"@,
            Self::NonPositiveDuration => "non_positive_duration"@,
            Self::NonPositiveInitialCapital => "non_positive_initial_capital"@,
            Self::NegativeTerminalWealth => "negative_terminal_wealth"@,
            Self::AcquisitionBasisUnknown => "acquisition_basis_unknown"@,
            Self::AccruedInterestAtAcquisitionUnknown => "accrued_interest_at_acquisition_unknown"@,
            Self::HistoricalReceiptsUnknown => "historical_receipts_unknown"@,
            Self::CohortGap => "cohort_gap"@,
            Self::CurrencyMismatch => "currency_mismatch"@,
            Self::ExpenseUnknown => "expense_unknown"@,
        }
    }

    /// The word on the wire.
    pub fn code(self) -> (code: &'static str)
        ensures
            code@ == self.word(),
    {
        match self {
            Self::MissingPrice => "missing_price",
            Self::MissingFxRate => "missing_fx_rate",
            Self::QuotationBasisUnknown => "quotation_basis_unknown",
            Self::QuotationBasisContradictsEvidence => "quotation_basis_contradicts_evidence",
            Self::RemainingFaceUnknown => "remaining_face_unknown",
            Self::SolverRefused => "solver_refused",
            Self::NoExternalFlows => "no_external_flows",
            Self::StateNewerThanReport => "state_newer_than_report",
            Self::Numeric => "numeric",
            Self::UnsupportedFinancing => "unsupported_financing",
            Self::ScheduleMissing => "schedule_missing",
            Self::AccruedObservationMissing => "accrued_observation_missing",
            Self::CouponUndetermined => "coupon_undetermined",
            Self::OutsideScheduleCoverage => "outside_schedule_coverage",
            Self::OverlappingScheduleCoverage => "overlapping_schedule_coverage",
            Self::ExitNotExecutable => "exit_not_executable",
            Self::PrincipalUnknown => "principal_unknown",
            Self::NonPositiveDuration => "non_positive_duration",
            Self::NonPositiveInitialCapital => "non_positive_initial_capital",
            Self::NegativeTerminalWealth => "negative_terminal_wealth",
            Self::AcquisitionBasisUnknown => "acquisition_basis_unknown",
            Self::AccruedInterestAtAcquisitionUnknown => "accrued_interest_at_acquisition_unknown",
            Self::HistoricalReceiptsUnknown => "historical_receipts_unknown",
            Self::CohortGap => "cohort_gap",
            Self::CurrencyMismatch => "currency_mismatch",
            Self::ExpenseUnknown => "expense_unknown",
        }
    }
}

impl NotComputableCodeDto {
    /// The code of a reason, which goes by the reason's own word.
    pub fn from_domain(reason: &NotComputable) -> (dto: Self)
        ensures
            dto.word() == reason.word(),
    {
        match reason {
            NotComputable::MissingPrice { .. } => Self::MissingPrice,
            NotComputable::MissingFxRate { .. } => Self::MissingFxRate,
            NotComputable::QuotationBasisUnknown { .. } => Self::QuotationBasisUnknown,
            NotComputable::QuotationBasisContradictsEvidence {
                ..
            } => Self::QuotationBasisContradictsEvidence,
            NotComputable::RemainingFaceUnknown { .. } => Self::RemainingFaceUnknown,
            NotComputable::SolverRefused { .. } => Self::SolverRefused,
            NotComputable::NoExternalFlows => Self::NoExternalFlows,
            NotComputable::StateNewerThanReport { .. } => Self::StateNewerThanReport,
            NotComputable::Numeric { .. } => Self::Numeric,
            NotComputable::UnsupportedFinancing { .. } => Self::UnsupportedFinancing,
            NotComputable::ScheduleMissing { .. } => Self::ScheduleMissing,
            NotComputable::AccruedObservationMissing { .. } => Self::AccruedObservationMissing,
            NotComputable::CouponUndetermined { .. } => Self::CouponUndetermined,
            NotComputable::OutsideScheduleCoverage { .. } => Self::OutsideScheduleCoverage,
            NotComputable::OverlappingScheduleCoverage { .. } => Self::OverlappingScheduleCoverage,
            NotComputable::ExitNotExecutable => Self::ExitNotExecutable,
            NotComputable::PrincipalUnknown => Self::PrincipalUnknown,
            NotComputable::NonPositiveDuration { .. } => Self::NonPositiveDuration,
            NotComputable::NonPositiveInitialCapital => Self::NonPositiveInitialCapital,
            NotComputable::NegativeTerminalWealth => Self::NegativeTerminalWealth,
            NotComputable::AcquisitionBasisUnknown => Self::AcquisitionBasisUnknown,
            NotComputable::AccruedInterestAtAcquisitionUnknown => Self::AccruedInterestAtAcquisitionUnknown,
            NotComputable::HistoricalReceiptsUnknown => Self::HistoricalReceiptsUnknown,
            NotComputable::CohortGap { .. } => Self::CohortGap,
            NotComputable::CurrencyMismatch { .. } => Self::CurrencyMismatch,
            NotComputable::ExpenseUnknown => Self::ExpenseUnknown,
        }
    }
}

/// No two reasons go by one word, and none goes by an empty one.
pub proof fn law_every_reason_has_its_own_word(
    one: NotComputableCodeDto,
    other: NotComputableCodeDto,
)
    ensures
        one.word().len() > 0,
        one.word() == other.word() ==> one == other,
{
    reveal_strlit("missing_price");
    reveal_strlit("missing_fx_rate");
    reveal_strlit("quotation_basis_unknown");
    reveal_strlit("quotation_basis_contradicts_evidence");
    reveal_strlit("remaining_face_unknown");
    reveal_strlit("solver_refused");
    reveal_strlit("no_external_flows");
    reveal_strlit("state_newer_than_report");
    reveal_strlit("numeric");
    reveal_strlit("unsupported_financing");
    reveal_strlit("schedule_missing");
    reveal_strlit("accrued_observation_missing");
    reveal_strlit("coupon_undetermined");
    reveal_strlit("outside_schedule_coverage");
    reveal_strlit("overlapping_schedule_coverage");
    reveal_strlit("exit_not_executable");
    reveal_strlit("principal_unknown");
    reveal_strlit("non_positive_duration");
    reveal_strlit("non_positive_initial_capital");
    reveal_strlit("negative_terminal_wealth");
    reveal_strlit("acquisition_basis_unknown");
    reveal_strlit("accrued_interest_at_acquisition_unknown");
    reveal_strlit("historical_receipts_unknown");
    reveal_strlit("cohort_gap");
    reveal_strlit("currency_mismatch");
    reveal_strlit("expense_unknown");
    assert("missing_fx_rate"@[0] == 'm');
    assert("expense_unknown"@[0] == 'e');
    assert("quotation_basis_unknown"@[0] == 'q');
    assert("state_newer_than_report"@[0] == 's');
    assert("no_external_flows"@[0] == 'n');
    assert("principal_unknown"@[0] == 'p');
    assert("currency_mismatch"@[0] == 'c');
    assert("unsupported_financing"@[0] == 'u');
    assert("non_positive_duration"@[0] == 'n');
    assert("accrued_observation_missing"@[0] == 'a');
    assert("historical_receipts_unknown"@[0] == 'h');
    assert("coupon_undetermined"@[0] == 'c');
    assert("exit_not_executable"@[0] == 'e');
    assert("outside_schedule_coverage"@[0] == 'o');
    assert("acquisition_basis_unknown"@[0] == 'a');
    if one.word() == other.word() {
        assert(one.word().len() == other.word().len());
        assert(one.word()[0] == other.word()[0]);
    }
}

/// What exactly was missing, in words.
pub open spec fn described(reason: NotComputable) -> Seq<char> {
    match reason {
        NotComputable::MissingPrice { instrument } => "no price for instrument "@
            + instrument.0.text(),
        NotComputable::MissingFxRate { from, to, date } => "no exchange rate "@ + from.word() + "→"@
            + to.word() + " on "@ + date.text(),
        NotComputable::QuotationBasisUnknown { instrument } =>
            "unknown quotation basis for instrument "@ + instrument.0.text(),
        NotComputable::QuotationBasisContradictsEvidence { instrument } =>
            "quotation basis contradicts the evidence for instrument "@ + instrument.0.text(),
        NotComputable::RemainingFaceUnknown { instrument } =>
            "remaining face value is unknown for instrument "@ + instrument.0.text(),
        NotComputable::SolverRefused { refusal } => refusal@,
        NotComputable::NoExternalFlows => "no flows crossing the perimeter boundary"@,
        NotComputable::StateNewerThanReport { last_event, as_of } =>
            "snapshot contains events only up to "@ + last_event.text() + ", report is as of "@
            + as_of.text(),
        NotComputable::Numeric { code } => "arithmetic failure: "@ + code@,
        NotComputable::UnsupportedFinancing {
            account,
        } => "the account contains funding from outside the perimeter: "@
            + account.0.text(),
        NotComputable::ScheduleMissing { instrument } => "no issue schedule for instrument "@
            + instrument.0.text(),
        NotComputable::AccruedObservationMissing { instrument } =>
            "no accrued interest observation for instrument "@ + instrument.0.text(),
        NotComputable::CouponUndetermined {
            instrument,
        } => "coupon amount is undefined for instrument "@
            + instrument.0.text(),
        NotComputable::OutsideScheduleCoverage { instrument } =>
            "report date is outside the schedule coverage for instrument "@ + instrument.0.text(),
        NotComputable::OverlappingScheduleCoverage { instrument } =>
            "report date is covered by multiple schedule periods for instrument "@
            + instrument.0.text(),
        NotComputable::ExitNotExecutable => "no executable exit for realising accrued interest"@,
        NotComputable::PrincipalUnknown => "face value for converting the quotation is unknown"@,
        NotComputable::NonPositiveDuration { coordinate, terminal_date } =>
            "terminal date "@ + terminal_date.text() + " is not later than coordinate "@
            + coordinate.text(),
        NotComputable::NonPositiveInitialCapital => "initial value is not positive"@,
        NotComputable::NegativeTerminalWealth => "terminal wealth is negative"@,
        NotComputable::AcquisitionBasisUnknown => "historical acquisition cost is unknown"@,
        NotComputable::AccruedInterestAtAcquisitionUnknown => "accrued interest paid on acquisition is unknown"@,
        NotComputable::HistoricalReceiptsUnknown => "historical receipts are unknown"@,
        NotComputable::CohortGap { gap } => gap@,
        NotComputable::CurrencyMismatch { expected, actual } =>
            "currencies do not match: "@ + expected.word() + " and "@ + actual.word(),
        NotComputable::ExpenseUnknown => "expense is unknown"@,
    }
}

/// What exactly was missing, in words.
pub fn describe(reason: &NotComputable) -> (text: String)
    ensures
        text@ == described(*reason),
{
    match reason {
        NotComputable::MissingPrice { instrument } => {
            let mut text = "no price for instrument ".to_owned();
            text.append(instrument.0.to_text().as_str());
            text
        },
        NotComputable::MissingFxRate { from, to, date } => {
            let mut text = "no exchange rate ".to_owned();
            text.append(from.code());
            text.append("→");
            text.append(to.code());
            text.append(" on ");
            text.append(date.to_text().as_str());
            text
        },
        NotComputable::QuotationBasisUnknown { instrument } => {
            let mut text = "unknown quotation basis for instrument ".to_owned();
            text.append(instrument.0.to_text().as_str());
            text
        },
        NotComputable::QuotationBasisContradictsEvidence { instrument } => {
            let mut text = "quotation basis contradicts the evidence for instrument ".to_owned();
            text.append(instrument.0.to_text().as_str());
            text
        },
        NotComputable::RemainingFaceUnknown { instrument } => {
            let mut text = "remaining face value is unknown for instrument ".to_owned();
            text.append(instrument.0.to_text().as_str());
            text
        },
        NotComputable::SolverRefused { refusal } => refusal.clone(),
        NotComputable::NoExternalFlows => "no flows crossing the perimeter boundary".to_owned(),
        NotComputable::StateNewerThanReport { last_event, as_of } => {
            let mut text = "snapshot contains events only up to ".to_owned();
            text.append(last_event.to_text().as_str());
            text.append(", report is as of ");
            text.append(as_of.to_text().as_str());
            text
        },
        NotComputable::Numeric { code } => {
            let mut text = "arithmetic failure: ".to_owned();
            text.append(code.as_str());
            text
        },
        NotComputable::UnsupportedFinancing { account } => {
            let mut text = "the account contains funding from outside the perimeter: ".to_owned();
            text.append(account.0.to_text().as_str());
            text
        },
        NotComputable::ScheduleMissing { instrument } => {
            let mut text = "no issue schedule for instrument ".to_owned();
            text.append(instrument.0.to_text().as_str());
            text
        },
        NotComputable::AccruedObservationMissing { instrument } => {
            let mut text = "no accrued interest observation for instrument ".to_owned();
            text.append(instrument.0.to_text().as_str());
            text
        },
        NotComputable::CouponUndetermined { instrument } => {
            let mut text = "coupon amount is undefined for instrument ".to_owned();
            text.append(instrument.0.to_text().as_str());
            text
        },
        NotComputable::OutsideScheduleCoverage { instrument } => {
            let mut text = "report date is outside the schedule coverage for instrument ".to_owned();
            text.append(instrument.0.to_text().as_str());
            text
        },
        NotComputable::OverlappingScheduleCoverage { instrument } => {
            let mut text = "report date is covered by multiple schedule periods for instrument ".to_owned();
            text.append(instrument.0.to_text().as_str());
            text
        },
        NotComputable::ExitNotExecutable => "no executable exit for realising accrued interest".to_owned(),
        NotComputable::PrincipalUnknown => "face value for converting the quotation is unknown".to_owned(),
        NotComputable::NonPositiveDuration { coordinate, terminal_date } => {
            let mut text = "terminal date ".to_owned();
            text.append(terminal_date.to_text().as_str());
            text.append(" is not later than coordinate ");
            text.append(coordinate.to_text().as_str());
            text
        },
        NotComputable::NonPositiveInitialCapital => "initial value is not positive".to_owned(),
        NotComputable::NegativeTerminalWealth => "terminal wealth is negative".to_owned(),
        NotComputable::AcquisitionBasisUnknown => "historical acquisition cost is unknown".to_owned(),
        NotComputable::AccruedInterestAtAcquisitionUnknown => "accrued interest paid on acquisition is unknown".to_owned(),
        NotComputable::HistoricalReceiptsUnknown => "historical receipts are unknown".to_owned(),
        NotComputable::CohortGap { gap } => gap.clone(),
        NotComputable::CurrencyMismatch { expected, actual } => {
            let mut text = "currencies do not match: ".to_owned();
            text.append(expected.code());
            text.append(" and ");
            text.append(actual.code());
            text
        },
        NotComputable::ExpenseUnknown => "expense is unknown".to_owned(),
    }
}

/// Whether the two explaining fields are those of a reason.
pub open spec fn explains(
    code: Option<NotComputableCodeDto>,
    detail: Option<String>,
    reason: NotComputable,
) -> bool {
    &&& code matches Some(code) && code.word() == reason.word()
    &&& detail matches Some(detail) && detail@ == described(reason)
}

/// A decimal figure, or why there is none.
#[derive(Debug, Clone, PartialEq, Eq)]
pub struct ComputedDto {
    pub value: Option<String>,
    pub not_computable: Option<NotComputableCodeDto>,
    pub detail: Option<String>,
}

impl ComputedDto {
    /// The value and nothing else, or the reason and no value.
    pub open spec fn shows(self, figure: Computed<Decimal>) -> bool {
        match figure {
            Computed::Value(amount) => {
                &&& self.value matches Some(value) && value@ == amount.text()
                &&& self.not_computable is None
                &&& self.detail is None
            },
            Computed::NotComputable { reason } => {
                &&& self.value is None
                &&& explains(self.not_computable, self.detail, reason)
            },
        }
    }

    /// The wire form of the figure.
    pub fn from_dec(figure: &Computed<Decimal>) -> (dto: Self)
        ensures
            dto.shows(*figure),
    {
        match figure {
            Computed::Value(amount) => Self {
                value: Some(amount.to_text()),
                not_computable: None,
                detail: None,
            },
            Computed::NotComputable { reason } => Self {
                value: None,
                not_computable: Some(NotComputableCodeDto::from_domain(reason)),
                detail: Some(describe(reason)),
            },
        }
    }
}

/// A calculated amount with its currency.
#[derive(Debug, Clone, PartialEq, Eq)]
pub struct CalcMoneyDto {
    pub value: String,
    pub currency: CurrencyDto,
}

impl CalcMoneyDto {
    /// What the wire form says of the record it was rendered from.
    pub open spec fn shows(self, value: CalcMoney) -> bool {
        &&& self.value@ == value.value.text()
        &&& self.currency.denotes() == value.currency
    }

    /// The wire form of a calculated amount.
    pub fn from_domain(value: &CalcMoney) -> (dto: Self)
        ensures
            dto.shows(*value),
    {
        Self {
            value: value.value.to_text(),
            currency: CurrencyDto::from_domain(value.currency),
        }
    }
}

/// A calculated amount, or why there is none.
#[derive(Debug, Clone, PartialEq, Eq)]
pub struct ComputedCalcMoneyDto {
    pub value: Option<CalcMoneyDto>,
    pub not_computable: Option<NotComputableCodeDto>,
    pub detail: Option<String>,
}

impl ComputedCalcMoneyDto {
    /// The value and nothing else, or the reason and no value.
    pub open spec fn shows(self, figure: Computed<CalcMoney>) -> bool {
        match figure {
            Computed::Value(amount) => {
                &&& self.value matches Some(value) && value.shows(amount)
                &&& self.not_computable is None
                &&& self.detail is None
            },
            Computed::NotComputable { reason } => {
                &&& self.value is None
                &&& explains(self.not_computable, self.detail, reason)
            },
        }
    }

    /// The wire form of the figure.
    pub fn from_domain(figure: &Computed<CalcMoney>) -> (dto: Self)
        ensures
            dto.shows(*figure),
    {
        match figure {
            Computed::Value(amount) => Self {
                value: Some(CalcMoneyDto::from_domain(amount)),
                not_computable: None,
                detail: None,
            },
            Computed::NotComputable { reason } => Self {
                value: None,
                not_computable: Some(NotComputableCodeDto::from_domain(reason)),
                detail: Some(describe(reason)),
            },
        }
    }
}

/// A rate, or why there is none. Where there is none the texts are empty.
#[derive(Debug, Clone, PartialEq, Eq)]
pub struct RateDto {
    pub value: String,
    pub error_bound: String,
    pub iterations: u32,
    pub day_count: String,
    pub not_computable: Option<NotComputableCodeDto>,
    pub detail: Option<String>,
}

impl RateDto {
    /// The solved rate, or the reason beside empty texts, no iterations and the
    /// day count the calculation would have used.
    pub open spec fn shows(
        self,
        rate: Computed<RateOutcome>,
        fallback_day_count: Seq<char>,
    ) -> bool {
        match rate {
            Computed::Value(outcome) => {
                &&& self.value == outcome.rate
                &&& self.error_bound == outcome.error_bound
                &&& self.iterations == outcome.iterations
                &&& self.day_count == outcome.day_count
                &&& self.not_computable is None
                &&& self.detail is None
            },
            Computed::NotComputable { reason } => {
                &&& self.value@ == Seq::<char>::empty()
                &&& self.error_bound@ == Seq::<char>::empty()
                &&& self.iterations == 0
                &&& self.day_count@ == fallback_day_count
                &&& explains(self.not_computable, self.detail, reason)
            },
        }
    }
}

/// The wire form of a rate.
pub fn rate_dto(value: &Computed<RateOutcome>, fallback_day_count: &str) -> (dto: RateDto)
    ensures
        dto.shows(*value, fallback_day_count@),
{
    match value {
        Computed::Value(outcome) => RateDto {
            value: outcome.rate.clone(),
            error_bound: outcome.error_bound.clone(),
            iterations: outcome.iterations,
            day_count: outcome.day_count.clone(),
            not_computable: None,
            detail: None,
        },
        Computed::NotComputable { reason } => RateDto {
            value: String::new(),
            error_bound: String::new(),
            iterations: 0,
            day_count: fallback_day_count.to_owned(),
            not_computable: Some(NotComputableCodeDto::from_domain(reason)),
            detail: Some(describe(reason)),
        },
    }
}

/// A figure is stated or explained, never both and never neither.
pub proof fn law_a_figure_is_stated_or_explained(dto: ComputedDto, figure: Computed<Decimal>)
    requires
        dto.shows(figure),
    ensures
        dto.value is Some <==> dto.not_computable is None,
        dto.value is Some <==> dto.detail is None,
        dto.value is Some <==> figure is Value,
{
}

/// Each `NotComputableCodeDto` goes by a word of its own, and that word names no other.
pub proof fn law_not_computable_code_goes_by_its_own_word(value: NotComputableCodeDto)
    ensures
        value.word() == "missing_price"@ <==> value is MissingPrice,
        value.word() == "missing_fx_rate"@ <==> value is MissingFxRate,
        value.word() == "quotation_basis_unknown"@ <==> value is QuotationBasisUnknown,
        value.word() == "quotation_basis_contradicts_evidence"@ <==> value is QuotationBasisContradictsEvidence,
        value.word() == "remaining_face_unknown"@ <==> value is RemainingFaceUnknown,
        value.word() == "solver_refused"@ <==> value is SolverRefused,
        value.word() == "no_external_flows"@ <==> value is NoExternalFlows,
        value.word() == "state_newer_than_report"@ <==> value is StateNewerThanReport,
        value.word() == "numeric"@ <==> value is Numeric,
        value.word() == "unsupported_financing"@ <==> value is UnsupportedFinancing,
        value.word() == "schedule_missing"@ <==> value is ScheduleMissing,
        value.word() == "accrued_observation_missing"@ <==> value is AccruedObservationMissing,
        value.word() == "coupon_undetermined"@ <==> value is CouponUndetermined,
        value.word() == "outside_schedule_coverage"@ <==> value is OutsideScheduleCoverage,
        value.word() == "overlapping_schedule_coverage"@ <==> value is OverlappingScheduleCoverage,
        value.word() == "exit_not_executable"@ <==> value is ExitNotExecutable,
        value.word() == "principal_unknown"@ <==> value is PrincipalUnknown,
        value.word() == "non_positive_duration"@ <==> value is NonPositiveDuration,
        value.word() == "non_positive_initial_capital"@ <==> value is NonPositiveInitialCapital,
        value.word() == "negative_terminal_wealth"@ <==> value is NegativeTerminalWealth,
        value.word() == "acquisition_basis_unknown"@ <==> value is AcquisitionBasisUnknown,
        value.word() == "accrued_interest_at_acquisition_unknown"@ <==> value is AccruedInterestAtAcquisitionUnknown,
        value.word() == "historical_receipts_unknown"@ <==> value is HistoricalReceiptsUnknown,
        value.word() == "cohort_gap"@ <==> value is CohortGap,
        value.word() == "currency_mismatch"@ <==> value is CurrencyMismatch,
        value.word() == "expense_unknown"@ <==> value is ExpenseUnknown,
{
    reveal_strlit("missing_price");
    reveal_strlit("missing_fx_rate");
    reveal_strlit("quotation_basis_unknown");
    reveal_strlit("quotation_basis_contradicts_evidence");
    reveal_strlit("remaining_face_unknown");
    reveal_strlit("solver_refused");
    reveal_strlit("no_external_flows");
    reveal_strlit("state_newer_than_report");
    reveal_strlit("numeric");
    reveal_strlit("unsupported_financing");
    reveal_strlit("schedule_missing");
    reveal_strlit("accrued_observation_missing");
    reveal_strlit("coupon_undetermined");
    reveal_strlit("outside_schedule_coverage");
    reveal_strlit("overlapping_schedule_coverage");
    reveal_strlit("exit_not_executable");
    reveal_strlit("principal_unknown");
    reveal_strlit("non_positive_duration");
    reveal_strlit("non_positive_initial_capital");
    reveal_strlit("negative_terminal_wealth");
    reveal_strlit("acquisition_basis_unknown");
    reveal_strlit("accrued_interest_at_acquisition_unknown");
    reveal_strlit("historical_receipts_unknown");
    reveal_strlit("cohort_gap");
    reveal_strlit("currency_mismatch");
    reveal_strlit("expense_unknown");
    assert("accrued_observation_missing"@[0] == 'a');
    assert("acquisition_basis_unknown"@[0] == 'a');
    assert("coupon_undetermined"@[0] == 'c');
    assert("currency_mismatch"@[0] == 'c');
    assert("exit_not_executable"@[0] == 'e');
    assert("expense_unknown"@[0] == 'e');
    assert("historical_receipts_unknown"@[0] == 'h');
    assert("missing_fx_rate"@[0] == 'm');
    assert("no_external_flows"@[0] == 'n');
    assert("non_positive_duration"@[0] == 'n');
    assert("outside_schedule_coverage"@[0] == 'o');
    assert("principal_unknown"@[0] == 'p');
    assert("quotation_basis_unknown"@[0] == 'q');
    assert("state_newer_than_report"@[0] == 's');
    assert("unsupported_financing"@[0] == 'u');
    assert(value.word().len() > 0);
}

/// A `ComputedDto` shows each kind of record as that kind, with its own parts.
pub proof fn law_computed_is_told_part_by_part(
    dto: ComputedDto,
    figure: Computed<Decimal>,
)
    requires
        dto.shows(figure),
    ensures
        match figure {
            Computed::Value(amount) => {
                &&& dto.value matches Some(value) && value@ == amount.text()
                &&& dto.not_computable is None
                &&& dto.detail is None
            },
            Computed::NotComputable { reason } => {
                &&& dto.value is None
                &&& explains(dto.not_computable, dto.detail, reason)
            },
        },
{
}

/// A `CalcMoneyDto` tells each part of what it shows in a field of its own.
pub proof fn law_calc_money_is_told_part_by_part(
    dto: CalcMoneyDto,
    value: CalcMoney,
)
    requires
        dto.shows(value),
    ensures
        dto.value@ == value.value.text(),
        dto.currency.denotes() == value.currency,
{
}

/// A `ComputedCalcMoneyDto` shows each kind of record as that kind, with its own parts.
pub proof fn law_computed_calc_money_is_told_part_by_part(
    dto: ComputedCalcMoneyDto,
    figure: Computed<CalcMoney>,
)
    requires
        dto.shows(figure),
    ensures
        match figure {
            Computed::Value(amount) => {
                &&& dto.value matches Some(value) && value.shows(amount)
                &&& dto.not_computable is None
                &&& dto.detail is None
            },
            Computed::NotComputable { reason } => {
                &&& dto.value is None
                &&& explains(dto.not_computable, dto.detail, reason)
            },
        },
{
}

/// A `RateDto` shows each kind of record as that kind, with its own parts.
pub proof fn law_rate_is_told_part_by_part(
    dto: RateDto,
    rate: Computed<RateOutcome>,
    fallback_day_count: Seq<char>,
)
    requires
        dto.shows(rate, fallback_day_count),
    ensures
        match rate {
            Computed::Value(outcome) => {
                &&& dto.value == outcome.rate
                &&& dto.error_bound == outcome.error_bound
                &&& dto.iterations == outcome.iterations
                &&& dto.day_count == outcome.day_count
                &&& dto.not_computable is None
                &&& dto.detail is None
            },
            Computed::NotComputable { reason } => {
                &&& dto.value@ == Seq::<char>::empty()
                &&& dto.error_bound@ == Seq::<char>::empty()
                &&& dto.iterations == 0
                &&& dto.day_count@ == fallback_day_count
                &&& explains(dto.not_computable, dto.detail, reason)
            },
        },
{
}

/// Each reason is explained in its own sentence, with its own instrument, currencies and
/// dates in their places.
pub proof fn law_each_reason_is_explained_with_its_own_parts(reason: NotComputable)
    ensures
        reason matches NotComputable::MissingPrice { instrument } ==>
            described(reason) == "no price for instrument "@ + instrument.0.text(),
        reason matches NotComputable::MissingFxRate { from, to, date } ==>
            described(reason) == "no exchange rate "@ + from.word() + "→"@ + to.word() + " on "@
            + date.text(),
        reason matches NotComputable::QuotationBasisUnknown { instrument } ==>
            described(reason) == "unknown quotation basis for instrument "@ + instrument.0.text(),
        reason matches NotComputable::QuotationBasisContradictsEvidence { instrument } ==>
            described(reason) == "quotation basis contradicts the evidence for instrument "@
            + instrument.0.text(),
        reason matches NotComputable::RemainingFaceUnknown { instrument } ==>
            described(reason) == "remaining face value is unknown for instrument "@
            + instrument.0.text(),
        reason matches NotComputable::SolverRefused { refusal } ==> described(reason) == refusal@,
        reason == NotComputable::NoExternalFlows ==> described(
            reason,
        ) == "no flows crossing the perimeter boundary"@,
        reason matches NotComputable::StateNewerThanReport { last_event, as_of } ==>
            described(reason) == "snapshot contains events only up to "@ + last_event.text()
            + ", report is as of "@ + as_of.text(),
        reason matches NotComputable::Numeric {
            code,
        } ==> described(reason) == "arithmetic failure: "@
            + code@,
        reason matches NotComputable::UnsupportedFinancing { account } ==>
            described(reason) == "the account contains funding from outside the perimeter: "@
            + account.0.text(),
        reason matches NotComputable::ScheduleMissing { instrument } ==>
            described(reason) == "no issue schedule for instrument "@ + instrument.0.text(),
        reason matches NotComputable::AccruedObservationMissing { instrument } ==>
            described(reason) == "no accrued interest observation for instrument "@
            + instrument.0.text(),
        reason matches NotComputable::CouponUndetermined { instrument } ==>
            described(reason) == "coupon amount is undefined for instrument "@
            + instrument.0.text(),
        reason matches NotComputable::OutsideScheduleCoverage { instrument } ==>
            described(reason) == "report date is outside the schedule coverage for instrument "@
            + instrument.0.text(),
        reason matches NotComputable::OverlappingScheduleCoverage { instrument } ==>
            described(
                reason,
            ) == "report date is covered by multiple schedule periods for instrument "@
            + instrument.0.text(),
        reason == NotComputable::ExitNotExecutable ==> described(
            reason,
        ) == "no executable exit for realising accrued interest"@,
        reason == NotComputable::PrincipalUnknown ==> described(
            reason,
        ) == "face value for converting the quotation is unknown"@,
        reason matches NotComputable::NonPositiveDuration { coordinate, terminal_date } ==>
            described(reason) == "terminal date "@ + terminal_date.text()
            + " is not later than coordinate "@ + coordinate.text(),
        reason == NotComputable::NonPositiveInitialCapital ==> described(
            reason,
        ) == "initial value is not positive"@,
        reason == NotComputable::NegativeTerminalWealth ==> described(
            reason,
        ) == "terminal wealth is negative"@,
        reason == NotComputable::AcquisitionBasisUnknown ==> described(
            reason,
        ) == "historical acquisition cost is unknown"@,
        reason == NotComputable::AccruedInterestAtAcquisitionUnknown ==> described(
            reason,
        ) == "accrued interest paid on acquisition is unknown"@,
        reason == NotComputable::HistoricalReceiptsUnknown ==> described(
            reason,
        ) == "historical receipts are unknown"@,
        reason matches NotComputable::CohortGap { gap } ==> described(reason) == gap@,
        reason matches NotComputable::CurrencyMismatch { expected, actual } ==>
            described(reason) == "currencies do not match: "@ + expected.word() + " and "@
            + actual.word(),
        reason == NotComputable::ExpenseUnknown ==> described(reason) == "expense is unknown"@,
{
}

/// A reason is explained by its own code and its own sentence, and by both.
pub proof fn law_a_reason_is_explained_by_code_and_sentence(
    code: Option<NotComputableCodeDto>,
    detail: Option<String>,
    reason: NotComputable,
)
    requires
        explains(code, detail, reason),
    ensures
        code is Some,
        code->0.word() == reason.word(),
        detail is Some,
        detail->0@ == described(reason),
{
}

} // verus!
