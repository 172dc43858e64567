//! Figures that may not be computable, and why.

use crate::calendar::Date;
use crate::ids::{AccountId, InstrumentId};
use crate::money::CurrencyCode;
use vstd::prelude::*;

verus! {

/// A figure, or the reason there is none.
#[derive(Debug, Clone, PartialEq, Eq)]
pub enum Computed<T> {
    Value(T),
    NotComputable { reason: NotComputable },
}

/// Why a figure is not computable. A solver's refusal and a cohort's gap carry
/// their own words.
#[derive(Debug, Clone, PartialEq, Eq)]
pub enum NotComputable {
    MissingPrice { instrument: InstrumentId },
    MissingFxRate { from: CurrencyCode, to: CurrencyCode, date: Date },
    QuotationBasisUnknown { instrument: InstrumentId },
    QuotationBasisContradictsEvidence { instrument: InstrumentId },
    RemainingFaceUnknown { instrument: InstrumentId },
    SolverRefused { refusal: String },
    NoExternalFlows,
    StateNewerThanReport { last_event: Date, as_of: Date },
    Numeric { code: String },
    UnsupportedFinancing { account: AccountId },
    ScheduleMissing { instrument: InstrumentId },
    AccruedObservationMissing { instrument: InstrumentId },
    CouponUndetermined { instrument: InstrumentId },
    OutsideScheduleCoverage { instrument: InstrumentId },
    OverlappingScheduleCoverage { instrument: InstrumentId },
    ExitNotExecutable,
    PrincipalUnknown,
    NonPositiveDuration { coordinate: Date, terminal_date: Date },
    NonPositiveInitialCapital,
    NegativeTerminalWealth,
    AcquisitionBasisUnknown,
    AccruedInterestAtAcquisitionUnknown,
    HistoricalReceiptsUnknown,
    CohortGap { gap: String },
    CurrencyMismatch { expected: CurrencyCode, actual: CurrencyCode },
    ExpenseUnknown,
}

impl NotComputable {
    /// The word of the reason.
    pub open spec fn word(self) -> Seq<char> {
        match self {
            Self::MissingPrice { .. } => "missing_price"@,
            Self::MissingFxRate { .. } => "missing_fx_rate"@,
            Self::QuotationBasisUnknown { .. } => "quotation_basis_unknown"@,
            Self::QuotationBasisContradictsEvidence {
                ..
            } => "quotation_basis_contradicts_evidence"@,
            Self::RemainingFaceUnknown { .. } => "remaining_face_unknown"@,
            Self::SolverRefused { .. } => "solver_refused"@,
            Self::NoExternalFlows => "no_external_flows"@,
            Self::StateNewerThanReport { .. } => "state_newer_than_report"@,
            Self::Numeric { .. } => "numeric"@,
            Self::UnsupportedFinancing { .. } => "unsupported_financing"@,
            Self::ScheduleMissing { .. } => "schedule_missing"@,
            Self::AccruedObservationMissing { .. } => "accrued_observation_missing"@,
            Self::CouponUndetermined { .. } => "coupon_undetermined"@,
            Self::OutsideScheduleCoverage { .. } => "outside_schedule_coverage"@,
            Self::OverlappingScheduleCoverage { .. } => "overlapping_schedule_coverage"@,
            Self::ExitNotExecutable => "exit_not_executable"@,
            Self::PrincipalUnknown => "principal_unknown"@,
            Self::NonPositiveDuration { .. } => "non_positive_duration"@,
            Self::NonPositiveInitialCapital => "non_positive_initial_capital"@,
            Self::NegativeTerminalWealth => "negative_terminal_wealth"@,
            Self::AcquisitionBasisUnknown => "acquisition_basis_unknown"@,
            Self::AccruedInterestAtAcquisitionUnknown => "accrued_interest_at_acquisition_unknown"@,
            Self::HistoricalReceiptsUnknown => "historical_receipts_unknown"@,
            Self::CohortGap { .. } => "cohort_gap"@,
            Self::CurrencyMismatch { .. } => "currency_mismatch"@,
            Self::ExpenseUnknown => "expense_unknown"@,
        }
    }

    /// The word of the reason.
    pub fn code(&self) -> (code: &'static str)
        ensures
            code@ == self.word(),
    {
        match self {
            Self::MissingPrice { .. } => "missing_price",
            Self::MissingFxRate { .. } => "missing_fx_rate",
            Self::QuotationBasisUnknown { .. } => "quotation_basis_unknown",
            Self::QuotationBasisContradictsEvidence {
                ..
            } => "quotation_basis_contradicts_evidence",
            Self::RemainingFaceUnknown { .. } => "remaining_face_unknown",
            Self::SolverRefused { .. } => "solver_refused",
            Self::NoExternalFlows => "no_external_flows",
            Self::StateNewerThanReport { .. } => "state_newer_than_report",
            Self::Numeric { .. } => "numeric",
            Self::UnsupportedFinancing { .. } => "unsupported_financing",
            Self::ScheduleMissing { .. } => "schedule_missing",
            Self::AccruedObservationMissing { .. } => "accrued_observation_missing",
            Self::CouponUndetermined { .. } => "coupon_undetermined",
            Self::OutsideScheduleCoverage { .. } => "outside_schedule_coverage",
            Self::OverlappingScheduleCoverage { .. } => "overlapping_schedule_coverage",
            Self::ExitNotExecutable => "exit_not_executable",
            Self::PrincipalUnknown => "principal_unknown",
            Self::NonPositiveDuration { .. } => "non_positive_duration",
            Self::NonPositiveInitialCapital => "non_positive_initial_capital",
            Self::NegativeTerminalWealth => "negative_terminal_wealth",
            Self::AcquisitionBasisUnknown => "acquisition_basis_unknown",
            Self::AccruedInterestAtAcquisitionUnknown => "accrued_interest_at_acquisition_unknown",
            Self::HistoricalReceiptsUnknown => "historical_receipts_unknown",
            Self::CohortGap { .. } => "cohort_gap",
            Self::CurrencyMismatch { .. } => "currency_mismatch",
            Self::ExpenseUnknown => "expense_unknown",
        }
    }
}

/// A solved rate. The rate and its error bound are printed with eight digits
/// after the point.
#[derive(Debug, Clone, PartialEq, Eq)]
pub struct RateOutcome {
    pub rate: String,
    pub error_bound: String,
    pub iterations: u32,
    pub day_count: String,
}

/// Each `NotComputable` goes by a word of its own, and that word names no other.
pub proof fn law_not_computable_goes_by_its_own_word(value: NotComputable)
    ensures
        value.word() == "missing_price"@ <==> value is MissingPrice,
        value.word() == "missing_fx_rate"@ <==> value is MissingFxRate,
        value.word() == "quotation_basis_unknown"@ <==> value is QuotationBasisUnknown,
        value.word() == "quotation_basis_contradicts_evidence"@ <==> value is QuotationBasisContradictsEvidence,
        value.word() == "remaining_face_unknown"@ <==> value is RemainingFaceUnknown,
        value.word() == "solver_refused"@ <==> value is SolverRefused,
        value.word() == "no_external_flows"@ <==> value is NoExternalFlows,
        value.word() == "state_newer_than_report"@ <==> value is StateNewerThanReport,
        value.word() == "numeric"@ <==> value is Numeric,
        value.word() == "unsupported_financing"@ <==> value is UnsupportedFinancing,
        value.word() == "schedule_missing"@ <==> value is ScheduleMissing,
        value.word() == "accrued_observation_missing"@ <==> value is AccruedObservationMissing,
        value.word() == "coupon_undetermined"@ <==> value is CouponUndetermined,
        value.word() == "outside_schedule_coverage"@ <==> value is OutsideScheduleCoverage,
        value.word() == "overlapping_schedule_coverage"@ <==> value is OverlappingScheduleCoverage,
        value.word() == "exit_not_executable"@ <==> value is ExitNotExecutable,
        value.word() == "principal_unknown"@ <==> value is PrincipalUnknown,
        value.word() == "non_positive_duration"@ <==> value is NonPositiveDuration,
        value.word() == "non_positive_initial_capital"@ <==> value is NonPositiveInitialCapital,
        value.word() == "negative_terminal_wealth"@ <==> value is NegativeTerminalWealth,
        value.word() == "acquisition_basis_unknown"@ <==> value is AcquisitionBasisUnknown,
        value.word() == "accrued_interest_at_acquisition_unknown"@ <==> value is AccruedInterestAtAcquisitionUnknown,
        value.word() == "historical_receipts_unknown"@ <==> value is HistoricalReceiptsUnknown,
        value.word() == "cohort_gap"@ <==> value is CohortGap,
        value.word() == "currency_mismatch"@ <==> value is CurrencyMismatch,
        value.word() == "expense_unknown"@ <==> value is ExpenseUnknown,
{
    reveal_strlit("missing_price");
    reveal_strlit("missing_fx_rate");
    reveal_strlit("quotation_basis_unknown");
    reveal_strlit("quotation_basis_contradicts_evidence");
    reveal_strlit("remaining_face_unknown");
    reveal_strlit("solver_refused");
    reveal_strlit("no_external_flows");
    reveal_strlit("state_newer_than_report");
    reveal_strlit("numeric");
    reveal_strlit("unsupported_financing");
    reveal_strlit("schedule_missing");
    reveal_strlit("accrued_observation_missing");
    reveal_strlit("coupon_undetermined");
    reveal_strlit("outside_schedule_coverage");
    reveal_strlit("overlapping_schedule_coverage");
    reveal_strlit("exit_not_executable");
    reveal_strlit("principal_unknown");
    reveal_strlit("non_positive_duration");
    reveal_strlit("non_positive_initial_capital");
    reveal_strlit("negative_terminal_wealth");
    reveal_strlit("acquisition_basis_unknown");
    reveal_strlit("accrued_interest_at_acquisition_unknown");
    reveal_strlit("historical_receipts_unknown");
    reveal_strlit("cohort_gap");
    reveal_strlit("currency_mismatch");
    reveal_strlit("expense_unknown");
    assert("accrued_observation_missing"@[0] == 'a');
    assert("acquisition_basis_unknown"@[0] == 'a');
    assert("coupon_undetermined"@[0] == 'c');
    assert("currency_mismatch"@[0] == 'c');
    assert("exit_not_executable"@[0] == 'e');
    assert("expense_unknown"@[0] == 'e');
    assert("historical_receipts_unknown"@[0] == 'h');
    assert("missing_fx_rate"@[0] == 'm');
    assert("no_external_flows"@[0] == 'n');
    assert("non_positive_duration"@[0] == 'n');
    assert("outside_schedule_coverage"@[0] == 'o');
    assert("principal_unknown"@[0] == 'p');
    assert("quotation_basis_unknown"@[0] == 'q');
    assert("state_newer_than_report"@[0] == 's');
    assert("unsupported_financing"@[0] == 'u');
    assert(value.word().len() > 0);
}

} // verus!
