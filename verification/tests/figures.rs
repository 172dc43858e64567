//! Computed figures, prices, quality and bonds.

use std::collections::HashSet;

use iaam_server::calendar::{format_timestamp, Date, Timestamp};
use iaam_server::dto::bond::{BondPositionAttributesDto, BondScenarioResultDto};
use iaam_server::dto::bond::{IrrLabelDto, OfferChoiceDto, ZeroReinvestmentMetricsDto};
use iaam_server::dto::computed::{describe, rate_dto, CalcMoneyDto, ComputedDto};
use iaam_server::dto::computed::{ComputedCalcMoneyDto, NotComputableCodeDto};
use iaam_server::dto::currency::CurrencyDto;
use iaam_server::dto::price::{executability, PriceOriginDto, PriceProvenanceDto};
use iaam_server::dto::price::{PriceFreshnessDto, PriceSelectionDto};
use iaam_server::dto::price::{QuotationBasisDto, QuotationBasisStatusDto, SelectedPriceDto};
use iaam_server::dto::quality::{issue, uncovered_reason, AmountQualificationDto};
use iaam_server::dto::quality::{DataQualityDto, LiquidationEstimateDto};
use iaam_server::ids::{AccountId, InstrumentId, OfferSubmissionId, OfferWindowId};
use iaam_server::ids::{SourceId, Uuid};
use iaam_server::ledger::bond::{BondPositionAttributes, BondScenarioResult, ExpectedPosting};
use iaam_server::ledger::bond::{IrrLabel, LifetimeCohortMetric, OfferChoice, PostingKind};
use iaam_server::ledger::bond::{PrincipalReturnFinality, ProspectiveMetric};
use iaam_server::ledger::bond::ZeroReinvestmentMetrics;
use iaam_server::ledger::computed::{Computed, NotComputable, RateOutcome};
use iaam_server::ledger::kinds::PriceQuality;
use iaam_server::ledger::price::{PriceCandidate, PriceFreshness, PriceKind, PriceOrigin};
use iaam_server::ledger::price::{PriceProvenance, PriceSelection, QuotationBasis};
use iaam_server::ledger::price::{QuotationBasisStatus, SelectedPrice, SourceExecutability};
use iaam_server::ledger::quality::{AmountQualification, DataQuality, EvaluatedPosition};
use iaam_server::ledger::quality::{ExecutabilityShares, LegacyDerivedPosition};
use iaam_server::ledger::quality::{LiquidationEstimate, MaterialIssue, NavCoverage};
use iaam_server::ledger::quality::{PositionCoverage, UncoveredPosition, UncoveredReason};
use iaam_server::money::{CalcMoney, CurrencyCode, Decimal};

fn date(year: i32, month: u8, day: u8) -> Date {
    Date { year, month, day }
}

fn instrument(value: u128) -> InstrumentId {
    InstrumentId(Uuid::from_u128(value))
}

fn account(value: u128) -> AccountId {
    AccountId(Uuid::from_u128(value))
}

fn rubles(mantissa: i64, scale: u32) -> CalcMoney {
    CalcMoney {
        value: Decimal::new(mantissa, scale),
        currency: CurrencyCode::Rub,
    }
}

#[test]
fn every_executability_names_itself_in_the_api() {
    fn expected(value: SourceExecutability) -> &'static str {
        match value {
            SourceExecutability::Executable => "executable",
            SourceExecutability::IndicativePreviousClose => "indicative_previous_close",
            SourceExecutability::Unknown => "unknown",
        }
    }
    for value in [
        SourceExecutability::Executable,
        SourceExecutability::IndicativePreviousClose,
        SourceExecutability::Unknown,
    ] {
        assert_eq!(executability(value), expected(value));
    }
}

fn reasons() -> Vec<(NotComputable, &'static str, &'static str)> {
    let instrument = instrument(0x12);
    let account = account(0x34);
    let day = date(2026, 8, 28);
    vec![
        (
            NotComputable::MissingPrice { instrument },
            "missing_price",
            "00000000-0000-0000-0000-000000000012",
        ),
        (
            NotComputable::MissingFxRate {
                from: CurrencyCode::Rub,
                to: CurrencyCode::Usd,
                date: day,
            },
            "missing_fx_rate",
            "no exchange rate RUB→USD",
        ),
        (
            NotComputable::QuotationBasisUnknown { instrument },
            "quotation_basis_unknown",
            "00000000-0000-0000-0000-000000000012",
        ),
        (
            NotComputable::QuotationBasisContradictsEvidence { instrument },
            "quotation_basis_contradicts_evidence",
            "00000000-0000-0000-0000-000000000012",
        ),
        (
            NotComputable::RemainingFaceUnknown { instrument },
            "remaining_face_unknown",
            "00000000-0000-0000-0000-000000000012",
        ),
        (
            NotComputable::SolverRefused {
                refusal: "too_few_flows".to_owned(),
            },
            "solver_refused",
            "too_few_flows",
        ),
        (
            NotComputable::NoExternalFlows,
            "no_external_flows",
            "no flows crossing the perimeter boundary",
        ),
        (
            NotComputable::StateNewerThanReport {
                last_event: day,
                as_of: date(2026, 1, 2),
            },
            "state_newer_than_report",
            "snapshot contains events only up to 2026-08-28, report is as of 2026-01-02",
        ),
        (
            NotComputable::Numeric {
                code: "overflow".to_owned(),
            },
            "numeric",
            "overflow",
        ),
        (
            NotComputable::UnsupportedFinancing { account },
            "unsupported_financing",
            "00000000-0000-0000-0000-000000000034",
        ),
        (
            NotComputable::ScheduleMissing { instrument },
            "schedule_missing",
            "00000000-0000-0000-0000-000000000012",
        ),
        (
            NotComputable::AccruedObservationMissing { instrument },
            "accrued_observation_missing",
            "accrued interest observation",
        ),
        (
            NotComputable::CouponUndetermined { instrument },
            "coupon_undetermined",
            "00000000-0000-0000-0000-000000000012",
        ),
        (
            NotComputable::OutsideScheduleCoverage { instrument },
            "outside_schedule_coverage",
            "00000000-0000-0000-0000-000000000012",
        ),
        (
            NotComputable::OverlappingScheduleCoverage { instrument },
            "overlapping_schedule_coverage",
            "multiple schedule periods",
        ),
        (
            NotComputable::ExitNotExecutable,
            "exit_not_executable",
            "no executable exit",
        ),
        (
            NotComputable::PrincipalUnknown,
            "principal_unknown",
            "face value",
        ),
        (
            NotComputable::NonPositiveDuration {
                coordinate: day,
                terminal_date: date(2026, 8, 1),
            },
            "non_positive_duration",
            "terminal date 2026-08-01 is not later than coordinate 2026-08-28",
        ),
        (
            NotComputable::NonPositiveInitialCapital,
            "non_positive_initial_capital",
            "",
        ),
        (
            NotComputable::NegativeTerminalWealth,
            "negative_terminal_wealth",
            "",
        ),
        (
            NotComputable::AcquisitionBasisUnknown,
            "acquisition_basis_unknown",
            "historical acquisition cost is unknown",
        ),
        (
            NotComputable::AccruedInterestAtAcquisitionUnknown,
            "accrued_interest_at_acquisition_unknown",
            "accrued interest paid on acquisition is unknown",
        ),
        (
            NotComputable::HistoricalReceiptsUnknown,
            "historical_receipts_unknown",
            "",
        ),
        (
            NotComputable::CohortGap {
                gap: "the gap".to_owned(),
            },
            "cohort_gap",
            "the gap",
        ),
        (
            NotComputable::CurrencyMismatch {
                expected: CurrencyCode::Eur,
                actual: CurrencyCode::Cny,
            },
            "currency_mismatch",
            "EUR",
        ),
        (NotComputable::ExpenseUnknown, "expense_unknown", ""),
    ]
}

#[test]
fn every_uncovered_reason_names_itself_in_the_api() {
    let mut values = vec![
        (UncoveredReason::NoObservation, "no_observation"),
        (UncoveredReason::TooOld, "too_old"),
        (UncoveredReason::AmbiguousVenue, "ambiguous_venue"),
        (UncoveredReason::AmbiguousCandidate, "ambiguous_candidate"),
    ];
    for (reason, code, _) in reasons() {
        values.push((UncoveredReason::NotComputable { reason }, code));
    }
    for (value, expected) in &values {
        assert_eq!(uncovered_reason(value), *expected);
    }

    let codes: Vec<&str> = values
        .iter()
        .map(|(value, _)| uncovered_reason(value))
        .collect();
    assert!(
        codes.iter().all(|code| !code.is_empty()),
        "reason code must not be empty"
    );
    let duplicate = codes
        .iter()
        .enumerate()
        .find_map(|(index, code)| codes[..index].contains(code).then_some(*code));
    let unique_codes = codes.iter().copied().collect::<HashSet<_>>();
    assert_eq!(
        unique_codes.len(),
        codes.len(),
        "duplicate reason code: {}",
        duplicate.unwrap_or("<unknown>")
    );
}

#[test]
fn every_reason_is_explained_in_words_of_its_own() {
    let mut seen = HashSet::new();
    for (reason, code, part) in reasons() {
        let text = describe(&reason);
        assert!(!text.is_empty());
        assert!(text.contains(part), "{code} is explained as {text}");
        assert_eq!(NotComputableCodeDto::from_domain(&reason).code(), code);
        assert!(seen.insert(text));
    }
}

#[test]
fn a_timestamp_travels_as_rfc_3339_in_utc() {
    let value =
        Timestamp::at(1_787_000_000 * 1_000_000_000, 0).expect("timestamp is representable");
    assert_eq!(
        format_timestamp(&Some(value)),
        Some("2026-08-17T20:53:20Z".to_owned())
    );
    assert_eq!(format_timestamp(&None), None);
}

#[test]
fn a_timestamp_keeps_its_offset_and_must_have_a_form() {
    let value = Timestamp::at(0, 3 * 3600).expect("timestamp is representable");
    assert_eq!(value.to_text(), "1970-01-01T03:00:00+03:00");
    assert!(Timestamp::at(i128::MAX, 0).is_none());
    assert!(Timestamp::at(0, 200 * 3600).is_none());
}

#[test]
fn a_date_is_printed_with_leading_zeros() {
    assert_eq!(date(2026, 1, 5).to_text(), "2026-01-05");
    assert_eq!(date(987, 12, 31).to_text(), "0987-12-31");
}

#[test]
fn a_missing_accrued_observation_serialises_with_a_distinct_reason() {
    let dto = ComputedDto::from_dec(&Computed::NotComputable {
        reason: NotComputable::AccruedObservationMissing {
            instrument: instrument(5),
        },
    });

    assert_eq!(
        dto.not_computable.map(NotComputableCodeDto::code),
        Some("accrued_observation_missing")
    );
    assert!(dto
        .detail
        .as_deref()
        .is_some_and(|detail| detail.contains("accrued interest observation")));
}

#[test]
fn overlapping_accrual_serialises_with_a_distinct_reason() {
    let dto = ComputedDto::from_dec(&Computed::NotComputable {
        reason: NotComputable::OverlappingScheduleCoverage {
            instrument: instrument(5),
        },
    });

    assert_eq!(
        dto.not_computable.map(NotComputableCodeDto::code),
        Some("overlapping_schedule_coverage")
    );
    assert!(dto
        .detail
        .as_deref()
        .is_some_and(|detail| detail.contains("multiple schedule periods")));
}

#[test]
fn an_accrued_mismatch_issue_names_totals_currencies_and_quantity() {
    let text = issue(&MaterialIssue::AccruedInterestMismatch {
        instrument: instrument(5),
        computed: Decimal::new(1_517, 2),
        computed_currency: CurrencyCode::Usd,
        observed: Decimal::new(2_240, 2),
        observed_currency: CurrencyCode::Rub,
        quantity: Decimal::new(100, 0),
        date: date(2026, 8, 26),
    });

    assert!(text.contains("15.17 USD"));
    assert!(text.contains("22.40 RUB"));
    assert!(text.contains("100"));
}

#[test]
fn grouped_unverifiable_postings_name_count_and_date_range() {
    let account = account(0xa);
    let instrument = instrument(0xb);
    let text = issue(&MaterialIssue::ScheduledPostingsUnverifiable {
        account,
        instrument,
        kind: PostingKind::Coupon,
        reason: "payment_date_unknown".to_owned(),
        count: 5,
        first_date: date(2026, 1, 15),
        last_date: date(2026, 5, 15),
    });

    assert_eq!(
        text,
        format!(
            "the 5 payments of type coupon for instrument {} in account {} from 2026-01-15 to 2026-05-15 cannot be reconciled: payment_date_unknown",
            instrument.inner().to_text(),
            account.inner().to_text()
        )
    );
}

#[test]
fn every_material_issue_names_what_it_is_about() {
    let a = "00000000-0000-0000-0000-00000000000a";
    let b = "00000000-0000-0000-0000-00000000000b";
    let account = account(0xa);
    let instrument = instrument(0xb);
    let day = date(2026, 2, 3);
    let cases = [
        (
            MaterialIssue::RestoredWithoutBasis { account },
            format!("account {a} was reconstructed without a documented value"),
        ),
        (
            MaterialIssue::AmortisationAllocationUnknown {
                account,
                instrument,
            },
            format!(
                "the amortisation allocation share for instrument {b} in account {a} could not \
                 be derived: load a verified issue schedule"
            ),
        ),
        (
            MaterialIssue::NegativeCash {
                account,
                currency: CurrencyCode::Xau,
            },
            format!("negative balance in account {a} in XAU"),
        ),
        (
            MaterialIssue::HistoryStartsAt { date: day },
            "history starts on 2026-02-03".to_owned(),
        ),
        (
            MaterialIssue::NoIndependentSource {
                account,
                dimension: "cash".to_owned(),
            },
            format!("account {a} has no independent confirmation of the cash measurement"),
        ),
        (
            MaterialIssue::Discrepancy {
                account,
                dimension: "cash".to_owned(),
            },
            format!("account {a} reconciliation for measurement cash does not balance"),
        ),
        (
            MaterialIssue::UnsupportedFinancing { account },
            format!("account {a} contains funding outside the perimeter"),
        ),
        (
            MaterialIssue::OfferWindowUnresolved {
                submission: OfferSubmissionId(Uuid::from_u128(0xb)),
            },
            format!("offer request {b} refers to an unknown window"),
        ),
    ];
    for (value, expected) in cases {
        assert_eq!(issue(&value), expected);
    }
    let single = issue(&MaterialIssue::ScheduledPostingNotReceived {
        account,
        instrument,
        date: day,
        kind: PostingKind::PrincipalReturn,
    });
    assert!(single.starts_with("payment principal_return for instrument "));
    assert!(single.contains("2026-02-03"));
    let unverifiable = issue(&MaterialIssue::ScheduledPostingUnverifiable {
        account,
        instrument,
        date: day,
        kind: PostingKind::OfferSettlement,
        reason: "payment_date_unknown".to_owned(),
    });
    assert!(unverifiable.starts_with("payment offer_settlement for instrument "));
    assert!(unverifiable.ends_with("payment_date_unknown"));
}

fn metrics() -> ZeroReinvestmentMetrics {
    ZeroReinvestmentMetrics {
        postings: vec![ExpectedPosting {
            date: date(2026, 6, 1),
            amount: rubles(1050, 2),
            kind: PostingKind::Coupon,
        }],
        terminal_wealth: rubles(100, 0),
        surplus: rubles(-5, 1),
        hpr: Computed::Value(Decimal::new(0, 0)),
        cagr_0r: Computed::Value(RateOutcome {
            rate: "0.05".to_owned(),
            error_bound: "0.0001".to_owned(),
            iterations: 3,
            day_count: "act_365".to_owned(),
        }),
        zero_reinvestment_assumed: true,
        pre_tax: true,
    }
}

#[test]
fn zero_reinvestment_note_is_present_in_serialized_metrics_body() {
    let dto = ZeroReinvestmentMetricsDto::from_domain(&metrics());
    let note = dto.zero_reinvestment_note;
    assert!(!note.is_empty());
    assert!(note.contains("Coupons"));
    assert!(note.contains("reinvested"));
    assert_eq!(dto.terminal_wealth.value, "100");
    assert_eq!(dto.surplus.value, "-0.5");
    assert_eq!(dto.postings[0].amount.value, "10.50");
    assert_eq!(dto.cagr_0r.day_count, "act_365");
    assert!(dto.zero_reinvestment_assumed);
    assert!(dto.pre_tax);
}

#[test]
fn an_unknown_termination_value_serialises_with_a_reason_not_a_zero() {
    let dto = BondPositionAttributesDto::from_domain(&BondPositionAttributes {
        account: account(1),
        custody: None,
        instrument: instrument(2),
        accrued_interest: Computed::Value(Decimal::new(1517, 2)),
        accrued_interest_payable_on_termination: Computed::NotComputable {
            reason: NotComputable::ExitNotExecutable,
        },
        next_posting_date: Some(date(2026, 12, 2)),
        next_principal_return_finality: Some(PrincipalReturnFinality::Final),
    });
    assert!(dto.accrued_interest_payable_on_termination.value.is_none());
    assert_eq!(
        dto.accrued_interest_payable_on_termination
            .not_computable
            .map(NotComputableCodeDto::code),
        Some("exit_not_executable")
    );
    assert_eq!(
        dto.next_posting_date.map(|day| day.to_text()).as_deref(),
        Some("2026-12-02")
    );
    assert_eq!(dto.next_principal_return_finality.as_deref(), Some("final"));
    assert_eq!(dto.accrued_interest.value.as_deref(), Some("15.17"));
}

#[test]
fn a_refusal_to_compute_says_what_exactly_was_missing() {
    let instrument = instrument(0x77);
    let missing_price = ComputedDto::from_dec(&Computed::NotComputable {
        reason: NotComputable::MissingPrice { instrument },
    });
    assert_eq!(missing_price.value, None);
    assert_eq!(
        missing_price.not_computable.map(NotComputableCodeDto::code),
        Some("missing_price")
    );
    let detail = missing_price.detail.expect("explanation");
    assert!(
        detail.contains(&instrument.inner().to_text()),
        "the explanation must identify the instrument: {detail}"
    );

    let no_flows = ComputedDto::from_dec(&Computed::NotComputable {
        reason: NotComputable::NoExternalFlows,
    });
    assert_eq!(
        no_flows.detail.as_deref(),
        Some("no flows crossing the perimeter boundary")
    );

    let refused = ComputedDto::from_dec(&Computed::NotComputable {
        reason: NotComputable::SolverRefused {
            refusal: "no_sign_change".to_owned(),
        },
    });
    let detail = refused.detail.expect("explanation");
    assert!(!detail.is_empty());
    assert_ne!(
        detail, "no flows crossing the perimeter boundary",
        "different reasons must be explained differently"
    );
}

#[test]
fn a_rate_that_is_not_computable_falls_back_to_the_rules_day_count() {
    let stated = rate_dto(
        &Computed::Value(RateOutcome {
            rate: "0.1".to_owned(),
            error_bound: "0.01".to_owned(),
            iterations: 4,
            day_count: "act_365".to_owned(),
        }),
        "act_360",
    );
    assert_eq!(stated.value, "0.1");
    assert_eq!(stated.day_count, "act_365");
    assert_eq!(stated.iterations, 4);
    let refused = rate_dto(
        &Computed::NotComputable {
            reason: NotComputable::NoExternalFlows,
        },
        "act_360",
    );
    assert_eq!(refused.value, "");
    assert_eq!(refused.iterations, 0);
    assert_eq!(refused.day_count, "act_360");
    assert_eq!(
        refused.not_computable.map(NotComputableCodeDto::code),
        Some("no_external_flows")
    );
}

#[test]
fn calculated_money_keeps_its_scale() {
    let dto = CalcMoneyDto::from_domain(&rubles(12_3400, 4));
    assert_eq!(dto.value, "12.3400");
    assert_eq!(dto.currency, CurrencyDto::Rub);
    let computed = ComputedCalcMoneyDto::from_domain(&Computed::NotComputable {
        reason: NotComputable::PrincipalUnknown,
    });
    assert!(computed.value.is_none());
    assert_eq!(
        computed.not_computable.map(NotComputableCodeDto::code),
        Some("principal_unknown")
    );
}

fn provenance() -> PriceProvenance {
    PriceProvenance {
        price_kind: Some("legal_close".to_owned()),
        origin: PriceOrigin::OwnerAsserted,
        venue: Some("moex".to_owned()),
        quotation_basis: QuotationBasis::PercentOfRemainingFace,
        basis_evidence: "iss:engines/stock/markets/bonds".to_owned(),
        // 2026-08-26 08:00:00 UTC
        observed_at: Timestamp::at(1_787_731_200 * 1_000_000_000, 0),
        valuation_policy_version: 1,
        source_priority_version: 1,
        carry_forward_limit: 10,
        price_max_age: 30,
    }
}

#[test]
fn the_wire_explains_where_the_money_came_from() {
    let dto = PriceProvenanceDto::from_domain(&provenance());
    assert_eq!(
        dto.quotation_basis,
        QuotationBasisDto::PercentOfRemainingFace
    );
    assert_eq!(
        dto.basis_evidence.as_deref(),
        Some("iss:engines/stock/markets/bonds")
    );
    assert_eq!(dto.observed_at.as_deref(), Some("2026-08-26T08:00:00Z"));
    assert_eq!(dto.carry_forward_limit, 10);
    assert_eq!(dto.price_max_age, 30);
}

#[test]
fn absent_evidence_is_left_out_and_not_blank() {
    let dto = PriceProvenanceDto::from_domain(&PriceProvenance {
        basis_evidence: String::new(),
        observed_at: None,
        ..provenance()
    });
    assert_eq!(dto.basis_evidence, None);
    assert_eq!(dto.observed_at, None);
}

fn selected() -> SelectedPrice {
    SelectedPrice {
        candidate: PriceCandidate {
            instrument: instrument(8),
            price: Decimal::new(98_125, 3),
            currency: CurrencyCode::Usd,
            trade_date: date(2026, 8, 25),
            observed_at: None,
            executability: SourceExecutability::IndicativePreviousClose,
        },
        selection: PriceSelection::CarriedForward {
            observed_on: date(2026, 8, 20),
            days: 5,
        },
        freshness: PriceFreshness::Stale { days: 5 },
        provenance: PriceProvenance {
            origin: PriceOrigin::Market {
                board: "TQOB".to_owned(),
                kind: PriceKind::LegalClose,
            },
            ..provenance()
        },
    }
}

#[test]
fn a_selected_price_is_shown_with_its_selection_and_origin() {
    let dto = SelectedPriceDto::from_domain(&selected());
    assert_eq!(dto.price, "98.125");
    assert_eq!(dto.currency, CurrencyDto::Usd);
    assert_eq!(dto.executability, "indicative_previous_close");
    assert_eq!(
        dto.selection,
        PriceSelectionDto::CarriedForward {
            observed_on: date(2026, 8, 20),
            days: 5
        }
    );
    assert_eq!(dto.freshness, PriceFreshnessDto::Stale { days: 5 });
    assert_eq!(
        dto.provenance.origin,
        PriceOriginDto::Market {
            venue: "TQOB".to_owned(),
            price_kind: "legal_close".to_owned()
        }
    );
    let parsed = PriceOriginDto::from_domain(&PriceOrigin::ReportParsed {
        source: SourceId(Uuid::from_u128(4)),
    });
    assert_eq!(
        parsed,
        PriceOriginDto::ReportParsed {
            source: Uuid::from_u128(4)
        }
    );
    assert_eq!(
        PriceSelectionDto::from_domain(PriceSelection::LegacyDerived {
            quality: PriceQuality::OwnerEstimate
        }),
        PriceSelectionDto::LegacyDerived {
            quality: "owner_estimate".to_owned()
        }
    );
}

#[test]
fn domain_status_to_dto_does_not_confuse_branches() {
    assert_eq!(
        QuotationBasisStatusDto::from_domain(QuotationBasisStatus::Proven),
        QuotationBasisStatusDto::Proven
    );
    assert_eq!(
        QuotationBasisStatusDto::from_domain(QuotationBasisStatus::Contradicts),
        QuotationBasisStatusDto::Contradicts
    );
    assert_eq!(
        QuotationBasisStatusDto::from_domain(QuotationBasisStatus::NotProven),
        QuotationBasisStatusDto::NotProven
    );
}

#[test]
fn each_basis_status_names_itself_in_api() {
    let values = [
        QuotationBasisStatusDto::Proven,
        QuotationBasisStatusDto::Contradicts,
        QuotationBasisStatusDto::NotProven,
    ];
    let expected = ["proven", "contradicts", "not_proven"];
    let codes: Vec<&str> = values.iter().map(|value| value.code()).collect();

    for (value, expected) in codes.iter().zip(expected) {
        assert_eq!(*value, expected);
    }
    let duplicate = codes
        .iter()
        .enumerate()
        .find_map(|(index, code)| codes[..index].contains(code).then_some(code));
    let unique_codes = codes.iter().collect::<HashSet<_>>();
    assert_eq!(
        unique_codes.len(),
        codes.len(),
        "duplicate status code: {}",
        duplicate.copied().unwrap_or("<unknown>")
    );
}

fn shares() -> ExecutabilityShares {
    ExecutabilityShares {
        evaluated_positions_value: Decimal::new(100, 0),
        executable: Decimal::new(5, 1),
        indicative_previous_close: Decimal::new(3, 1),
        unknown: Decimal::new(2, 1),
    }
}

#[test]
fn data_quality_is_shown_with_every_issue_in_words() {
    let dto = DataQualityDto::from_domain(&DataQuality {
        status: "partial".to_owned(),
        nav_coverage: NavCoverage {
            accepted_independent: Decimal::new(7, 1),
            accepted_internal: Decimal::new(1, 1),
            provisional: Decimal::new(1, 1),
            discrepant: Decimal::new(10, 2),
        },
        position_coverage: PositionCoverage {
            evaluated_positions: 1,
            total_positions: 3,
            selected: vec![EvaluatedPosition {
                account: account(1),
                custody: None,
                instrument: instrument(8),
                quantity: Decimal::new(3, 0),
                price: selected(),
            }],
            uncovered: vec![UncoveredPosition {
                account: account(1),
                custody: None,
                instrument: instrument(9),
                reason: UncoveredReason::TooOld,
            }],
            legacy_derived: vec![LegacyDerivedPosition {
                account: account(1),
                custody: None,
                instrument: instrument(10),
                quality: PriceQuality::PreviousClose,
            }],
        },
        executability: shares(),
        material_issues: vec![MaterialIssue::HistoryStartsAt {
            date: date(2025, 1, 1),
        }],
    });
    assert_eq!(dto.status, "partial");
    assert_eq!(dto.nav_coverage.discrepant, "0.10");
    assert_eq!(dto.position_coverage.selected[0].price.price, "98.125");
    assert_eq!(dto.position_coverage.uncovered[0].reason, "too_old");
    assert_eq!(
        dto.position_coverage.legacy_derived[0].quality,
        "previous_close"
    );
    assert_eq!(dto.executability.executable, "0.5");
    assert_eq!(
        dto.material_issues,
        vec!["history starts on 2025-01-01".to_owned()]
    );
}

#[test]
fn an_unknown_amount_is_qualified_and_not_zero() {
    let unknown = AmountQualificationDto::from_domain(AmountQualification::Unknown);
    assert_eq!(unknown.value, None);
    assert_eq!(unknown.qualification, "unknown");
    let known =
        AmountQualificationDto::from_domain(AmountQualification::Known(Decimal::new(0, 2)));
    assert_eq!(known.value.as_deref(), Some("0.00"));
    assert_eq!(known.qualification, "known");
    let estimate = LiquidationEstimateDto::from_domain(&LiquidationEstimate {
        value_before_exit_costs_and_tax: Computed::Value(Decimal::new(1, 0)),
        executability: shares(),
        exit_costs: AmountQualification::Unknown,
        tax: AmountQualification::Unknown,
        accrued_interest_payable_on_termination: Computed::NotComputable {
            reason: NotComputable::ExitNotExecutable,
        },
    });
    assert_eq!(
        estimate.value_before_exit_costs_and_tax.value.as_deref(),
        Some("1")
    );
    assert_eq!(estimate.exit_costs.qualification, "unknown");
}

#[test]
fn a_bond_scenario_shows_both_horizons() {
    let dto = BondScenarioResultDto::from_domain(&BondScenarioResult {
        choice: OfferChoice::ExerciseAtOffer {
            window: OfferWindowId(Uuid::from_u128(6)),
        },
        prospective: ProspectiveMetric {
            as_of: date(2026, 1, 1),
            terminal_date: date(2027, 1, 1),
            c0: Computed::Value(rubles(100, 0)),
            metrics: Computed::Value(metrics()),
            irr: Computed::NotComputable {
                reason: NotComputable::NoExternalFlows,
            },
            irr_label: IrrLabel::YieldToOffer,
        },
        lifetime: Computed::Value(vec![LifetimeCohortMetric {
            acquired: date(2025, 1, 1),
            quantity: Decimal::new(10, 0),
            terminal_date: date(2027, 1, 1),
            c0: Computed::NotComputable {
                reason: NotComputable::AcquisitionBasisUnknown,
            },
            metrics: Computed::NotComputable {
                reason: NotComputable::AcquisitionBasisUnknown,
            },
            irr_absent_because: "historical".to_owned(),
        }]),
    });
    assert_eq!(
        dto.choice,
        OfferChoiceDto::ExerciseAtOffer {
            window: Uuid::from_u128(6)
        }
    );
    assert_eq!(dto.prospective.irr_label, IrrLabelDto::YieldToOffer);
    assert!(dto.prospective.metrics.value.is_some());
    let cohorts = dto.lifetime.value.expect("one cohort");
    assert_eq!(cohorts.len(), 1);
    assert_eq!(cohorts[0].quantity, "10");
    assert_eq!(
        cohorts[0].c0.not_computable.map(NotComputableCodeDto::code),
        Some("acquisition_basis_unknown")
    );
}
