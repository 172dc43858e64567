//! Balances, snapshots, money flow, returns, reconciliation and verdicts.

use iaam_server::action_catalog::ActionCatalog;
use iaam_server::calendar::{Date, Period};
use iaam_server::dto::asset::{AssetSnapshotDto, HoldingPriceDto};
use iaam_server::dto::asset::holding_uncovered_reason;
use iaam_server::dto::balance::{BalancesReportDto, CashFigureDto};
use iaam_server::dto::computed::NotComputableCodeDto;
use iaam_server::dto::currency::CurrencyDto;
use iaam_server::dto::flow::MoneyFlowReportDto;
use iaam_server::dto::reconciliation::{BalancePointDto, ClaimDto, ClaimOutcomeDto};
use iaam_server::dto::reconciliation::{ClaimValueDto, EvidenceDto, ReconciliationStatusDto};
use iaam_server::dto::reconciliation::RowNameDto;
use iaam_server::dto::report::{HeldRowsDto, PopulationDto};
use iaam_server::dto::return_report::ReturnsAnswerDto;
use iaam_server::dto::sync::SyncOutcomeDto;
use iaam_server::dto::verdict::{numbered, VerdictDto};
use iaam_server::ids::{AccountId, CategoryId, ContourId, CustodyId, EventId};
use iaam_server::ids::{ImportSessionId, InstrumentId, SourceId, Uuid};
use iaam_server::ledger::account::NegativeBalanceExpectation;
use iaam_server::ledger::asset::{AssetAccount, AssetSnapshot, CandidateUncoveredReason};
use iaam_server::ledger::asset::{CashClassTotal, CashSide, HoldingValue, LegacyPrice};
use iaam_server::ledger::asset::{PositionsSide, PriceDecision};
use iaam_server::ledger::balance::{AccountBalanceRow, BalancesReport, CashFigure};
use iaam_server::ledger::balance::{NegativeCash, NegativeSpan, PeriodReports};
use iaam_server::ledger::balance::PositionQuantity;
use iaam_server::ledger::computed::{Computed, NotComputable};
use iaam_server::ledger::flow::{AccountResidual, CategoryAmount, CurrencyFlow};
use iaam_server::ledger::flow::{EarningSourceAmount, MoneyFlowError, MoneyFlowOutcome};
use iaam_server::ledger::flow::{MoneyFlowReport, NotDecomposed, NotDecomposedAccount};
use iaam_server::ledger::goal::ReportGoal;
use iaam_server::ledger::kinds::PriceQuality;
use iaam_server::ledger::quality::{AmountQualification, DataQuality, ExecutabilityShares};
use iaam_server::ledger::quality::{LiquidationEstimate, NavCoverage, PositionCoverage};
use iaam_server::ledger::reconciliation::{BalancePoint, ClaimCheck, ClaimOutcome};
use iaam_server::ledger::reconciliation::{ClaimValue, Compared, ControlClaim};
use iaam_server::ledger::reconciliation::{DimensionStatus, Discrepancy, Evidence};
use iaam_server::ledger::reconciliation::{FoldSpan, ObservationBasis, ObservedStart};
use iaam_server::ledger::reconciliation::{ReconciliationStatus, RefusedRow, RowName};
use iaam_server::ledger::reconciliation::{SourceChannel, Taint};
use iaam_server::ledger::rejection::Rejection;
use iaam_server::ledger::report::{FoldedPlan, HeldContribution, HeldRows, HeldScope};
use iaam_server::ledger::report::{HeldSession, ImportSessionState, PopulationAccount};
use iaam_server::ledger::report::{ReportConfidence, ReportPopulation, Standing};
use iaam_server::ledger::return_report::{AppliedRules, ReturnsOutcome, ReturnsReport};
use iaam_server::ledger::sync::{AssertionsWithheld, SyncOutcome};
use iaam_server::ledger::verdict::Verdict;
use iaam_server::money::{CalcMoney, CurrencyCode, Decimal, Money};

fn date(year: i32, month: u8, day: u8) -> Date {
    Date { year, month, day }
}

fn id(value: u128) -> Uuid {
    Uuid::from_u128(value)
}

fn money(minor: i64) -> Money {
    Money::posted(minor, 2, CurrencyCode::Rub)
}

fn confidence(goal: ReportGoal) -> ReportConfidence {
    ReportConfidence {
        goal,
        caveats: Vec::new(),
    }
}

fn empty_catalog() -> ActionCatalog {
    ActionCatalog {
        operations: Vec::new(),
        answers: Vec::new(),
    }
}

fn population() -> ReportPopulation {
    let entry = |value: u128, standing: Standing| PopulationAccount {
        account: AccountId(id(value)),
        title: format!("account {value}"),
        institution: None,
        standing,
        retirement: None,
    };
    ReportPopulation {
        contour: ContourId(id(50)),
        version: 3,
        accounts: vec![
            entry(1, Standing::Covered),
            entry(2, Standing::OutsideByDecision),
            entry(3, Standing::Covered),
        ],
        retirement_revision: 9,
    }
}

fn held() -> HeldRows {
    HeldRows {
        requested: HeldScope::All,
        sessions: vec![
            HeldSession {
                session: ImportSessionId(id(60)),
                state: ImportSessionState::Open,
                contribution: HeldContribution::Folded(FoldedPlan {
                    revision: "r1".to_owned(),
                    facts: 4,
                    beyond_the_report_date: 1,
                    already_in_journal: 2,
                    retained_unrecorded: 3,
                    settled_without_fact: 0,
                }),
            },
            HeldSession {
                session: ImportSessionId(id(61)),
                state: ImportSessionState::Committed,
                contribution: HeldContribution::AlreadyInJournal,
            },
        ],
        retained_unrecorded: 3,
    }
}

#[test]
fn covered_and_outside_are_the_whole_population() {
    let dto = PopulationDto::from_domain(&population());
    assert_eq!(dto.contour, id(50));
    assert_eq!(dto.contour_version, 3);
    assert_eq!(dto.covered.len(), 2);
    assert_eq!(dto.outside.len(), 1);
    assert_eq!(dto.outside[0].standing, "outside_by_decision");
    assert_eq!(dto.known_account_coverage, "bounded");
    let mut undecided = population();
    undecided.accounts[1].standing = Standing::OutsideUndecided;
    assert_eq!(
        PopulationDto::from_domain(&undecided).known_account_coverage,
        "undecided"
    );
    let mut whole = population();
    whole.accounts.remove(1);
    let whole = PopulationDto::from_domain(&whole);
    assert_eq!(whole.known_account_coverage, "whole");
    assert!(whole.outside.is_empty());
}

#[test]
fn counts_are_present_exactly_where_a_session_was_folded() {
    let dto = HeldRowsDto::from_domain(&held());
    assert_eq!(dto.requested, "all");
    assert_eq!(dto.sessions[0].state, "open");
    assert_eq!(dto.sessions[0].facts, Some(4));
    assert_eq!(dto.sessions[0].revision.as_deref(), Some("r1"));
    assert_eq!(dto.sessions[1].state, "committed");
    assert_eq!(dto.sessions[1].facts, None);
    assert_eq!(dto.sessions[1].revision, None);
    assert_eq!(dto.retained_unrecorded, 3);
}

#[test]
fn a_cash_figure_says_what_kind_of_figure_it_is() {
    assert_eq!(
        CashFigureDto::from_domain(&CashFigure::Balance(money(-5))),
        CashFigureDto::Balance {
            currency: CurrencyDto::Rub,
            balance: "-0.05".to_owned()
        }
    );
    assert_eq!(
        CashFigureDto::from_domain(&CashFigure::Movement(money(100))),
        CashFigureDto::MovementSinceUnknownStart {
            currency: CurrencyDto::Rub,
            movement: "1.00".to_owned()
        }
    );
    assert_eq!(
        CashFigureDto::from_domain(&CashFigure::Mixed {
            balance: money(1),
            movement: money(2)
        }),
        CashFigureDto::Mixed {
            currency: CurrencyDto::Rub,
            balance: "0.01".to_owned(),
            movement: "0.02".to_owned()
        }
    );
}

fn span() -> NegativeSpan {
    NegativeSpan {
        currency: CurrencyCode::Rub,
        from: date(2026, 1, 2),
        resolved: Some(date(2026, 1, 5)),
        classification: "settlement_timing".to_owned(),
    }
}

#[test]
fn balances_say_which_reports_are_refused_and_what_was_expected() {
    let row = |value: u128, period_reports: PeriodReports| AccountBalanceRow {
        account: AccountId(id(value)),
        cash: vec![CashFigure::Balance(money(1050))],
        reconciliation: Vec::new(),
        positions: vec![PositionQuantity {
            instrument: InstrumentId(id(8)),
            custody: Some(CustodyId(id(9))),
            quantity: Decimal::new(25, 1),
        }],
        period_reports,
    };
    let negative = |expectation: Option<NegativeBalanceExpectation>| NegativeCash {
        account: AccountId(id(1)),
        money: money(-100),
        span: Some(span()),
        expectation,
    };
    let dto = BalancesReportDto::from_domain(
        &BalancesReport {
            confidence: confidence(ReportGoal::AssetSnapshot),
            accounts: vec![
                row(1, PeriodReports::Calculated),
                row(2, PeriodReports::Refused { spans: vec![span()] }),
            ],
            negative_cash: vec![
                negative(Some(NegativeBalanceExpectation::Unexpected)),
                negative(Some(NegativeBalanceExpectation::Ordinary)),
                negative(None),
            ],
            population: population(),
        },
        &held(),
        &empty_catalog(),
    );
    assert!(dto.confidence.complete);
    assert_eq!(dto.accounts[0].period_reports, "calculated");
    assert!(dto.accounts[0].period_reports_refused.is_empty());
    assert_eq!(dto.accounts[1].period_reports, "refused");
    assert_eq!(
        dto.accounts[1].period_reports_refused[0].classification,
        "settlement_timing"
    );
    assert_eq!(dto.accounts[0].positions[0].quantity, "2.5");
    assert_eq!(dto.accounts[0].positions[0].custody, Some(id(9)));
    assert!(dto.negative_cash[0].contradicts_expectation);
    assert!(!dto.negative_cash[1].contradicts_expectation);
    assert!(!dto.negative_cash[2].contradicts_expectation);
    assert_eq!(dto.negative_cash[2].from, Some(date(2026, 1, 2)));
    assert_eq!(dto.negative_cash[2].amount, "-1.00");
}

#[test]
fn a_snapshot_shows_cash_and_holdings_apart() {
    let holding = |value: u128, price: PriceDecision| HoldingValue {
        instrument: InstrumentId(id(value)),
        quantity: Decimal::new(10, 0),
        price,
        value: None,
    };
    let dto = AssetSnapshotDto::from_domain(
        &AssetSnapshot {
            confidence: confidence(ReportGoal::AssetSnapshot),
            as_of: date(2026, 8, 1),
            cash: CashSide {
                classes: vec![CashClassTotal {
                    cash_class: Some("savings".to_owned()),
                    accounts: vec![AccountId(id(1)), AccountId(id(2))],
                    totals: vec![CashFigure::Balance(money(100))],
                }],
                totals: vec![CashFigure::Balance(money(100))],
            },
            positions: PositionsSide {
                holdings: vec![
                    holding(
                        1,
                        PriceDecision::LegacyDerived {
                            quality: PriceQuality::Executable,
                            price: Some(LegacyPrice {
                                price: Decimal::new(995, 1),
                                currency: CurrencyCode::Usd,
                                as_of: date(2026, 7, 30),
                            }),
                        },
                    ),
                    holding(
                        2,
                        PriceDecision::LegacyDerived {
                            quality: PriceQuality::Executable,
                            price: None,
                        },
                    ),
                    holding(
                        3,
                        PriceDecision::Uncovered(CandidateUncoveredReason::AmbiguousVenue),
                    ),
                ],
                oldest_price_date: Some(date(2026, 7, 30)),
                totals: vec![CalcMoney {
                    value: Decimal::new(995, 0),
                    currency: CurrencyCode::Usd,
                }],
            },
            total: Vec::new(),
            accounts: vec![AssetAccount {
                account: AccountId(id(1)),
                cash_class: None,
                cash: vec![CashFigure::Movement(money(3))],
                positions: Vec::new(),
            }],
            population: population(),
        },
        &held(),
        &empty_catalog(),
    );
    assert_eq!(dto.cash.classes[0].accounts, vec![id(1), id(2)]);
    assert_eq!(
        dto.positions.holdings[0].price,
        Some(HoldingPriceDto::LegacyDerived {
            amount: "99.5".to_owned(),
            currency: CurrencyDto::Usd,
            as_of: date(2026, 7, 30),
            quality: "executable".to_owned()
        })
    );
    assert_eq!(dto.positions.holdings[1].price, None);
    assert_eq!(
        dto.positions.holdings[2].price,
        Some(HoldingPriceDto::Uncovered {
            reason: "ambiguous_venue".to_owned()
        })
    );
    assert_eq!(dto.positions.totals[0].value, "995");
    assert_eq!(
        holding_uncovered_reason(CandidateUncoveredReason::TooOld),
        "too_old"
    );
}

fn failure(code: &str) -> MoneyFlowError {
    MoneyFlowError {
        code: code.to_owned(),
    }
}

fn flow() -> CurrencyFlow {
    CurrencyFlow {
        currency: CurrencyCode::Rub,
        came_in: Ok(money(1)),
        went_out: Ok(money(2)),
        earned_by_capital: Ok(money(3)),
        moved_into_assets: Ok(money(4)),
        fees: Ok(money(5)),
        taxes: Ok(money(6)),
        internal_transfers: Ok(money(7)),
        indeterminate: Ok(money(8)),
        unstated: Ok(money(9)),
        cash_delta: Ok(money(10)),
        residual: Ok(money(11)),
        went_out_by_category: Ok(vec![CategoryAmount {
            category: CategoryId(id(1)),
            amount: money(2),
        }]),
        earned_by_capital_by_source: Ok(vec![EarningSourceAmount {
            account: AccountId(id(1)),
            instrument: Some(InstrumentId(id(2))),
            category: None,
            amount: money(3),
        }]),
        not_decomposed: Ok(NotDecomposed {
            count: 2,
            amount: money(12),
        }),
        not_decomposed_by_account: Ok(vec![NotDecomposedAccount {
            account: AccountId(id(1)),
            count: 2,
            amount: money(12),
        }]),
    }
}

fn flow_outcome(currencies: Vec<CurrencyFlow>) -> MoneyFlowOutcome {
    MoneyFlowOutcome {
        confidence: Ok(confidence(ReportGoal::MoneyFlow)),
        report: MoneyFlowReport {
            contour: ContourId(id(50)),
            version: 3,
            from: date(2026, 1, 1),
            to: date(2026, 1, 31),
            category_rule_versions: vec![4, 5],
            currencies,
            residuals_by_account: Ok(vec![AccountResidual {
                account: AccountId(id(1)),
                money: money(-11),
            }]),
        },
        population: population(),
        held_rows: held(),
    }
}

#[test]
fn a_flow_report_states_every_figure() {
    let dto =
        MoneyFlowReportDto::from_domain(&flow_outcome(vec![flow()]), Vec::new(), &empty_catalog())
            .expect("every figure is stated");
    let rub = &dto.currencies[0];
    assert_eq!(rub.came_in, "0.01");
    assert_eq!(rub.residual, "0.11");
    assert_eq!(rub.not_decomposed.count, 2);
    assert_eq!(rub.not_decomposed.by_account[0].amount, "0.12");
    assert_eq!(rub.went_out_by_category[0].category, id(1));
    assert_eq!(rub.earned_by_capital_by_source[0].instrument, Some(id(2)));
    assert_eq!(dto.unexplained[0].amount, "-0.11");
    assert_eq!(dto.category_rule_versions, vec![4, 5]);
    assert_eq!(dto.contour_version, 3);
}

#[test]
fn a_failed_figure_fails_the_report_in_reading_order() {
    let failed = |outcome: MoneyFlowOutcome| {
        MoneyFlowReportDto::from_domain(&outcome, Vec::new(), &empty_catalog())
            .expect_err("a figure failed")
            .code
    };
    let mut total = flow();
    total.came_in = Err(failure("came_in"));
    total.residual = Err(failure("residual"));
    let mut breakdown = flow();
    breakdown.came_in = Err(failure("came_in"));
    breakdown.not_decomposed_by_account = Err(failure("by_account"));
    assert_eq!(failed(flow_outcome(vec![flow(), total])), "came_in");
    assert_eq!(failed(flow_outcome(vec![breakdown])), "by_account");
    let mut residuals = flow_outcome(vec![flow()]);
    residuals.report.residuals_by_account = Err(failure("residuals"));
    assert_eq!(failed(residuals), "residuals");
    let mut unsure = flow_outcome(vec![flow()]);
    unsure.confidence = Err(failure("confidence"));
    unsure.report.residuals_by_account = Err(failure("residuals"));
    assert_eq!(failed(unsure), "confidence");
}

fn shares() -> ExecutabilityShares {
    ExecutabilityShares {
        evaluated_positions_value: Decimal::new(1, 0),
        executable: Decimal::new(1, 0),
        indicative_previous_close: Decimal::new(0, 0),
        unknown: Decimal::new(0, 0),
    }
}

#[test]
fn a_returns_report_falls_back_to_the_rules_day_count() {
    let dto = ReturnsAnswerDto::from_domain(
        &ReturnsOutcome {
            confidence: confidence(ReportGoal::Returns),
            report: ReturnsReport {
                as_of: date(2026, 8, 1),
                history_starts: None,
                report_currency: CurrencyCode::Cny,
                contributed: Computed::Value(Decimal::new(1000, 2)),
                withdrawn: Computed::NotComputable {
                    reason: NotComputable::NoExternalFlows,
                },
                terminal_value: Computed::Value(Decimal::new(5, 0)),
                liquidation_value_before_exit_costs_and_tax: LiquidationEstimate {
                    value_before_exit_costs_and_tax: Computed::Value(Decimal::new(5, 0)),
                    executability: shares(),
                    exit_costs: AmountQualification::Unknown,
                    tax: AmountQualification::Unknown,
                    accrued_interest_payable_on_termination: Computed::Value(Decimal::new(0, 0)),
                },
                bond_attributes: Vec::new(),
                bond_metrics: Vec::new(),
                xirr: Computed::NotComputable {
                    reason: NotComputable::NoExternalFlows,
                },
                applied_rules: AppliedRules {
                    contour: ContourId(id(50)),
                    contour_version: 2,
                    lot_rule: None,
                    fx_source: "cbr".to_owned(),
                    day_count: "act_365".to_owned(),
                    solver_rate_tolerance: "0.0000001".to_owned(),
                    solver_max_iterations: 100,
                    perimeter_settlement_window_days: 3,
                },
                data_quality: DataQuality {
                    status: "whole".to_owned(),
                    nav_coverage: NavCoverage {
                        accepted_independent: Decimal::new(1, 0),
                        accepted_internal: Decimal::new(0, 0),
                        provisional: Decimal::new(0, 0),
                        discrepant: Decimal::new(0, 0),
                    },
                    position_coverage: PositionCoverage {
                        evaluated_positions: 0,
                        total_positions: 0,
                        selected: Vec::new(),
                        uncovered: Vec::new(),
                        legacy_derived: Vec::new(),
                    },
                    executability: shares(),
                    material_issues: Vec::new(),
                },
            },
            population: population(),
            held_rows: held(),
        },
        &empty_catalog(),
    );
    assert_eq!(dto.report.contributed.value.as_deref(), Some("10.00"));
    assert_eq!(
        dto.report
            .withdrawn
            .not_computable
            .map(NotComputableCodeDto::code),
        Some("no_external_flows")
    );
    assert_eq!(dto.report.xirr_pre_tax.value, "");
    assert_eq!(dto.report.xirr_pre_tax.day_count, "act_365");
    assert_eq!(dto.report.applied_rules.perimeter_settlement_window_days, 3);
    assert_eq!(dto.report.report_currency, CurrencyDto::Cny);
}

#[test]
fn every_verdict_reaches_the_wire_with_the_field_that_explains_it() {
    let event = EventId(id(1));
    let provisional = VerdictDto::from_domain(1, &Verdict::Provisional { event });
    assert_eq!(provisional.verdict.code(), "provisional");
    assert_eq!(
        provisional.row, 1,
        "line number is included in the response unchanged"
    );
    assert_eq!(provisional.event_id, Some(event.inner()));

    let duplicate = VerdictDto::from_domain(2, &Verdict::Duplicate { existing: event });
    assert_eq!(duplicate.event_id, Some(event.inner()));

    let possible_event = EventId(id(2));
    let possible = VerdictDto::from_domain(
        3,
        &Verdict::PossibleDuplicate {
            event: possible_event,
            of: event,
            level: 5,
        },
    );
    assert_eq!(possible.verdict.code(), "possible_duplicate");
    assert_eq!(possible.event_id, Some(possible_event.inner()));
    assert_eq!(possible.of_event_id, Some(event.inner()));
    assert_eq!(possible.level, Some(5));

    let needs = VerdictDto::from_domain(
        3,
        &Verdict::NeedsClassification {
            question: "what kind of transaction is this?".into(),
        },
    );
    assert_eq!(
        needs.detail.as_deref(),
        Some("what kind of transaction is this?")
    );

    let unsupported = VerdictDto::from_domain(
        4,
        &Verdict::Unsupported {
            reason: "derivatives outside the perimeter".into(),
        },
    );
    assert_eq!(
        unsupported.detail.as_deref(),
        Some("derivatives outside the perimeter")
    );

    let rejected = VerdictDto::from_domain(
        5,
        &Verdict::Rejected {
            rejection: Rejection {
                field: "amount".into(),
                expected: "positive value".into(),
                actual: "-1".into(),
            },
        },
    );
    assert_eq!(rejected.field.as_deref(), Some("amount"));
    assert_eq!(
        rejected.expected.as_deref(),
        Some("positive value"),
        "without an expected value, the refusal does not explain what to fix"
    );
    assert_eq!(rejected.actual.as_deref(), Some("-1"));
}

#[test]
fn every_other_verdict_carries_only_its_own_fields() {
    let account = AccountId(id(4));
    let accepted = VerdictDto::from_domain(1, &Verdict::Accepted { event: EventId(id(1)) });
    assert_eq!(accepted.verdict.code(), "accepted");
    assert_eq!(accepted.detail, None);
    let discrepancy = VerdictDto::from_domain(
        1,
        &Verdict::Discrepancy {
            event: EventId(id(1)),
            account,
            dimension: "cash".to_owned(),
            detail: "short".to_owned(),
        },
    );
    assert_eq!(discrepancy.verdict.code(), "discrepancy");
    assert_eq!(discrepancy.account_id, Some(id(4)));
    assert_eq!(discrepancy.dimension.as_deref(), Some("cash"));
    let needs = VerdictDto::from_domain(
        1,
        &Verdict::NeedsReconciliation {
            account,
            dimension: "cash".to_owned(),
        },
    );
    assert_eq!(needs.verdict.code(), "needs_reconciliation");
    assert_eq!(needs.event_id, None);
    let quarantined = VerdictDto::from_domain(
        1,
        &Verdict::Quarantined {
            reason: "q".to_owned(),
        },
    );
    assert_eq!(quarantined.verdict.code(), "quarantined");
    let nothing = VerdictDto::from_domain(
        1,
        &Verdict::NoFact {
            reason: "second_leg_of_one_movement".to_owned(),
        },
    );
    assert_eq!(nothing.verdict.code(), "no_fact");
    assert_eq!(
        nothing.detail.as_deref(),
        Some("second_leg_of_one_movement")
    );
}

#[test]
fn a_synchronisation_numbers_its_verdicts_from_one() {
    let verdicts = || {
        vec![
            Verdict::Accepted { event: EventId(id(1)) },
            Verdict::Unsupported {
                reason: "r".to_owned(),
            },
        ]
    };
    let rows = numbered(&verdicts());
    assert_eq!(rows[0].row, 1);
    assert_eq!(rows[1].row, 2);
    let dto = SyncOutcomeDto::from_domain(
        SyncOutcome {
            recorded: verdicts(),
            duplicates: 1,
            possible_duplicates: 2,
            assertions: 3,
            assertions_withheld: Some(AssertionsWithheld {
                code: "portfolio_describes_another_day".to_owned(),
                as_of: date(2026, 4, 5),
            }),
        },
        Vec::new(),
    );
    assert_eq!(dto.recorded, rows);
    assert_eq!(dto.possible_duplicates, 2);
    assert_eq!(
        dto.assertions_withheld.map(|withheld| withheld.as_of),
        Some(date(2026, 4, 5))
    );
}

fn claim_check(claim: ControlClaim, outcome: ClaimOutcome) -> ClaimCheck {
    ClaimCheck {
        claim,
        outcome,
        basis: ObservationBasis {
            folded: FoldSpan {
                events: 1,
                first: Some(date(2026, 3, 10)),
                last: Some(date(2026, 3, 10)),
            },
            start: ObservedStart::Asserted,
            compared: Compared::Level,
        },
    }
}

fn rendered(check: &ClaimCheck) -> ClaimOutcomeDto {
    ClaimOutcomeDto::from_domain(check)
}

fn cash_balance(minor: i64) -> ControlClaim {
    ControlClaim::CashBalance {
        amount: money(minor),
        at: BalancePoint::Closing,
    }
}

fn rubles(amount: &str) -> ClaimValueDto {
    ClaimValueDto::Money {
        amount: amount.to_owned(),
        currency: CurrencyDto::Rub,
    }
}

#[test]
fn each_claim_outcome_renders_only_its_own_detail() {
    let discrepancy = || Discrepancy {
        field: "amount".to_owned(),
        claimed: ClaimValue::Money(money(1_000)),
        observed: ClaimValue::Money(money(400)),
        delta: ClaimValue::Money(money(600)),
    };
    let cases = [
        (ClaimOutcome::Matched, "matched", Vec::<&str>::new()),
        (
            ClaimOutcome::Discrepant(discrepancy()),
            "discrepant",
            vec!["discrepancy"],
        ),
        (
            ClaimOutcome::NotComparable {
                reason: "no_journal_coverage".to_owned(),
            },
            "not_comparable",
            vec!["reason"],
        ),
        (
            ClaimOutcome::Excepted {
                exception: "unsupported_repo_encumbrance".to_owned(),
            },
            "excepted",
            vec!["exception"],
        ),
    ];

    for (outcome, code, present) in cases {
        let value = rendered(&claim_check(cash_balance(1_000), outcome));
        let outcome = &value.outcome;
        assert_eq!(outcome.code, code);
        for (key, there) in [
            ("discrepancy", outcome.discrepancy.is_some()),
            ("reason", outcome.reason.is_some()),
            ("exception", outcome.exception.is_some()),
        ] {
            assert_eq!(there, present.contains(&key), "{code} rendered {key}");
        }
    }

    let discrepant = rendered(&claim_check(
        cash_balance(1_000),
        ClaimOutcome::Discrepant(discrepancy()),
    ));
    let found = discrepant.outcome.discrepancy.expect("a discrepancy");
    assert_eq!(found.field, "amount");
    assert_eq!(found.claimed, rubles("10.00"));
    assert_eq!(found.observed, rubles("4.00"));
    assert_eq!(found.delta, rubles("6.00"));
}

#[test]
fn a_cash_turnover_claim_renders_debit_and_credit_and_no_single_claimed() {
    let value = rendered(&claim_check(
        ControlClaim::CashTurnover {
            currency: CurrencyCode::Rub,
            debit: money(1_500),
            credit: money(2_500),
        },
        ClaimOutcome::Matched,
    ));

    assert_eq!(
        value.claim,
        ClaimDto::CashTurnover {
            currency: CurrencyDto::Rub,
            debit: "15.00".to_owned(),
            credit: "25.00".to_owned(),
        }
    );
}

#[test]
fn a_position_quantity_claim_renders_a_tagged_quantity() {
    let value = rendered(&claim_check(
        ControlClaim::PositionQuantity {
            instrument: InstrumentId(id(1)),
            custody: CustodyId(id(2)),
            quantity: Decimal::new(10, 0),
            at: BalancePoint::Closing,
        },
        ClaimOutcome::Matched,
    ));

    assert_eq!(
        value.claim,
        ClaimDto::PositionQuantity {
            instrument: id(1),
            custody: id(2),
            at: "closing".to_owned(),
            claimed: ClaimValueDto::Quantity("10".to_owned()),
        }
    );
}

#[test]
fn totals_are_claimed_as_money_in_their_currency() {
    let value = rendered(&claim_check(
        ControlClaim::FeesTotal { amount: money(7) },
        ClaimOutcome::Matched,
    ));
    assert_eq!(
        value.claim,
        ClaimDto::FeesTotal {
            currency: CurrencyDto::Rub,
            claimed: rubles("0.07")
        }
    );
    assert_eq!(value.basis.events_folded, 1);
    assert_eq!(value.basis.compared, "level");
    assert_eq!(value.basis.compared_since, None);
    let changed = ClaimCheck {
        basis: ObservationBasis {
            compared: Compared::ChangeSinceStatedBalance {
                since: date(2026, 3, 1),
            },
            ..claim_check(cash_balance(1), ClaimOutcome::Matched).basis
        },
        ..claim_check(
            ControlClaim::TaxWithheldTotal { amount: money(7) },
            ClaimOutcome::Matched,
        )
    };
    assert_eq!(
        rendered(&changed).basis.compared_since,
        Some(date(2026, 3, 1))
    );
    assert_eq!(BalancePointDto::Opening.code(), "opening");
    assert_eq!(BalancePointDto::Closing.to_domain(), BalancePoint::Closing);
}

fn source_channel(parser: &str, document: Option<&str>) -> SourceChannel {
    SourceChannel {
        source: SourceId(id(30)),
        parser_version: parser.to_owned(),
        document: document.map(|hex| hex.repeat(64)),
    }
}

fn evidence(confirming: SourceChannel, confirmed: SourceChannel) -> Evidence {
    Evidence {
        ground: "broker_api_agrees_with_statement".to_owned(),
        level: "accepted_internal".to_owned(),
        dimensions: vec!["cash".to_owned()],
        confirming,
        confirmed,
    }
}

#[test]
fn evidence_renders_the_documents_that_decide_independence() {
    let value = EvidenceDto::from_domain(&evidence(
        source_channel("shared/1", Some("c")),
        source_channel("shared/1", Some("d")),
    ));
    assert_eq!(value.confirming_parser, "shared/1");
    assert_eq!(value.confirmed_parser, "shared/1");
    assert_eq!(value.confirming_document, Some("c".repeat(64)));
    assert_eq!(value.confirmed_document, Some("d".repeat(64)));
    assert_ne!(value.confirming_document, value.confirmed_document);
}

#[test]
fn two_absent_documents_are_not_independent_and_render_as_absent() {
    let value = EvidenceDto::from_domain(&evidence(
        source_channel("api/1", None),
        source_channel("api/2", None),
    ));
    assert_eq!(value.level, "accepted_internal");
    assert!(
        value.confirming_document.is_none(),
        "an absent document is omitted, not blank: {value:?}"
    );
    assert!(
        value.confirmed_document.is_none(),
        "an absent document is omitted, not blank: {value:?}"
    );
}

#[test]
fn a_reconciliation_status_shows_what_taints_it() {
    let dto = ReconciliationStatusDto::from_domain(&ReconciliationStatus {
        account: AccountId(id(1)),
        period: Period {
            from: date(2026, 1, 1),
            to: date(2026, 1, 31),
        },
        dimensions: vec![DimensionStatus {
            dimension: "cash".to_owned(),
            status: "provisional".to_owned(),
        }],
        evidence: Vec::new(),
        outcomes: vec![claim_check(cash_balance(5), ClaimOutcome::Matched)],
        taints: vec![Taint {
            account: AccountId(id(1)),
            period: Period {
                from: date(2026, 1, 3),
                to: date(2026, 1, 4),
            },
            source: SourceId(id(2)),
            parser_version: "p/1".to_owned(),
            dimensions: vec!["cash".to_owned()],
            refused: 2,
            rows: vec![
                RefusedRow {
                    source: SourceId(id(2)),
                    row: RowName::Given("7".to_owned()),
                    dimensions: Vec::new(),
                },
                RefusedRow {
                    source: SourceId(id(2)),
                    row: RowName::Fingerprint("ab".to_owned()),
                    dimensions: Vec::new(),
                },
            ],
        }],
    });
    assert_eq!(dto.from, date(2026, 1, 1));
    assert_eq!(dto.dimensions[0].status, "provisional");
    assert_eq!(dto.outcomes.len(), 1);
    assert_eq!(dto.taints[0].refused, 2);
    assert_eq!(
        dto.taints[0].rows[0].row,
        RowNameDto::Given("7".to_owned())
    );
    assert_eq!(
        dto.taints[0].rows[1].row,
        RowNameDto::Fingerprint("ab".to_owned())
    );
}
