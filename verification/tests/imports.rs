//! Import sessions, their questions, their assessment and the documents they read.

use iaam_server::calendar::{Date, Period, SourceTime};
use iaam_server::dto::action::AccountCandidateDto;
use iaam_server::dto::answer::{AnswerAlternativeDto, AnswerImportQuestionRequest};
use iaam_server::dto::category::{CategoryDto, CategoryRuleDto, CategoryRuleImpactDto};
use iaam_server::dto::control::{ControlCheckDto, ControlReconciliationDto, ControlSectionDto};
use iaam_server::dto::control::IntervalFitDto;
use iaam_server::dto::currency::CurrencyDto;
use iaam_server::dto::journal::{JournalEventReadDto, JournalLegKindDto, JournalRelationDto};
use iaam_server::dto::journal::{JournalConfidenceDto, JournalRelationKindDto};
use iaam_server::dto::kinds::{FeeOriginDto, IncomeKindDto};
use iaam_server::dto::plan::{movement_code, readiness_detail, ImportPlanDto};
use iaam_server::dto::plan::{ConfirmedPairingDto, ResemblingRowDto, RetainedRowDto};
use iaam_server::dto::plan::{RowGroupDto, SettledRowDto, TransferLegDto};
use iaam_server::dto::profile::{source_profile_catalogue_dto, SourceDocumentDto};
use iaam_server::dto::rule::{ClassificationRuleChangeDto, ClassificationRuleDto};
use iaam_server::dto::rule::{ClassifiedAsDto, RuleMatcherDto};
use iaam_server::dto::session::{ImportQuestionDto, ImportRowDto, ImportSessionDto};
use iaam_server::dto::session::{ImportSessionSummaryDto, QuestionGeneralisationDto};
use iaam_server::dto::session::{QuestionSettlementDto, RecordedEventDto};
use iaam_server::ids::{AccountId, CategoryGroupId, CategoryId, CategoryRuleId, CustodyId};
use iaam_server::ids::{EventId, ImportId, ImportQuestionId, ImportSessionId};
use iaam_server::ids::{InstrumentId, SourceId, Uuid};
use iaam_server::ledger::action::{AccountCandidate, OwnerQuestion};
use iaam_server::ledger::answer::{Alternative, Answer, AnswerReach, AnswerShape};
use iaam_server::ledger::category::{CategoryMove, CategoryRuleImpact, CategoryRuleView};
use iaam_server::ledger::category::{CategoryView, MonthlyImpact};
use iaam_server::ledger::control::{BatchTotal, ControlCheck, ControlComparison};
use iaam_server::ledger::control::{ControlFigure, ControlReconciliation, ControlSection};
use iaam_server::ledger::control::{IntervalFit, NotChecked};
use iaam_server::ledger::journal::{EventConfidence, EventDates, JournalEventView, Leg};
use iaam_server::ledger::journal::{LegKind, Relation};
use iaam_server::ledger::kinds::{FeeOrigin, IncomeKind};
use iaam_server::ledger::plan::{AccountResolution, AmountSpan, CashLeg, CommitDelta};
use iaam_server::ledger::plan::{ConfirmedPairing, DaySpan, GroupBasis, ImportPlan};
use iaam_server::ledger::plan::{Interpretation, LegOrigin, MirroredPair, Movement};
use iaam_server::ledger::plan::{OfferedRule, OpenQuestion, PairingCandidate};
use iaam_server::ledger::plan::{PairingEvidence, PlannedFact, PlannedOrigin, PrintedRow};
use iaam_server::ledger::plan::{Proposals, Readiness, ResemblingRow, RetainedRow};
use iaam_server::ledger::plan::{RetentionReason, RowGroup, RowShape, ScopeAssessment};
use iaam_server::ledger::plan::{SettledRow, SharedMovement, SharedRow, SourceInventory};
use iaam_server::ledger::plan::WithheldOffer;
use iaam_server::ledger::profile::{DocumentImport, DocumentRow, InstalledProfile};
use iaam_server::ledger::profile::{ProfileCatalogue, ProfileOrigin, ReadingProfile};
use iaam_server::ledger::profile::{RefusedProfile, UnresolvedAccount};
use iaam_server::ledger::rejection::Rejection;
use iaam_server::ledger::report::ImportSessionState;
use iaam_server::ledger::rule::{ClassificationRuleView, ClassifiedAs, ParsedRule};
use iaam_server::ledger::rule::{PlannedCorrection, RuleChange, RuleMatcher};
use iaam_server::ledger::session::{AnswerableQuestion, AnsweredQuestions, AskedQuestion};
use iaam_server::ledger::session::{FactBasis, Generalisation, HeldRow, ImportQuestionView};
use iaam_server::ledger::session::{ImportSessionSummaryView, ImportSessionView};
use iaam_server::ledger::session::{NoFactReason, QuestionSettlement, Recorded};
use iaam_server::money::{CurrencyCode, Decimal, MinorUnits, Money};

fn id(value: u128) -> Uuid {
    Uuid::from_u128(value)
}

fn date(year: i32, month: u8, day: u8) -> Date {
    Date { year, month, day }
}

fn units() -> MinorUnits {
    MinorUnits::new(2, 2, 2, 2, 4).expect("ordinary minor units")
}

fn answer(word: &str) -> AnswerImportQuestionRequest {
    AnswerImportQuestionRequest {
        answer: word.to_owned(),
        account: None,
        origin: None,
        income_kind: None,
        settles: None,
    }
}

fn account_for(word: &str) -> Option<Uuid> {
    if matches!(word, "sent_to_own_account" | "received_from_own_account") {
        Some(id(5))
    } else {
        None
    }
}

#[test]
fn an_answer_that_names_no_account_refuses_one() {
    for word in ["paid", "received", "fee", "income", "refund"] {
        let request = AnswerImportQuestionRequest {
            account: Some(id(5)),
            ..answer(word)
        };
        let rejection = request
            .to_domain()
            .expect_err("an account the answer does not take is refused");
        assert_eq!(rejection.field, "account");
        assert!(
            rejection.expected.contains(word),
            "the refusal names the answer that was given: {rejection:?}"
        );
    }
}

#[test]
fn the_two_answers_that_name_an_account_still_take_one() {
    for word in ["sent_to_own_account", "received_from_own_account"] {
        let request = AnswerImportQuestionRequest {
            account: Some(id(5)),
            ..answer(word)
        };
        let decision = request.to_domain().expect("the account is required here");
        assert!(decision.shape().needs_account());
        let rejection = answer(word)
            .to_domain()
            .expect_err("this answer is incomplete without an account");
        assert_eq!(rejection.field, "account");
        assert_eq!(rejection.actual, "absent");
    }
}

#[test]
fn only_the_fee_answer_carries_an_origin() {
    for word in [
        "sent_to_own_account",
        "received_from_own_account",
        "paid",
        "received",
        "income",
        "refund",
    ] {
        let request = AnswerImportQuestionRequest {
            account: account_for(word),
            origin: Some(FeeOriginDto::Brokerage),
            ..answer(word)
        };
        let rejection = request
            .to_domain()
            .expect_err("an origin the answer does not take is refused");
        assert_eq!(rejection.field, "origin");
        assert_eq!(rejection.actual, "brokerage");
    }
    let accepted = AnswerImportQuestionRequest {
        origin: Some(FeeOriginDto::Depositary),
        ..answer("fee")
    }
    .to_domain()
    .expect("a fee carries its origin");
    assert_eq!(
        accepted,
        Answer::Fee {
            origin: FeeOrigin::Depositary
        }
    );
    assert_eq!(
        answer("fee").to_domain(),
        Ok(Answer::Fee {
            origin: FeeOrigin::Other
        })
    );
}

#[test]
fn only_the_income_answer_carries_an_earnings_kind() {
    for word in [
        "sent_to_own_account",
        "received_from_own_account",
        "paid",
        "received",
        "fee",
        "refund",
    ] {
        let request = AnswerImportQuestionRequest {
            account: account_for(word),
            income_kind: Some(IncomeKindDto::DepositInterest),
            ..answer(word)
        };
        let rejection = request
            .to_domain()
            .expect_err("a kind the answer does not take is refused");
        assert_eq!(rejection.field, "income_kind");
        assert_eq!(rejection.actual, "deposit_interest");
    }

    assert_eq!(
        answer("income").to_domain().expect("income needs no kind"),
        Answer::Income { kind: None }
    );
    assert_eq!(
        AnswerImportQuestionRequest {
            income_kind: Some(IncomeKindDto::Coupon),
            ..answer("income")
        }
        .to_domain()
        .expect("income carries the kind the owner named"),
        Answer::Income {
            kind: Some(IncomeKind::Coupon)
        }
    );
    assert_eq!(
        answer("refund")
            .to_domain()
            .expect("a refund names nothing"),
        Answer::Refund
    );
}

#[test]
fn an_unknown_answer_or_reach_is_refused_by_name() {
    let unknown = answer("maybe").to_domain().expect_err("no such answer");
    assert_eq!(unknown.field, "answer");
    assert_eq!(unknown.actual, "maybe");
    let far = AnswerImportQuestionRequest {
        settles: Some("everything".to_owned()),
        ..answer("paid")
    };
    let refused = far.to_reach().expect_err("no such reach");
    assert_eq!(refused.field, "settles");
    assert_eq!(
        refused.expected,
        "this_row or every_like_row_in_this_session"
    );
    assert_eq!(answer("paid").to_reach(), Ok(AnswerReach::ThisRow));
}

#[test]
fn every_reach_a_group_can_publish_is_a_word_the_answering_call_takes() {
    for reach in [AnswerReach::ThisRow, AnswerReach::EveryLikeRowInThisSession] {
        let asked = AnswerImportQuestionRequest {
            settles: Some(reach.code().to_owned()),
            ..answer("paid")
        };
        assert_eq!(
            asked
                .to_reach()
                .expect("a word a group published as its own reach"),
            reach,
            "a group offers a reach the answering call does not take"
        );
    }
}

fn alternative(shape: AnswerShape) -> Alternative {
    Alternative {
        shape,
        consequence: format!(
            "what the answer {} decides about the row and the report",
            shape.code()
        ),
    }
}

fn codes(alternatives: &[AnswerAlternativeDto]) -> Vec<String> {
    alternatives
        .iter()
        .map(|alternative| alternative.answer.clone())
        .collect()
}

#[test]
fn the_shapes_that_publish_a_question_publish_one_vocabulary() {
    let shapes = [
        alternative(AnswerShape::Income),
        alternative(AnswerShape::Received),
        alternative(AnswerShape::Refund),
    ];
    let published: Vec<AnswerAlternativeDto> = shapes
        .iter()
        .map(AnswerAlternativeDto::from_domain)
        .collect();
    let expected = codes(&published);
    assert_eq!(
        expected,
        vec!["income", "received", "refund"],
        "the question's own list, and the one every publisher renders"
    );
    for alternative in &published {
        assert!(
            !alternative.consequence.is_empty(),
            "an alternative that decides nothing is not one of the seven: {}",
            alternative.answer
        );
    }
    let asked = || AskedQuestion {
        question: ImportQuestionId(id(1)),
        prompt: "What arrived?".to_owned(),
        alternatives: shapes.to_vec(),
    };
    let row = ImportRowDto::from_domain(&HeldRow::Questioned {
        row: 1,
        asked: asked(),
    });
    assert_eq!(row.alternatives.as_deref().map(codes), Some(expected));
}

#[test]
fn every_word_that_may_be_said_says_what_it_decides() {
    for shape in [
        AnswerShape::SentToOwnAccount,
        AnswerShape::ReceivedFromOwnAccount,
        AnswerShape::Paid,
        AnswerShape::Received,
        AnswerShape::Fee,
        AnswerShape::Income,
        AnswerShape::Refund,
    ] {
        let stored = alternative(shape);
        let published = AnswerAlternativeDto::from_domain(&stored);
        assert_eq!(published.answer, shape.code());
        assert_eq!(published.needs_account, shape.needs_account());
        assert_eq!(published.consequence, stored.consequence);
        assert!(
            published.consequence.len() > 40,
            "«{}» is published with a consequence that says nothing",
            shape.code()
        );
    }
}

fn asked(settled: Option<QuestionSettlement>) -> AnswerableQuestion {
    AnswerableQuestion {
        view: ImportQuestionView {
            id: ImportQuestionId(id(11)),
            session: ImportSessionId(id(12)),
            row: 1,
            prompt: "Was it a fee, or a payment out?".to_owned(),
            alternatives: vec![alternative(AnswerShape::Fee), alternative(AnswerShape::Paid)],
            asked_at: "2026-03-01T00:00:00Z".to_owned(),
            answered_at: None,
        },
        accounts: vec![AccountCandidate {
            id: AccountId(id(3)),
            title: "Main".to_owned(),
            institution: Some("Bank".to_owned()),
        }],
        generalisation: Generalisation::Unanswered,
        settled_without_answer: settled,
    }
}

#[test]
fn a_question_merely_read_says_nothing_about_what_settled_it() {
    let published = ImportQuestionDto::from_domain(&asked(None));
    assert!(published.also_settled.is_empty());
    assert_eq!(codes(&published.alternatives), vec!["fee", "paid"]);
    assert_eq!(
        published.accounts,
        vec![AccountCandidateDto {
            id: id(3),
            title: "Main".to_owned(),
            institution: Some("Bank".to_owned()),
        }]
    );
}

#[test]
fn a_question_a_rule_settled_publishes_what_settled_it_and_not_an_answer() {
    let published = ImportQuestionDto::from_domain(&asked(Some(QuestionSettlement::Fact {
        basis: FactBasis::Rule {
            rule: id(77).to_text(),
            version: 1,
        },
        explanation: "a standing rule of the owner's settled it".to_owned(),
    })));
    let settled = published
        .settled_without_answer
        .expect("a question a rule settled says so");
    assert_eq!(
        settled.code, "rule",
        "the same word the assessment puts on the row it settled"
    );
    assert!(
        !settled.explanation.is_empty(),
        "and a sentence to read out beside it"
    );
    assert!(
        published.answered_at.is_none(),
        "settled is not answered: nobody spoke about this row"
    );
}

#[test]
fn an_answered_question_names_what_it_also_settled() {
    let mut other = asked(None);
    other.view.id = ImportQuestionId(id(21));
    other.view.row = 9;
    let published = ImportQuestionDto::from_answered(&AnsweredQuestions {
        asked: asked(None),
        also_settled: vec![other],
    });
    assert_eq!(published.question, id(11));
    assert_eq!(published.also_settled.len(), 1);
    assert_eq!(published.also_settled[0].row, 9);
    assert_eq!(published.also_settled[0].question, id(21));
}

#[test]
fn a_settlement_speaks_the_words_of_the_row() {
    let words = [
        (FactBasis::Concluded, "concluded"),
        (FactBasis::Directory, "directory"),
        (FactBasis::SourceAsserted, "source_asserted"),
        (FactBasis::Answered, "answered"),
    ];
    for (basis, word) in words {
        let dto = QuestionSettlementDto::from_domain(&QuestionSettlement::Fact {
            basis,
            explanation: "e".to_owned(),
        });
        assert_eq!(dto.code, word);
    }
    let none = QuestionSettlementDto::from_domain(&QuestionSettlement::NoFact {
        reason: NoFactReason::SecondLegOfOneMovement { records: 4 },
        explanation: "e".to_owned(),
    });
    assert_eq!(none.code, "second_leg_of_one_movement");
}

fn matcher() -> RuleMatcher {
    RuleMatcher {
        counterparty_account: None,
        description_contains: Some("shop".to_owned()),
        kind: None,
        source_category: Some("food".to_owned()),
    }
}

fn classified() -> ClassifiedAs {
    ClassifiedAs {
        kind: "internal_transfer".to_owned(),
        to: Some(AccountId(id(3))),
        origin: None,
        income_kind: None,
    }
}

#[test]
fn a_generalisation_names_its_own_state() {
    let recorded = QuestionGeneralisationDto::from_domain(&Generalisation::Recorded {
        rule: "6F9619FF8B86D011B42D00C04FC964FF".to_owned(),
    });
    assert_eq!(recorded.state, "recorded");
    assert_eq!(
        recorded.rule.map(|rule| rule.to_text()).as_deref(),
        Some("6f9619ff-8b86-d011-b42d-00c04fc964ff")
    );
    let unreadable = QuestionGeneralisationDto::from_domain(&Generalisation::Recorded {
        rule: "not an identifier".to_owned(),
    });
    assert_eq!(unreadable.state, "recorded");
    assert_eq!(unreadable.rule, None);
    let available = QuestionGeneralisationDto::from_domain(&Generalisation::Available {
        matcher: matcher(),
        outcome: classified(),
    });
    assert_eq!(available.state, "available");
    let proposal = available.proposal.expect("the rule that is available");
    assert_eq!(
        proposal.matcher.source_category.as_deref(),
        Some("food")
    );
    assert_eq!(proposal.outcome.to, Some(id(3)));
    assert_eq!(proposal.replaces, None);
    for (state, word) in [
        (Generalisation::Impossible, "impossible"),
        (Generalisation::Unanswered, "unanswered"),
    ] {
        let dto = QuestionGeneralisationDto::from_domain(&state);
        assert_eq!(dto.state, word);
        assert!(dto.rule.is_none());
        assert!(dto.proposal.is_none());
    }
}

#[test]
fn a_rule_may_be_sent_back_as_it_was_read() {
    let dto = RuleMatcherDto::from_domain(&matcher());
    assert_eq!(dto.to_domain(), matcher());
    let outcome = ClassifiedAsDto::from_domain(&classified());
    let words = outcome.to_domain();
    assert_eq!(words.kind, "internal_transfer");
    assert_eq!(
        words.to.as_deref(),
        Some("00000000-0000-0000-0000-000000000003")
    );
    assert_eq!(words.origin, None);
}

fn stored_rule() -> ClassificationRuleView {
    ClassificationRuleView {
        id: id(31),
        created_at: "c".to_owned(),
        retired_at: None,
        replaces: Some(id(30)),
    }
}

fn parsed_rule() -> ParsedRule {
    ParsedRule {
        version: 4,
        matcher: matcher(),
        outcome: classified(),
    }
}

#[test]
fn a_stored_rule_is_shown_or_its_reading_fails() {
    let shown = ClassificationRuleDto::from_port(stored_rule(), Ok::<_, &str>(parsed_rule()))
        .expect("a readable rule");
    assert_eq!(shown.version, 4);
    assert_eq!(shown.replaces, Some(id(30)));
    assert_eq!(shown.outcome.kind, "internal_transfer");
    let failed = ClassificationRuleDto::from_port(stored_rule(), Err("unreadable"));
    assert_eq!(failed, Err("unreadable"));
    let change = ClassificationRuleChangeDto::from_domain(
        RuleChange {
            rule: stored_rule(),
            plan: vec![PlannedCorrection {
                event: EventId(id(40)),
                was: classified(),
                becomes: classified(),
            }],
        },
        Ok::<_, &str>(parsed_rule()),
    )
    .expect("a readable rule");
    assert!(!change.plan.applied);
    assert_eq!(change.plan.corrections[0].event, id(40));
}

fn session() -> ImportSessionView {
    ImportSessionView {
        id: ImportSessionId(id(12)),
        state: ImportSessionState::Open,
        source: Some(SourceId(id(13))),
        import: None,
        opened_at: "o".to_owned(),
        closed_at: None,
    }
}

#[test]
fn a_session_says_where_its_assessment_is_read() {
    let dto = ImportSessionDto::from_domain(&session());
    assert_eq!(dto.state, "open");
    assert_eq!(
        dto.assessment,
        "/v1/import-sessions/00000000-0000-0000-0000-00000000000c/assessment"
    );
    assert_eq!(dto.source, Some(id(13)));
    assert!(dto.account.is_none());
    let summary = ImportSessionSummaryDto::from_domain(&ImportSessionSummaryView {
        session: session(),
        row_count: 7,
        unanswered: 2,
    });
    assert_eq!(summary.row_count, 7);
    assert_eq!(summary.unanswered, 2);
    assert_eq!(summary.session, dto);
}

#[test]
fn a_held_row_shows_one_state() {
    let held = ImportRowDto::from_domain(&HeldRow::Held { row: 1 });
    assert_eq!(held.state, "held");
    assert!(held.question_id.is_none() && held.field.is_none() && held.reason.is_none());
    let settled = ImportRowDto::from_domain(&HeldRow::Settled {
        row: 2,
        reason: NoFactReason::OneAccountTwoInstruments {
            account: AccountId(id(3)),
        },
        explanation: "one account".to_owned(),
    });
    assert_eq!(settled.state, "settled");
    assert_eq!(
        settled.reason.as_deref(),
        Some("one_account_two_instruments")
    );
    assert_eq!(settled.explanation.as_deref(), Some("one account"));
    let rejected = ImportRowDto::from_domain(&HeldRow::Rejected {
        row: 3,
        rejection: Rejection {
            field: "f".to_owned(),
            expected: "e".to_owned(),
            actual: "a".to_owned(),
        },
    });
    assert_eq!(rejected.state, "rejected");
    assert_eq!(rejected.row, 3);
    assert_eq!(rejected.actual.as_deref(), Some("a"));
}

#[test]
fn a_recorded_event_is_inserted_or_a_duplicate() {
    let inserted = RecordedEventDto::from_domain(&Recorded::Inserted { id: EventId(id(1)) });
    assert_eq!(inserted.outcome, "inserted");
    assert_eq!(inserted.event, id(1));
    let duplicate = RecordedEventDto::from_domain(&Recorded::Duplicate {
        existing: EventId(id(2)),
    });
    assert_eq!(duplicate.outcome, "duplicate");
    assert_eq!(duplicate.event, id(2));
}

fn total() -> BatchTotal {
    BatchTotal {
        account: AccountId(id(3)),
        currency: CurrencyCode::Rub,
        rows: 2,
        debit: 500,
        credit: 750,
        net: -250,
    }
}

fn section() -> ControlSection {
    ControlSection {
        account: AccountId(id(3)),
        currency: CurrencyCode::Rub,
        period: Period {
            from: date(2026, 1, 1),
            to: date(2026, 1, 31),
        },
        opening: Some(100),
        closing: None,
        debit_turnover: Some(500),
        credit_turnover: Some(7),
    }
}

fn control() -> ControlReconciliation {
    ControlReconciliation {
        comparisons: vec![
            ControlComparison {
                account: AccountId(id(3)),
                currency: CurrencyCode::Rub,
                stated: Some(section()),
                observed: total(),
                checks: vec![
                    ControlCheck::Matched {
                        figure: ControlFigure::DebitTurnover,
                        claimed: 500,
                        observed: 500,
                    },
                    ControlCheck::Mismatched {
                        figure: ControlFigure::CreditTurnover,
                        claimed: 7,
                        observed: 750,
                        delta: -743,
                    },
                    ControlCheck::NotChecked {
                        figure: ControlFigure::ClosingBalance,
                        claimed: 1,
                        reason: NotChecked::OpeningBalanceNotStated,
                    },
                ],
                fit: Some(IntervalFit {
                    outside: 2,
                    undated: 1,
                    span: Some(Period {
                        from: date(2026, 2, 1),
                        to: date(2026, 2, 3),
                    }),
                }),
            },
            ControlComparison {
                account: AccountId(id(4)),
                currency: CurrencyCode::Usd,
                stated: None,
                observed: total(),
                checks: Vec::new(),
                fit: None,
            },
        ],
    }
}

#[test]
fn control_figures_are_compared_on_the_page() {
    let dto = ControlReconciliationDto::from_domain(&control(), &units());
    assert_eq!(dto.mismatched_figures, 1);
    assert_eq!(dto.rows_outside_interval, 3);
    let first = &dto.comparisons[0];
    assert_eq!(first.observed.debit, "5.00");
    assert_eq!(first.observed.net, "-2.50");
    assert_eq!(first.checks[0].figure, "debit_turnover");
    assert_eq!(first.checks[0].outcome, "matched");
    assert_eq!(first.checks[0].observed.as_deref(), Some("5.00"));
    assert_eq!(first.checks[0].delta, None);
    assert_eq!(first.checks[1].outcome, "mismatched");
    assert_eq!(first.checks[1].delta.as_deref(), Some("-7.43"));
    assert_eq!(first.checks[2].outcome, "not_checked");
    assert_eq!(first.checks[2].claimed, "0.01");
    assert_eq!(first.checks[2].observed, None);
    assert_eq!(
        first.checks[2].reason.as_deref(),
        Some("opening_balance_not_stated")
    );
    let fit = first.fit.expect("a stated interval");
    assert_eq!(fit.outside_from, Some(date(2026, 2, 1)));
    assert_eq!(fit.outside_to, Some(date(2026, 2, 3)));
    assert!(dto.comparisons[1].stated.is_none());
    assert!(dto.comparisons[1].fit.is_none());
    let nothing = ControlReconciliationDto::from_domain(
        &ControlReconciliation {
            comparisons: Vec::new(),
        },
        &units(),
    );
    assert_eq!(nothing.mismatched_figures, 0);
    assert_eq!(nothing.rows_outside_interval, 0);
}

#[test]
fn a_control_section_prints_what_was_stated() {
    let dto = ControlSectionDto::from_domain(&section(), &units());
    assert_eq!(dto.opening.as_deref(), Some("1.00"));
    assert_eq!(dto.closing, None);
    assert_eq!(dto.credit_turnover.as_deref(), Some("0.07"));
    assert_eq!(dto.period_to, date(2026, 1, 31));
    let inside = IntervalFitDto::from_domain(IntervalFit {
        outside: 0,
        undated: 4,
        span: None,
    });
    assert_eq!(inside.outside_from, None);
    assert_eq!(inside.outside_to, None);
    let gold = ControlCheckDto::from_domain(
        &ControlCheck::Matched {
            figure: ControlFigure::ClosingBalance,
            claimed: 12_345,
            observed: 12_345,
        },
        CurrencyCode::Xau,
        &units(),
    );
    assert_eq!(gold.claimed, "1.2345");
}

fn fact(row: u32, settled_by: FactBasis) -> PlannedFact {
    PlannedFact {
        row,
        account: AccountId(id(3)),
        records_as: "cash_out".to_owned(),
        settled_by,
        settled_by_explanation: "why".to_owned(),
        amount_minor: -1050,
        currency: CurrencyCode::Rub,
        date: Some(date(2026, 1, 9)),
        idempotency_key: None,
    }
}

fn leg(origin: LegOrigin) -> CashLeg {
    CashLeg {
        origin,
        account: AccountId(id(3)),
        direction: Movement::Out,
        amount_minor: 1050,
        currency: CurrencyCode::Rub,
        date: date(2026, 1, 9),
        reference: Some("ref".to_owned()),
        import: Some(ImportId(id(14))),
    }
}

fn shared(currency: Option<CurrencyCode>) -> SharedRow {
    SharedRow {
        account: None,
        currency,
        movement: Some(SharedMovement::NoneStated),
        counterparty: Some("Shop".to_owned()),
        source_category: None,
        description: None,
    }
}

fn group(currency: Option<CurrencyCode>) -> RowGroup {
    RowGroup {
        basis: GroupBasis::OneDecision,
        rows: vec![1, 4],
        common: shared(currency),
        days: Some(DaySpan {
            earliest: date(2026, 1, 1),
            latest: date(2026, 1, 2),
        }),
        amounts: Some(AmountSpan {
            smallest_minor: -500,
            largest_minor: -20,
        }),
        settles: AnswerReach::EveryLikeRowInThisSession,
        question: OwnerQuestion {
            ask: "a".to_owned(),
            consequence: "c".to_owned(),
        },
    }
}

#[test]
fn a_group_publishes_amounts_only_in_one_currency() {
    let one = RowGroupDto::from_domain(&group(Some(CurrencyCode::Rub)), &units());
    let amounts = one.amounts.expect("one currency");
    assert_eq!(amounts.smallest, "-5.00");
    assert_eq!(amounts.largest, "-0.20");
    assert_eq!(one.basis, "one_decision");
    assert_eq!(one.settles, "every_like_row_in_this_session");
    assert_eq!(one.common.direction.as_deref(), Some("unstated"));
    let two = RowGroupDto::from_domain(&group(None), &units());
    assert!(two.amounts.is_none());
}

#[test]
fn a_transfer_leg_names_one_origin() {
    let recorded =
        TransferLegDto::from_domain(&leg(LegOrigin::Recorded { event: EventId(id(1)) }), &units());
    assert_eq!(recorded.event, Some(id(1)));
    assert!(recorded.session.is_none() && recorded.row.is_none());
    assert_eq!(recorded.direction, "out");
    assert_eq!(recorded.amount, "10.50");
    let observed = TransferLegDto::from_domain(
        &leg(LegOrigin::Observed {
            session: ImportSessionId(id(12)),
            row: 6,
        }),
        &units(),
    );
    assert!(observed.event.is_none());
    assert_eq!(observed.session, Some(id(12)));
    assert_eq!(observed.row, Some(6));
    assert_eq!(movement_code(Movement::In), "in");
}

#[test]
fn settled_and_retained_rows_name_one_ground() {
    let account = SettledRowDto::from_domain(&SettledRow {
        row: 1,
        reason: NoFactReason::OneAccountTwoInstruments {
            account: AccountId(id(3)),
        },
        explanation: "e".to_owned(),
    });
    assert_eq!(account.account, Some(id(3)));
    assert_eq!(account.records, None);
    let movement = SettledRowDto::from_domain(&SettledRow {
        row: 2,
        reason: NoFactReason::SecondLegOfOneMovement { records: 1 },
        explanation: "e".to_owned(),
    });
    assert_eq!(movement.account, None);
    assert_eq!(movement.records, Some(1));
    let unreadable = RetainedRowDto::from_domain(&RetainedRow {
        row: 3,
        reason: RetentionReason::Unreadable {
            field: "f".to_owned(),
            expected: "e".to_owned(),
            actual: "a".to_owned(),
        },
    });
    assert_eq!(unreadable.reason, "unreadable");
    assert_eq!(unreadable.field.as_deref(), Some("f"));
    assert!(unreadable.question.is_none());
    let unanswered = RetainedRowDto::from_domain(&RetainedRow {
        row: 4,
        reason: RetentionReason::Unanswered {
            question: ImportQuestionId(id(11)),
        },
    });
    assert_eq!(unanswered.reason, "unanswered");
    assert_eq!(unanswered.question, Some(id(11)));
    assert!(unanswered.field.is_none());
}

#[test]
fn a_resemblance_proves_nothing() {
    let dto = ResemblingRowDto::from_domain(
        &ResemblingRow {
            fact: fact(2, FactBasis::Directory),
            resembles: EventId(id(70)),
        },
        &units(),
    );
    assert_eq!(dto.match_level, 5);
    assert_eq!(dto.resembles, id(70));
    assert_eq!(dto.settled_by, "directory");
    assert_eq!(dto.amount, "-10.50");
}

#[test]
fn a_readiness_says_what_stands_in_the_way() {
    assert_eq!(readiness_detail(&Readiness::Ready), None);
    assert_eq!(
        readiness_detail(&Readiness::Blocked {
            reason: "no source".to_owned()
        })
        .as_deref(),
        Some("no source")
    );
    assert_eq!(
        readiness_detail(&Readiness::RequiresOwnerDecision {
            unanswered_questions: 12,
            transfer_candidates: 0,
            rows_resembling_recorded: 3,
        })
        .as_deref(),
        Some(
            "12 question(s) unanswered, 0 transfer candidate(s) unconfirmed, 3 row(s) resembling \
             facts the journal already holds; see commit_delta.resembles_recorded"
        )
    );
    assert_eq!(
        readiness_detail(&Readiness::DoesNotReconcile {
            mismatched_figures: 1,
            misplaced_rows: 20,
        })
        .as_deref(),
        Some(
            "1 control figure(s) the source printed do not agree with the rows, and 20 row(s) \
             fall outside the interval it states; see control_reconciliation"
        )
    );
}

fn plan(readiness: Readiness) -> ImportPlan {
    ImportPlan {
        session: session(),
        revision: "rev".to_owned(),
        source_inventory: SourceInventory {
            source: Some(SourceId(id(13))),
            import: None,
            documents: vec!["d".to_owned()],
            rows: 9,
            period: Some(Period {
                from: date(2026, 1, 1),
                to: date(2026, 1, 31),
            }),
            accounts: vec![AccountId(id(3))],
        },
        account_resolution: AccountResolution {
            resolved: vec![AccountId(id(3))],
            missing: vec![AccountId(id(4))],
            conflicting: vec!["both".to_owned()],
            unrecognised: Vec::new(),
        },
        scope_assessment: ScopeAssessment {
            in_contour: vec![AccountId(id(3))],
            explicitly_outside: Vec::new(),
            awaiting_disposition: vec![AccountId(id(4))],
        },
        interpretation: Interpretation {
            resolved: vec![fact(
                1,
                FactBasis::Rule {
                    rule: "the rule".to_owned(),
                    version: 2,
                },
            )],
            open_questions: vec![OpenQuestion {
                row: 5,
                question: ImportQuestionId(id(11)),
                prompt: "p".to_owned(),
                printed: Some(PrintedRow {
                    account: AccountId(id(3)),
                    title: Some("Main".to_owned()),
                    institution: None,
                    amount_minor: -20,
                    currency: CurrencyCode::Usd,
                    date: None,
                    movement: Some(Movement::Out),
                    counterparty: None,
                    source_category: Some("food".to_owned()),
                }),
                alternatives: vec![alternative(AnswerShape::Fee)],
                alike: vec![6, 7],
                pair: Some(MirroredPair { id: id(80), row: 8 }),
            }],
            offered_rules: vec![OfferedRule {
                matcher: matcher(),
                question: OwnerQuestion {
                    ask: "a".to_owned(),
                    consequence: "c".to_owned(),
                },
                covers: vec![5],
                contains: RowShape {
                    movement: None,
                    counterparty_named: true,
                    rows: vec![5],
                },
            }],
            withheld_offers: vec![WithheldOffer {
                source_category: "transfers".to_owned(),
                covers: vec![6, 7],
                contains: vec![
                    RowShape {
                        movement: Some(Movement::In),
                        counterparty_named: false,
                        rows: vec![6],
                    },
                    RowShape {
                        movement: Some(Movement::Out),
                        counterparty_named: false,
                        rows: vec![7],
                    },
                ],
                reason: "two things".to_owned(),
            }],
            answer_accounts: vec![AccountCandidate {
                id: AccountId(id(3)),
                title: "Main".to_owned(),
                institution: None,
            }],
            groups: vec![group(Some(CurrencyCode::Rub))],
        },
        cross_source_matching: Proposals {
            candidates: vec![PairingCandidate {
                outgoing: leg(LegOrigin::Recorded { event: EventId(id(1)) }),
                incoming: leg(LegOrigin::Recorded { event: EventId(id(2)) }),
                evidence: PairingEvidence {
                    amount_minor: 1050,
                    currency: CurrencyCode::Rub,
                    outgoing_date: date(2026, 1, 9),
                    incoming_date: date(2026, 1, 10),
                    days_apart: 1,
                    outgoing_reference: None,
                    incoming_reference: Some("x".to_owned()),
                    sole_candidate: true,
                },
            }],
            unmatched: vec![leg(LegOrigin::Recorded { event: EventId(id(3)) })],
        },
        commit_delta: CommitDelta {
            facts: vec![fact(1, FactBasis::Concluded)],
            duplicates: vec![fact(2, FactBasis::Concluded), fact(3, FactBasis::Answered)],
            resembles_recorded: vec![ResemblingRow {
                fact: fact(1, FactBasis::Concluded),
                resembles: EventId(id(70)),
            }],
            retained_unrecorded: Vec::new(),
            settled_without_fact: Vec::new(),
            fact_origins: vec![PlannedOrigin {
                account: AccountId(id(3)),
                source: SourceId(id(13)),
                import: None,
            }],
            fact_totals: vec![total()],
            duplicate_totals: Vec::new(),
        },
        control_reconciliation: control(),
        readiness,
    }
}

#[test]
fn a_plan_is_published_whole() {
    let dto = ImportPlanDto::from_domain(
        &plan(Readiness::Blocked {
            reason: "no".to_owned(),
        }),
        &units(),
    );
    assert_eq!(dto.readiness, "blocked");
    assert_eq!(dto.readiness_detail.as_deref(), Some("no"));
    assert_eq!(dto.revision, "rev");
    assert_eq!(dto.source_inventory.row_count, 9);
    assert_eq!(dto.source_inventory.period_to, Some(date(2026, 1, 31)));
    assert_eq!(dto.account_resolution.missing, vec![id(4)]);
    assert_eq!(dto.scope_assessment.awaiting_disposition, vec![id(4)]);
    assert_eq!(
        dto.interpretation.resolved[0].settled_by_rule.as_deref(),
        Some("the rule")
    );
    assert_eq!(dto.interpretation.resolved[0].settled_by, "rule");
    let open = &dto.interpretation.open_questions[0];
    assert_eq!(open.alike, vec![6, 7]);
    assert_eq!(open.pair.map(|pair| pair.row), Some(8));
    let printed = open.printed.as_ref().expect("a printed row");
    assert_eq!(printed.amount, "-0.20");
    assert_eq!(printed.direction.as_deref(), Some("out"));
    assert_eq!(
        dto.interpretation.withheld_offers[0].contains[0]
            .direction
            .as_deref(),
        Some("in")
    );
    assert_eq!(dto.interpretation.offered_rules[0].contains.direction, None);
    assert_eq!(dto.cross_source_matching.candidates.len(), 1);
    assert_eq!(
        dto.cross_source_matching.candidates[0].evidence.amount,
        "10.50"
    );
    assert_eq!(dto.cross_source_matching.without_counterpart.len(), 1);
    assert_eq!(dto.commit_delta.duplicates.len(), 2);
    assert_eq!(dto.commit_delta.facts[0].settled_by_rule, None);
    assert_eq!(dto.commit_delta.fact_totals[0].credit, "7.50");
    assert_eq!(dto.control_reconciliation.mismatched_figures, 1);
    let ready = ImportPlanDto::from_domain(&plan(Readiness::Ready), &units());
    assert_eq!(ready.readiness, "ready");
    assert_eq!(ready.readiness_detail, None);
    let waiting = ImportPlanDto::from_domain(
        &plan(Readiness::DoesNotReconcile {
            mismatched_figures: 1,
            misplaced_rows: 3,
        }),
        &units(),
    );
    assert_eq!(waiting.readiness, "does_not_reconcile");
}

#[test]
fn a_confirmed_pairing_may_already_be_held() {
    let dto = ConfirmedPairingDto::from_domain(&ConfirmedPairing {
        outgoing: EventId(id(1)),
        incoming: EventId(id(2)),
        transfer: None,
    });
    assert_eq!(dto.outgoing, id(1));
    assert_eq!(dto.transfer, None);
}

fn event(relation: Relation) -> JournalEventView {
    JournalEventView {
        event: EventId(id(1)),
        account: AccountId(id(3)),
        effective_date: date(2026, 1, 9),
        sequence: 4,
        source_time: Some(SourceTime {
            hour: 7,
            minute: 5,
            second: 9,
            nanosecond: 123,
        }),
        kind: "trade".to_owned(),
        dates: EventDates {
            trade: Some(date(2026, 1, 8)),
            settled: None,
            cash_posted: None,
            entitlement: None,
            paid: None,
            tax_period_override: Some(2025),
        },
        legs: vec![
            Leg {
                kind: LegKind::Cash,
                account: AccountId(id(3)),
                custody: None,
                instrument: None,
                money: Some(Money::posted(-12_345, 2, CurrencyCode::Usd)),
                quantity: None,
            },
            Leg {
                kind: LegKind::SecurityQuantity,
                account: AccountId(id(3)),
                custody: Some(CustodyId(id(5))),
                instrument: Some(InstrumentId(id(6))),
                money: None,
                quantity: Some(Decimal::new(15, 1)),
            },
        ],
        relation,
        confidence: EventConfidence::Estimated,
        idempotency_key: None,
        source: SourceId(id(13)),
        import: None,
        source_operation_id: None,
        source_category: None,
        source_kind: None,
        description: None,
        import_session: Some(ImportSessionId(id(12))),
    }
}

#[test]
fn a_journal_event_is_read_as_it_is_held() {
    let dto = JournalEventReadDto::from_domain(&event(Relation::Standalone));
    assert_eq!(dto.source_time.as_deref(), Some("07:05:09"));
    assert_eq!(dto.dates.tax_period, Some(2025));
    assert_eq!(dto.legs[0].kind, JournalLegKindDto::Cash);
    assert_eq!(dto.legs[0].amount.as_deref(), Some("-123.45"));
    assert_eq!(dto.legs[0].currency, Some(CurrencyDto::Usd));
    assert_eq!(dto.legs[1].amount, None);
    assert_eq!(dto.legs[1].currency, None);
    assert_eq!(dto.legs[1].quantity.as_deref(), Some("1.5"));
    assert_eq!(dto.confidence, JournalConfidenceDto::Estimated);
    assert_eq!(dto.import_session, Some(id(12)));
    assert_eq!(dto.relation.kind, JournalRelationKindDto::Standalone);
    assert_eq!(dto.relation.target, None);
    let reversal = JournalRelationDto::from_domain(Relation::Reversal {
        target: EventId(id(9)),
    });
    assert_eq!(reversal.kind, JournalRelationKindDto::Reversal);
    assert_eq!(reversal.target, Some(id(9)));
    let replacement = JournalRelationDto::from_domain(Relation::Replacement {
        target: EventId(id(9)),
    });
    assert_eq!(replacement.kind, JournalRelationKindDto::Replacement);
}

#[test]
fn categories_and_their_rules_are_shown() {
    let category = CategoryDto::from_port(CategoryView {
        id: CategoryId(id(1)),
        group: CategoryGroupId(id(2)),
        title: "Food".to_owned(),
        retired_at: None,
    });
    assert_eq!(category.group, id(2));
    let rule = CategoryRuleDto::from_port(CategoryRuleView {
        id: CategoryRuleId(id(3)),
        version: 2,
        matcher: "{}".to_owned(),
        category: CategoryId(id(1)),
        valid_from: None,
        valid_to: Some(date(2026, 1, 1)),
        created_at: "c".to_owned(),
        retired_at: None,
        replaces: Some(CategoryRuleId(id(4))),
    });
    assert_eq!(rule.replaces, Some(id(4)));
    assert_eq!(rule.valid_to, Some(date(2026, 1, 1)));
    let impact = CategoryRuleImpactDto::from_domain(&CategoryRuleImpact {
        rows: 3,
        months: vec![MonthlyImpact {
            month: date(2026, 1, 1),
            moved: vec![CategoryMove {
                from: None,
                to: CategoryId(id(1)),
                amount: Money::posted(1999, 2, CurrencyCode::Eur),
                rows: 3,
            }],
        }],
    });
    assert_eq!(impact.months[0].moved[0].amount, "19.99");
    assert_eq!(impact.months[0].moved[0].from, None);
}

#[test]
fn profiles_and_documents_are_shown() {
    let origin = || ProfileOrigin {
        code: "bundled".to_owned(),
        file: "bank.toml".to_owned(),
    };
    let catalogue = source_profile_catalogue_dto(&ProfileCatalogue {
        installed: vec![InstalledProfile {
            id: "bank".to_owned(),
            version: 3,
            digest: "d".to_owned(),
            issuer: "Bank".to_owned(),
            document_label: None,
            origin: origin(),
            recognised_by: vec!["header".to_owned()],
        }],
        refused: vec![RefusedProfile {
            id: None,
            origin: origin(),
            reason: "broken".to_owned(),
        }],
    });
    assert_eq!(catalogue.profiles[0].origin, "bundled");
    assert_eq!(catalogue.profiles[0].file, "bank.toml");
    assert_eq!(catalogue.refused[0].reason, "broken");
    let document = SourceDocumentDto::from_domain(&DocumentImport {
        session: ImportSessionId(id(12)),
        source: SourceId(id(13)),
        document_hash: "h".to_owned(),
        profile: ReadingProfile {
            id: "bank".to_owned(),
            version: 30,
            digest: "d".to_owned(),
            issuer: "Bank".to_owned(),
            origin: "bundled".to_owned(),
        },
        rows: vec![
            DocumentRow::Unreadable {
                locator: 2,
                rejection: Rejection {
                    field: "f".to_owned(),
                    expected: "e".to_owned(),
                    actual: "a".to_owned(),
                },
            },
            DocumentRow::Held {
                locator: 3,
                held: HeldRow::Held { row: 1 },
            },
        ],
        unresolved_accounts: vec![UnresolvedAccount {
            printed: "card 77".to_owned(),
            records: 4,
        }],
    });
    assert_eq!(document.profile.parser_version, "profile/bank/30");
    assert_eq!(document.rows[0].state, "unreadable");
    assert_eq!(document.rows[0].row, None);
    assert_eq!(document.rows[0].field.as_deref(), Some("f"));
    assert_eq!(document.rows[1].locator, 3);
    assert_eq!(document.rows[1].row, Some(1));
    assert_eq!(document.rows[1].state, "held");
    assert_eq!(document.unresolved_accounts[0].records, 4);
}
