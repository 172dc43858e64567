//! Reading submitted rows, facts and corrections.

use iaam_server::calendar::Date;
use iaam_server::dto::account::{CashAssetClassDto, NegativeBalanceExpectationDto};
use iaam_server::dto::amount::{decimal, minor, minor_amount, optional_minor, AmountDto};
use iaam_server::dto::correction::{CorrectionDto, CustodyRepairCaseDto};
use iaam_server::dto::correction::{CustodyRepairOutcomeDto, ImportCorrectionDto};
use iaam_server::dto::currency::CurrencyDto;
use iaam_server::dto::instrument::AliasNamespaceDto;
use iaam_server::dto::journal_fact::{BasisTransferRuleDto, CorporateActionDto};
use iaam_server::dto::journal_fact::{FractionalTreatmentDto, JournalEventDto};
use iaam_server::dto::journal_fact::{JournalFactDto, OfferExerciseDto};
use iaam_server::dto::kinds::{BasisCertaintyDto, CertaintyDto, DateCertaintyDto};
use iaam_server::dto::kinds::{FeeOriginDto, IncomeKindDto, KnowledgeDto, PriceQualityDto};
use iaam_server::dto::kinds::{TaxOriginDto, TristateDto};
use iaam_server::dto::operation::{OpeningAssertionsDto, OperationDatesDto, OperationDto};
use iaam_server::dto::operation::OperationKindDto;
use iaam_server::ids::{AccountId, EventId, ImportId, SourceId, Uuid};
use iaam_server::ledger::account::{AccountAlias, AccountDetailView, AccountDirectory};
use iaam_server::ledger::account::{CashAssetClass, NegativeBalanceExpectation};
use iaam_server::ledger::correction::{CorrectionRequest, CustodyRepairCase};
use iaam_server::ledger::correction::{CustodyRepairOutcome, ImportCorrectionOutcome};
use iaam_server::ledger::instrument::AliasNamespace;
use iaam_server::ledger::journal_fact::{CorporateAction, JournalFact};
use iaam_server::ledger::kinds::{FeeOrigin, IncomeKind, PriceQuality, TaxOrigin};
use iaam_server::ledger::operation::{FarSide, Intake, ObservedCounterparty};
use iaam_server::ledger::operation::{ObservedDirection, OperationKind};
use iaam_server::ledger::rejection::Rejection;
use iaam_server::money::{CurrencyCode, Decimal, MinorUnits, PostedMoney};

fn units() -> MinorUnits {
    MinorUnits::new(2, 2, 2, 2, 4).expect("ordinary minor units")
}

fn amount(value: &str) -> AmountDto {
    AmountDto {
        amount: value.to_owned(),
        currency: CurrencyDto::Rub,
    }
}

fn date(year: i32, month: u8, day: u8) -> Date {
    Date { year, month, day }
}

fn id(value: u128) -> Uuid {
    Uuid::from_u128(value)
}

fn corporate_action_tag(action: &CorporateActionDto) -> &'static str {
    match action {
        CorporateActionDto::PartialRedemption { .. } => "partial_redemption",
        CorporateActionDto::Redemption { .. } => "redemption",
        CorporateActionDto::Conversion { .. } => "conversion",
    }
}

fn offer_tag(action: &OfferExerciseDto) -> &'static str {
    match action {
        OfferExerciseDto::Submitted { .. } => "submitted",
        OfferExerciseDto::Cancelled { .. } => "cancelled",
        OfferExerciseDto::Settled { .. } => "settled",
    }
}

fn corporate_actions() -> [CorporateActionDto; 3] {
    [
        CorporateActionDto::PartialRedemption {
            instrument: id(1),
            custody: id(2),
            quantity: "10".into(),
            principal_returned_per_unit: amount("100"),
            compensation: amount("1000.00"),
            effective_date: date(2026, 5, 20),
            record_date: Some(date(2026, 5, 18)),
            grounds: None,
        },
        CorporateActionDto::Redemption {
            instrument: id(3),
            custody: id(4),
            quantity: "10".into(),
            principal_returned_per_unit: amount("1000"),
            compensation: amount("10000.00"),
            effective_date: date(2026, 6, 1),
            record_date: None,
            grounds: None,
        },
        CorporateActionDto::Conversion {
            predecessor: id(5),
            successor: id(6),
            custody: id(7),
            ratio: "1".into(),
            quantity_in: "10".into(),
            quantity_out: "10".into(),
            fractional: FractionalTreatmentDto::NotApplicable,
            compensation: None,
            effective_date: date(2026, 7, 1),
            record_date: None,
            grounds: None,
            basis_transfer: BasisTransferRuleDto::CarryOver,
        },
    ]
}

#[test]
fn every_corporate_action_member_names_itself_in_json() {
    for member in &corporate_actions() {
        assert_eq!(member.tag(), corporate_action_tag(member));
        member
            .to_domain(&units())
            .expect("variant reaches the domain layer");
    }
}

#[test]
fn a_corporate_action_keeps_every_amount() {
    let [partial, _, _] = corporate_actions();
    let read = partial.to_domain(&units()).expect("a readable action");
    let CorporateAction::PartialRedemption {
        quantity,
        principal_returned_per_unit,
        compensation,
        record_date,
        ..
    } = read
    else {
        panic!("a partial redemption stays one");
    };
    assert_eq!(quantity.to_text(), "10");
    assert_eq!(principal_returned_per_unit.value.to_text(), "100");
    assert_eq!(compensation.minor, 100_000);
    assert_eq!(record_date, Some(date(2026, 5, 18)));
}

#[test]
fn every_offer_member_names_itself_in_json() {
    let members = [
        OfferExerciseDto::Submitted {
            submission: id(1),
            window: id(2),
            instrument: id(3),
            quantity: "5".into(),
        },
        OfferExerciseDto::Cancelled {
            submission: id(1),
            quantity: "5".into(),
        },
        OfferExerciseDto::Settled {
            submission: id(1),
            instrument: id(3),
            custody: id(4),
            quantity: "5".into(),
            gross: amount("5000.00"),
            fee: Some(amount("10.00")),
            accrued_interest: Some(amount("20.00")),
        },
    ];
    for member in &members {
        assert_eq!(member.tag(), offer_tag(member));
        member
            .to_domain(&units())
            .expect("variant reaches the domain layer");
    }
}

#[test]
fn a_journal_event_is_refused_for_its_first_unreadable_field() {
    let event = JournalEventDto {
        account: id(9),
        fact: JournalFactDto::OfferExercise {
            action: OfferExerciseDto::Settled {
                submission: id(1),
                instrument: id(3),
                custody: id(4),
                quantity: "five".into(),
                gross: amount("x"),
                fee: None,
                accrued_interest: None,
            },
            day: date(2026, 3, 1),
        },
        idempotency_key: None,
        source_operation_id: None,
    };
    let refused = event.to_domain(&units()).expect_err("five is no number");
    assert_eq!(refused.field, "quantity");
    assert_eq!(refused.actual, "five");
    let [_, redemption, _] = corporate_actions();
    let read = JournalEventDto {
        fact: JournalFactDto::CorporateAction { action: redemption },
        ..event
    }
    .to_domain(&units())
    .expect("a readable event");
    assert_eq!(read.account, AccountId(id(9)));
    assert!(matches!(
        read.fact,
        JournalFact::CorporateAction(CorporateAction::Redemption { .. })
    ));
}

fn directory() -> AccountDirectory {
    AccountDirectory::from_accounts(vec![AccountDetailView {
        id: AccountId(id(3)),
        title: "Main".to_owned(),
        institution: None,
        provider: None,
        provider_account_id: None,
        cash_class: None,
        negative_balance_expectation: None,
        aliases: Vec::new(),
    }])
}

fn operation(kind: OperationKindDto) -> OperationDto {
    OperationDto {
        account: id(3).to_text(),
        kind,
        dates: OperationDatesDto::default(),
        idempotency_key: None,
        source_operation_id: None,
        source_category: None,
        source_kind: None,
        description: None,
    }
}

fn income_operation(kind: Option<IncomeKindDto>) -> OperationDto {
    operation(OperationKindDto::Income {
        instrument: Some(id(7)),
        amount: "1200.00".to_owned(),
        currency: CurrencyDto::Rub,
        kind,
    })
}

#[test]
fn the_api_does_not_drop_the_income_kind() {
    assert!(matches!(
        income_operation(Some(IncomeKindDto::Coupon))
            .to_domain(&directory(), &units())
            .unwrap()
            .kind,
        OperationKind::Income {
            kind: Some(IncomeKind::Coupon),
            ..
        }
    ));
    assert!(matches!(
        income_operation(Some(IncomeKindDto::DepositInterest))
            .to_domain(&directory(), &units())
            .unwrap()
            .kind,
        OperationKind::Income {
            kind: Some(IncomeKind::DepositInterest),
            ..
        }
    ));
}

#[test]
fn an_income_without_a_kind_stays_without_one() {
    assert!(matches!(
        income_operation(None)
            .to_domain(&directory(), &units())
            .unwrap()
            .kind,
        OperationKind::Income { kind: None, .. }
    ));
}

#[test]
fn an_income_kind_survives_a_json_round_trip() {
    let dto = income_operation(Some(IncomeKindDto::Dividend));
    assert_eq!(IncomeKindDto::Dividend.code(), "dividend");
    assert!(matches!(
        dto.to_domain(&directory(), &units()).unwrap().kind,
        OperationKind::Income {
            kind: Some(IncomeKind::Dividend),
            ..
        }
    ));
}

#[test]
fn a_decimal_is_read_exactly_or_refused() {
    let number = decimal("-12.340", "price").expect("a number");
    assert_eq!(number, Decimal::new(-12_340, 3));
    assert_eq!(number.to_text(), "-12.340");
    let refused = decimal("12,5", "price").expect_err("a comma is no point");
    assert_eq!(
        refused,
        Rejection {
            field: "price".to_owned(),
            expected: "a decimal number represented as a string".to_owned(),
            actual: "12,5".to_owned(),
        }
    );
    assert!(decimal("", "price").is_err());
}

#[test]
fn every_decimal_number_is_read_back_from_its_text() {
    let largest = "79228162514264337593543950335";
    let smallest = "-7.9228162514264337593543950335";
    let numbers = [
        (79228162514264337593543950335, 0, largest),
        (-79228162514264337593543950335, 28, smallest),
        (79228162514264337593543950335, 28, &smallest[1..]),
        (1, 28, "0.0000000000000000000000000001"),
        (0, 28, "0.0000000000000000000000000000"),
        (-5, 2, "-0.05"),
        (0, 0, "0"),
        (1234567890123456789, 9, "1234567890.123456789"),
    ];
    for (mantissa, scale, text) in numbers {
        let number = Decimal::from_parts(mantissa, scale).expect("a decimal number");
        assert_eq!(number.to_text(), text);
        let read = decimal(text, "price").expect("a number");
        assert_eq!(read.parts(), (mantissa, scale));
    }
    assert!(Decimal::from_parts(79228162514264337593543950336, 0).is_none());
    assert!(Decimal::from_parts(1, 29).is_none());
    assert!(decimal("79228162514264337593543950336", "price").is_err());
    assert_eq!(decimal("-0.00", "price").expect("a zero").parts(), (0, 2));
}

#[test]
fn a_surplus_digit_is_refused_and_never_rounded() {
    let exact = minor("12.34", CurrencyDto::Rub, "amount", &units());
    assert_eq!(exact, Ok(1234));
    assert_eq!(
        minor("12", CurrencyDto::Xau, "amount", &units()),
        Ok(120_000)
    );
    let surplus = minor("12.345", CurrencyDto::Rub, "amount", &units())
        .expect_err("a third digit is no kopeck");
    assert_eq!(surplus.field, "amount");
    assert_eq!(surplus.actual, "12.345");
    let large = minor("99999999999999999999", CurrencyDto::Rub, "amount", &units())
        .expect_err("more than can be posted");
    assert_eq!(
        large.expected,
        "an amount whose number of minor units can be posted"
    );
    assert_eq!(
        optional_minor(None, CurrencyDto::Rub, "fee", &units()),
        Ok(None)
    );
    assert_eq!(
        optional_minor(Some(&"0.5".to_owned()), CurrencyDto::Rub, "fee", &units()),
        Ok(Some(50))
    );
}

#[test]
fn an_amount_printed_in_minor_units_reads_back() {
    for posted in [0_i64, 5, -7, 1234, -100_000, i64::MAX, i64::MIN] {
        let text = minor_amount(posted, CurrencyCode::Xau, &units());
        assert_eq!(
            minor(&text, CurrencyDto::Xau, "amount", &units()),
            Ok(posted)
        );
    }
    assert_eq!(minor_amount(-5, CurrencyCode::Rub, &units()), "-0.05");
    assert_eq!(minor_amount(1517, CurrencyCode::Usd, &units()), "15.17");
    assert!(MinorUnits::new(2, 2, 2, 2, 29).is_none());
}

#[test]
fn an_amount_is_money_or_a_value_per_unit() {
    assert_eq!(
        amount("10.00").to_money("gross", &units()),
        Ok(PostedMoney {
            minor: 1000,
            currency: CurrencyCode::Rub
        })
    );
    let per_unit = amount("10.12345").to_per_unit("price").expect("any scale");
    assert_eq!(per_unit.value.to_text(), "10.12345");
    assert!(amount("10.12345").to_money("price", &units()).is_err());
}

#[test]
fn a_trade_carries_its_fee_twice_and_never_invents_one() {
    let kind = operation(OperationKindDto::Buy {
        instrument: id(1),
        custody: id(2),
        quantity: "3".to_owned(),
        amount: "300.00".to_owned(),
        fee: Some("1.50".to_owned()),
        accrued_interest: None,
        currency: CurrencyDto::Usd,
    })
    .kind_to_domain(&units())
    .expect("a readable purchase");
    let OperationKind::Buy {
        gross_minor,
        fee_minor,
        accrued_interest_minor,
        currency,
        ..
    } = kind
    else {
        panic!("a purchase stays one");
    };
    assert_eq!(gross_minor, 30_000);
    assert_eq!(fee_minor, Some(150));
    assert_eq!(accrued_interest_minor, None);
    assert_eq!(currency, CurrencyCode::Usd);
}

#[test]
fn every_kind_is_read_with_its_own_amounts() {
    let cash = |amount: &str| (amount.to_owned(), CurrencyDto::Rub);
    let (text, currency) = cash("2.50");
    let deposit = operation(OperationKindDto::Deposit {
        amount: text.clone(),
        currency,
    });
    assert_eq!(
        deposit.kind_to_domain(&units()),
        Ok(OperationKind::Deposit {
            amount_minor: 250,
            currency: CurrencyCode::Rub
        })
    );
    let transfer = operation(OperationKindDto::Transfer {
        to_account: id(8),
        amount: text.clone(),
        currency,
    });
    assert_eq!(
        transfer.kind_to_domain(&units()),
        Ok(OperationKind::Transfer {
            to: AccountId(id(8)),
            amount_minor: 250,
            currency: CurrencyCode::Rub
        })
    );
    let fee = operation(OperationKindDto::Fee {
        amount: text.clone(),
        currency,
        origin: FeeOriginDto::MarginInterest,
    });
    assert_eq!(
        fee.kind_to_domain(&units()),
        Ok(OperationKind::Fee {
            amount_minor: 250,
            currency: CurrencyCode::Rub,
            origin: FeeOrigin::MarginInterest
        })
    );
    let tax = operation(OperationKindDto::Tax {
        amount: text.clone(),
        currency,
        origin: TaxOriginDto::WithheldAtSource,
    });
    assert_eq!(
        tax.kind_to_domain(&units()),
        Ok(OperationKind::Tax {
            amount_minor: 250,
            currency: CurrencyCode::Rub,
            origin: TaxOrigin::WithheldAtSource
        })
    );
    let valuation = operation(OperationKindDto::Valuation {
        instrument: id(1),
        price: "99.123".to_owned(),
        currency,
        quality: PriceQualityDto::PreviousClose,
    });
    assert!(matches!(
        valuation.kind_to_domain(&units()),
        Ok(OperationKind::Valuation {
            quality: PriceQuality::PreviousClose,
            ..
        })
    ));
    let refused = operation(OperationKindDto::Withdrawal {
        amount: "2.505".to_owned(),
        currency,
    })
    .kind_to_domain(&units())
    .expect_err("half a kopeck");
    assert_eq!(refused.field, "amount");
}

#[test]
fn an_opening_position_is_refused_in_the_order_of_its_fields() {
    let assertions = OpeningAssertionsDto {
        quantity: CertaintyDto::Known,
        acquisition_date: None,
        acquisition_date_certainty: DateCertaintyDto::Unknown,
        tax_basis: BasisCertaintyDto::Documented,
        basis_currency: Some(CurrencyDto::Eur),
        basis_rate: Some("oops".to_owned()),
        fees_included: TristateDto::Unknown,
        ldv_eligibility: KnowledgeDto::Unknown,
        prior_corporate_actions: KnowledgeDto::Known,
    };
    let position = |quantity: &str, cost: Option<&str>| {
        operation(OperationKindDto::OpeningPosition {
            instrument: id(1),
            custody: id(2),
            quantity: quantity.to_owned(),
            cost_basis: cost.map(str::to_owned),
            currency: CurrencyDto::Rub,
            assertions: Some(assertions.clone()),
        })
        .kind_to_domain(&units())
        .expect_err("a field that cannot be read")
        .field
    };
    assert_eq!(position("many", Some("0.001")), "quantity");
    assert_eq!(position("1", Some("0.001")), "cost_basis");
    assert_eq!(position("1", None), "assertions.basis_rate");
}

fn observed(direction: Option<&str>, far_side: Option<&str>) -> OperationDto {
    OperationDto {
        source_operation_id: Some("row-1".to_owned()),
        idempotency_key: Some("key".to_owned()),
        ..operation(OperationKindDto::UnresolvedDirection {
            amount: "-10.00".to_owned(),
            currency: CurrencyDto::Rub,
            direction: direction.map(str::to_owned),
            counterparty: Some("Shop".to_owned()),
            far_side: far_side.map(str::to_owned),
            source_document: Some("doc".to_owned()),
        })
    }
}

#[test]
fn an_observation_is_taken_in_and_never_concluded() {
    let taken = observed(Some("out"), Some("own_account"))
        .to_intake(&directory(), &units())
        .expect("a readable row");
    let Intake::Observed { row, .. } = taken else {
        panic!("an unresolved direction is no conclusion");
    };
    assert_eq!(row.amount_minor, -1000);
    assert_eq!(row.direction, ObservedDirection::Out);
    assert_eq!(row.far_side, FarSide::OwnAccount);
    assert_eq!(
        row.counterparty,
        ObservedCounterparty::Named("Shop".to_owned())
    );
    assert_eq!(row.account, AccountId(id(3)));
    let refused = observed(None, None)
        .to_domain(&directory(), &units())
        .expect_err("nothing is concluded");
    assert_eq!(refused.field, "type");
    assert_eq!(refused.actual, "unresolved_direction");
}

#[test]
fn an_unknown_direction_or_far_side_is_refused_by_name() {
    let sideways = observed(Some("sideways"), None)
        .to_intake(&directory(), &units())
        .expect_err("no such direction");
    assert_eq!(sideways.field, "direction");
    assert_eq!(sideways.actual, "sideways");
    let elsewhere = observed(Some("in"), Some("elsewhere"))
        .to_intake(&directory(), &units())
        .expect_err("no such far side");
    assert_eq!(elsewhere.field, "far_side");
}

#[test]
fn a_concluded_row_is_taken_in_as_an_operation() {
    let taken = income_operation(None)
        .to_intake(&directory(), &units())
        .expect("a readable row");
    let Intake::Concluded { operation } = taken else {
        panic!("an income is a conclusion");
    };
    assert_eq!(operation.account, AccountId(id(3)));
}

fn account_named(value: u128, title: &str, provider_id: Option<&str>, alias: &str) -> AccountDetailView {
    AccountDetailView {
        id: AccountId(id(value)),
        title: title.to_owned(),
        institution: None,
        provider: None,
        provider_account_id: provider_id.map(str::to_owned),
        cash_class: None,
        negative_balance_expectation: None,
        aliases: vec![AccountAlias {
            value: alias.to_owned(),
            valid_from: date(2020, 1, 1),
            valid_to: None,
        }],
    }
}

#[test]
fn an_account_is_resolved_by_the_first_tier_that_answers() {
    let accounts = AccountDirectory::from_accounts(vec![
        account_named(1, "Card", Some("77"), "card"),
        account_named(2, "77", None, "shared"),
        account_named(3, "Third", None, "shared"),
    ]);
    assert_eq!(
        accounts.resolve_row("00000000-0000-0000-0000-000000000002"),
        Ok(AccountId(id(2)))
    );
    assert_eq!(accounts.resolve_row("77"), Ok(AccountId(id(1))));
    assert_eq!(accounts.resolve_row("card"), Ok(AccountId(id(1))));
    assert_eq!(accounts.resolve_row("Third"), Ok(AccountId(id(3))));
    let twice = accounts.resolve_row("shared").expect_err("two accounts");
    assert_eq!(
        twice.expected,
        "a name of one account, and it names both 77 and Third"
    );
    let nobody = accounts.resolve_row("nobody").expect_err("no account");
    assert_eq!(nobody.expected, "one of the owner's accounts");
    assert_eq!(nobody.actual, "nobody");
}

#[test]
fn an_unknown_account_is_refused_before_the_row_is_read() {
    let stranger = OperationDto {
        account: "nobody".to_owned(),
        ..income_operation(None)
    };
    let refused = stranger
        .to_domain(&directory(), &units())
        .expect_err("no such account");
    assert_eq!(refused.field, "account");
}

#[test]
fn a_correction_names_its_target() {
    let reversal = CorrectionDto::Reversal { target: id(5) }
        .to_domain(&directory(), &units())
        .expect("a reversal");
    assert_eq!(
        reversal,
        CorrectionRequest::Reversal {
            target: EventId(id(5))
        }
    );
    let replacement = CorrectionDto::Replacement {
        target: id(5),
        operation: Box::new(observed(None, None)),
    }
    .to_domain(&directory(), &units())
    .expect_err("an observation replaces nothing");
    assert_eq!(replacement.field, "type");
    let outcome = ImportCorrectionDto::from_domain(ImportCorrectionOutcome {
        source: SourceId(id(1)),
        import: Some(ImportId(id(2))),
        affected: 5,
        already_reversed: 2,
        written: 3,
    });
    assert_eq!(outcome.import, Some(id(2)));
    assert_eq!(outcome.written, 3);
    let repair = CustodyRepairOutcomeDto::from_domain(CustodyRepairOutcome {
        case: CustodyRepairCase::AffectedWithoutLiveAccess,
        affected_trades: 4,
        already_reversed: 1,
        written: 0,
    });
    assert_eq!(repair.case, CustodyRepairCaseDto::AffectedWithoutLiveAccess);
    assert_eq!(repair.affected_trades, 4);
}

#[test]
fn wire_enumerations_stand_for_one_value_each() {
    for class in [
        CashAssetClass::Deposit,
        CashAssetClass::Savings,
        CashAssetClass::CardAccount,
        CashAssetClass::Wallet,
    ] {
        assert_eq!(CashAssetClassDto::from_domain(class).to_domain(), class);
    }
    for expectation in [
        NegativeBalanceExpectation::Unexpected,
        NegativeBalanceExpectation::Ordinary,
    ] {
        assert_eq!(
            NegativeBalanceExpectationDto::from_domain(expectation).to_domain(),
            expectation
        );
    }
    for currency in [
        CurrencyCode::Rub,
        CurrencyCode::Usd,
        CurrencyCode::Eur,
        CurrencyCode::Cny,
        CurrencyCode::Xau,
    ] {
        assert_eq!(CurrencyDto::from_domain(currency).to_domain(), currency);
    }
    let registers = [
        (AliasNamespace::Isin, "isin"),
        (AliasNamespace::MoexSecid, "moex_secid"),
        (AliasNamespace::Ticker, "ticker"),
        (AliasNamespace::Figi, "figi"),
        (AliasNamespace::BrokerCode, "broker_code"),
    ];
    for (namespace, word) in registers {
        let dto = AliasNamespaceDto::from_domain(namespace);
        assert_eq!(dto.to_domain(), namespace);
        assert_eq!(dto.code(), word);
    }
}
