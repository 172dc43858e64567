//! Operations a caller submits, and their reading into the ledger's terms.

use crate::calendar::Date;
use crate::dto::amount::{decimal, minor, optional_minor};
use crate::dto::amount;
use crate::dto::currency::CurrencyDto;
use crate::dto::kinds::{
    BasisCertaintyDto, CertaintyDto, DateCertaintyDto, FeeOriginDto, IncomeKindDto, KnowledgeDto,
    PriceQualityDto, TaxOriginDto, TristateDto,
};
use crate::ids::{AccountId, CustodyId, InstrumentId, Uuid};
use crate::ledger::account::AccountDirectory;
use crate::ledger::kinds::IncomeKind;
use crate::ledger::operation::{
    FarSide, Intake, ObservedCounterparty, ObservedDirection, ObservedRow, OpeningAssertions,
    OperationDates, OperationKind, RowIdentity, SubmittedOperation,
};
use crate::ledger::rejection::{Rejection, RejectionView};
use crate::ledger::rejection;
use crate::money::{CurrencyCode, Decimal, MinorUnits};
use crate::money;
use crate::relate;
use vstd::prelude::*;

verus! {

/// The dates of an operation. Each may be left out.
#[derive(Debug, Clone, Copy, PartialEq, Eq, Structural)]
pub struct OperationDatesDto {
    pub trade: Option<Date>,
    pub settled: Option<Date>,
    pub cash_posted: Option<Date>,
    pub paid: Option<Date>,
}

impl Default for OperationDatesDto {
    fn default() -> (dates: Self)
        ensures
            dates.trade is None,
            dates.settled is None,
            dates.cash_posted is None,
            dates.paid is None,
    {
        Self { trade: None, settled: None, cash_posted: None, paid: None }
    }
}

impl OperationDatesDto {
    /// Whether these are the same four dates.
    pub open spec fn states(self, dates: OperationDates) -> bool {
        &&& dates.trade == self.trade
        &&& dates.settled == self.settled
        &&& dates.cash_posted == self.cash_posted
        &&& dates.paid == self.paid
    }

    fn to_domain(&self) -> (dates: OperationDates)
        ensures
            self.states(dates),
    {
        OperationDates {
            trade: self.trade,
            settled: self.settled,
            cash_posted: self.cash_posted,
            paid: self.paid,
        }
    }
}

/// What the caller asserts about a position the history opens with.
#[derive(Debug, Clone, PartialEq, Eq)]
pub struct OpeningAssertionsDto {
    pub quantity: CertaintyDto,
    pub acquisition_date: Option<Date>,
    pub acquisition_date_certainty: DateCertaintyDto,
    pub tax_basis: BasisCertaintyDto,
    pub basis_currency: Option<CurrencyDto>,
    pub basis_rate: Option<String>,
    pub fees_included: TristateDto,
    pub ldv_eligibility: KnowledgeDto,
    pub prior_corporate_actions: KnowledgeDto,
}

impl OpeningAssertionsDto {
    /// Whether these are the assertions the caller stated.
    pub open spec fn states(self, assertions: OpeningAssertions) -> bool {
        &&& assertions.quantity == self.quantity.denotes()
        &&& assertions.acquisition_date == self.acquisition_date
        &&& assertions.acquisition_date_certainty == self.acquisition_date_certainty.denotes()
        &&& assertions.tax_basis == self.tax_basis.denotes()
        &&& relate::both(
            self.basis_currency,
            assertions.basis_currency,
            |dto: CurrencyDto, currency: CurrencyCode| dto.denotes() == currency,
        )
        &&& relate::both(
            self.basis_rate,
            assertions.basis_rate,
            |raw: String, rate: Decimal| amount::decimal_states(raw@, rate),
        )
        &&& assertions.fees_included == self.fees_included.denotes()
        &&& assertions.ldv_eligibility == self.ldv_eligibility.denotes()
        &&& assertions.prior_corporate_actions == self.prior_corporate_actions.denotes()
    }

    /// The refusal of the assertions: only the rate can be refused.
    pub open spec fn refusal(self) -> Option<RejectionView> {
        match self.basis_rate {
            Some(raw) => amount::decimal_refusal(raw@, "assertions.basis_rate"@),
            None => None,
        }
    }

    /// The assertions in the ledger's terms.
    pub fn to_domain(&self) -> (read: Result<OpeningAssertions, Rejection>)
        ensures
            match read {
                Ok(assertions) => self.states(assertions) && self.refusal() is None,
                Err(rejection) => self.refusal() == Some(rejection@),
            },
    {
        let basis_rate = match &self.basis_rate {
            Some(raw) => match decimal(raw.as_str(), "assertions.basis_rate") {
                Ok(rate) => Some(rate),
                Err(rejection) => {
                    return Err(rejection);
                },
            },
            None => None,
        };
        Ok(
            OpeningAssertions {
                quantity: self.quantity.to_domain(),
                acquisition_date: self.acquisition_date,
                acquisition_date_certainty: self.acquisition_date_certainty.to_domain(),
                tax_basis: self.tax_basis.to_domain(),
                basis_currency: self.basis_currency.map(CurrencyDto::to_domain),
                basis_rate,
                fees_included: self.fees_included.to_domain(),
                ldv_eligibility: self.ldv_eligibility.to_domain(),
                prior_corporate_actions: self.prior_corporate_actions.to_domain(),
            },
        )
    }
}

/// What a row was, and the scale every amount of it is stated in.
///
/// The sign is carried by the kind and never by the number, with one exception:
/// an unresolved direction transcribes the sign the source printed.
#[derive(Debug, Clone, PartialEq, Eq)]
pub enum OperationKindDto {
    Deposit { amount: String, currency: CurrencyDto },
    Withdrawal { amount: String, currency: CurrencyDto },
    Refund { amount: String, currency: CurrencyDto },
    Transfer { to_account: Uuid, amount: String, currency: CurrencyDto },
    Buy {
        instrument: Uuid,
        custody: Uuid,
        quantity: String,
        amount: String,
        fee: Option<String>,
        accrued_interest: Option<String>,
        currency: CurrencyDto,
    },
    Sell {
        instrument: Uuid,
        custody: Uuid,
        quantity: String,
        amount: String,
        fee: Option<String>,
        accrued_interest: Option<String>,
        currency: CurrencyDto,
    },
    Income {
        instrument: Option<Uuid>,
        amount: String,
        currency: CurrencyDto,
        kind: Option<IncomeKindDto>,
    },
    Fee { amount: String, currency: CurrencyDto, origin: FeeOriginDto },
    Tax { amount: String, currency: CurrencyDto, origin: TaxOriginDto },
    OpeningCash { amount: String, currency: CurrencyDto },
    OpeningPosition {
        instrument: Uuid,
        custody: Uuid,
        quantity: String,
        cost_basis: Option<String>,
        currency: CurrencyDto,
        assertions: Option<OpeningAssertionsDto>,
    },
    Valuation {
        instrument: Uuid,
        price: String,
        currency: CurrencyDto,
        quality: PriceQualityDto,
    },
    UnresolvedDirection {
        amount: String,
        currency: CurrencyDto,
        direction: Option<String>,
        counterparty: Option<String>,
        far_side: Option<String>,
        source_document: Option<String>,
    },
}

impl OperationKindDto {
    /// Why the kind is no conclusion: the refusal of the first field, in the
    /// order the fields are read, that is refused.
    pub open spec fn refusal(self, units: MinorUnits) -> Option<RejectionView> {
        match self {
            Self::Deposit { amount, currency } => amount::minor_refusal(
                amount@,
                currency,
                "amount"@,
                units,
            ),
            Self::Withdrawal { amount, currency } => amount::minor_refusal(
                amount@,
                currency,
                "amount"@,
                units,
            ),
            Self::Refund { amount, currency } => amount::minor_refusal(
                amount@,
                currency,
                "amount"@,
                units,
            ),
            Self::Transfer { to_account, amount, currency } => amount::minor_refusal(
                amount@,
                currency,
                "amount"@,
                units,
            ),
            Self::Buy {
                instrument,
                custody,
                quantity,
                amount,
                fee,
                accrued_interest,
                currency,
            } => trade_refusal(quantity, amount, fee, accrued_interest, currency, units),
            Self::Sell {
                instrument,
                custody,
                quantity,
                amount,
                fee,
                accrued_interest,
                currency,
            } => trade_refusal(quantity, amount, fee, accrued_interest, currency, units),
            Self::Income { instrument, amount, currency, kind } => amount::minor_refusal(
                amount@,
                currency,
                "amount"@,
                units,
            ),
            Self::Fee { amount, currency, origin } => amount::minor_refusal(
                amount@,
                currency,
                "amount"@,
                units,
            ),
            Self::Tax { amount, currency, origin } => amount::minor_refusal(
                amount@,
                currency,
                "amount"@,
                units,
            ),
            Self::OpeningCash { amount, currency } => amount::minor_refusal(
                amount@,
                currency,
                "amount"@,
                units,
            ),
            Self::OpeningPosition {
                instrument,
                custody,
                quantity,
                cost_basis,
                currency,
                assertions,
            } => rejection::first(
                amount::decimal_refusal(quantity@, "quantity"@),
                rejection::first(
                    amount::optional_minor_refusal(cost_basis, currency, "cost_basis"@, units),
                    match assertions {
                        Some(assertions) => assertions.refusal(),
                        None => None,
                    },
                ),
            ),
            Self::Valuation { instrument, price, currency, quality } => amount::decimal_refusal(
                price@,
                "price"@,
            ),
            Self::UnresolvedDirection {
                amount,
                currency,
                direction,
                counterparty,
                far_side,
                source_document,
            } => Some(
                RejectionView {
                    field: "type"@,
                    expected: "an operation whose kind states what happened"@,
                    actual: "unresolved_direction"@,
                },
            ),
        }
    }

    /// Whether a kind of the ledger is the one the caller stated.
    pub open spec fn states(self, units: MinorUnits, kind: OperationKind) -> bool {
        match (self, kind) {
            (
                Self::Deposit { amount, currency },
                OperationKind::Deposit { amount_minor, currency: code },
            ) => amount_states(amount, currency, units, amount_minor, code),
            (
                Self::Withdrawal { amount, currency },
                OperationKind::Withdrawal { amount_minor, currency: code },
            ) => amount_states(amount, currency, units, amount_minor, code),
            (
                Self::Refund { amount, currency },
                OperationKind::Refund { amount_minor, currency: code },
            ) => amount_states(amount, currency, units, amount_minor, code),
            (
                Self::Transfer { to_account, amount, currency },
                OperationKind::Transfer { to, amount_minor, currency: code },
            ) => {
                &&& to.0 == to_account
                &&& amount_states(amount, currency, units, amount_minor, code)
            },
            (
                Self::Buy {
                    instrument,
                    custody,
                    quantity,
                    amount,
                    fee,
                    accrued_interest,
                    currency,
                },
                OperationKind::Buy {
                    instrument: paper,
                    custody: place,
                    quantity: count,
                    gross_minor,
                    fee_minor,
                    basis_fee,
                    accrued_interest_minor,
                    currency: code,
                },
            ) => {
                &&& paper.0 == instrument
                &&& place.0 == custody
                &&& amount::decimal_states(quantity@, count)
                &&& amount_states(amount, currency, units, gross_minor, code)
                &&& amount::optional_minor_states(fee, currency, units, fee_minor)
                &&& basis_fee is None
                &&& amount::optional_minor_states(
                    accrued_interest,
                    currency,
                    units,
                    accrued_interest_minor,
                )
            },
            (
                Self::Sell {
                    instrument,
                    custody,
                    quantity,
                    amount,
                    fee,
                    accrued_interest,
                    currency,
                },
                OperationKind::Sell {
                    instrument: paper,
                    custody: place,
                    quantity: count,
                    gross_minor,
                    fee_minor,
                    basis_fee,
                    accrued_interest_minor,
                    currency: code,
                },
            ) => {
                &&& paper.0 == instrument
                &&& place.0 == custody
                &&& amount::decimal_states(quantity@, count)
                &&& amount_states(amount, currency, units, gross_minor, code)
                &&& amount::optional_minor_states(fee, currency, units, fee_minor)
                &&& basis_fee is None
                &&& amount::optional_minor_states(
                    accrued_interest,
                    currency,
                    units,
                    accrued_interest_minor,
                )
            },
            (
                Self::Income { instrument, amount, currency, kind },
                OperationKind::Income {
                    instrument: paper,
                    gross_minor,
                    currency: code,
                    kind: earning,
                },
            ) => {
                &&& relate::both(
                    instrument,
                    paper,
                    |uuid: Uuid, id: InstrumentId| uuid == id.0,
                )
                &&& amount_states(amount, currency, units, gross_minor, code)
                &&& relate::both(
                    kind,
                    earning,
                    |dto: IncomeKindDto, kind: IncomeKind| dto.denotes() == kind,
                )
            },
            (
                Self::Fee { amount, currency, origin },
                OperationKind::Fee { amount_minor, currency: code, origin: from },
            ) => {
                &&& amount_states(amount, currency, units, amount_minor, code)
                &&& from == origin.denotes()
            },
            (
                Self::Tax { amount, currency, origin },
                OperationKind::Tax { amount_minor, currency: code, origin: from },
            ) => {
                &&& amount_states(amount, currency, units, amount_minor, code)
                &&& from == origin.denotes()
            },
            (
                Self::OpeningCash { amount, currency },
                OperationKind::OpeningCash { amount_minor, currency: code },
            ) => amount_states(amount, currency, units, amount_minor, code),
            (
                Self::OpeningPosition {
                    instrument,
                    custody,
                    quantity,
                    cost_basis,
                    currency,
                    assertions,
                },
                OperationKind::OpeningPosition {
                    instrument: paper,
                    custody: place,
                    quantity: count,
                    cost_basis_minor,
                    currency: code,
                    assertions: asserted,
                },
            ) => {
                &&& paper.0 == instrument
                &&& place.0 == custody
                &&& amount::decimal_states(quantity@, count)
                &&& amount::optional_minor_states(cost_basis, currency, units, cost_basis_minor)
                &&& code == currency.denotes()
                &&& relate::both(
                    assertions,
                    asserted,
                    |dto: OpeningAssertionsDto, made: OpeningAssertions| dto.states(made),
                )
            },
            (
                Self::Valuation { instrument, price, currency, quality },
                OperationKind::Valuation {
                    instrument: paper,
                    price: value,
                    currency: code,
                    quality: grade,
                },
            ) => {
                &&& paper.0 == instrument
                &&& amount::decimal_states(price@, value)
                &&& code == currency.denotes()
                &&& grade == quality.denotes()
            },
            _ => false,
        }
    }
}

/// Whether a number of minor units and a currency are what an amount and its
/// currency state.
pub open spec fn amount_states(
    amount: String,
    currency: CurrencyDto,
    units: MinorUnits,
    minor: i64,
    code: CurrencyCode,
) -> bool {
    &&& amount::minor_states(amount@, currency, units, minor)
    &&& code == currency.denotes()
}

/// The refusal of a trade: quantity first, the amount, the fee, the accrued
/// interest.
pub open spec fn trade_refusal(
    quantity: String,
    amount: String,
    fee: Option<String>,
    accrued_interest: Option<String>,
    currency: CurrencyDto,
    units: MinorUnits,
) -> Option<RejectionView> {
    rejection::first(
        amount::decimal_refusal(quantity@, "quantity"@),
        rejection::first(
            amount::minor_refusal(amount@, currency, "amount"@, units),
            rejection::first(
                amount::optional_minor_refusal(fee, currency, "fee"@, units),
                amount::optional_minor_refusal(
                    accrued_interest,
                    currency,
                    "accrued_interest"@,
                    units,
                ),
            ),
        ),
    )
}

/// The figures of a trade, read.
struct TradeFigures {
    quantity: Decimal,
    gross_minor: i64,
    fee_minor: Option<i64>,
    accrued_interest_minor: Option<i64>,
}

fn trade_figures(
    quantity: &String,
    amount: &String,
    fee: &Option<String>,
    accrued_interest: &Option<String>,
    currency: CurrencyDto,
    units: &MinorUnits,
) -> (read: Result<TradeFigures, Rejection>)
    ensures
        match read {
            Ok(figures) => {
                &&& trade_refusal(
                    *quantity,
                    *amount,
                    *fee,
                    *accrued_interest,
                    currency,
                    *units,
                ) is None
                &&& amount::decimal_states(quantity@, figures.quantity)
                &&& amount::minor_states(amount@, currency, *units, figures.gross_minor)
                &&& amount::optional_minor_states(*fee, currency, *units, figures.fee_minor)
                &&& amount::optional_minor_states(
                    *accrued_interest,
                    currency,
                    *units,
                    figures.accrued_interest_minor,
                )
            },
            Err(rejection) => trade_refusal(
                *quantity,
                *amount,
                *fee,
                *accrued_interest,
                currency,
                *units,
            ) == Some(rejection@),
        },
{
    let quantity = match decimal(quantity.as_str(), "quantity") {
        Ok(quantity) => quantity,
        Err(rejection) => {
            return Err(rejection);
        },
    };
    let gross_minor: i64 = match minor(amount.as_str(), currency, "amount", units) {
        Ok(minor) => minor,
        Err(rejection) => {
            return Err(rejection);
        },
    };
    let fee_minor: Option<i64> = match optional_minor(fee.as_ref(), currency, "fee", units) {
        Ok(minor) => minor,
        Err(rejection) => {
            return Err(rejection);
        },
    };
    let accrued_interest_minor: Option<i64> = match optional_minor(
        accrued_interest.as_ref(),
        currency,
        "accrued_interest",
        units,
    ) {
        Ok(minor) => minor,
        Err(rejection) => {
            return Err(rejection);
        },
    };
    Ok(TradeFigures { quantity, gross_minor, fee_minor, accrued_interest_minor })
}

/// A complete operation.
#[derive(Debug, Clone, PartialEq, Eq)]
pub struct OperationDto {
    /// The account the row is on, by whatever name the caller has for it.
    pub account: String,
    pub kind: OperationKindDto,
    pub dates: OperationDatesDto,
    pub idempotency_key: Option<String>,
    pub source_operation_id: Option<String>,
    pub source_category: Option<String>,
    pub source_kind: Option<String>,
    pub description: Option<String>,
}

impl OperationDto {
    /// Whether an operation of the ledger is the conclusion the caller stated.
    pub open spec fn states(
        self,
        directory: AccountDirectory,
        units: MinorUnits,
        operation: SubmittedOperation,
    ) -> bool {
        &&& directory.resolves(self.account@, operation.account)
        &&& self.kind.states(units, operation.kind)
        &&& self.dates.states(operation.dates)
        &&& operation.source_time is None
        &&& operation.idempotency_key == self.idempotency_key
        &&& operation.source_operation_id == self.source_operation_id
        &&& operation.source_category == self.source_category
        &&& operation.source_kind == self.source_kind
        &&& operation.description == self.description
    }

    /// Whether a refusal is the one the operation is answered with: the kind is
    /// read first, the account after it.
    pub open spec fn refused_with(
        self,
        directory: AccountDirectory,
        units: MinorUnits,
        refusal: RejectionView,
    ) -> bool {
        match self.kind.refusal(units) {
            Some(first) => refusal == first,
            None => directory.refuses(self.account@, refusal),
        }
    }

    /// Whether a row of the ledger is the observation the caller transcribed.
    pub open spec fn transcribes(
        self,
        directory: AccountDirectory,
        units: MinorUnits,
        row: ObservedRow,
    ) -> bool {
        self.kind matches OperationKindDto::UnresolvedDirection {
            amount,
            currency,
            direction,
            counterparty,
            far_side,
            source_document,
        } && {
            &&& directory.resolves(self.account@, row.account)
            &&& match direction {
                Some(stated) => row.direction.word() == stated@,
                None => row.direction == ObservedDirection::Unknown,
            }
            &&& amount_states(amount, currency, units, row.amount_minor, row.currency)
            &&& match (counterparty, row.counterparty) {
                (Some(name), ObservedCounterparty::Named(named)) => named == name,
                (None, ObservedCounterparty::Unknown) => true,
                _ => false,
            }
            &&& match far_side {
                Some(stated) => row.far_side.word() == stated@,
                None => row.far_side == FarSide::Unstated,
            }
            &&& row.source_kind == self.source_kind
            &&& row.source_category == self.source_category
            &&& row.description == self.description
            &&& self.dates.states(row.dates)
            &&& row.source_time is None
            &&& row.identity.document == source_document
            &&& row.identity.row == self.source_operation_id
            &&& row.identity.idempotency_key == self.idempotency_key
        }
    }

    /// Whether a refusal is the one an observation is answered with: the account
    /// is read first, the direction, the amount and the far side after it.
    pub open spec fn observation_refused_with(
        self,
        directory: AccountDirectory,
        units: MinorUnits,
        refusal: RejectionView,
    ) -> bool {
        self.kind matches OperationKindDto::UnresolvedDirection {
            amount,
            currency,
            direction,
            counterparty,
            far_side,
            source_document,
        } && (directory.refuses(self.account@, refusal) || {
            &&& exists|account: AccountId| directory.resolves(self.account@, account)
            &&& rejection::first(
                match direction {
                    Some(stated) => if ObservedDirection::is_word(stated@) {
                        None
                    } else {
                        Some(ObservedDirection::refusal(stated@))
                    },
                    None => None,
                },
                rejection::first(
                    amount::minor_refusal(amount@, currency, "amount"@, units),
                    match far_side {
                        Some(stated) => if FarSide::is_word(stated@) {
                            None
                        } else {
                            Some(FarSide::refusal(stated@))
                        },
                        None => None,
                    },
                ),
            ) == Some(refusal)
        })
    }

    /// What the caller submitted: a conclusion becomes an operation, and an
    /// observation stays an observation.
    pub fn to_intake(&self, directory: &AccountDirectory, units: &MinorUnits) -> (read: Result<
        Intake,
        Rejection,
    >)
        ensures
            match read {
                Ok(Intake::Concluded { operation }) => !(
                self.kind is UnresolvedDirection) && self.kind.refusal(*units) is None
                    && self.states(*directory, *units, *operation),
                Ok(Intake::Observed { row, reader }) => reader is None && self.transcribes(
                    *directory,
                    *units,
                    *row,
                ),
                Err(rejection) => if self.kind is UnresolvedDirection {
                    self.observation_refused_with(*directory, *units, rejection@)
                } else {
                    self.refused_with(*directory, *units, rejection@)
                },
            },
    {
        match &self.kind {
            OperationKindDto::UnresolvedDirection {
                amount,
                currency,
                direction,
                counterparty,
                far_side,
                source_document,
            } => {
                let account = match directory.resolve_row(self.account.as_str()) {
                    Ok(account) => account,
                    Err(rejection) => {
                        return Err(rejection);
                    },
                };
                let direction = match direction {
                    Some(stated) => match ObservedDirection::parse(stated.as_str()) {
                        Ok(direction) => direction,
                        Err(rejection) => {
                            return Err(rejection);
                        },
                    },
                    None => ObservedDirection::Unknown,
                };
                let amount_minor: i64 = match minor(amount.as_str(), *currency, "amount", units) {
                    Ok(minor) => minor,
                    Err(rejection) => {
                        return Err(rejection);
                    },
                };
                let far_side = match far_side {
                    Some(stated) => match FarSide::parse(stated.as_str()) {
                        Ok(side) => side,
                        Err(rejection) => {
                            return Err(rejection);
                        },
                    },
                    None => FarSide::Unstated,
                };
                let row = ObservedRow {
                    account,
                    direction,
                    amount_minor,
                    currency: currency.to_domain(),
                    counterparty: match counterparty {
                        Some(name) => ObservedCounterparty::Named(name.clone()),
                        None => ObservedCounterparty::Unknown,
                    },
                    far_side,
                    source_kind: self.source_kind.clone(),
                    source_category: self.source_category.clone(),
                    description: self.description.clone(),
                    dates: self.dates.to_domain(),
                    source_time: None,
                    identity: RowIdentity {
                        document: source_document.clone(),
                        row: self.source_operation_id.clone(),
                        idempotency_key: self.idempotency_key.clone(),
                    },
                };
                Ok(Intake::Observed { row: Box::new(row), reader: None })
            },
            _ => match self.to_domain(directory, units) {
                Ok(operation) => Ok(Intake::Concluded { operation: Box::new(operation) }),
                Err(rejection) => Err(rejection),
            },
        }
    }

    /// The conclusion in the ledger's terms.
    pub fn to_domain(&self, directory: &AccountDirectory, units: &MinorUnits) -> (read: Result<
        SubmittedOperation,
        Rejection,
    >)
        ensures
            match read {
                Ok(operation) => self.kind.refusal(*units) is None && self.states(
                    *directory,
                    *units,
                    operation,
                ),
                Err(rejection) => self.refused_with(*directory, *units, rejection@),
            },
    {
        let kind = match self.kind_to_domain(units) {
            Ok(kind) => kind,
            Err(rejection) => {
                return Err(rejection);
            },
        };
        let account = match directory.resolve_row(self.account.as_str()) {
            Ok(account) => account,
            Err(rejection) => {
                return Err(rejection);
            },
        };
        Ok(
            SubmittedOperation {
                account,
                kind,
                dates: self.dates.to_domain(),
                source_time: None,
                idempotency_key: self.idempotency_key.clone(),
                source_operation_id: self.source_operation_id.clone(),
                source_category: self.source_category.clone(),
                source_kind: self.source_kind.clone(),
                description: self.description.clone(),
            },
        )
    }

    /// What the operation was, in the ledger's terms. An unresolved direction is
    /// no conclusion and is refused.
    pub fn kind_to_domain(&self, units: &MinorUnits) -> (read: Result<OperationKind, Rejection>)
        ensures
            match read {
                Ok(kind) => self.kind.refusal(*units) is None && self.kind.states(*units, kind),
                Err(rejection) => self.kind.refusal(*units) == Some(rejection@),
            },
    {
        match &self.kind {
            OperationKindDto::Deposit { amount, currency } => match minor(
                amount.as_str(),
                *currency,
                "amount",
                units,
            ) {
                Ok(amount_minor) => Ok(
                    OperationKind::Deposit { amount_minor, currency: currency.to_domain() },
                ),
                Err(rejection) => Err(rejection),
            },
            OperationKindDto::Withdrawal { amount, currency } => match minor(
                amount.as_str(),
                *currency,
                "amount",
                units,
            ) {
                Ok(amount_minor) => Ok(
                    OperationKind::Withdrawal { amount_minor, currency: currency.to_domain() },
                ),
                Err(rejection) => Err(rejection),
            },
            OperationKindDto::Refund { amount, currency } => match minor(
                amount.as_str(),
                *currency,
                "amount",
                units,
            ) {
                Ok(amount_minor) => Ok(
                    OperationKind::Refund { amount_minor, currency: currency.to_domain() },
                ),
                Err(rejection) => Err(rejection),
            },
            OperationKindDto::Transfer { to_account, amount, currency } => match minor(
                amount.as_str(),
                *currency,
                "amount",
                units,
            ) {
                Ok(amount_minor) => Ok(
                    OperationKind::Transfer {
                        to: AccountId(*to_account),
                        amount_minor,
                        currency: currency.to_domain(),
                    },
                ),
                Err(rejection) => Err(rejection),
            },
            OperationKindDto::Buy {
                instrument,
                custody,
                quantity,
                amount,
                fee,
                accrued_interest,
                currency,
            } => match trade_figures(quantity, amount, fee, accrued_interest, *currency, units) {
                Ok(figures) => Ok(
                    OperationKind::Buy {
                        instrument: InstrumentId(*instrument),
                        custody: CustodyId(*custody),
                        quantity: figures.quantity,
                        gross_minor: figures.gross_minor,
                        fee_minor: figures.fee_minor,
                        basis_fee: None,
                        accrued_interest_minor: figures.accrued_interest_minor,
                        currency: currency.to_domain(),
                    },
                ),
                Err(rejection) => Err(rejection),
            },
            OperationKindDto::Sell {
                instrument,
                custody,
                quantity,
                amount,
                fee,
                accrued_interest,
                currency,
            } => match trade_figures(quantity, amount, fee, accrued_interest, *currency, units) {
                Ok(figures) => Ok(
                    OperationKind::Sell {
                        instrument: InstrumentId(*instrument),
                        custody: CustodyId(*custody),
                        quantity: figures.quantity,
                        gross_minor: figures.gross_minor,
                        fee_minor: figures.fee_minor,
                        basis_fee: None,
                        accrued_interest_minor: figures.accrued_interest_minor,
                        currency: currency.to_domain(),
                    },
                ),
                Err(rejection) => Err(rejection),
            },
            OperationKindDto::Income { instrument, amount, currency, kind } => match minor(
                amount.as_str(),
                *currency,
                "amount",
                units,
            ) {
                Ok(gross_minor) => Ok(
                    OperationKind::Income {
                        instrument: match instrument {
                            Some(id) => Some(InstrumentId(*id)),
                            None => None,
                        },
                        gross_minor,
                        currency: currency.to_domain(),
                        kind: kind.map(IncomeKindDto::to_domain),
                    },
                ),
                Err(rejection) => Err(rejection),
            },
            OperationKindDto::Fee { amount, currency, origin } => match minor(
                amount.as_str(),
                *currency,
                "amount",
                units,
            ) {
                Ok(amount_minor) => Ok(
                    OperationKind::Fee {
                        amount_minor,
                        currency: currency.to_domain(),
                        origin: origin.to_domain(),
                    },
                ),
                Err(rejection) => Err(rejection),
            },
            OperationKindDto::Tax { amount, currency, origin } => match minor(
                amount.as_str(),
                *currency,
                "amount",
                units,
            ) {
                Ok(amount_minor) => Ok(
                    OperationKind::Tax {
                        amount_minor,
                        currency: currency.to_domain(),
                        origin: origin.to_domain(),
                    },
                ),
                Err(rejection) => Err(rejection),
            },
            OperationKindDto::OpeningCash { amount, currency } => match minor(
                amount.as_str(),
                *currency,
                "amount",
                units,
            ) {
                Ok(amount_minor) => Ok(
                    OperationKind::OpeningCash { amount_minor, currency: currency.to_domain() },
                ),
                Err(rejection) => Err(rejection),
            },
            OperationKindDto::OpeningPosition {
                instrument,
                custody,
                quantity,
                cost_basis,
                currency,
                assertions,
            } => {
                let quantity = match decimal(quantity.as_str(), "quantity") {
                    Ok(quantity) => quantity,
                    Err(rejection) => {
                        return Err(rejection);
                    },
                };
                let cost_basis_minor: Option<i64> = match optional_minor(
                    cost_basis.as_ref(),
                    *currency,
                    "cost_basis",
                    units,
                ) {
                    Ok(minor) => minor,
                    Err(rejection) => {
                        return Err(rejection);
                    },
                };
                let assertions = match assertions {
                    Some(stated) => match stated.to_domain() {
                        Ok(assertions) => Some(assertions),
                        Err(rejection) => {
                            return Err(rejection);
                        },
                    },
                    None => None,
                };
                Ok(
                    OperationKind::OpeningPosition {
                        instrument: InstrumentId(*instrument),
                        custody: CustodyId(*custody),
                        quantity,
                        cost_basis_minor,
                        currency: currency.to_domain(),
                        assertions,
                    },
                )
            },
            OperationKindDto::Valuation { instrument, price, currency, quality } => match decimal(
                price.as_str(),
                "price",
            ) {
                Ok(price) => Ok(
                    OperationKind::Valuation {
                        instrument: InstrumentId(*instrument),
                        price,
                        currency: currency.to_domain(),
                        quality: quality.to_domain(),
                    },
                ),
                Err(rejection) => Err(rejection),
            },
            OperationKindDto::UnresolvedDirection {
                amount,
                currency,
                direction,
                counterparty,
                far_side,
                source_document,
            } => Err(
                Rejection::of(
                    "type",
                    "an operation whose kind states what happened",
                    "unresolved_direction",
                ),
            ),
        }
    }
}

/// An observation never becomes a conclusion: a row without a concluded
/// direction is refused as one, whatever else it states.
pub proof fn law_an_observation_is_no_conclusion(
    dto: OperationDto,
    units: MinorUnits,
    kind: OperationKind,
)
    requires
        dto.kind is UnresolvedDirection,
    ensures
        dto.kind.refusal(units) is Some,
        !dto.kind.states(units, kind),
{
}

/// A stated operation has one reading: two kinds of the ledger that both state
/// it are the same kind, and it is not refused with one reading and accepted
/// with another.
pub proof fn law_a_stated_operation_has_one_reading(
    dto: OperationKindDto,
    units: MinorUnits,
    one: OperationKind,
    other: OperationKind,
)
    requires
        dto.states(units, one),
        dto.states(units, other),
    ensures
        one == other,
{
    match (one, other) {
        (
            OperationKind::Buy { quantity: a, .. },
            OperationKind::Buy { quantity: b, .. },
        ) => money::lemma_number_is_its_parts(a, b),
        (
            OperationKind::Sell { quantity: a, .. },
            OperationKind::Sell { quantity: b, .. },
        ) => money::lemma_number_is_its_parts(a, b),
        (
            OperationKind::OpeningPosition { quantity: a, assertions: made, .. },
            OperationKind::OpeningPosition { quantity: b, assertions: said, .. },
        ) => {
            money::lemma_number_is_its_parts(a, b);
            match (made, said) {
                (Some(made), Some(said)) => match (made.basis_rate, said.basis_rate) {
                    (Some(x), Some(y)) => money::lemma_number_is_its_parts(x, y),
                    _ => {},
                },
                _ => {},
            }
        },
        (
            OperationKind::Valuation { price: a, .. },
            OperationKind::Valuation { price: b, .. },
        ) => money::lemma_number_is_its_parts(a, b),
        _ => {},
    }
}

/// Each date is read as that date, and one that is left out stays out.
pub proof fn law_every_date_is_read_as_itself(
    dto: OperationDatesDto,
    dates: OperationDates,
)
    requires
        dto.states(dates),
    ensures
        dates.trade == dto.trade,
        dates.settled == dto.settled,
        dates.cash_posted == dto.cash_posted,
        dates.paid == dto.paid,
{
}

/// Each assertion about an opening position is read as that assertion.
pub proof fn law_every_assertion_is_read_as_itself(
    dto: OpeningAssertionsDto,
    assertions: OpeningAssertions,
)
    requires
        dto.states(assertions),
    ensures
        assertions.quantity == dto.quantity.denotes(),
        assertions.acquisition_date == dto.acquisition_date,
        assertions.acquisition_date_certainty == dto.acquisition_date_certainty.denotes(),
        assertions.tax_basis == dto.tax_basis.denotes(),
        match (dto.basis_currency, assertions.basis_currency) {
            (Some(told), Some(meant)) => told.denotes() == meant,
            (None, None) => true,
            _ => false,
        },
        match (dto.basis_rate, assertions.basis_rate) {
            (Some(told), Some(meant)) => amount::decimal_states(told@, meant),
            (None, None) => true,
            _ => false,
        },
        assertions.fees_included == dto.fees_included.denotes(),
        assertions.ldv_eligibility == dto.ldv_eligibility.denotes(),
        assertions.prior_corporate_actions == dto.prior_corporate_actions.denotes(),
{
}

/// Each part of a stated kind is read as the part of that name: the fee as the fee, the
/// accrued interest as the accrued interest, and an income without a kind as one without.
pub proof fn law_every_part_of_a_kind_is_read_as_itself(
    dto: OperationKindDto,
    units: MinorUnits,
    kind: OperationKind,
)
    requires
        dto.states(units, kind),
    ensures
        match (dto, kind) {
            (
                OperationKindDto::Deposit { amount, currency },
                OperationKind::Deposit { amount_minor, currency: code },
            ) => amount_states(amount, currency, units, amount_minor, code),
            (
                OperationKindDto::Withdrawal { amount, currency },
                OperationKind::Withdrawal { amount_minor, currency: code },
            ) => amount_states(amount, currency, units, amount_minor, code),
            (
                OperationKindDto::Refund { amount, currency },
                OperationKind::Refund { amount_minor, currency: code },
            ) => amount_states(amount, currency, units, amount_minor, code),
            (
                OperationKindDto::Transfer { to_account, amount, currency },
                OperationKind::Transfer { to, amount_minor, currency: code },
            ) => {
                &&& to.0 == to_account
                &&& amount_states(amount, currency, units, amount_minor, code)
            },
            (
                OperationKindDto::Buy {
                    instrument,
                    custody,
                    quantity,
                    amount,
                    fee,
                    accrued_interest,
                    currency,
                },
                OperationKind::Buy {
                    instrument: paper,
                    custody: place,
                    quantity: count,
                    gross_minor,
                    fee_minor,
                    basis_fee,
                    accrued_interest_minor,
                    currency: code,
                },
            ) => {
                &&& paper.0 == instrument
                &&& place.0 == custody
                &&& amount::decimal_states(quantity@, count)
                &&& amount_states(amount, currency, units, gross_minor, code)
                &&& amount::optional_minor_states(fee, currency, units, fee_minor)
                &&& basis_fee is None
                &&& amount::optional_minor_states(
                    accrued_interest,
                    currency,
                    units,
                    accrued_interest_minor,
                )
            },
            (
                OperationKindDto::Sell {
                    instrument,
                    custody,
                    quantity,
                    amount,
                    fee,
                    accrued_interest,
                    currency,
                },
                OperationKind::Sell {
                    instrument: paper,
                    custody: place,
                    quantity: count,
                    gross_minor,
                    fee_minor,
                    basis_fee,
                    accrued_interest_minor,
                    currency: code,
                },
            ) => {
                &&& paper.0 == instrument
                &&& place.0 == custody
                &&& amount::decimal_states(quantity@, count)
                &&& amount_states(amount, currency, units, gross_minor, code)
                &&& amount::optional_minor_states(fee, currency, units, fee_minor)
                &&& basis_fee is None
                &&& amount::optional_minor_states(
                    accrued_interest,
                    currency,
                    units,
                    accrued_interest_minor,
                )
            },
            (
                OperationKindDto::Income { instrument, amount, currency, kind },
                OperationKind::Income {
                    instrument: paper,
                    gross_minor,
                    currency: code,
                    kind: earning,
                },
            ) => {
                &&& relate::both(
                    instrument,
                    paper,
                    |uuid: Uuid, id: InstrumentId| uuid == id.0,
                )
                &&& amount_states(amount, currency, units, gross_minor, code)
                &&& relate::both(
                    kind,
                    earning,
                    |dto: IncomeKindDto, kind: IncomeKind| dto.denotes() == kind,
                )
            },
            (
                OperationKindDto::Fee { amount, currency, origin },
                OperationKind::Fee { amount_minor, currency: code, origin: from },
            ) => {
                &&& amount_states(amount, currency, units, amount_minor, code)
                &&& from == origin.denotes()
            },
            (
                OperationKindDto::Tax { amount, currency, origin },
                OperationKind::Tax { amount_minor, currency: code, origin: from },
            ) => {
                &&& amount_states(amount, currency, units, amount_minor, code)
                &&& from == origin.denotes()
            },
            (
                OperationKindDto::OpeningCash { amount, currency },
                OperationKind::OpeningCash { amount_minor, currency: code },
            ) => amount_states(amount, currency, units, amount_minor, code),
            (
                OperationKindDto::OpeningPosition {
                    instrument,
                    custody,
                    quantity,
                    cost_basis,
                    currency,
                    assertions,
                },
                OperationKind::OpeningPosition {
                    instrument: paper,
                    custody: place,
                    quantity: count,
                    cost_basis_minor,
                    currency: code,
                    assertions: asserted,
                },
            ) => {
                &&& paper.0 == instrument
                &&& place.0 == custody
                &&& amount::decimal_states(quantity@, count)
                &&& amount::optional_minor_states(cost_basis, currency, units, cost_basis_minor)
                &&& code == currency.denotes()
                &&& relate::both(
                    assertions,
                    asserted,
                    |dto: OpeningAssertionsDto, made: OpeningAssertions| dto.states(made),
                )
            },
            (
                OperationKindDto::Valuation { instrument, price, currency, quality },
                OperationKind::Valuation {
                    instrument: paper,
                    price: value,
                    currency: code,
                    quality: grade,
                },
            ) => {
                &&& paper.0 == instrument
                &&& amount::decimal_states(price@, value)
                &&& code == currency.denotes()
                &&& grade == quality.denotes()
            },
            _ => false,
        },
{
}

/// Each part of a concluded operation is read as that part.
pub proof fn law_every_part_of_an_operation_is_read_as_itself(
    dto: OperationDto,
    directory: AccountDirectory,
    units: MinorUnits,
    operation: SubmittedOperation,
)
    requires
        dto.states(directory, units, operation),
    ensures
        directory.resolves(dto.account@, operation.account),
        dto.kind.states(units, operation.kind),
        dto.dates.states(operation.dates),
        operation.source_time is None,
        operation.idempotency_key == dto.idempotency_key,
        operation.source_operation_id == dto.source_operation_id,
        operation.source_category == dto.source_category,
        operation.source_kind == dto.source_kind,
        operation.description == dto.description,
{
}

/// Each part of an observed row is transcribed as that part, and what the source left
/// unsaid stays unsaid.
pub proof fn law_every_part_of_an_observation_is_transcribed(
    dto: OperationDto,
    directory: AccountDirectory,
    units: MinorUnits,
    row: ObservedRow,
)
    requires
        dto.transcribes(directory, units, row),
    ensures
        dto.kind matches OperationKindDto::UnresolvedDirection {
            amount,
            currency,
            direction,
            counterparty,
            far_side,
            source_document,
        } && {
            &&& directory.resolves(dto.account@, row.account)
            &&& match direction {
                Some(stated) => row.direction.word() == stated@,
                None => row.direction == ObservedDirection::Unknown,
            }
            &&& amount_states(amount, currency, units, row.amount_minor, row.currency)
            &&& match (counterparty, row.counterparty) {
                (Some(name), ObservedCounterparty::Named(named)) => named == name,
                (None, ObservedCounterparty::Unknown) => true,
                _ => false,
            }
            &&& match far_side {
                Some(stated) => row.far_side.word() == stated@,
                None => row.far_side == FarSide::Unstated,
            }
            &&& row.source_kind == dto.source_kind
            &&& row.source_category == dto.source_category
            &&& row.description == dto.description
            &&& dto.dates.states(row.dates)
            &&& row.source_time is None
            &&& row.identity.document == source_document
            &&& row.identity.row == dto.source_operation_id
            &&& row.identity.idempotency_key == dto.idempotency_key
        },
{
}

/// A stated kind is read as the kind of that name and as no other: money that left is
/// never read as money that arrived, nor a purchase as a sale.
pub proof fn law_a_kind_is_read_as_its_namesake(
    dto: OperationKindDto,
    units: MinorUnits,
    kind: OperationKind,
)
    requires
        dto.states(units, kind),
    ensures
        dto is Deposit <==> kind is Deposit,
        dto is Withdrawal <==> kind is Withdrawal,
        dto is Refund <==> kind is Refund,
        dto is Transfer <==> kind is Transfer,
        dto is Buy <==> kind is Buy,
        dto is Sell <==> kind is Sell,
        dto is Income <==> kind is Income,
        dto is Fee <==> kind is Fee,
        dto is Tax <==> kind is Tax,
        dto is OpeningCash <==> kind is OpeningCash,
        dto is OpeningPosition <==> kind is OpeningPosition,
        dto is Valuation <==> kind is Valuation,
        !(dto is UnresolvedDirection),
{
}

/// An amount and its currency state a number of minor units where the text is a decimal
/// number that the currency's minor unit is fine enough for, and then exactly that many,
/// in that currency.
pub proof fn law_an_amount_states_its_minor_units(
    amount: String,
    currency: CurrencyDto,
    units: MinorUnits,
    minor: i64,
    code: CurrencyCode,
)
    requires
        amount_states(amount, currency, units, minor, code),
    ensures
        code == currency.denotes(),
        crate::outside::decimal_read(amount@) matches Some((mantissa, scale)) && {
            &&& scale <= units.digits_of(code)
            &&& minor == mantissa * vstd::arithmetic::power::pow(
                10,
                (units.digits_of(code) - scale) as nat,
            )
        },
{
    amount::law_an_amount_reads_as_its_minor_units(amount@, currency, "amount"@, units, minor);
}

/// A kind that states one amount alone is refused exactly where that amount is, and
/// under the name of the amount.
pub proof fn law_a_single_amount_decides_its_kind(dto: OperationKindDto, units: MinorUnits)
    ensures
        match dto {
            OperationKindDto::Deposit { amount, currency } => dto.refusal(units)
                == amount::minor_refusal(amount@, currency, "amount"@, units),
            OperationKindDto::Withdrawal { amount, currency } => dto.refusal(units)
                == amount::minor_refusal(amount@, currency, "amount"@, units),
            OperationKindDto::Refund { amount, currency } => dto.refusal(units)
                == amount::minor_refusal(amount@, currency, "amount"@, units),
            OperationKindDto::Transfer { to_account, amount, currency } => dto.refusal(units)
                == amount::minor_refusal(amount@, currency, "amount"@, units),
            OperationKindDto::Income { instrument, amount, currency, kind } => dto.refusal(units)
                == amount::minor_refusal(amount@, currency, "amount"@, units),
            OperationKindDto::Fee { amount, currency, origin } => dto.refusal(units)
                == amount::minor_refusal(amount@, currency, "amount"@, units),
            OperationKindDto::Tax { amount, currency, origin } => dto.refusal(units)
                == amount::minor_refusal(amount@, currency, "amount"@, units),
            OperationKindDto::OpeningCash { amount, currency } => dto.refusal(units)
                == amount::minor_refusal(amount@, currency, "amount"@, units),
            OperationKindDto::Valuation { instrument, price, currency, quality } => dto.refusal(
                units,
            ) == amount::decimal_refusal(price@, "price"@),
            _ => true,
        },
{
}

/// A trade is refused for the first of its figures that is refused, quantity, amount,
/// fee and accrued interest in this order, and for nothing else.
pub proof fn law_a_trade_is_refused_for_its_first_bad_figure(
    quantity: String,
    amount: String,
    fee: Option<String>,
    accrued_interest: Option<String>,
    currency: CurrencyDto,
    units: MinorUnits,
)
    ensures
        ({
            let refusal = trade_refusal(quantity, amount, fee, accrued_interest, currency, units);
            let by_quantity = amount::decimal_refusal(quantity@, "quantity"@);
            let by_amount = amount::minor_refusal(amount@, currency, "amount"@, units);
            let by_fee = amount::optional_minor_refusal(fee, currency, "fee"@, units);
            let by_accrued = amount::optional_minor_refusal(
                accrued_interest,
                currency,
                "accrued_interest"@,
                units,
            );
            &&& by_quantity is Some ==> refusal == by_quantity
            &&& by_quantity is None && by_amount is Some ==> refusal == by_amount
            &&& by_quantity is None && by_amount is None && by_fee is Some ==> refusal == by_fee
            &&& by_quantity is None && by_amount is None && by_fee is None && by_accrued is Some
                ==> refusal == by_accrued
            &&& by_quantity is None && by_amount is None && by_fee is None && by_accrued is None
                ==> refusal is None
        }),
{
}

/// A purchase and a sale are refused as trades are, and an opening position for the
/// first of its quantity, its cost and its assertions that is refused.
pub proof fn law_a_position_is_refused_for_its_first_bad_figure(
    dto: OperationKindDto,
    units: MinorUnits,
)
    ensures
        dto matches OperationKindDto::Buy {
            instrument,
            custody,
            quantity,
            amount,
            fee,
            accrued_interest,
            currency,
        } ==> dto.refusal(units) == trade_refusal(
            quantity,
            amount,
            fee,
            accrued_interest,
            currency,
            units,
        ),
        dto matches OperationKindDto::Sell {
            instrument,
            custody,
            quantity,
            amount,
            fee,
            accrued_interest,
            currency,
        } ==> dto.refusal(units) == trade_refusal(
            quantity,
            amount,
            fee,
            accrued_interest,
            currency,
            units,
        ),
        dto matches OperationKindDto::OpeningPosition {
            instrument,
            custody,
            quantity,
            cost_basis,
            currency,
            assertions,
        } ==> {
            let by_quantity = amount::decimal_refusal(quantity@, "quantity"@);
            let by_cost = amount::optional_minor_refusal(
                cost_basis,
                currency,
                "cost_basis"@,
                units,
            );
            &&& by_quantity is Some ==> dto.refusal(units) == by_quantity
            &&& by_quantity is None && by_cost is Some ==> dto.refusal(units) == by_cost
            &&& by_quantity is None && by_cost is None && assertions is None ==> dto.refusal(
                units,
            ) is None
            &&& by_quantity is None && by_cost is None && assertions is Some ==> dto.refusal(units)
                == assertions->0.refusal()
        },
{
}

/// Only a stated rate can have assertions refused, and under its own name.
pub proof fn law_only_a_rate_refuses_assertions(dto: OpeningAssertionsDto)
    ensures
        dto.basis_rate is None ==> dto.refusal() is None,
        dto.basis_rate matches Some(raw) ==> dto.refusal() == amount::decimal_refusal(
            raw@,
            "assertions.basis_rate"@,
        ),
{
}

/// An operation is refused for its kind where its kind is refused, and otherwise for its
/// account.
pub proof fn law_the_kind_is_refused_before_the_account(
    dto: OperationDto,
    directory: AccountDirectory,
    units: MinorUnits,
    refusal: RejectionView,
)
    ensures
        dto.kind.refusal(units) is Some ==> (dto.refused_with(directory, units, refusal)
            <==> dto.kind.refusal(units) == Some(refusal)),
        dto.kind.refusal(units) is None ==> (dto.refused_with(directory, units, refusal)
            <==> directory.refuses(dto.account@, refusal)),
{
}

/// An observation is refused for its account first, and then for the first of its
/// direction, its amount and its far side that is refused.
pub proof fn law_an_observation_is_refused_for_its_first_bad_field(
    dto: OperationDto,
    directory: AccountDirectory,
    units: MinorUnits,
    refusal: RejectionView,
)
    requires
        dto.observation_refused_with(directory, units, refusal),
        !directory.refuses(dto.account@, refusal),
    ensures
        exists|account: AccountId| directory.resolves(dto.account@, account),
        dto.kind matches OperationKindDto::UnresolvedDirection {
            amount,
            currency,
            direction,
            counterparty,
            far_side,
            source_document,
        } && {
            let odd_direction = direction matches Some(word) && word@ != "in"@ && word@ != "out"@
                && word@ != "inner"@ && word@ != "unknown"@;
            let by_amount = amount::minor_refusal(amount@, currency, "amount"@, units);
            let odd_side = far_side matches Some(word) && word@ != "own_account"@ && word@
                != "unstated"@;
            &&& odd_direction ==> refusal.field == "direction"@ && refusal.actual == direction->0@
            &&& !odd_direction && by_amount is Some ==> by_amount == Some(refusal)
            &&& !odd_direction && by_amount is None ==> odd_side && refusal.field == "far_side"@
                && refusal.actual == far_side->0@
        },
{
}

} // verus!
