//! The owner's accounts on the wire.

use crate::calendar::Date;
use crate::ids::Uuid;
use crate::ledger::account::{CashAssetClass, NegativeBalanceExpectation};
use vstd::prelude::*;

verus! {

/// What kind of cash an account holds.
#[derive(Debug, Clone, Copy, PartialEq, Eq, Structural)]
pub enum CashAssetClassDto {
    Deposit,
    Savings,
    CardAccount,
    Wallet,
}

impl CashAssetClassDto {
    /// The value of the ledger it stands for.
    pub open spec fn denotes(self) -> CashAssetClass {
        match self {
            Self::Deposit => CashAssetClass::Deposit,
            Self::Savings => CashAssetClass::Savings,
            Self::CardAccount => CashAssetClass::CardAccount,
            Self::Wallet => CashAssetClass::Wallet,
        }
    }

    /// The value of the ledger it stands for.
    pub fn to_domain(self) -> (class: CashAssetClass)
        ensures
            class == self.denotes(),
    {
        match self {
            Self::Deposit => CashAssetClass::Deposit,
            Self::Savings => CashAssetClass::Savings,
            Self::CardAccount => CashAssetClass::CardAccount,
            Self::Wallet => CashAssetClass::Wallet,
        }
    }

    /// The wire value that stands for a value of the ledger.
    pub fn from_domain(class: CashAssetClass) -> (dto: Self)
        ensures
            dto.denotes() == class,
    {
        match class {
            CashAssetClass::Deposit => Self::Deposit,
            CashAssetClass::Savings => Self::Savings,
            CashAssetClass::CardAccount => Self::CardAccount,
            CashAssetClass::Wallet => Self::Wallet,
        }
    }
}

/// What the owner expects a negative balance on an account to mean. A warning,
/// never a constraint.
#[derive(Debug, Clone, Copy, PartialEq, Eq, Structural)]
pub enum NegativeBalanceExpectationDto {
    Unexpected,
    Ordinary,
}

impl NegativeBalanceExpectationDto {
    /// The value of the ledger it stands for.
    pub open spec fn denotes(self) -> NegativeBalanceExpectation {
        match self {
            Self::Unexpected => NegativeBalanceExpectation::Unexpected,
            Self::Ordinary => NegativeBalanceExpectation::Ordinary,
        }
    }

    /// The value of the ledger it stands for.
    pub fn to_domain(self) -> (expectation: NegativeBalanceExpectation)
        ensures
            expectation == self.denotes(),
    {
        match self {
            Self::Unexpected => NegativeBalanceExpectation::Unexpected,
            Self::Ordinary => NegativeBalanceExpectation::Ordinary,
        }
    }

    /// The wire value that stands for a value of the ledger.
    pub fn from_domain(expectation: NegativeBalanceExpectation) -> (dto: Self)
        ensures
            dto.denotes() == expectation,
    {
        match expectation {
            NegativeBalanceExpectation::Unexpected => Self::Unexpected,
            NegativeBalanceExpectation::Ordinary => Self::Ordinary,
        }
    }
}

/// A cash class or an expectation that goes out and comes back is the same one,
/// both ways.
pub proof fn law_declarations_round_trip(
    one: CashAssetClassDto,
    other: CashAssetClassDto,
    class: CashAssetClass,
    here: NegativeBalanceExpectationDto,
    there: NegativeBalanceExpectationDto,
    expectation: NegativeBalanceExpectation,
)
    ensures
        one.denotes() == other.denotes() ==> one == other,
        exists|wire: CashAssetClassDto| wire.denotes() == class,
        here.denotes() == there.denotes() ==> here == there,
        exists|wire: NegativeBalanceExpectationDto| wire.denotes() == expectation,
{
    let wire = match class {
        CashAssetClass::Deposit => CashAssetClassDto::Deposit,
        CashAssetClass::Savings => CashAssetClassDto::Savings,
        CashAssetClass::CardAccount => CashAssetClassDto::CardAccount,
        CashAssetClass::Wallet => CashAssetClassDto::Wallet,
    };
    assert(wire.denotes() == class);
    let wire = match expectation {
        NegativeBalanceExpectation::Unexpected => NegativeBalanceExpectationDto::Unexpected,
        NegativeBalanceExpectation::Ordinary => NegativeBalanceExpectationDto::Ordinary,
    };
    assert(wire.denotes() == expectation);
}

/// A name an account goes by, and since when.
#[derive(Debug, Clone, PartialEq, Eq)]
pub struct AccountAliasDto {
    pub value: String,
    pub valid_from: Date,
    pub valid_to: Option<Date>,
}

/// An account and what the owner declared of it.
#[derive(Debug, Clone, PartialEq, Eq)]
pub struct AccountDto {
    pub id: Uuid,
    pub title: String,
    pub institution: Option<String>,
    pub provider: Option<String>,
    pub provider_account_id: Option<String>,
    pub cash_class: Option<CashAssetClassDto>,
    pub negative_balance_expectation: Option<NegativeBalanceExpectationDto>,
    pub aliases: Vec<AccountAliasDto>,
}

/// The accounts an account exchanges money with. Not stated and stated to be
/// none are two answers.
#[derive(Debug, Clone, PartialEq, Eq)]
pub struct AccountTransferPartnersDto {
    pub account: Uuid,
    pub stated: bool,
    pub partners: Vec<Uuid>,
}

/// A statement of one account's partners. An empty list states that there are
/// none.
#[derive(Debug, Clone, PartialEq, Eq)]
pub struct RecordAccountTransferPartnersRequest {
    pub partners: Vec<Uuid>,
}

/// A statement of one account's partners, inside a batch.
#[derive(Debug, Clone, PartialEq, Eq)]
pub struct AccountTransferPartnersStatementDto {
    pub account: Uuid,
    pub partners: Vec<Uuid>,
}

/// Statements about several accounts, recorded together or not at all.
#[derive(Debug, Clone, PartialEq, Eq)]
pub struct RecordAccountTransferPartnersBatchRequest {
    pub statements: Vec<AccountTransferPartnersStatementDto>,
}

/// What a batch of statements left standing.
#[derive(Debug, Clone, PartialEq, Eq)]
pub struct AccountTransferPartnersBatchDto {
    pub statements: Vec<AccountTransferPartnersDto>,
}

/// An account to open.
#[derive(Debug, Clone, PartialEq, Eq)]
pub struct CreateAccountRequest {
    pub title: String,
    pub institution: Option<String>,
    pub provider: Option<String>,
    pub provider_account_id: Option<String>,
    pub cash_class: Option<CashAssetClassDto>,
    pub negative_balance_expectation: Option<NegativeBalanceExpectationDto>,
    pub aliases: Vec<AccountAliasDto>,
}

/// The aliases that replace the ones an account has.
#[derive(Debug, Clone, PartialEq, Eq)]
pub struct ReplaceAccountAliasesRequest {
    pub aliases: Vec<AccountAliasDto>,
}

/// What the owner states of the account's identity at its provider.
#[derive(Debug, Clone, PartialEq, Eq)]
pub struct AccountIdentityStatementDto {
    pub stated: bool,
    pub provider: Option<String>,
    pub provider_account_id: Option<String>,
}

/// What the owner states of the account's cash class.
#[derive(Debug, Clone, PartialEq, Eq)]
pub struct AccountCashClassStatementDto {
    pub stated: bool,
    pub class: Option<CashAssetClassDto>,
}

/// What the owner states of a negative balance on the account.
#[derive(Debug, Clone, PartialEq, Eq)]
pub struct AccountNegativeBalanceExpectationStatementDto {
    pub stated: bool,
    pub expectation: Option<NegativeBalanceExpectationDto>,
}

/// The declarations to replace. One that is left out stays as it is.
#[derive(Debug, Clone, PartialEq, Eq)]
pub struct ReplaceAccountDeclarationsRequest {
    pub identity: Option<AccountIdentityStatementDto>,
    pub cash_class: Option<AccountCashClassStatementDto>,
    pub negative_balance_expectation: Option<AccountNegativeBalanceExpectationStatementDto>,
}

/// An identity at a provider, both halves of it.
#[derive(Debug, Clone, PartialEq, Eq)]
pub struct AccountIdentityStatedDto {
    pub provider: String,
    pub provider_account_id: String,
}

/// Something that moving an identity did not do.
#[derive(Debug, Clone, PartialEq, Eq)]
pub struct AccountIdentityNotDoneDto {
    pub kind: String,
    pub detail: String,
}

/// An identity that was moved to another account at the provider.
#[derive(Debug, Clone, PartialEq, Eq)]
pub struct AccountIdentityRepointedDto {
    pub previous: AccountIdentityStatedDto,
    pub facts_recorded: bool,
    pub not_done: Vec<AccountIdentityNotDoneDto>,
}

/// The account as it stands after its declarations were replaced.
#[derive(Debug, Clone, PartialEq, Eq)]
pub struct AccountDeclarationsDto {
    pub account: AccountDto,
    pub identity_repointed: Option<AccountIdentityRepointedDto>,
}

/// Whether an account is inside the owner's perimeter.
#[derive(Debug, Clone, Copy, PartialEq, Eq, Structural)]
pub enum AccountScopeDispositionDto {
    Inside,
    Outside,
    Undecided,
}

/// Whose account a printed name is.
#[derive(Debug, Clone, Copy, PartialEq, Eq, Structural)]
pub enum AccountNameDispositionDto {
    Mine,
    NotMine,
    Undecided,
}

/// Whether an account is still in use.
#[derive(Debug, Clone, Copy, PartialEq, Eq, Structural)]
pub enum AccountRetirementStateDto {
    InUse,
    Retired,
}

/// An account, whether it is inside the perimeter, and the contours that hold
/// it.
#[derive(Debug, Clone, PartialEq, Eq)]
pub struct AccountScopeDto {
    pub account: Uuid,
    pub title: String,
    pub institution: Option<String>,
    pub disposition: AccountScopeDispositionDto,
    pub reason: Option<String>,
    pub contours: Vec<Uuid>,
}

/// The owner's decision about the perimeter.
#[derive(Debug, Clone, PartialEq, Eq)]
pub struct RecordAccountScopeRequest {
    pub disposition: AccountScopeDispositionDto,
    pub reason: Option<String>,
}

/// The owner's decision about a printed name.
#[derive(Debug, Clone, PartialEq, Eq)]
pub struct RecordAccountNameDispositionRequest {
    pub printed: String,
    pub disposition: AccountNameDispositionDto,
    pub reason: Option<String>,
}

/// A printed name and whose it is.
#[derive(Debug, Clone, PartialEq, Eq)]
pub struct PrintedAccountNameDto {
    pub printed: String,
    pub disposition: AccountNameDispositionDto,
    pub reason: Option<String>,
}

/// Whether an account is in use, since when, and how often that was said.
#[derive(Debug, Clone, PartialEq, Eq)]
pub struct AccountRetirementDto {
    pub account: Uuid,
    pub title: String,
    pub institution: Option<String>,
    pub state: AccountRetirementStateDto,
    pub effective_on: Option<Date>,
    pub revision: u32,
}

/// The owner's decision to retire an account or to take it back.
#[derive(Debug, Clone, PartialEq, Eq)]
pub struct RecordAccountRetirementRequest {
    pub state: AccountRetirementStateDto,
    pub effective_on: Option<Date>,
}

/// Each `CashAssetClassDto` denotes its namesake in the ledger, and no two denote one.
pub proof fn law_cash_asset_class_denotes_its_namesake(dto: CashAssetClassDto)
    ensures
        dto is Deposit <==> dto.denotes() is Deposit,
        dto is Savings <==> dto.denotes() is Savings,
        dto is CardAccount <==> dto.denotes() is CardAccount,
        dto is Wallet <==> dto.denotes() is Wallet,
{
}

/// Each `NegativeBalanceExpectationDto` denotes its namesake in the ledger, and no two denote one.
pub proof fn law_negative_balance_expectation_denotes_its_namesake(dto: NegativeBalanceExpectationDto)
    ensures
        dto is Unexpected <==> dto.denotes() is Unexpected,
        dto is Ordinary <==> dto.denotes() is Ordinary,
{
}

} // verus!
