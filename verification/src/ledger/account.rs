//! The owner's accounts and the directory that resolves a printed name to one
//! of them.

use crate::calendar::Date;
use crate::ids::{AccountId, Uuid};
use crate::ledger::rejection::{Rejection, RejectionView};
use crate::outside;
use crate::text::same_text;
use vstd::prelude::*;

verus! {

/// What kind of cash an account holds.
#[derive(Debug, Clone, Copy, PartialEq, Eq, Structural)]
pub enum CashAssetClass {
    Deposit,
    Savings,
    CardAccount,
    Wallet,
}

/// What the owner expects a negative balance to mean.
#[derive(Debug, Clone, Copy, PartialEq, Eq, Structural)]
pub enum NegativeBalanceExpectation {
    Unexpected,
    Ordinary,
}

/// A name a source prints for an account, and when it was valid.
#[derive(Debug, Clone, PartialEq, Eq)]
pub struct AccountAlias {
    pub value: String,
    pub valid_from: Date,
    pub valid_to: Option<Date>,
}

/// One account of the owner's, as the directory holds it.
#[derive(Debug, Clone, PartialEq, Eq)]
pub struct AccountDetailView {
    pub id: AccountId,
    pub title: String,
    pub institution: Option<String>,
    pub provider: Option<String>,
    pub provider_account_id: Option<String>,
    pub cash_class: Option<CashAssetClass>,
    pub negative_balance_expectation: Option<NegativeBalanceExpectation>,
    pub aliases: Vec<AccountAlias>,
}

/// The ways an account can be named, in the order they are tried: by its own
/// identifier, by the identifier its provider prints, by an alias, by its title.
#[derive(Debug, Clone, Copy, PartialEq, Eq, Structural)]
pub enum NameTier {
    Identifier,
    ProviderIdentifier,
    Alias,
    Title,
}

impl AccountDetailView {
    /// Whether a printed name names this account in a tier.
    pub open spec fn answers_to(self, tier: NameTier, printed: Seq<char>) -> bool {
        match tier {
            NameTier::Identifier => outside::uuid_read(printed) == Some(self.id.0.value),
            NameTier::ProviderIdentifier => self.provider_account_id matches Some(id) && id@
                == printed,
            NameTier::Alias => exists|i: int|
                0 <= i < self.aliases@.len() && (#[trigger] self.aliases@[i]).value@ == printed,
            NameTier::Title => self.title@ == printed,
        }
    }

    fn has_alias(&self, printed: &str) -> (has: bool)
        ensures
            has == self.answers_to(NameTier::Alias, printed@),
    {
        let mut next: usize = 0;
        while next < self.aliases.len()
            invariant
                next <= self.aliases@.len(),
                forall|i: int| 0 <= i < next ==> (#[trigger] self.aliases@[i]).value@ != printed@,
            decreases self.aliases@.len() - next,
        {
            if same_text(self.aliases[next].value.as_str(), printed) {
                assert(self.aliases@[next as int].value@ == printed@);
                return true;
            }
            next = next + 1;
        }
        false
    }

    /// Whether a printed name names this account in a tier; `id` is what the
    /// name is as an identifier.
    fn is_named(&self, tier: NameTier, printed: &str, id: Option<Uuid>) -> (named: bool)
        requires
            match id {
                Some(id) => outside::uuid_read(printed@) == Some(id.value),
                None => outside::uuid_read(printed@) is None,
            },
        ensures
            named == self.answers_to(tier, printed@),
    {
        match tier {
            NameTier::Identifier => match id {
                Some(id) => id == self.id.0,
                None => false,
            },
            NameTier::ProviderIdentifier => match &self.provider_account_id {
                Some(id) => same_text(id.as_str(), printed),
                None => false,
            },
            NameTier::Alias => self.has_alias(printed),
            NameTier::Title => same_text(self.title.as_str(), printed),
        }
    }
}

/// The owner's accounts, read once and asked by name.
#[derive(Debug, Clone, PartialEq, Eq)]
pub struct AccountDirectory {
    pub accounts: Vec<AccountDetailView>,
}

impl AccountDirectory {
    /// Whether any account answers to a name in a tier.
    pub open spec fn has_in(self, tier: NameTier, printed: Seq<char>) -> bool {
        exists|i: int|
            0 <= i < self.accounts@.len() && (
                #[trigger] self.accounts@[i]
            ).answers_to(tier, printed)
    }

    /// The first tier in which any account answers to a name.
    pub open spec fn tier_of(self, printed: Seq<char>) -> Option<NameTier> {
        if self.has_in(NameTier::Identifier, printed) {
            Some(NameTier::Identifier)
        } else if self.has_in(NameTier::ProviderIdentifier, printed) {
            Some(NameTier::ProviderIdentifier)
        } else if self.has_in(NameTier::Alias, printed) {
            Some(NameTier::Alias)
        } else if self.has_in(NameTier::Title, printed) {
            Some(NameTier::Title)
        } else {
            None
        }
    }

    /// Whether an account is the only one that answers to a name in a tier.
    pub open spec fn is_sole(self, index: int, tier: NameTier, printed: Seq<char>) -> bool {
        &&& 0 <= index < self.accounts@.len()
        &&& self.accounts@[index].answers_to(tier, printed)
        &&& forall|i: int|
            0 <= i < self.accounts@.len() && i != index ==> !(
            #[trigger] self.accounts@[i]).answers_to(tier, printed)
    }

    /// Whether two accounts are the first two that answer to a name in a tier.
    pub open spec fn are_first_two(
        self,
        one: int,
        other: int,
        tier: NameTier,
        printed: Seq<char>,
    ) -> bool {
        &&& 0 <= one < other < self.accounts@.len()
        &&& forall|i: int|
            0 <= i <= other ==> ((#[trigger] self.accounts@[i]).answers_to(tier, printed) <==> i
                == one || i == other)
    }

    /// Whether a name resolves to an account: the account is the only one that
    /// answers to it in the first tier that any account answers in.
    pub open spec fn resolves(self, printed: Seq<char>, account: AccountId) -> bool {
        self.tier_of(printed) matches Some(tier) && exists|i: int|
            #[trigger] self.is_sole(i, tier, printed) && self.accounts@[i].id == account
    }

    /// Whether a name is refused, and how: no account answers to it, or two do
    /// in the first tier that any account answers in, and the refusal names both.
    pub open spec fn refuses(self, printed: Seq<char>, refusal: RejectionView) -> bool {
        match self.tier_of(printed) {
            None => refusal == (RejectionView {
                field: "account"@,
                expected: "one of the owner's accounts"@,
                actual: printed,
            }),
            Some(tier) => exists|one: int, other: int|
                #[trigger] self.are_first_two(one, other, tier, printed) && refusal == (
                RejectionView {
                    field: "account"@,
                    expected: "a name of one account, and it names both "@
                        + self.accounts@[one].title@ + " and "@ + self.accounts@[other].title@,
                    actual: printed,
                }),
        }
    }

    /// A directory of these accounts.
    pub fn from_accounts(accounts: Vec<AccountDetailView>) -> (directory: Self)
        ensures
            directory.accounts == accounts,
    {
        Self { accounts }
    }

    /// The first account from an index on that answers to a name in a tier.
    fn next_named(
        &self,
        from: usize,
        tier: NameTier,
        printed: &str,
        id: Option<Uuid>,
    ) -> (found: Option<usize>)
        requires
            from <= self.accounts@.len(),
            match id {
                Some(id) => outside::uuid_read(printed@) == Some(id.value),
                None => outside::uuid_read(printed@) is None,
            },
        ensures
            match found {
                Some(index) => from <= index < self.accounts@.len()
                    && self.accounts@[index as int].answers_to(tier, printed@) && forall|i: int|
                    from <= i < index ==> !(#[trigger] self.accounts@[i]).answers_to(
                        tier,
                        printed@,
                    ),
                None => forall|i: int|
                    from <= i < self.accounts@.len() ==> !(
                    #[trigger] self.accounts@[i]).answers_to(tier, printed@),
            },
    {
        let mut next: usize = from;
        while next < self.accounts.len()
            invariant
                from <= next <= self.accounts@.len(),
                match id {
                    Some(id) => outside::uuid_read(printed@) == Some(id.value),
                    None => outside::uuid_read(printed@) is None,
                },
                forall|i: int|
                    from <= i < next ==> !(#[trigger] self.accounts@[i]).answers_to(tier, printed@),
            decreases self.accounts@.len() - next,
        {
            if self.accounts[next].is_named(tier, printed, id) {
                return Some(next);
            }
            next = next + 1;
        }
        None
    }

    /// What one tier says of a name; absent where no account answers in it.
    fn resolve_in(&self, tier: NameTier, printed: &str, id: Option<Uuid>) -> (answer: Option<
        Result<AccountId, Rejection>,
    >)
        requires
            match id {
                Some(id) => outside::uuid_read(printed@) == Some(id.value),
                None => outside::uuid_read(printed@) is None,
            },
        ensures
            answer is None <==> !self.has_in(tier, printed@),
            answer matches Some(Ok(account)) ==> exists|i: int|
                #[trigger] self.is_sole(i, tier, printed@) && self.accounts@[i].id == account,
            answer matches Some(Err(rejection)) ==> exists|one: int, other: int|
                #[trigger] self.are_first_two(one, other, tier, printed@) && rejection@ == (
                RejectionView {
                    field: "account"@,
                    expected: "a name of one account, and it names both "@
                        + self.accounts@[one].title@ + " and "@ + self.accounts@[other].title@,
                    actual: printed@,
                }),
    {
        let count: usize = self.accounts.len();
        let one: usize = match self.next_named(0, tier, printed, id) {
            Some(index) => index,
            None => {
                return None;
            },
        };
        assert(self.accounts@[one as int].answers_to(tier, printed@));
        assert(one < count);
        match self.next_named(one + 1, tier, printed, id) {
            None => {
                assert(self.is_sole(one as int, tier, printed@));
                Some(Ok(self.accounts[one].id))
            },
            Some(other) => {
                assert(self.are_first_two(one as int, other as int, tier, printed@));
                let mut expected = "a name of one account, and it names both ".to_owned();
                expected.append(self.accounts[one].title.as_str());
                expected.append(" and ");
                expected.append(self.accounts[other].title.as_str());
                Some(Err(Rejection::of("account", expected.as_str(), printed)))
            },
        }
    }

    /// The account a row names. The tiers are tried in order and the first in
    /// which any account answers decides; two accounts in it are refused rather
    /// than picked between.
    pub fn resolve_row(&self, printed: &str) -> (resolved: Result<AccountId, Rejection>)
        ensures
            match resolved {
                Ok(account) => self.resolves(printed@, account),
                Err(rejection) => self.refuses(printed@, rejection@),
            },
    {
        let id = Uuid::parse_str(printed);
        if let Some(answer) = self.resolve_in(NameTier::Identifier, printed, id) {
            return answer;
        }
        if let Some(answer) = self.resolve_in(NameTier::ProviderIdentifier, printed, id) {
            return answer;
        }
        if let Some(answer) = self.resolve_in(NameTier::Alias, printed, id) {
            return answer;
        }
        if let Some(answer) = self.resolve_in(NameTier::Title, printed, id) {
            return answer;
        }
        Err(Rejection::of("account", "one of the owner's accounts", printed))
    }
}

/// A name resolves or is refused, never both, and it resolves to one account.
pub proof fn law_a_name_resolves_to_one_account_or_is_refused(
    directory: AccountDirectory,
    printed: Seq<char>,
    account: AccountId,
    another: AccountId,
    refusal: RejectionView,
)
    ensures
        directory.resolves(printed, account) ==> !directory.refuses(printed, refusal),
        directory.resolves(printed, account) && directory.resolves(printed, another) ==> account
            == another,
{
    if directory.resolves(printed, account) {
        let tier = directory.tier_of(printed)->0;
        let i = choose|i: int|
            #[trigger] directory.is_sole(i, tier, printed) && directory.accounts@[i].id == account;
        if directory.refuses(printed, refusal) {
            let (one, other) = choose|one: int, other: int|
                #[trigger] directory.are_first_two(one, other, tier, printed);
            assert(directory.accounts@[one].answers_to(tier, printed));
            assert(directory.accounts@[other].answers_to(tier, printed));
        }
        if directory.resolves(printed, another) {
            let j = choose|j: int|
                #[trigger] directory.is_sole(j, tier, printed) && directory.accounts@[j].id
                    == another;
            assert(directory.accounts@[j].answers_to(tier, printed));
        }
    }
}

/// An account's own identifier is consulted before any other name: a text that
/// is the identifier of exactly one account is that account, whatever else it
/// names.
pub proof fn law_an_identifier_is_that_account(
    directory: AccountDirectory,
    printed: Seq<char>,
    index: int,
)
    requires
        directory.is_sole(index, NameTier::Identifier, printed),
    ensures
        directory.resolves(printed, directory.accounts@[index].id),
{
    assert(directory.accounts@[index].answers_to(NameTier::Identifier, printed));
    assert(directory.tier_of(printed) == Some(NameTier::Identifier));
}

/// An account is named by its own identifier, by the identifier its provider prints, by
/// any of its aliases and by its title, each character for character.
pub proof fn law_an_account_is_named_four_ways(
    account: AccountDetailView,
    printed: Seq<char>,
    alias: int,
)
    ensures
        account.answers_to(NameTier::Identifier, printed) <==> outside::uuid_read(printed) == Some(
            account.id.0.value,
        ),
        account.provider_account_id is None ==> !account.answers_to(
            NameTier::ProviderIdentifier,
            printed,
        ),
        account.provider_account_id matches Some(id) ==> (account.answers_to(
            NameTier::ProviderIdentifier,
            printed,
        ) <==> id@ == printed),
        0 <= alias < account.aliases@.len() && account.aliases@[alias].value@ == printed
            ==> account.answers_to(NameTier::Alias, printed),
        (forall|i: int|
            0 <= i < account.aliases@.len() ==> (#[trigger] account.aliases@[i]).value@ != printed)
            ==> !account.answers_to(NameTier::Alias, printed),
        account.answers_to(NameTier::Title, printed) <==> account.title@ == printed,
{
}

/// A name resolves to the one account that it names in the first of the four ways in
/// which it names any; an account named in an earlier way is never passed over.
pub proof fn law_a_name_resolves_in_the_first_way_it_names_any(
    directory: AccountDirectory,
    printed: Seq<char>,
    account: AccountId,
    index: int,
)
    requires
        directory.resolves(printed, account),
        0 <= index < directory.accounts@.len(),
    ensures
        directory.accounts@[index].answers_to(NameTier::Identifier, printed) ==> account
            == directory.accounts@[index].id,
        (forall|i: int|
            0 <= i < directory.accounts@.len() ==> !(
            #[trigger] directory.accounts@[i]).answers_to(NameTier::Identifier, printed))
            && directory.accounts@[index].answers_to(NameTier::ProviderIdentifier, printed)
            ==> account == directory.accounts@[index].id,
        (forall|i: int|
            0 <= i < directory.accounts@.len() ==> !(
            #[trigger] directory.accounts@[i]).answers_to(NameTier::Identifier, printed) && !(
            directory.accounts@[i]).answers_to(NameTier::ProviderIdentifier, printed))
            && directory.accounts@[index].answers_to(NameTier::Alias, printed) ==> account
            == directory.accounts@[index].id,
        (forall|i: int|
            0 <= i < directory.accounts@.len() ==> !(
            #[trigger] directory.accounts@[i]).answers_to(NameTier::Identifier, printed) && !(
            directory.accounts@[i]).answers_to(NameTier::ProviderIdentifier, printed) && !(
            directory.accounts@[i]).answers_to(NameTier::Alias, printed))
            && directory.accounts@[index].answers_to(NameTier::Title, printed) ==> account
            == directory.accounts@[index].id,
        exists|i: int|
            0 <= i < directory.accounts@.len() && (#[trigger] directory.accounts@[i]).id == account
                && (directory.accounts@[i].answers_to(NameTier::Identifier, printed)
                || directory.accounts@[i].answers_to(NameTier::ProviderIdentifier, printed)
                || directory.accounts@[i].answers_to(NameTier::Alias, printed)
                || directory.accounts@[i].answers_to(NameTier::Title, printed)),
{
    let tier = directory.tier_of(printed)->0;
    let sole = choose|i: int|
        #[trigger] directory.is_sole(i, tier, printed) && directory.accounts@[i].id == account;
    assert(directory.accounts@[sole].answers_to(tier, printed));
    assert(directory.accounts@[sole].id == account);
    assert(directory.accounts@[index].id == directory.accounts@[index].id);
}

/// A name that one account alone answers to, in whatever way, resolves to that account.
pub proof fn law_a_name_of_one_account_is_never_refused(
    directory: AccountDirectory,
    printed: Seq<char>,
    index: int,
)
    requires
        0 <= index < directory.accounts@.len(),
        directory.accounts@[index].answers_to(NameTier::Identifier, printed)
            || directory.accounts@[index].answers_to(NameTier::ProviderIdentifier, printed)
            || directory.accounts@[index].answers_to(NameTier::Alias, printed)
            || directory.accounts@[index].answers_to(NameTier::Title, printed),
        forall|i: int|
            0 <= i < directory.accounts@.len() && i != index ==> !(
            #[trigger] directory.accounts@[i]).answers_to(NameTier::Identifier, printed) && !(
            directory.accounts@[i]).answers_to(NameTier::ProviderIdentifier, printed) && !(
            directory.accounts@[i]).answers_to(NameTier::Alias, printed) && !(
            directory.accounts@[i]).answers_to(NameTier::Title, printed),
    ensures
        directory.resolves(printed, directory.accounts@[index].id),
{
    assert(directory.accounts@[index].answers_to(NameTier::Identifier, printed)
        || directory.accounts@[index].answers_to(NameTier::ProviderIdentifier, printed)
        || directory.accounts@[index].answers_to(NameTier::Alias, printed)
        || directory.accounts@[index].answers_to(NameTier::Title, printed));
    let tier = directory.tier_of(printed)->0;
    assert(directory.is_sole(index, tier, printed));
}

/// A refused name names no account at all, or two; the refusal is about the account, says
/// what was printed, and names two accounts by their titles where there are two.
pub proof fn law_a_refused_name_names_none_or_two(
    directory: AccountDirectory,
    printed: Seq<char>,
    refusal: RejectionView,
)
    requires
        directory.refuses(printed, refusal),
    ensures
        refusal.field == "account"@,
        refusal.actual == printed,
        ({
            ||| refusal.expected == "one of the owner's accounts"@ && forall|i: int|
                0 <= i < directory.accounts@.len() ==> !(
                #[trigger] directory.accounts@[i]).answers_to(NameTier::Identifier, printed)
                    && !directory.accounts@[i].answers_to(NameTier::ProviderIdentifier, printed)
                    && !directory.accounts@[i].answers_to(NameTier::Alias, printed)
                    && !directory.accounts@[i].answers_to(NameTier::Title, printed)
            ||| exists|one: int, other: int, tier: NameTier|
                0 <= one < other < directory.accounts@.len()
                    && #[trigger] directory.accounts@[one].answers_to(tier, printed)
                    && #[trigger] directory.accounts@[other].answers_to(tier, printed)
                    && refusal.expected == "a name of one account, and it names both "@
                    + directory.accounts@[one].title@ + " and "@
                    + directory.accounts@[other].title@
        }),
{
    if directory.tier_of(printed) is Some {
        let tier = directory.tier_of(printed)->0;
        let (one, other) = choose|one: int, other: int|
            #[trigger] directory.are_first_two(one, other, tier, printed) && refusal == (
            RejectionView {
                field: "account"@,
                expected: "a name of one account, and it names both "@
                    + directory.accounts@[one].title@ + " and "@
                    + directory.accounts@[other].title@,
                actual: printed,
            });
        assert(directory.accounts@[one].answers_to(tier, printed));
        assert(directory.accounts@[other].answers_to(tier, printed));
    }
}

} // verus!
