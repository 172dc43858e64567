//! Closed vocabularies of the ledger that an operation is stated in.

use vstd::prelude::*;

verus! {

/// How good a stated price is.
#[derive(Debug, Clone, Copy, PartialEq, Eq, Structural)]
pub enum PriceQuality {
    Executable,
    PreviousClose,
    OwnerEstimate,
}

impl PriceQuality {
    /// The word it goes by.
    pub open spec fn word(self) -> Seq<char> {
        match self {
            Self::Executable => "executable"@,
            Self::PreviousClose => "previous_close"@,
            Self::OwnerEstimate => "owner_estimate"@,
        }
    }

    /// The word it goes by.
    pub fn code(self) -> (code: &'static str)
        ensures
            code@ == self.word(),
    {
        match self {
            Self::Executable => "executable",
            Self::PreviousClose => "previous_close",
            Self::OwnerEstimate => "owner_estimate",
        }
    }

    /// The word it goes by, as a text of its own.
    pub fn to_word(&self) -> (word: String)
        ensures
            word@ == self.word(),
    {
        self.code().to_owned()
    }
}

/// Which earning an income was.
#[derive(Debug, Clone, Copy, PartialEq, Eq, Structural)]
pub enum IncomeKind {
    Coupon,
    Dividend,
    DepositInterest,
}

/// Where a fee came from.
#[derive(Debug, Clone, Copy, PartialEq, Eq, Structural)]
pub enum FeeOrigin {
    Brokerage,
    Depositary,
    AccountMaintenance,
    MarginInterest,
    Other,
}

/// Who paid a tax.
#[derive(Debug, Clone, Copy, PartialEq, Eq, Structural)]
pub enum TaxOrigin {
    WithheldAtSource,
    SelfPaid,
}

/// How sure an opening quantity is.
#[derive(Debug, Clone, Copy, PartialEq, Eq, Structural)]
pub enum Certainty {
    Known,
    Estimated,
}

/// How sure an acquisition date is.
#[derive(Debug, Clone, Copy, PartialEq, Eq, Structural)]
pub enum DateCertainty {
    Known,
    Estimated,
    Unknown,
}

/// How sure a tax basis is.
#[derive(Debug, Clone, Copy, PartialEq, Eq, Structural)]
pub enum BasisCertainty {
    Documented,
    Estimated,
    Unknown,
}

/// An answer that may be missing.
#[derive(Debug, Clone, Copy, PartialEq, Eq, Structural)]
pub enum Tristate {
    Yes,
    No,
    Unknown,
}

/// Whether something is known.
#[derive(Debug, Clone, Copy, PartialEq, Eq, Structural)]
pub enum Knowledge {
    Known,
    Unknown,
}

/// Each `PriceQuality` goes by a word of its own, and that word names no other.
pub proof fn law_price_quality_goes_by_its_own_word(value: PriceQuality)
    ensures
        value.word() == "executable"@ <==> value is Executable,
        value.word() == "previous_close"@ <==> value is PreviousClose,
        value.word() == "owner_estimate"@ <==> value is OwnerEstimate,
{
    reveal_strlit("executable");
    reveal_strlit("previous_close");
    reveal_strlit("owner_estimate");
    assert("owner_estimate"@[0] == 'o');
    assert("previous_close"@[0] == 'p');
    assert(value.word().len() > 0);
}

} // verus!
