//! Currencies on the wire.

use crate::money::CurrencyCode;
use vstd::prelude::*;

verus! {

/// A currency on the wire.
#[derive(Debug, Clone, Copy, PartialEq, Eq, Structural)]
pub enum CurrencyDto {
    Rub,
    Usd,
    Eur,
    Cny,
    Xau,
}

impl CurrencyDto {
    /// The value of the ledger it stands for.
    pub open spec fn denotes(self) -> CurrencyCode {
        match self {
            Self::Rub => CurrencyCode::Rub,
            Self::Usd => CurrencyCode::Usd,
            Self::Eur => CurrencyCode::Eur,
            Self::Cny => CurrencyCode::Cny,
            Self::Xau => CurrencyCode::Xau,
        }
    }

    /// The value of the ledger it stands for.
    pub fn to_domain(self) -> (currency: CurrencyCode)
        ensures
            currency == self.denotes(),
    {
        match self {
            Self::Rub => CurrencyCode::Rub,
            Self::Usd => CurrencyCode::Usd,
            Self::Eur => CurrencyCode::Eur,
            Self::Cny => CurrencyCode::Cny,
            Self::Xau => CurrencyCode::Xau,
        }
    }

    /// The wire value that stands for a value of the ledger.
    pub fn from_domain(currency: CurrencyCode) -> (dto: Self)
        ensures
            dto.denotes() == currency,
    {
        match currency {
            CurrencyCode::Rub => Self::Rub,
            CurrencyCode::Usd => Self::Usd,
            CurrencyCode::Eur => Self::Eur,
            CurrencyCode::Cny => Self::Cny,
            CurrencyCode::Xau => Self::Xau,
        }
    }
}

/// A currency that goes out and comes back is the same currency, both ways.
pub proof fn law_currency_round_trip(dto: CurrencyDto, other: CurrencyDto, currency: CurrencyCode)
    ensures
        dto.denotes() == other.denotes() ==> dto == other,
        exists|wire: CurrencyDto| wire.denotes() == currency,
{
    let wire = match currency {
        CurrencyCode::Rub => CurrencyDto::Rub,
        CurrencyCode::Usd => CurrencyDto::Usd,
        CurrencyCode::Eur => CurrencyDto::Eur,
        CurrencyCode::Cny => CurrencyDto::Cny,
        CurrencyCode::Xau => CurrencyDto::Xau,
    };
    assert(wire.denotes() == currency);
}

/// Each `CurrencyDto` denotes its namesake in the ledger, and no two denote one.
pub proof fn law_currency_denotes_its_namesake(dto: CurrencyDto)
    ensures
        dto is Rub <==> dto.denotes() is Rub,
        dto is Usd <==> dto.denotes() is Usd,
        dto is Eur <==> dto.denotes() is Eur,
        dto is Cny <==> dto.denotes() is Cny,
        dto is Xau <==> dto.denotes() is Xau,
{
}

} // verus!
