//! The registers external instrument codes belong to.

use vstd::prelude::*;

verus! {

/// The register an external instrument code belongs to.
#[derive(Debug, Clone, Copy, PartialEq, Eq, Structural)]
pub enum AliasNamespace {
    Isin,
    MoexSecid,
    Ticker,
    Figi,
    BrokerCode,
}

impl AliasNamespace {
    /// The word of the register.
    pub open spec fn word(self) -> Seq<char> {
        match self {
            Self::Isin => "isin"@,
            Self::MoexSecid => "moex_secid"@,
            Self::Ticker => "ticker"@,
            Self::Figi => "figi"@,
            Self::BrokerCode => "broker_code"@,
        }
    }

    /// The word of the register.
    pub fn code(self) -> (code: &'static str)
        ensures
            code@ == self.word(),
    {
        match self {
            Self::Isin => "isin",
            Self::MoexSecid => "moex_secid",
            Self::Ticker => "ticker",
            Self::Figi => "figi",
            Self::BrokerCode => "broker_code",
        }
    }
}

/// Each `AliasNamespace` goes by a word of its own, and that word names no other.
pub proof fn law_alias_namespace_goes_by_its_own_word(value: AliasNamespace)
    ensures
        value.word() == "isin"@ <==> value is Isin,
        value.word() == "moex_secid"@ <==> value is MoexSecid,
        value.word() == "ticker"@ <==> value is Ticker,
        value.word() == "figi"@ <==> value is Figi,
        value.word() == "broker_code"@ <==> value is BrokerCode,
{
    reveal_strlit("isin");
    reveal_strlit("moex_secid");
    reveal_strlit("ticker");
    reveal_strlit("figi");
    reveal_strlit("broker_code");
    assert("figi"@[0] == 'f');
    assert("isin"@[0] == 'i');
    assert(value.word().len() > 0);
}

} // verus!
