//! Instruments and their external codes on the wire.

use crate::calendar::Date;
use crate::dto::currency::CurrencyDto;
use crate::ids::Uuid;
use crate::ledger::instrument::AliasNamespace;
use vstd::prelude::*;

verus! {

/// The register an external instrument code belongs to.
#[derive(Debug, Clone, Copy, PartialEq, Eq, Structural)]
pub enum AliasNamespaceDto {
    /// The international securities identification number.
    Isin,
    /// The security identifier of the Moscow exchange.
    MoexSecid,
    /// An exchange ticker.
    Ticker,
    /// The open instrument identifier.
    Figi,
    /// A code of one broker.
    BrokerCode,
}

impl AliasNamespaceDto {
    /// The value of the ledger it stands for.
    pub open spec fn denotes(self) -> AliasNamespace {
        match self {
            Self::Isin => AliasNamespace::Isin,
            Self::MoexSecid => AliasNamespace::MoexSecid,
            Self::Ticker => AliasNamespace::Ticker,
            Self::Figi => AliasNamespace::Figi,
            Self::BrokerCode => AliasNamespace::BrokerCode,
        }
    }

    /// The value of the ledger it stands for.
    pub fn to_domain(self) -> (namespace: AliasNamespace)
        ensures
            namespace == self.denotes(),
    {
        match self {
            Self::Isin => AliasNamespace::Isin,
            Self::MoexSecid => AliasNamespace::MoexSecid,
            Self::Ticker => AliasNamespace::Ticker,
            Self::Figi => AliasNamespace::Figi,
            Self::BrokerCode => AliasNamespace::BrokerCode,
        }
    }

    /// The wire value that stands for a value of the ledger.
    pub fn from_domain(namespace: AliasNamespace) -> (dto: Self)
        ensures
            dto.denotes() == namespace,
    {
        match namespace {
            AliasNamespace::Isin => Self::Isin,
            AliasNamespace::MoexSecid => Self::MoexSecid,
            AliasNamespace::Ticker => Self::Ticker,
            AliasNamespace::Figi => Self::Figi,
            AliasNamespace::BrokerCode => Self::BrokerCode,
        }
    }
}

impl AliasNamespaceDto {
    /// The word of the register.
    pub fn code(self) -> (code: &'static str)
        ensures
            code@ == self.denotes().word(),
    {
        self.to_domain().code()
    }
}

/// A register survives the way out and the way back, and no two registers share a
/// word.
pub proof fn law_registers_round_trip(one: AliasNamespaceDto, other: AliasNamespaceDto)
    ensures
        one.denotes() == other.denotes() ==> one == other,
        one.denotes().word() == other.denotes().word() ==> one == other,
{
    if one.denotes().word() == other.denotes().word() {
        reveal_strlit("isin");
        reveal_strlit("moex_secid");
        reveal_strlit("ticker");
        reveal_strlit("figi");
        reveal_strlit("broker_code");
        assert(one.denotes().word()[0] == other.denotes().word()[0]);
    }
}

/// An instrument of the catalogue.
#[derive(Debug, Clone, PartialEq, Eq)]
pub struct InstrumentDto {
    pub id: String,
    pub kind: Option<String>,
    pub symbol: String,
    pub title: String,
    pub denomination_currency: String,
    pub settlement_currency: String,
    pub quote_currency: String,
}

/// An instrument to record.
#[derive(Debug, Clone, PartialEq, Eq)]
pub struct CreateInstrumentRequest {
    pub id: Option<Uuid>,
    pub kind: Option<String>,
    pub symbol: String,
    pub title: String,
    pub denomination_currency: String,
    pub settlement_currency: String,
    pub quote_currency: String,
}

/// An external code to resolve, on a day.
#[derive(Debug, Clone, PartialEq, Eq)]
pub struct ResolveInstrumentRequest {
    pub namespace: AliasNamespaceDto,
    pub value: String,
    pub on: Date,
}

/// The instrument an external code resolves to.
#[derive(Debug, Clone, PartialEq, Eq)]
pub struct ResolvedInstrumentDto {
    pub instrument: String,
}

/// Where market data comes from.
#[derive(Debug, Clone, PartialEq, Eq)]
pub enum MarketSourceDto {
    Moex { engine: String, market: String, board: String, secid: String, instrument: Uuid },
    CbrDaily,
    CbrDynamic { cbr_currency_id: String, to: CurrencyDto },
    CbrKeyRate,
}

/// Market data to fetch.
#[derive(Debug, Clone, PartialEq, Eq)]
pub struct MarketSyncRequest {
    pub source: MarketSourceDto,
    pub from: String,
    pub to: String,
}

/// Each `AliasNamespaceDto` denotes its namesake in the ledger, and no two denote one.
pub proof fn law_alias_namespace_denotes_its_namesake(dto: AliasNamespaceDto)
    ensures
        dto is Isin <==> dto.denotes() is Isin,
        dto is MoexSecid <==> dto.denotes() is MoexSecid,
        dto is Ticker <==> dto.denotes() is Ticker,
        dto is Figi <==> dto.denotes() is Figi,
        dto is BrokerCode <==> dto.denotes() is BrokerCode,
{
}

} // verus!
