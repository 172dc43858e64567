//! Closed vocabularies of the wire that a submitted operation is stated in.

use crate::ledger::kinds::{
    BasisCertainty, Certainty, DateCertainty, FeeOrigin, IncomeKind, Knowledge, PriceQuality,
    TaxOrigin, Tristate,
};
use vstd::prelude::*;

verus! {

/// How good a price is, as the caller states it.
#[derive(Debug, Clone, Copy, PartialEq, Eq, Structural)]
pub enum PriceQualityDto {
    Executable,
    PreviousClose,
    OwnerEstimate,
}

impl PriceQualityDto {
    /// The value of the ledger it stands for.
    pub open spec fn denotes(self) -> PriceQuality {
        match self {
            Self::Executable => PriceQuality::Executable,
            Self::PreviousClose => PriceQuality::PreviousClose,
            Self::OwnerEstimate => PriceQuality::OwnerEstimate,
        }
    }

    /// The value of the ledger it stands for.
    pub fn to_domain(self) -> (value: PriceQuality)
        ensures
            value == self.denotes(),
    {
        match self {
            Self::Executable => PriceQuality::Executable,
            Self::PreviousClose => PriceQuality::PreviousClose,
            Self::OwnerEstimate => PriceQuality::OwnerEstimate,
        }
    }
}

/// Which earning an income was.
#[derive(Debug, Clone, Copy, PartialEq, Eq, Structural)]
pub enum IncomeKindDto {
    Coupon,
    Dividend,
    DepositInterest,
}

impl IncomeKindDto {
    /// The value of the ledger it stands for.
    pub open spec fn denotes(self) -> IncomeKind {
        match self {
            Self::Coupon => IncomeKind::Coupon,
            Self::Dividend => IncomeKind::Dividend,
            Self::DepositInterest => IncomeKind::DepositInterest,
        }
    }

    /// The value of the ledger it stands for.
    pub fn to_domain(self) -> (value: IncomeKind)
        ensures
            value == self.denotes(),
    {
        match self {
            Self::Coupon => IncomeKind::Coupon,
            Self::Dividend => IncomeKind::Dividend,
            Self::DepositInterest => IncomeKind::DepositInterest,
        }
    }
}

impl IncomeKindDto {
    /// The word it goes over the wire as.
    pub open spec fn word(self) -> Seq<char> {
        match self {
            Self::Coupon => "coupon"@,
            Self::Dividend => "dividend"@,
            Self::DepositInterest => "deposit_interest"@,
        }
    }

    /// The word it goes over the wire as.
    pub fn code(self) -> (code: &'static str)
        ensures
            code@ == self.word(),
    {
        match self {
            Self::Coupon => "coupon",
            Self::Dividend => "dividend",
            Self::DepositInterest => "deposit_interest",
        }
    }
}

/// Where a fee came from.
#[derive(Debug, Clone, Copy, PartialEq, Eq, Structural)]
pub enum FeeOriginDto {
    Brokerage,
    Depositary,
    AccountMaintenance,
    MarginInterest,
    Other,
}

impl FeeOriginDto {
    /// The value of the ledger it stands for.
    pub open spec fn denotes(self) -> FeeOrigin {
        match self {
            Self::Brokerage => FeeOrigin::Brokerage,
            Self::Depositary => FeeOrigin::Depositary,
            Self::AccountMaintenance => FeeOrigin::AccountMaintenance,
            Self::MarginInterest => FeeOrigin::MarginInterest,
            Self::Other => FeeOrigin::Other,
        }
    }

    /// The value of the ledger it stands for.
    pub fn to_domain(self) -> (value: FeeOrigin)
        ensures
            value == self.denotes(),
    {
        match self {
            Self::Brokerage => FeeOrigin::Brokerage,
            Self::Depositary => FeeOrigin::Depositary,
            Self::AccountMaintenance => FeeOrigin::AccountMaintenance,
            Self::MarginInterest => FeeOrigin::MarginInterest,
            Self::Other => FeeOrigin::Other,
        }
    }
}

impl FeeOriginDto {
    /// The word it goes over the wire as.
    pub open spec fn word(self) -> Seq<char> {
        match self {
            Self::Brokerage => "brokerage"@,
            Self::Depositary => "depositary"@,
            Self::AccountMaintenance => "account_maintenance"@,
            Self::MarginInterest => "margin_interest"@,
            Self::Other => "other"@,
        }
    }

    /// The word it goes over the wire as.
    pub fn code(self) -> (code: &'static str)
        ensures
            code@ == self.word(),
    {
        match self {
            Self::Brokerage => "brokerage",
            Self::Depositary => "depositary",
            Self::AccountMaintenance => "account_maintenance",
            Self::MarginInterest => "margin_interest",
            Self::Other => "other",
        }
    }
}

/// Who paid a tax.
#[derive(Debug, Clone, Copy, PartialEq, Eq, Structural)]
pub enum TaxOriginDto {
    WithheldAtSource,
    SelfPaid,
}

impl TaxOriginDto {
    /// The value of the ledger it stands for.
    pub open spec fn denotes(self) -> TaxOrigin {
        match self {
            Self::WithheldAtSource => TaxOrigin::WithheldAtSource,
            Self::SelfPaid => TaxOrigin::SelfPaid,
        }
    }

    /// The value of the ledger it stands for.
    pub fn to_domain(self) -> (value: TaxOrigin)
        ensures
            value == self.denotes(),
    {
        match self {
            Self::WithheldAtSource => TaxOrigin::WithheldAtSource,
            Self::SelfPaid => TaxOrigin::SelfPaid,
        }
    }
}

/// How sure an opening quantity is. Silence is an estimate.
#[derive(Debug, Clone, Copy, PartialEq, Eq, Structural)]
pub enum CertaintyDto {
    Known,
    Estimated,
}

impl CertaintyDto {
    /// The value of the ledger it stands for.
    pub open spec fn denotes(self) -> Certainty {
        match self {
            Self::Known => Certainty::Known,
            Self::Estimated => Certainty::Estimated,
        }
    }

    /// The value of the ledger it stands for.
    pub fn to_domain(self) -> (value: Certainty)
        ensures
            value == self.denotes(),
    {
        match self {
            Self::Known => Certainty::Known,
            Self::Estimated => Certainty::Estimated,
        }
    }
}

impl Default for CertaintyDto {
    fn default() -> (value: Self)
        ensures
            value == Self::Estimated,
    {
        Self::Estimated
    }
}

/// How sure an acquisition date is. Silence is not knowledge.
#[derive(Debug, Clone, Copy, PartialEq, Eq, Structural)]
pub enum DateCertaintyDto {
    Known,
    Estimated,
    Unknown,
}

impl DateCertaintyDto {
    /// The value of the ledger it stands for.
    pub open spec fn denotes(self) -> DateCertainty {
        match self {
            Self::Known => DateCertainty::Known,
            Self::Estimated => DateCertainty::Estimated,
            Self::Unknown => DateCertainty::Unknown,
        }
    }

    /// The value of the ledger it stands for.
    pub fn to_domain(self) -> (value: DateCertainty)
        ensures
            value == self.denotes(),
    {
        match self {
            Self::Known => DateCertainty::Known,
            Self::Estimated => DateCertainty::Estimated,
            Self::Unknown => DateCertainty::Unknown,
        }
    }
}

impl Default for DateCertaintyDto {
    fn default() -> (value: Self)
        ensures
            value == Self::Unknown,
    {
        Self::Unknown
    }
}

/// How sure a tax basis is. Silence is not knowledge.
#[derive(Debug, Clone, Copy, PartialEq, Eq, Structural)]
pub enum BasisCertaintyDto {
    Documented,
    Estimated,
    Unknown,
}

impl BasisCertaintyDto {
    /// The value of the ledger it stands for.
    pub open spec fn denotes(self) -> BasisCertainty {
        match self {
            Self::Documented => BasisCertainty::Documented,
            Self::Estimated => BasisCertainty::Estimated,
            Self::Unknown => BasisCertainty::Unknown,
        }
    }

    /// The value of the ledger it stands for.
    pub fn to_domain(self) -> (value: BasisCertainty)
        ensures
            value == self.denotes(),
    {
        match self {
            Self::Documented => BasisCertainty::Documented,
            Self::Estimated => BasisCertainty::Estimated,
            Self::Unknown => BasisCertainty::Unknown,
        }
    }
}

impl Default for BasisCertaintyDto {
    fn default() -> (value: Self)
        ensures
            value == Self::Unknown,
    {
        Self::Unknown
    }
}

/// An answer that may be missing. Silence is neither yes nor no.
#[derive(Debug, Clone, Copy, PartialEq, Eq, Structural)]
pub enum TristateDto {
    Yes,
    No,
    Unknown,
}

impl TristateDto {
    /// The value of the ledger it stands for.
    pub open spec fn denotes(self) -> Tristate {
        match self {
            Self::Yes => Tristate::Yes,
            Self::No => Tristate::No,
            Self::Unknown => Tristate::Unknown,
        }
    }

    /// The value of the ledger it stands for.
    pub fn to_domain(self) -> (value: Tristate)
        ensures
            value == self.denotes(),
    {
        match self {
            Self::Yes => Tristate::Yes,
            Self::No => Tristate::No,
            Self::Unknown => Tristate::Unknown,
        }
    }
}

impl Default for TristateDto {
    fn default() -> (value: Self)
        ensures
            value == Self::Unknown,
    {
        Self::Unknown
    }
}

/// Whether something is known. Silence is not knowledge.
#[derive(Debug, Clone, Copy, PartialEq, Eq, Structural)]
pub enum KnowledgeDto {
    Known,
    Unknown,
}

impl KnowledgeDto {
    /// The value of the ledger it stands for.
    pub open spec fn denotes(self) -> Knowledge {
        match self {
            Self::Known => Knowledge::Known,
            Self::Unknown => Knowledge::Unknown,
        }
    }

    /// The value of the ledger it stands for.
    pub fn to_domain(self) -> (value: Knowledge)
        ensures
            value == self.denotes(),
    {
        match self {
            Self::Known => Knowledge::Known,
            Self::Unknown => Knowledge::Unknown,
        }
    }
}

impl Default for KnowledgeDto {
    fn default() -> (value: Self)
        ensures
            value == Self::Unknown,
    {
        Self::Unknown
    }
}

/// Each `IncomeKindDto` goes by a word of its own, and that word names no other.
pub proof fn law_income_kind_goes_by_its_own_word(value: IncomeKindDto)
    ensures
        value.word() == "coupon"@ <==> value is Coupon,
        value.word() == "dividend"@ <==> value is Dividend,
        value.word() == "deposit_interest"@ <==> value is DepositInterest,
{
    reveal_strlit("coupon");
    reveal_strlit("dividend");
    reveal_strlit("deposit_interest");
    assert(value.word().len() > 0);
}

/// Each `FeeOriginDto` goes by a word of its own, and that word names no other.
pub proof fn law_fee_origin_goes_by_its_own_word(value: FeeOriginDto)
    ensures
        value.word() == "brokerage"@ <==> value is Brokerage,
        value.word() == "depositary"@ <==> value is Depositary,
        value.word() == "account_maintenance"@ <==> value is AccountMaintenance,
        value.word() == "margin_interest"@ <==> value is MarginInterest,
        value.word() == "other"@ <==> value is Other,
{
    reveal_strlit("brokerage");
    reveal_strlit("depositary");
    reveal_strlit("account_maintenance");
    reveal_strlit("margin_interest");
    reveal_strlit("other");
    assert(value.word().len() > 0);
}

/// Each `PriceQualityDto` denotes its namesake in the ledger, and no two denote one.
pub proof fn law_price_quality_denotes_its_namesake(dto: PriceQualityDto)
    ensures
        dto is Executable <==> dto.denotes() is Executable,
        dto is PreviousClose <==> dto.denotes() is PreviousClose,
        dto is OwnerEstimate <==> dto.denotes() is OwnerEstimate,
{
}

/// Each `IncomeKindDto` denotes its namesake in the ledger, and no two denote one.
pub proof fn law_income_kind_denotes_its_namesake(dto: IncomeKindDto)
    ensures
        dto is Coupon <==> dto.denotes() is Coupon,
        dto is Dividend <==> dto.denotes() is Dividend,
        dto is DepositInterest <==> dto.denotes() is DepositInterest,
{
}

/// Each `FeeOriginDto` denotes its namesake in the ledger, and no two denote one.
pub proof fn law_fee_origin_denotes_its_namesake(dto: FeeOriginDto)
    ensures
        dto is Brokerage <==> dto.denotes() is Brokerage,
        dto is Depositary <==> dto.denotes() is Depositary,
        dto is AccountMaintenance <==> dto.denotes() is AccountMaintenance,
        dto is MarginInterest <==> dto.denotes() is MarginInterest,
        dto is Other <==> dto.denotes() is Other,
{
}

/// Each `TaxOriginDto` denotes its namesake in the ledger, and no two denote one.
pub proof fn law_tax_origin_denotes_its_namesake(dto: TaxOriginDto)
    ensures
        dto is WithheldAtSource <==> dto.denotes() is WithheldAtSource,
        dto is SelfPaid <==> dto.denotes() is SelfPaid,
{
}

/// Each `CertaintyDto` denotes its namesake in the ledger, and no two denote one.
pub proof fn law_certainty_denotes_its_namesake(dto: CertaintyDto)
    ensures
        dto is Known <==> dto.denotes() is Known,
        dto is Estimated <==> dto.denotes() is Estimated,
{
}

/// Each `DateCertaintyDto` denotes its namesake in the ledger, and no two denote one.
pub proof fn law_date_certainty_denotes_its_namesake(dto: DateCertaintyDto)
    ensures
        dto is Known <==> dto.denotes() is Known,
        dto is Estimated <==> dto.denotes() is Estimated,
        dto is Unknown <==> dto.denotes() is Unknown,
{
}

/// Each `BasisCertaintyDto` denotes its namesake in the ledger, and no two denote one.
pub proof fn law_basis_certainty_denotes_its_namesake(dto: BasisCertaintyDto)
    ensures
        dto is Documented <==> dto.denotes() is Documented,
        dto is Estimated <==> dto.denotes() is Estimated,
        dto is Unknown <==> dto.denotes() is Unknown,
{
}

/// Each `TristateDto` denotes its namesake in the ledger, and no two denote one.
pub proof fn law_tristate_denotes_its_namesake(dto: TristateDto)
    ensures
        dto is Yes <==> dto.denotes() is Yes,
        dto is No <==> dto.denotes() is No,
        dto is Unknown <==> dto.denotes() is Unknown,
{
}

/// Each `KnowledgeDto` denotes its namesake in the ledger, and no two denote one.
pub proof fn law_knowledge_denotes_its_namesake(dto: KnowledgeDto)
    ensures
        dto is Known <==> dto.denotes() is Known,
        dto is Unknown <==> dto.denotes() is Unknown,
{
}

} // verus!
