//! Bond metrics on the wire.

use crate::calendar::Date;
use crate::dto::computed::{
    CalcMoneyDto, ComputedCalcMoneyDto, ComputedDto, NotComputableCodeDto, RateDto, describe,
    rate_dto,
};
use crate::dto::computed;
use crate::ids::{CustodyId, Uuid};
use crate::ledger::bond::{
    BondPositionAttributes, BondPositionMetrics, BondScenarioResult, ExpectedPosting, IrrLabel,
    LifetimeCohortMetric, OfferChoice, PostingKind, PrincipalReturnFinality, ProspectiveMetric,
    ZeroReinvestmentMetrics,
};
use crate::ledger::computed::Computed;
use crate::relate::map_each;
use crate::relate;
use vstd::prelude::*;

verus! {

/// What an expected payment is.
#[derive(Debug, Clone, Copy, PartialEq, Eq, Structural)]
pub enum PostingKindDto {
    Coupon,
    PrincipalReturn,
    OfferSettlement,
}

impl PostingKindDto {
    /// The value of the ledger it stands for.
    pub open spec fn denotes(self) -> PostingKind {
        match self {
            Self::Coupon => PostingKind::Coupon,
            Self::PrincipalReturn => PostingKind::PrincipalReturn,
            Self::OfferSettlement => PostingKind::OfferSettlement,
        }
    }

    /// The wire value that stands for a value of the ledger.
    pub fn from_domain(kind: PostingKind) -> (dto: Self)
        ensures
            dto.denotes() == kind,
    {
        match kind {
            PostingKind::Coupon => Self::Coupon,
            PostingKind::PrincipalReturn => Self::PrincipalReturn,
            PostingKind::OfferSettlement => Self::OfferSettlement,
        }
    }
}

/// The word of an expected payment.
pub fn posting_kind(value: PostingKind) -> (word: &'static str)
    ensures
        word@ == value.word(),
{
    value.code()
}

/// A payment expected on a date.
#[derive(Debug, Clone, PartialEq, Eq)]
pub struct ExpectedPostingDto {
    pub date: Date,
    pub amount: CalcMoneyDto,
    pub kind: PostingKindDto,
}

impl ExpectedPostingDto {
    /// What the wire form says of the record it was rendered from.
    pub open spec fn shows(self, value: ExpectedPosting) -> bool {
        &&& self.date == value.date
        &&& self.amount.shows(value.amount)
        &&& self.kind.denotes() == value.kind
    }

    /// The wire form of the record.
    pub fn from_domain(value: &ExpectedPosting) -> (dto: Self)
        ensures
            dto.shows(*value),
    {
        Self {
            date: value.date,
            amount: CalcMoneyDto::from_domain(&value.amount),
            kind: PostingKindDto::from_domain(value.kind),
        }
    }
}

/// The assumption every zero-reinvestment figure rests on.
pub const ZERO_REINVESTMENT_NOTE: &'static str =
    "Coupons received and principal repayments are assumed to be held until the end of the term without earning a return; if they are spent or reinvested, there is no single terminal capital figure — only the payment schedule and IRR remain.";

/// Figures under the assumption that nothing received is reinvested, with the
/// assumption stated beside them.
#[derive(Debug, Clone, PartialEq, Eq)]
pub struct ZeroReinvestmentMetricsDto {
    pub postings: Vec<ExpectedPostingDto>,
    pub terminal_wealth: CalcMoneyDto,
    pub surplus: CalcMoneyDto,
    pub hpr: ComputedDto,
    pub cagr_0r: RateDto,
    pub zero_reinvestment_assumed: bool,
    pub zero_reinvestment_note: String,
    pub pre_tax: bool,
}

impl ZeroReinvestmentMetricsDto {
    /// What the wire form says of the record it was rendered from.
    pub open spec fn shows(self, value: ZeroReinvestmentMetrics) -> bool {
        &&& relate::each(
            self.postings@,
            value.postings@,
            |dto: ExpectedPostingDto, value: ExpectedPosting| dto.shows(value),
        )
        &&& self.terminal_wealth.shows(value.terminal_wealth)
        &&& self.surplus.shows(value.surplus)
        &&& self.hpr.shows(value.hpr)
        &&& self.cagr_0r.shows(value.cagr_0r, "act/365"@)
        &&& self.zero_reinvestment_assumed == value.zero_reinvestment_assumed
        &&& self.zero_reinvestment_note@ == ZERO_REINVESTMENT_NOTE@
        &&& self.pre_tax == value.pre_tax
    }

    /// The wire form of the record.
    pub fn from_domain(value: &ZeroReinvestmentMetrics) -> (dto: Self)
        ensures
            dto.shows(*value),
    {
        Self {
            postings: map_each(&value.postings, ExpectedPostingDto::from_domain),
            terminal_wealth: CalcMoneyDto::from_domain(&value.terminal_wealth),
            surplus: CalcMoneyDto::from_domain(&value.surplus),
            hpr: ComputedDto::from_dec(&value.hpr),
            cagr_0r: rate_dto(&value.cagr_0r, "act/365"),
            zero_reinvestment_assumed: value.zero_reinvestment_assumed,
            zero_reinvestment_note: ZERO_REINVESTMENT_NOTE.to_owned(),
            pre_tax: value.pre_tax,
        }
    }
}

/// Zero-reinvestment figures, or why there are none.
#[derive(Debug, Clone, PartialEq, Eq)]
pub struct ComputedZeroReinvestmentMetricsDto {
    pub value: Option<ZeroReinvestmentMetricsDto>,
    pub not_computable: Option<NotComputableCodeDto>,
    pub detail: Option<String>,
}

impl ComputedZeroReinvestmentMetricsDto {
    /// The value and nothing else, or the reason and no value.
    pub open spec fn shows(self, figure: Computed<ZeroReinvestmentMetrics>) -> bool {
        match figure {
            Computed::Value(amount) => {
                &&& self.value matches Some(value) && value.shows(amount)
                &&& self.not_computable is None
                &&& self.detail is None
            },
            Computed::NotComputable { reason } => {
                &&& self.value is None
                &&& computed::explains(self.not_computable, self.detail, reason)
            },
        }
    }

    /// The wire form of the figure.
    pub fn from_domain(figure: &Computed<ZeroReinvestmentMetrics>) -> (dto: Self)
        ensures
            dto.shows(*figure),
    {
        match figure {
            Computed::Value(amount) => Self {
                value: Some(ZeroReinvestmentMetricsDto::from_domain(amount)),
                not_computable: None,
                detail: None,
            },
            Computed::NotComputable { reason } => Self {
                value: None,
                not_computable: Some(NotComputableCodeDto::from_domain(reason)),
                detail: Some(describe(reason)),
            },
        }
    }
}

/// What the owner is assumed to do about an offer.
#[derive(Debug, Clone, Copy, PartialEq, Eq, Structural)]
pub enum OfferChoiceDto {
    HoldToMaturity,
    ExerciseAtOffer { window: Uuid },
}

impl OfferChoiceDto {
    /// What the wire form says of the choice.
    pub open spec fn shows(self, choice: OfferChoice) -> bool {
        match choice {
            OfferChoice::HoldToMaturity => self == Self::HoldToMaturity,
            OfferChoice::ExerciseAtOffer { window } => self == (Self::ExerciseAtOffer {
                window: window.0,
            }),
        }
    }

    /// The wire form of the choice.
    pub fn from_domain(value: &OfferChoice) -> (dto: Self)
        ensures
            dto.shows(*value),
    {
        match value {
            OfferChoice::HoldToMaturity => Self::HoldToMaturity,
            OfferChoice::ExerciseAtOffer { window } => Self::ExerciseAtOffer { window: window.0 },
        }
    }
}

/// What a yield runs to.
#[derive(Debug, Clone, Copy, PartialEq, Eq, Structural)]
pub enum IrrLabelDto {
    YieldToMaturity,
    YieldToOffer,
}

impl IrrLabelDto {
    /// The value of the ledger it stands for.
    pub open spec fn denotes(self) -> IrrLabel {
        match self {
            Self::YieldToMaturity => IrrLabel::YieldToMaturity,
            Self::YieldToOffer => IrrLabel::YieldToOffer,
        }
    }

    /// The wire value that stands for a value of the ledger.
    pub fn from_domain(label: IrrLabel) -> (dto: Self)
        ensures
            dto.denotes() == label,
    {
        match label {
            IrrLabel::YieldToMaturity => Self::YieldToMaturity,
            IrrLabel::YieldToOffer => Self::YieldToOffer,
        }
    }
}

/// What holding from here on would bring.
#[derive(Debug, Clone, PartialEq, Eq)]
pub struct ProspectiveMetricDto {
    pub as_of: Date,
    pub terminal_date: Date,
    pub c0: ComputedCalcMoneyDto,
    pub metrics: ComputedZeroReinvestmentMetricsDto,
    pub irr: RateDto,
    pub irr_label: IrrLabelDto,
}

impl ProspectiveMetricDto {
    /// What the wire form says of the record it was rendered from.
    pub open spec fn shows(self, value: ProspectiveMetric) -> bool {
        &&& self.as_of == value.as_of
        &&& self.terminal_date == value.terminal_date
        &&& self.c0.shows(value.c0)
        &&& self.metrics.shows(value.metrics)
        &&& self.irr.shows(value.irr, "act/365"@)
        &&& self.irr_label.denotes() == value.irr_label
    }

    /// The wire form of the record.
    pub fn from_domain(value: &ProspectiveMetric) -> (dto: Self)
        ensures
            dto.shows(*value),
    {
        Self {
            as_of: value.as_of,
            terminal_date: value.terminal_date,
            c0: ComputedCalcMoneyDto::from_domain(&value.c0),
            metrics: ComputedZeroReinvestmentMetricsDto::from_domain(&value.metrics),
            irr: rate_dto(&value.irr, "act/365"),
            irr_label: IrrLabelDto::from_domain(value.irr_label),
        }
    }
}

/// What one acquisition brought over its life. A cohort has no yield, and the
/// reason is stated.
#[derive(Debug, Clone, PartialEq, Eq)]
pub struct LifetimeCohortMetricDto {
    pub acquired: Date,
    pub quantity: String,
    pub terminal_date: Date,
    pub c0: ComputedCalcMoneyDto,
    pub metrics: ComputedZeroReinvestmentMetricsDto,
    pub irr_absent_because: String,
}

impl LifetimeCohortMetricDto {
    /// What the wire form says of the record it was rendered from.
    pub open spec fn shows(self, value: LifetimeCohortMetric) -> bool {
        &&& self.acquired == value.acquired
        &&& self.quantity@ == value.quantity.text()
        &&& self.terminal_date == value.terminal_date
        &&& self.c0.shows(value.c0)
        &&& self.metrics.shows(value.metrics)
        &&& self.irr_absent_because == value.irr_absent_because
    }

    /// The wire form of the record.
    pub fn from_domain(value: &LifetimeCohortMetric) -> (dto: Self)
        ensures
            dto.shows(*value),
    {
        Self {
            acquired: value.acquired,
            quantity: value.quantity.to_text(),
            terminal_date: value.terminal_date,
            c0: ComputedCalcMoneyDto::from_domain(&value.c0),
            metrics: ComputedZeroReinvestmentMetricsDto::from_domain(&value.metrics),
            irr_absent_because: value.irr_absent_because.clone(),
        }
    }
}

/// Figures per acquisition, or why there are none.
#[derive(Debug, Clone, PartialEq, Eq)]
pub struct ComputedLifetimeCohortMetricsDto {
    pub value: Option<Vec<LifetimeCohortMetricDto>>,
    pub not_computable: Option<NotComputableCodeDto>,
    pub detail: Option<String>,
}

impl ComputedLifetimeCohortMetricsDto {
    /// The value and nothing else, or the reason and no value.
    pub open spec fn shows(self, figure: Computed<Vec<LifetimeCohortMetric>>) -> bool {
        match figure {
            Computed::Value(amount) => {
                &&& self.value matches Some(value) && relate::each(
                    value@,
                    amount@,
                    |dto: LifetimeCohortMetricDto, cohort: LifetimeCohortMetric| dto.shows(cohort),
                )
                &&& self.not_computable is None
                &&& self.detail is None
            },
            Computed::NotComputable { reason } => {
                &&& self.value is None
                &&& computed::explains(self.not_computable, self.detail, reason)
            },
        }
    }

    /// The wire form of the figure.
    pub fn from_domain(figure: &Computed<Vec<LifetimeCohortMetric>>) -> (dto: Self)
        ensures
            dto.shows(*figure),
    {
        match figure {
            Computed::Value(amount) => Self {
                value: Some(map_each(amount, LifetimeCohortMetricDto::from_domain)),
                not_computable: None,
                detail: None,
            },
            Computed::NotComputable { reason } => Self {
                value: None,
                not_computable: Some(NotComputableCodeDto::from_domain(reason)),
                detail: Some(describe(reason)),
            },
        }
    }
}

/// One scenario of a bond position.
#[derive(Debug, Clone, PartialEq, Eq)]
pub struct BondScenarioResultDto {
    pub choice: OfferChoiceDto,
    pub prospective: ProspectiveMetricDto,
    pub lifetime: ComputedLifetimeCohortMetricsDto,
}

impl BondScenarioResultDto {
    /// What the wire form says of the record it was rendered from.
    pub open spec fn shows(self, value: BondScenarioResult) -> bool {
        &&& self.choice.shows(value.choice)
        &&& self.prospective.shows(value.prospective)
        &&& self.lifetime.shows(value.lifetime)
    }

    /// The wire form of the record.
    pub fn from_domain(value: &BondScenarioResult) -> (dto: Self)
        ensures
            dto.shows(*value),
    {
        Self {
            choice: OfferChoiceDto::from_domain(&value.choice),
            prospective: ProspectiveMetricDto::from_domain(&value.prospective),
            lifetime: ComputedLifetimeCohortMetricsDto::from_domain(&value.lifetime),
        }
    }
}

/// The scenarios of one bond position.
#[derive(Debug, Clone, PartialEq, Eq)]
pub struct BondPositionMetricsDto {
    pub account: Uuid,
    pub custody: Option<Uuid>,
    pub instrument: Uuid,
    pub scenarios: Vec<BondScenarioResultDto>,
}

impl BondPositionMetricsDto {
    /// What the wire form says of the record it was rendered from.
    pub open spec fn shows(self, value: BondPositionMetrics) -> bool {
        &&& self.account == value.account.0
        &&& relate::both(self.custody, value.custody, |uuid: Uuid, id: CustodyId| uuid == id.0)
        &&& self.instrument == value.instrument.0
        &&& relate::each(
            self.scenarios@,
            value.scenarios@,
            |dto: BondScenarioResultDto, value: BondScenarioResult| dto.shows(value),
        )
    }

    /// The wire form of the record.
    pub fn from_domain(value: &BondPositionMetrics) -> (dto: Self)
        ensures
            dto.shows(*value),
    {
        Self {
            account: value.account.0,
            custody: value.custody.map(CustodyId::inner),
            instrument: value.instrument.0,
            scenarios: map_each(&value.scenarios, BondScenarioResultDto::from_domain),
        }
    }
}

/// The word for whether a return of principal is the last one.
pub fn principal_return_finality(value: PrincipalReturnFinality) -> (word: String)
    ensures
        word@ == value.word(),
{
    value.to_word()
}

/// What is known of one bond position.
#[derive(Debug, Clone, PartialEq, Eq)]
pub struct BondPositionAttributesDto {
    pub account: Uuid,
    pub custody: Option<Uuid>,
    pub instrument: Uuid,
    pub accrued_interest: ComputedDto,
    pub accrued_interest_payable_on_termination: ComputedDto,
    pub next_posting_date: Option<Date>,
    pub next_principal_return_finality: Option<String>,
}

impl BondPositionAttributesDto {
    /// What the wire form says of the record it was rendered from.
    pub open spec fn shows(self, attributes: BondPositionAttributes) -> bool {
        &&& self.account == attributes.account.0
        &&& relate::both(self.custody, attributes.custody, |uuid: Uuid, id: CustodyId| uuid == id.0)
        &&& self.instrument == attributes.instrument.0
        &&& self.accrued_interest.shows(attributes.accrued_interest)
        &&& self.accrued_interest_payable_on_termination.shows(
            attributes.accrued_interest_payable_on_termination,
        )
        &&& self.next_posting_date == attributes.next_posting_date
        &&& relate::both(
            self.next_principal_return_finality,
            attributes.next_principal_return_finality,
            |text: String, value: PrincipalReturnFinality| text@ == value.word(),
        )
    }

    /// The wire form of the record.
    pub fn from_domain(attributes: &BondPositionAttributes) -> (dto: Self)
        ensures
            dto.shows(*attributes),
    {
        Self {
            account: attributes.account.0,
            custody: attributes.custody.map(CustodyId::inner),
            instrument: attributes.instrument.0,
            accrued_interest: ComputedDto::from_dec(&attributes.accrued_interest),
            accrued_interest_payable_on_termination: ComputedDto::from_dec(
                &attributes.accrued_interest_payable_on_termination,
            ),
            next_posting_date: attributes.next_posting_date,
            next_principal_return_finality: match attributes.next_principal_return_finality {
                Some(value) => Some(principal_return_finality(value)),
                None => None,
            },
        }
    }
}

/// Each `PostingKindDto` denotes its namesake in the ledger, and no two denote one.
pub proof fn law_posting_kind_denotes_its_namesake(dto: PostingKindDto)
    ensures
        dto is Coupon <==> dto.denotes() is Coupon,
        dto is PrincipalReturn <==> dto.denotes() is PrincipalReturn,
        dto is OfferSettlement <==> dto.denotes() is OfferSettlement,
{
}

/// Each `IrrLabelDto` denotes its namesake in the ledger, and no two denote one.
pub proof fn law_irr_label_denotes_its_namesake(dto: IrrLabelDto)
    ensures
        dto is YieldToMaturity <==> dto.denotes() is YieldToMaturity,
        dto is YieldToOffer <==> dto.denotes() is YieldToOffer,
{
}

/// An `ExpectedPostingDto` tells each part of what it shows in a field of its own.
pub proof fn law_expected_posting_is_told_part_by_part(
    dto: ExpectedPostingDto,
    value: ExpectedPosting,
)
    requires
        dto.shows(value),
    ensures
        dto.date == value.date,
        dto.amount.shows(value.amount),
        dto.kind.denotes() == value.kind,
{
}

/// A `ZeroReinvestmentMetricsDto` tells each part of what it shows in a field of its own.
pub proof fn law_zero_reinvestment_metrics_is_told_part_by_part(
    dto: ZeroReinvestmentMetricsDto,
    value: ZeroReinvestmentMetrics,
)
    requires
        dto.shows(value),
    ensures
        dto.postings@.len() == value.postings@.len(),
        forall|i: int| 0 <= i < value.postings@.len() ==> (
            #[trigger] dto.postings@[i]
        ).shows(value.postings@[i]),
        dto.terminal_wealth.shows(value.terminal_wealth),
        dto.surplus.shows(value.surplus),
        dto.hpr.shows(value.hpr),
        dto.cagr_0r.shows(value.cagr_0r, "act/365"@),
        dto.zero_reinvestment_assumed == value.zero_reinvestment_assumed,
        dto.zero_reinvestment_note@ == ZERO_REINVESTMENT_NOTE@,
        dto.pre_tax == value.pre_tax,
{
}

/// A `ComputedZeroReinvestmentMetricsDto` shows each kind of record as that kind, with its own parts.
pub proof fn law_computed_zero_reinvestment_metrics_is_told_part_by_part(
    dto: ComputedZeroReinvestmentMetricsDto,
    figure: Computed<ZeroReinvestmentMetrics>,
)
    requires
        dto.shows(figure),
    ensures
        match figure {
            Computed::Value(amount) => {
                &&& dto.value matches Some(value) && value.shows(amount)
                &&& dto.not_computable is None
                &&& dto.detail is None
            },
            Computed::NotComputable { reason } => {
                &&& dto.value is None
                &&& computed::explains(dto.not_computable, dto.detail, reason)
            },
        },
{
}

/// An `OfferChoiceDto` shows each kind of record as that kind, with its own parts.
pub proof fn law_offer_choice_is_told_part_by_part(
    dto: OfferChoiceDto,
    choice: OfferChoice,
)
    requires
        dto.shows(choice),
    ensures
        match choice {
            OfferChoice::HoldToMaturity => dto == OfferChoiceDto::HoldToMaturity,
            OfferChoice::ExerciseAtOffer { window } => dto == (OfferChoiceDto::ExerciseAtOffer {
                window: window.0,
            }),
        },
{
}

/// A `ProspectiveMetricDto` tells each part of what it shows in a field of its own.
pub proof fn law_prospective_metric_is_told_part_by_part(
    dto: ProspectiveMetricDto,
    value: ProspectiveMetric,
)
    requires
        dto.shows(value),
    ensures
        dto.as_of == value.as_of,
        dto.terminal_date == value.terminal_date,
        dto.c0.shows(value.c0),
        dto.metrics.shows(value.metrics),
        dto.irr.shows(value.irr, "act/365"@),
        dto.irr_label.denotes() == value.irr_label,
{
}

/// A `LifetimeCohortMetricDto` tells each part of what it shows in a field of its own.
pub proof fn law_lifetime_cohort_metric_is_told_part_by_part(
    dto: LifetimeCohortMetricDto,
    value: LifetimeCohortMetric,
)
    requires
        dto.shows(value),
    ensures
        dto.acquired == value.acquired,
        dto.quantity@ == value.quantity.text(),
        dto.terminal_date == value.terminal_date,
        dto.c0.shows(value.c0),
        dto.metrics.shows(value.metrics),
        dto.irr_absent_because == value.irr_absent_because,
{
}

/// A `ComputedLifetimeCohortMetricsDto` shows each kind of record as that kind, with its own parts.
pub proof fn law_computed_lifetime_cohort_metrics_is_told_part_by_part(
    dto: ComputedLifetimeCohortMetricsDto,
    figure: Computed<Vec<LifetimeCohortMetric>>,
)
    requires
        dto.shows(figure),
    ensures
        match figure {
            Computed::Value(amount) => {
                &&& dto.value matches Some(value) && relate::each(
                    value@,
                    amount@,
                    |dto: LifetimeCohortMetricDto, cohort: LifetimeCohortMetric| dto.shows(cohort),
                )
                &&& dto.not_computable is None
                &&& dto.detail is None
            },
            Computed::NotComputable { reason } => {
                &&& dto.value is None
                &&& computed::explains(dto.not_computable, dto.detail, reason)
            },
        },
{
}

/// A `BondScenarioResultDto` tells each part of what it shows in a field of its own.
pub proof fn law_bond_scenario_result_is_told_part_by_part(
    dto: BondScenarioResultDto,
    value: BondScenarioResult,
)
    requires
        dto.shows(value),
    ensures
        dto.choice.shows(value.choice),
        dto.prospective.shows(value.prospective),
        dto.lifetime.shows(value.lifetime),
{
}

/// A `BondPositionMetricsDto` tells each part of what it shows in a field of its own.
pub proof fn law_bond_position_metrics_is_told_part_by_part(
    dto: BondPositionMetricsDto,
    value: BondPositionMetrics,
)
    requires
        dto.shows(value),
    ensures
        dto.account == value.account.0,
        match (dto.custody, value.custody) {
            (Some(told), Some(meant)) => told == meant.0,
            (None, None) => true,
            _ => false,
        },
        dto.instrument == value.instrument.0,
        dto.scenarios@.len() == value.scenarios@.len(),
        forall|i: int| 0 <= i < value.scenarios@.len() ==> (
            #[trigger] dto.scenarios@[i]
        ).shows(value.scenarios@[i]),
{
}

/// A `BondPositionAttributesDto` tells each part of what it shows in a field of its own.
pub proof fn law_bond_position_attributes_is_told_part_by_part(
    dto: BondPositionAttributesDto,
    attributes: BondPositionAttributes,
)
    requires
        dto.shows(attributes),
    ensures
        dto.account == attributes.account.0,
        match (dto.custody, attributes.custody) {
            (Some(told), Some(meant)) => told == meant.0,
            (None, None) => true,
            _ => false,
        },
        dto.instrument == attributes.instrument.0,
        dto.accrued_interest.shows(attributes.accrued_interest),
        dto.accrued_interest_payable_on_termination.shows(
            attributes.accrued_interest_payable_on_termination,
        ),
        dto.next_posting_date == attributes.next_posting_date,
        match (dto.next_principal_return_finality, attributes.next_principal_return_finality) {
            (Some(told), Some(meant)) => told@ == meant.word(),
            (None, None) => true,
            _ => false,
        },
{
}

} // verus!
