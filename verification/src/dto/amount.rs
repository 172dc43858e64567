//! Reading the decimal strings of the wire.

use crate::dto::currency::CurrencyDto;
use crate::ledger::rejection::{Rejection, RejectionView};
use crate::money::{
    CurrencyCode, Decimal, MinorUnits, Money, NotMinorUnits, PerUnitAmount, PostedMoney,
    to_minor_units,
};
use crate::money;
use crate::outside::{MAX_SCALE, parse_decimal};
use crate::outside;
use crate::relate;
use vstd::prelude::*;

verus! {

/// The refusal of a text that is no decimal number.
pub open spec fn decimal_refusal(value: Seq<char>, field: Seq<char>) -> Option<RejectionView> {
    if outside::decimal_read(value) is None {
        Some(
            RejectionView {
                field,
                expected: "a decimal number represented as a string"@,
                actual: value,
            },
        )
    } else {
        None
    }
}

/// Whether a number is the one a text states.
pub open spec fn decimal_states(value: Seq<char>, number: Decimal) -> bool {
    outside::decimal_read(value) == Some((number.mantissa(), number.scale()))
}

/// Reads a decimal number out of a field.
pub fn decimal(value: &str, field: &str) -> (read: Result<Decimal, Rejection>)
    ensures
        match read {
            Ok(number) => decimal_states(value@, number),
            Err(rejection) => decimal_refusal(value@, field@) == Some(rejection@),
        },
        forall|mantissa: i128, scale: u32|
            outside::is_decimal(mantissa, scale) && value@ == #[trigger] outside::plain_decimal(
                mantissa as int,
                scale as nat,
            ) ==> outside::decimal_read(value@) == Some((mantissa, scale)),
{
    match parse_decimal(value) {
        Some((mantissa, scale)) => match Decimal::from_parts(mantissa, scale) {
            Some(number) => Ok(number),
            None => Err(Rejection::of(field, "a decimal number represented as a string", value)),
        },
        None => Err(Rejection::of(field, "a decimal number represented as a string", value)),
    }
}

/// What an amount is in minor units, or why it is refused.
pub open spec fn minor_reading(
    value: Seq<char>,
    currency: CurrencyDto,
    field: Seq<char>,
    units: MinorUnits,
) -> Result<i64, RejectionView> {
    match outside::decimal_read(value) {
        None => Err(decimal_refusal(value, field)->0),
        Some((mantissa, scale)) => match money::minor_units(
            mantissa,
            scale,
            units.digits_of(currency.denotes()),
        ) {
            Ok(minor) => Ok(minor),
            Err(NotMinorUnits::SurplusDigit) => Err(
                RejectionView {
                    field,
                    expected: "no more digits after the point than the currency's minor unit has"@,
                    actual: outside::plain_decimal(mantissa as int, scale as nat),
                },
            ),
            Err(NotMinorUnits::TooLarge) => Err(
                RejectionView {
                    field,
                    expected: "an amount whose number of minor units can be posted"@,
                    actual: outside::plain_decimal(mantissa as int, scale as nat),
                },
            ),
        },
    }
}

/// The refusal of an amount, where it is refused.
pub open spec fn minor_refusal(
    value: Seq<char>,
    currency: CurrencyDto,
    field: Seq<char>,
    units: MinorUnits,
) -> Option<RejectionView> {
    match minor_reading(value, currency, field, units) {
        Ok(_) => None,
        Err(refusal) => Some(refusal),
    }
}

/// Whether a number of minor units is what an amount states.
pub open spec fn minor_states(
    value: Seq<char>,
    currency: CurrencyDto,
    units: MinorUnits,
    minor: i64,
) -> bool {
    minor_reading(value, currency, seq![], units) == Ok::<i64, RejectionView>(minor)
}

/// Reads an amount in minor units out of a field.
pub fn minor(
    value: &str,
    currency: CurrencyDto,
    field: &str,
    units: &MinorUnits,
) -> (read: Result<i64, Rejection>)
    ensures
        match read {
            Ok(minor) => minor_states(value@, currency, *units, minor) && minor_refusal(
                value@,
                currency,
                field@,
                *units,
            ) is None,
            Err(rejection) => minor_refusal(value@, currency, field@, *units) == Some(rejection@),
        },
        // An amount printed with the digits of the minor unit is read back as the
        // number of minor units it was printed from.
        forall|posted: i64|
            units.digits_of(currency.denotes()) <= MAX_SCALE && value@
                == #[trigger] outside::plain_decimal(
                posted as int,
                units.digits_of(currency.denotes()) as nat,
            ) ==> read == Ok::<i64, Rejection>(posted),
{
    proof {
        let digits = units.digits_of(currency.denotes());
        assert forall|posted: i64|
            digits <= MAX_SCALE && value@ == #[trigger] outside::plain_decimal(
                posted as int,
                digits as nat,
            ) implies outside::is_decimal(posted as i128, digits) && money::minor_units(
            posted as i128,
            digits,
            digits,
        ) == Ok::<i64, NotMinorUnits>(posted) by {
            money::law_posted_amount_reads_back(posted, digits);
            assert(outside::plain_decimal((posted as i128) as int, digits as nat) == value@);
        }
    }
    let number = match decimal(value, field) {
        Ok(number) => number,
        Err(rejection) => {
            return Err(rejection);
        },
    };
    match to_minor_units(number, units.digits(currency.to_domain())) {
        Ok(minor) => Ok(minor),
        Err(NotMinorUnits::SurplusDigit) => Err(
            Rejection::of(
                field,
                "no more digits after the point than the currency's minor unit has",
                number.to_text().as_str(),
            ),
        ),
        Err(NotMinorUnits::TooLarge) => Err(
            Rejection::of(
                field,
                "an amount whose number of minor units can be posted",
                number.to_text().as_str(),
            ),
        ),
    }
}

/// The refusal of an amount that may be left out.
pub open spec fn optional_minor_refusal(
    value: Option<String>,
    currency: CurrencyDto,
    field: Seq<char>,
    units: MinorUnits,
) -> Option<RejectionView> {
    match value {
        Some(raw) => minor_refusal(raw@, currency, field, units),
        None => None,
    }
}

/// Whether an optional number of minor units is what an optional amount states.
pub open spec fn optional_minor_states(
    value: Option<String>,
    currency: CurrencyDto,
    units: MinorUnits,
    minor: Option<i64>,
) -> bool {
    relate::both(
        value,
        minor,
        |raw: String, minor: i64| minor_states(raw@, currency, units, minor),
    )
}

/// Reads an amount that may be left out. A missing amount stays missing.
pub fn optional_minor(
    value: Option<&String>,
    currency: CurrencyDto,
    field: &str,
    units: &MinorUnits,
) -> (read: Result<Option<i64>, Rejection>)
    ensures
        match read {
            Ok(minor) => match (value, minor) {
                (Some(raw), Some(minor)) => minor_states(raw@, currency, *units, minor)
                    && minor_refusal(raw@, currency, field@, *units) is None,
                (None, None) => true,
                _ => false,
            },
            Err(rejection) => value matches Some(raw) && minor_refusal(
                raw@,
                currency,
                field@,
                *units,
            ) == Some(rejection@),
        },
{
    match value {
        None => Ok(None),
        Some(raw) => match minor(raw.as_str(), currency, field, units) {
            Ok(minor) => Ok(Some(minor)),
            Err(rejection) => Err(rejection),
        },
    }
}

/// An amount with its currency.
#[derive(Debug, Clone, PartialEq, Eq)]
pub struct AmountDto {
    pub amount: String,
    pub currency: CurrencyDto,
}

impl AmountDto {
    /// Whether this is the account money the amount states.
    pub open spec fn states_money(self, units: MinorUnits, money: PostedMoney) -> bool {
        &&& minor_states(self.amount@, self.currency, units, money.minor)
        &&& money.currency == self.currency.denotes()
    }

    /// The refusal of the amount as account money.
    pub open spec fn money_refusal(
        self,
        field: Seq<char>,
        units: MinorUnits,
    ) -> Option<RejectionView> {
        minor_refusal(self.amount@, self.currency, field, units)
    }

    /// The account money the amount states.
    pub fn to_money(&self, field: &str, units: &MinorUnits) -> (read: Result<
        PostedMoney,
        Rejection,
    >)
        ensures
            match read {
                Ok(money) => self.states_money(*units, money) && self.money_refusal(
                    field@,
                    *units,
                ) is None,
                Err(rejection) => self.money_refusal(field@, *units) == Some(rejection@),
            },
    {
        match minor(self.amount.as_str(), self.currency, field, units) {
            Ok(minor) => Ok(PostedMoney { minor, currency: self.currency.to_domain() }),
            Err(rejection) => Err(rejection),
        }
    }

    /// Whether this is the value per security the amount states.
    pub open spec fn states_per_unit(self, value: PerUnitAmount) -> bool {
        &&& decimal_states(self.amount@, value.value)
        &&& value.currency == self.currency.denotes()
    }

    /// The value per security the amount states. It is face value and not
    /// account money, so it is not measured in minor units.
    pub fn to_per_unit(&self, field: &str) -> (read: Result<PerUnitAmount, Rejection>)
        ensures
            match read {
                Ok(value) => self.states_per_unit(value) && decimal_refusal(
                    self.amount@,
                    field@,
                ) is None,
                Err(rejection) => decimal_refusal(self.amount@, field@) == Some(rejection@),
            },
    {
        match decimal(self.amount.as_str(), field) {
            Ok(value) => Ok(PerUnitAmount { value, currency: self.currency.to_domain() }),
            Err(rejection) => Err(rejection),
        }
    }
}

/// An amount in minor units as it is printed: with every digit of the currency's
/// minor unit.
pub open spec fn minor_text(minor: i64, currency: CurrencyCode, units: MinorUnits) -> Seq<char> {
    outside::plain_decimal(minor as int, units.digits_of(currency) as nat)
}

/// An amount in minor units as text.
pub fn minor_amount(minor: i64, currency: CurrencyCode, units: &MinorUnits) -> (text: String)
    ensures
        text@ == minor_text(minor, currency, *units),
{
    Money::posted(minor, units.digits(currency), currency).to_text()
}

/// An amount in minor units as text, where there is one.
pub fn optional_minor_amount(
    minor: Option<i64>,
    currency: CurrencyCode,
    units: &MinorUnits,
) -> (text: Option<String>)
    ensures
        relate::both(
            text,
            minor,
            |text: String, minor: i64| text@ == minor_text(minor, currency, *units),
        ),
{
    match minor {
        Some(minor) => Some(minor_amount(minor, currency, units)),
        None => None,
    }
}

/// A text is refused as a number exactly where it is none, and the refusal says which
/// field, that a number was expected there, and what stood there.
pub proof fn law_a_text_that_is_no_number_is_refused(value: Seq<char>, field: Seq<char>)
    ensures
        decimal_refusal(value, field) is Some <==> outside::decimal_read(value) is None,
        decimal_refusal(value, field) matches Some(refusal) ==> {
            &&& refusal.field == field
            &&& refusal.expected == "a decimal number represented as a string"@
            &&& refusal.actual == value
        },
{
}

/// A number is stated by a text where it is the number that is read there.
pub proof fn law_a_text_states_the_number_read_in_it(value: Seq<char>, number: Decimal)
    ensures
        decimal_states(value, number) <==> (outside::decimal_read(value) matches Some(
            (mantissa, scale),
        ) && mantissa == number.mantissa() && scale == number.scale()),
{
}

/// Every amount that the currency's minor unit is fine enough for and that can be posted
/// is read, as exactly that many minor units, and no other amount is.
pub proof fn law_an_amount_reads_as_its_minor_units(
    value: Seq<char>,
    currency: CurrencyDto,
    field: Seq<char>,
    units: MinorUnits,
    minor: i64,
)
    ensures
        minor_states(value, currency, units, minor) <==> (outside::decimal_read(value) matches Some(
            (mantissa, scale),
        ) && {
            &&& scale <= units.digits_of(currency.denotes())
            &&& minor == mantissa * vstd::arithmetic::power::pow(
                10,
                (units.digits_of(currency.denotes()) - scale) as nat,
            )
        }),
        minor_states(value, currency, units, minor) ==> minor_refusal(
            value,
            currency,
            field,
            units,
        ) is None,
{
}

/// An amount is refused where its text is no number, where it has more digits behind the
/// point than the minor unit has, or where it is too large to post, and for nothing else;
/// the refusal names the field and what stood there.
pub proof fn law_an_amount_is_refused_for_cause(
    value: Seq<char>,
    currency: CurrencyDto,
    field: Seq<char>,
    units: MinorUnits,
)
    ensures
        minor_refusal(value, currency, field, units) matches Some(refusal) ==> refusal.field
            == field,
        match outside::decimal_read(value) {
            None => minor_refusal(value, currency, field, units) == decimal_refusal(value, field),
            Some((mantissa, scale)) => {
                let digits = units.digits_of(currency.denotes());
                let number = mantissa * vstd::arithmetic::power::pow(10, (digits - scale) as nat);
                let refusal = minor_refusal(value, currency, field, units);
                &&& refusal is None <==> scale <= digits && i64::MIN <= number <= i64::MAX
                &&& refusal is Some ==> refusal->0.actual == outside::plain_decimal(
                    mantissa as int,
                    scale as nat,
                )
                &&& scale > digits ==> refusal->0.expected
                    == "no more digits after the point than the currency's minor unit has"@
                &&& scale <= digits && refusal is Some ==> refusal->0.expected
                    == "an amount whose number of minor units can be posted"@
            },
        },
{
}

/// An amount that is left out is neither refused nor read; one that is stated is refused
/// and read as any amount is.
pub proof fn law_a_missing_amount_stays_missing(
    value: Option<String>,
    currency: CurrencyDto,
    field: Seq<char>,
    units: MinorUnits,
    minor: Option<i64>,
)
    ensures
        value is None ==> optional_minor_refusal(value, currency, field, units) is None,
        value is None ==> (optional_minor_states(value, currency, units, minor) <==> minor is None),
        value matches Some(raw) ==> optional_minor_refusal(value, currency, field, units)
            == minor_refusal(raw@, currency, field, units),
        value matches Some(raw) ==> (optional_minor_states(value, currency, units, minor) <==> (
        minor matches Some(number) && minor_states(raw@, currency, units, number))),
{
}

/// An amount with its currency is account money of that currency, in minor units, and a
/// value per security of that currency, in whatever digits it was stated.
pub proof fn law_an_amount_keeps_its_currency(
    dto: AmountDto,
    field: Seq<char>,
    units: MinorUnits,
    money: PostedMoney,
    value: PerUnitAmount,
)
    ensures
        dto.states_money(units, money) <==> minor_states(
            dto.amount@,
            dto.currency,
            units,
            money.minor,
        ) && money.currency == dto.currency.denotes(),
        dto.money_refusal(field, units) == minor_refusal(dto.amount@, dto.currency, field, units),
        dto.states_per_unit(value) <==> decimal_states(dto.amount@, value.value) && value.currency
            == dto.currency.denotes(),
{
}

/// An amount is printed with every digit of its own currency's minor unit, so that it
/// reads back as the number of minor units it was printed from.
pub proof fn law_an_amount_is_printed_in_its_minor_unit(
    minor: i64,
    currency: CurrencyCode,
    units: MinorUnits,
)
    ensures
        minor_text(minor, currency, units) == outside::plain_decimal(
            minor as int,
            units.digits_of(currency) as nat,
        ),
{
}

} // verus!
