//! Decimal numbers, currencies and amounts.

use crate::outside;
use crate::outside::{decimal_text, MAX_MANTISSA, MAX_SCALE};
use vstd::arithmetic::power;
use vstd::prelude::*;

verus! {

/// A decimal number: a mantissa and the number of its digits that stand after
/// the point.
#[derive(Debug, Clone, Copy, PartialEq, Eq, Structural)]
pub struct Decimal {
    mantissa: i128,
    scale: u32,
}

impl Decimal {
    #[verifier::type_invariant]
    spec fn in_range(self) -> bool {
        outside::is_decimal(self.mantissa, self.scale)
    }

    /// The number without its point.
    pub closed spec fn mantissa(self) -> i128 {
        self.mantissa
    }

    /// How many digits stand after the point.
    pub closed spec fn scale(self) -> u32 {
        self.scale
    }

    /// The number as it is printed.
    pub open spec fn text(self) -> Seq<char> {
        outside::plain_decimal(self.mantissa() as int, self.scale() as nat)
    }

    /// A number with a mantissa of machine width.
    pub fn new(mantissa: i64, scale: u32) -> (number: Self)
        requires
            scale <= MAX_SCALE,
        ensures
            number.mantissa() == mantissa,
            number.scale() == scale,
    {
        Self { mantissa: mantissa as i128, scale }
    }

    /// The number with these parts; absent where they make none.
    pub fn from_parts(mantissa: i128, scale: u32) -> (number: Option<Self>)
        ensures
            number is Some <==> outside::is_decimal(mantissa, scale),
            number matches Some(number) ==> number.mantissa() == mantissa && number.scale()
                == scale,
    {
        if -MAX_MANTISSA <= mantissa && mantissa <= MAX_MANTISSA && scale <= MAX_SCALE {
            Some(Self { mantissa, scale })
        } else {
            None
        }
    }

    /// The mantissa and the scale.
    pub fn parts(&self) -> (parts: (i128, u32))
        ensures
            parts == (self.mantissa(), self.scale()),
            outside::is_decimal(parts.0, parts.1),
    {
        proof {
            use_type_invariant(*self);
        }
        (self.mantissa, self.scale)
    }

    /// The number as text, with every digit of its scale.
    pub fn to_text(&self) -> (text: String)
        ensures
            text@ == self.text(),
    {
        let (mantissa, scale) = self.parts();
        decimal_text(mantissa, scale)
    }
}

/// Two numbers with the same parts are the same number.
pub proof fn lemma_number_is_its_parts(one: Decimal, other: Decimal)
    requires
        one.mantissa() == other.mantissa(),
        one.scale() == other.scale(),
    ensures
        one == other,
{
}

/// A currency.
#[derive(Debug, Clone, Copy, PartialEq, Eq, Structural)]
pub enum CurrencyCode {
    Rub,
    Usd,
    Eur,
    Cny,
    Xau,
}

impl CurrencyCode {
    /// The three letters of the currency.
    pub open spec fn word(self) -> Seq<char> {
        match self {
            Self::Rub => "RUB"@,
            Self::Usd => "USD"@,
            Self::Eur => "EUR"@,
            Self::Cny => "CNY"@,
            Self::Xau => "XAU"@,
        }
    }

    /// The three letters of the currency.
    pub fn code(self) -> (code: &'static str)
        ensures
            code@ == self.word(),
    {
        match self {
            Self::Rub => "RUB",
            Self::Usd => "USD",
            Self::Eur => "EUR",
            Self::Cny => "CNY",
            Self::Xau => "XAU",
        }
    }
}

/// Account money: an amount in major units, at the scale of the currency's
/// minor unit.
#[derive(Debug, Clone, Copy, PartialEq, Eq, Structural)]
pub struct Money {
    pub amount: Decimal,
    pub currency: CurrencyCode,
}

impl Money {
    /// The amount as it is printed.
    pub open spec fn text(self) -> Seq<char> {
        self.amount.text()
    }

    /// An amount posted in minor units.
    pub fn posted(minor: i64, minor_digits: u32, currency: CurrencyCode) -> (money: Self)
        requires
            minor_digits <= MAX_SCALE,
        ensures
            money.amount.mantissa() == minor,
            money.amount.scale() == minor_digits,
            money.currency == currency,
    {
        Self { amount: Decimal::new(minor, minor_digits), currency }
    }

    /// The amount as text.
    pub fn to_text(&self) -> (text: String)
        ensures
            text@ == self.text(),
    {
        self.amount.to_text()
    }
}

/// A calculated amount. It is not account money and keeps whatever scale the
/// calculation left it.
#[derive(Debug, Clone, Copy, PartialEq, Eq, Structural)]
pub struct CalcMoney {
    pub value: Decimal,
    pub currency: CurrencyCode,
}

/// Account money as the ledger posts it: a number of minor units.
#[derive(Debug, Clone, Copy, PartialEq, Eq, Structural)]
pub struct PostedMoney {
    pub minor: i64,
    pub currency: CurrencyCode,
}

/// A value per security, which is not measured in minor units.
#[derive(Debug, Clone, Copy, PartialEq, Eq, Structural)]
pub struct PerUnitAmount {
    pub value: Decimal,
    pub currency: CurrencyCode,
}

/// How many digits after the point the minor unit of each currency has. No minor
/// unit is finer than a decimal number can be.
#[derive(Debug, Clone, Copy, PartialEq, Eq, Structural)]
pub struct MinorUnits {
    rub: u32,
    usd: u32,
    eur: u32,
    cny: u32,
    xau: u32,
}

impl MinorUnits {
    #[verifier::type_invariant]
    spec fn in_range(self) -> bool {
        &&& self.rub <= MAX_SCALE
        &&& self.usd <= MAX_SCALE
        &&& self.eur <= MAX_SCALE
        &&& self.cny <= MAX_SCALE
        &&& self.xau <= MAX_SCALE
    }

    /// The digits of one currency's minor unit.
    pub closed spec fn digits_of(self, currency: CurrencyCode) -> u32 {
        match currency {
            CurrencyCode::Rub => self.rub,
            CurrencyCode::Usd => self.usd,
            CurrencyCode::Eur => self.eur,
            CurrencyCode::Cny => self.cny,
            CurrencyCode::Xau => self.xau,
        }
    }

    /// The table with these digits; absent where one of them is finer than a
    /// decimal number can be.
    pub fn new(rub: u32, usd: u32, eur: u32, cny: u32, xau: u32) -> (units: Option<Self>)
        ensures
            units is Some <==> rub <= MAX_SCALE && usd <= MAX_SCALE && eur <= MAX_SCALE && cny
                <= MAX_SCALE && xau <= MAX_SCALE,
            units matches Some(units) ==> {
                &&& units.digits_of(CurrencyCode::Rub) == rub
                &&& units.digits_of(CurrencyCode::Usd) == usd
                &&& units.digits_of(CurrencyCode::Eur) == eur
                &&& units.digits_of(CurrencyCode::Cny) == cny
                &&& units.digits_of(CurrencyCode::Xau) == xau
            },
    {
        if rub <= MAX_SCALE && usd <= MAX_SCALE && eur <= MAX_SCALE && cny <= MAX_SCALE && xau
            <= MAX_SCALE {
            Some(Self { rub, usd, eur, cny, xau })
        } else {
            None
        }
    }

    /// The digits of one currency's minor unit.
    pub fn digits(&self, currency: CurrencyCode) -> (digits: u32)
        ensures
            digits == self.digits_of(currency),
            digits <= MAX_SCALE,
    {
        proof {
            use_type_invariant(*self);
        }
        match currency {
            CurrencyCode::Rub => self.rub,
            CurrencyCode::Usd => self.usd,
            CurrencyCode::Eur => self.eur,
            CurrencyCode::Cny => self.cny,
            CurrencyCode::Xau => self.xau,
        }
    }
}

/// Why an amount is no number of minor units.
#[derive(Debug, Clone, Copy, PartialEq, Eq, Structural)]
pub enum NotMinorUnits {
    /// It has more digits after the point than the minor unit has.
    SurplusDigit,
    /// The number of minor units is too large to post.
    TooLarge,
}

/// The number of minor units a decimal number is, as a mathematical integer.
pub open spec fn minor_value(mantissa: i128, scale: u32, minor_digits: u32) -> int {
    mantissa * power::pow(10, (minor_digits - scale) as nat)
}

/// What a decimal number is in minor units. A surplus digit is refused and not
/// rounded away.
pub open spec fn minor_units(mantissa: i128, scale: u32, minor_digits: u32) -> Result<
    i64,
    NotMinorUnits,
> {
    if scale > minor_digits {
        Err(NotMinorUnits::SurplusDigit)
    } else if i64::MIN <= minor_value(mantissa, scale, minor_digits) <= i64::MAX {
        Ok(minor_value(mantissa, scale, minor_digits) as i64)
    } else {
        Err(NotMinorUnits::TooLarge)
    }
}

proof fn lemma_one_more_zero(mantissa: int, zeros: nat)
    ensures
        mantissa * power::pow(10, zeros + 1) == (mantissa * power::pow(10, zeros)) * 10,
{
    power::lemma_pow_adds(10, zeros, 1);
    power::lemma_pow1(10);
    assert(mantissa * (power::pow(10, zeros) * 10) == (mantissa * power::pow(10, zeros)) * 10) by (nonlinear_arith);
}

/// Once a product has left the machine range, further zeros keep it outside.
proof fn lemma_stays_outside(mantissa: int, zeros: nat, more: nat)
    requires
        zeros <= more,
        !(i64::MIN <= mantissa * power::pow(10, zeros) <= i64::MAX),
    ensures
        !(i64::MIN <= mantissa * power::pow(10, more) <= i64::MAX),
    decreases more - zeros,
{
    if zeros < more {
        lemma_one_more_zero(mantissa, zeros);
        lemma_stays_outside(mantissa, zeros + 1, more);
    }
}

/// An amount in minor units.
pub fn to_minor_units(number: Decimal, minor_digits: u32) -> (minor: Result<i64, NotMinorUnits>)
    ensures
        minor == minor_units(number.mantissa(), number.scale(), minor_digits),
{
    let (mantissa, scale) = number.parts();
    if scale > minor_digits {
        return Err(NotMinorUnits::SurplusDigit);
    }
    let mut value: i128 = mantissa;
    let mut written: u32 = scale;
    proof {
        power::lemma_pow0(10);
    }
    while written < minor_digits
        invariant
            number.mantissa() == mantissa,
            number.scale() == scale,
            outside::is_decimal(mantissa, scale),
            scale <= written <= minor_digits,
            value == mantissa * power::pow(10, (written - scale) as nat),
            written == scale || i64::MIN <= value <= i64::MAX,
        decreases minor_digits - written,
    {
        if value < i64::MIN as i128 || value > i64::MAX as i128 {
            proof {
                lemma_stays_outside(
                    mantissa as int,
                    (written - scale) as nat,
                    (minor_digits - scale) as nat,
                );
            }
            return Err(NotMinorUnits::TooLarge);
        }
        proof {
            lemma_one_more_zero(mantissa as int, (written - scale) as nat);
        }
        value = value * 10;
        written = written + 1;
        if value < i64::MIN as i128 || value > i64::MAX as i128 {
            proof {
                lemma_stays_outside(
                    mantissa as int,
                    (written - scale) as nat,
                    (minor_digits - scale) as nat,
                );
            }
            return Err(NotMinorUnits::TooLarge);
        }
    }
    if value < i64::MIN as i128 || value > i64::MAX as i128 {
        Err(NotMinorUnits::TooLarge)
    } else {
        Ok(value as i64)
    }
}

/// An amount that was posted in minor units is read back as the same number of
/// minor units.
pub proof fn law_posted_amount_reads_back(minor: i64, minor_digits: u32)
    ensures
        minor_units(minor as i128, minor_digits, minor_digits) == Ok::<i64, NotMinorUnits>(minor),
{
    power::lemma_pow0(10);
}

/// An amount is refused for a surplus digit exactly where its scale exceeds the
/// currency's minor unit; where it is read, no digit of it is lost.
pub proof fn law_surplus_digit_is_refused_and_never_rounded(
    mantissa: i128,
    scale: u32,
    minor_digits: u32,
)
    ensures
        scale > minor_digits <==> minor_units(mantissa, scale, minor_digits) == Err::<
            i64,
            NotMinorUnits,
        >(NotMinorUnits::SurplusDigit),
        minor_units(mantissa, scale, minor_digits) matches Ok(minor) ==> minor == mantissa
            * power::pow(10, (minor_digits - scale) as nat),
{
}

/// Every amount that the minor unit is fine enough for and that can be posted is read,
/// as exactly that many minor units; it is too large only where the number of minor
/// units is outside what can be posted.
pub proof fn law_every_exact_amount_is_read(mantissa: i128, scale: u32, minor_digits: u32)
    requires
        scale <= minor_digits,
    ensures
        i64::MIN <= mantissa * power::pow(10, (minor_digits - scale) as nat) <= i64::MAX ==> {
            &&& minor_units(mantissa, scale, minor_digits) is Ok
            &&& minor_units(mantissa, scale, minor_digits)->Ok_0 == mantissa * power::pow(
                10,
                (minor_digits - scale) as nat,
            )
        },
        minor_units(mantissa, scale, minor_digits) == Err::<i64, NotMinorUnits>(
            NotMinorUnits::TooLarge,
        ) <==> !(i64::MIN <= mantissa * power::pow(10, (minor_digits - scale) as nat)
            <= i64::MAX),
{
}

/// An amount written with one more zero behind the point is the same number of minor
/// units, as long as the minor unit is fine enough for it.
pub proof fn law_a_zero_behind_the_point_changes_nothing(
    mantissa: i128,
    scale: u32,
    minor_digits: u32,
    longer: i128,
)
    requires
        scale < minor_digits,
        longer == mantissa * 10,
    ensures
        minor_units(longer, (scale + 1) as u32, minor_digits) == minor_units(
            mantissa,
            scale,
            minor_digits,
        ),
{
    let zeros = (minor_digits - scale - 1) as nat;
    power::lemma_pow_adds(10, zeros, 1);
    power::lemma_pow1(10);
    assert((mantissa * 10) * power::pow(10, zeros) == mantissa * (power::pow(10, zeros) * 10))
        by (nonlinear_arith);
}

/// Money is printed as its amount is: the number of its units in plain notation, with
/// all the digits of its scale.
pub proof fn law_money_is_printed_in_plain_notation(money: Money)
    ensures
        money.text() == outside::plain_decimal(
            money.amount.mantissa() as int,
            money.amount.scale() as nat,
        ),
{
}

/// Each `CurrencyCode` goes by a word of its own, and that word names no other.
pub proof fn law_currency_code_goes_by_its_own_word(value: CurrencyCode)
    ensures
        value.word() == "RUB"@ <==> value is Rub,
        value.word() == "USD"@ <==> value is Usd,
        value.word() == "EUR"@ <==> value is Eur,
        value.word() == "CNY"@ <==> value is Cny,
        value.word() == "XAU"@ <==> value is Xau,
{
    reveal_strlit("RUB");
    reveal_strlit("USD");
    reveal_strlit("EUR");
    reveal_strlit("CNY");
    reveal_strlit("XAU");
    assert("CNY"@[0] == 'C');
    assert("EUR"@[0] == 'E');
    assert("RUB"@[0] == 'R');
    assert("USD"@[0] == 'U');
    assert("XAU"@[0] == 'X');
    assert(value.word().len() > 0);
}

} // verus!
