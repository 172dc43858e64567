//! The calls into other crates.
//!
//! Every function here hands plain values to one function of another crate, or of
//! the standard library, and plain values back. What each contract says of that function is taken on
//! trust; everything else in this library is proved.

use crate::text;
use vstd::arithmetic::power;
use vstd::prelude::*;

verus! {

/// The largest mantissa of a decimal number, 96 bits of ones.
pub const MAX_MANTISSA: i128 = 79228162514264337593543950335;

/// The largest number of digits after the point of a decimal number.
pub const MAX_SCALE: u32 = 28;

/// Whether a mantissa and a scale make a decimal number.
pub open spec fn is_decimal(mantissa: i128, scale: u32) -> bool {
    &&& -MAX_MANTISSA <= mantissa <= MAX_MANTISSA
    &&& scale <= MAX_SCALE
}

/// A decimal number in plain notation: a minus sign where it is negative, the
/// whole part with at least one digit, and exactly `scale` digits after a point
/// that is left out where there are none.
pub open spec fn plain_decimal(mantissa: int, scale: nat) -> Seq<char> {
    let all = text::padded((if mantissa < 0 { -mantissa } else { mantissa }) as nat, scale + 1);
    let whole = all.take(all.len() - scale);
    let fraction = all.skip(all.len() - scale);
    (if mantissa < 0 { seq!['-'] } else { seq![] }) + whole + (if scale == 0 {
        seq![]
    } else {
        seq!['.'] + fraction
    })
}

/// `rust_decimal::Decimal::from_i128_with_scale` and the `to_string` of its
/// result: the number is printed in plain notation with all the digits of its
/// scale.
#[verifier::external_body]
pub(crate) fn decimal_text(mantissa: i128, scale: u32) -> (text: String)
    requires
        is_decimal(mantissa, scale),
    ensures
        text@ == plain_decimal(mantissa as int, scale as nat),
{
    rust_decimal::Decimal::from_i128_with_scale(mantissa, scale).to_string()
}

/// The mantissa and scale that `rust_decimal` reads out of a text; absent where
/// it refuses the text.
pub uninterp spec fn decimal_read(text: Seq<char>) -> Option<(i128, u32)>;

/// `str::parse::<rust_decimal::Decimal>`: what it reads is a function of the
/// text, is a decimal number, and gives back every number from its plain
/// notation. A negative zero is read as a zero.
#[verifier::external_body]
pub(crate) fn parse_decimal(text: &str) -> (read: Option<(i128, u32)>)
    ensures
        read == decimal_read(text@),
        read matches Some(parts) ==> is_decimal(parts.0, parts.1),
        forall|mantissa: i128, scale: u32|
            is_decimal(mantissa, scale) && text@ == #[trigger] plain_decimal(
                mantissa as int,
                scale as nat,
            ) ==> read == Some((mantissa, scale)),
{
    match text.parse::<rust_decimal::Decimal>() {
        Ok(number) => Some((number.mantissa(), number.scale())),
        Err(_) => None,
    }
}

/// The hexadecimal digit of a 128-bit value at a place counted from the left.
pub open spec fn hex_place(value: u128, place: int) -> char {
    text::hex_char((value as int / power::pow(16, (31 - place) as nat)) % 16)
}

/// An identifier in its hyphenated form: 32 lower-case hexadecimal digits in
/// groups of 8, 4, 4, 4 and 12.
pub open spec fn hyphenated(value: u128) -> Seq<char> {
    Seq::new(8, |i: int| hex_place(value, i)) + seq!['-'] + Seq::new(
        4,
        |i: int| hex_place(value, 8 + i),
    ) + seq!['-'] + Seq::new(4, |i: int| hex_place(value, 12 + i)) + seq!['-'] + Seq::new(
        4,
        |i: int| hex_place(value, 16 + i),
    ) + seq!['-'] + Seq::new(12, |i: int| hex_place(value, 20 + i))
}

/// `uuid::Uuid::from_u128` and the `to_string` of its result: the hyphenated
/// form.
#[verifier::external_body]
pub(crate) fn uuid_text(value: u128) -> (text: String)
    ensures
        text@ == hyphenated(value),
{
    uuid::Uuid::from_u128(value).to_string()
}

/// The bits of the identifier that `uuid` reads out of a text; absent where it
/// refuses the text.
pub uninterp spec fn uuid_read(text: Seq<char>) -> Option<u128>;

/// `uuid::Uuid::parse_str`: what it reads is a function of the text, and the
/// hyphenated form of an identifier is read as that identifier.
#[verifier::external_body]
pub(crate) fn parse_uuid(text: &str) -> (read: Option<u128>)
    ensures
        read == uuid_read(text@),
        forall|value: u128| text@ == #[trigger] hyphenated(value) ==> read == Some(value),
{
    match uuid::Uuid::parse_str(text) {
        Ok(id) => Some(id.as_u128()),
        Err(_) => None,
    }
}

/// The RFC 3339 form that `time` gives a moment stated as nanoseconds since the
/// Unix epoch and an offset from UTC in seconds; absent where it has none.
pub uninterp spec fn rfc_3339(unix_nanos: i128, offset: i32) -> Option<Seq<char>>;

/// `time::OffsetDateTime::from_unix_timestamp_nanos`, `checked_to_offset` and
/// `format` with the well-known RFC 3339 description: what they give is a
/// function of the moment and the offset. Which moments have a form, and the
/// form itself, are left to the name.
#[verifier::external_body]
pub(crate) fn format_rfc_3339(unix_nanos: i128, offset: i32) -> (text: Option<String>)
    ensures
        match text {
            Some(text) => rfc_3339(unix_nanos, offset) == Some(text@),
            None => rfc_3339(unix_nanos, offset) is None,
        },
{
    let offset = time::UtcOffset::from_whole_seconds(offset).ok()?;
    let moment = time::OffsetDateTime::from_unix_timestamp_nanos(unix_nanos).ok()?;
    let local = moment.checked_to_offset(offset)?;
    local.format(&time::format_description::well_known::Rfc3339).ok()
}

/// The SHA-256 digest of a byte sequence.
pub uninterp spec fn sha_256_digest(bytes: Seq<u8>) -> Seq<u8>;

/// `sha2::Sha256::digest`: a function of the bytes, 32 bytes long.
#[verifier::external_body]
pub(crate) fn sha_256(bytes: &[u8]) -> (digest: Vec<u8>)
    ensures
        digest@ == sha_256_digest(bytes@),
        digest@.len() == 32,
{
    <sha2::Sha256 as sha2::Digest>::digest(bytes).to_vec()
}

/// `getrandom::fill`: fresh random bytes, as many as were asked for, or none where
/// the system has no source of them. Which bytes come is chance, and nothing is
/// said of it.
#[verifier::external_body]
pub(crate) fn random_bytes(count: usize) -> (bytes: Option<Vec<u8>>)
    ensures
        bytes matches Some(bytes) ==> bytes@.len() == count,
{
    let mut bytes = vec![0u8; count];
    getrandom::fill(&mut bytes).ok()?;
    Some(bytes)
}

/// A character inside a JSON string literal: the quotation mark, the backslash and
/// the control characters are escaped, the last in hexadecimal digits where they have
/// no letter of their own.
pub open spec fn json_escape(c: char) -> Seq<char> {
    if c == '"' || c == '\\' {
        seq!['\\', c]
    } else if c == '\x08' {
        seq!['\\', 'b']
    } else if c == '\t' {
        seq!['\\', 't']
    } else if c == '\n' {
        seq!['\\', 'n']
    } else if c == '\x0c' {
        seq!['\\', 'f']
    } else if c == '\r' {
        seq!['\\', 'r']
    } else if (c as int) < 32 {
        seq!['\\', 'u', '0', '0', text::hex_char(c as int / 16), text::hex_char(c as int % 16)]
    } else {
        seq![c]
    }
}

/// The inside of a JSON string literal.
pub open spec fn json_escaped(characters: Seq<char>) -> Seq<char>
    decreases characters.len(),
{
    if characters.len() == 0 {
        seq![]
    } else {
        json_escaped(characters.drop_last()) + json_escape(characters.last())
    }
}

/// A text as a JSON string literal, quotation marks included.
#[verifier::opaque]
pub open spec fn json_literal(characters: Seq<char>) -> Seq<char> {
    seq!['"'] + json_escaped(characters) + seq!['"']
}

/// `serde_json::Value::to_string` of a string: the string literal, with every
/// character either as it is or escaped.
#[verifier::external_body]
pub(crate) fn json_string(text: &str) -> (literal: String)
    ensures
        literal@ == json_literal(text@),
{
    serde_json::Value::String(text.to_owned()).to_string()
}

/// The text that the `Debug` of `str` prints.
pub uninterp spec fn str_debug(text: Seq<char>) -> Seq<char>;

/// The `Debug` of `str`, as `format!` prints it: a function of the text. Which
/// characters are escaped, and how, is left to the name.
#[verifier::external_body]
pub(crate) fn debug_text(text: &str) -> (printed: String)
    ensures
        printed@ == str_debug(text@),
{
    format!("{:?}", text)
}

} // verus!
