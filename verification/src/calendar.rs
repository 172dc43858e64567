//! Dates, times of day and moments.

use crate::outside;
use crate::outside::format_rfc_3339;
use crate::text;
use crate::text::padded_text;
use vstd::prelude::*;

verus! {

/// A calendar date.
#[derive(Debug, Clone, Copy, PartialEq, Eq, Structural)]
pub struct Date {
    pub year: i32,
    pub month: u8,
    pub day: u8,
}

impl Date {
    /// The date as it is printed: year, month and day, with hyphens between.
    pub open spec fn text(self) -> Seq<char> {
        (if self.year < 0 { "-"@ } else { ""@ }) + text::padded(
            (if self.year < 0 { -self.year } else { self.year as int }) as nat,
            4,
        ) + "-"@ + text::padded(self.month as nat, 2) + "-"@ + text::padded(self.day as nat, 2)
    }

    /// The date as text.
    pub fn to_text(&self) -> (text: String)
        ensures
            text@ == self.text(),
    {
        let mut text = if self.year < 0 {
            "-".to_owned()
        } else {
            "".to_owned()
        };
        let year: i64 = self.year as i64;
        let distance: u64 = if year < 0 {
            (-year) as u64
        } else {
            year as u64
        };
        text.append(padded_text(distance, 4).as_str());
        text.append("-");
        text.append(padded_text(self.month as u64, 2).as_str());
        text.append("-");
        text.append(padded_text(self.day as u64, 2).as_str());
        text
    }
}

/// An interval of dates, both ends included.
#[derive(Debug, Clone, Copy, PartialEq, Eq, Structural)]
pub struct Period {
    pub from: Date,
    pub to: Date,
}

/// A time of day as a source stated it.
#[derive(Debug, Clone, Copy, PartialEq, Eq, Structural)]
pub struct SourceTime {
    pub hour: u8,
    pub minute: u8,
    pub second: u8,
    pub nanosecond: u32,
}

impl SourceTime {
    /// Hours, minutes and seconds, two digits each. A fraction of a second is
    /// not printed.
    pub open spec fn text(self) -> Seq<char> {
        text::padded(self.hour as nat, 2) + ":"@ + text::padded(self.minute as nat, 2) + ":"@ + text::padded(
            self.second as nat,
            2,
        )
    }
}

/// `HH:MM:SS`, the precision a source states a time of day to.
pub fn format_source_time(time: SourceTime) -> (text: String)
    ensures
        text@ == time.text(),
{
    let mut text = padded_text(time.hour as u64, 2);
    text.append(":");
    text.append(padded_text(time.minute as u64, 2).as_str());
    text.append(":");
    text.append(padded_text(time.second as u64, 2).as_str());
    text
}

/// A moment that has an RFC 3339 form, with that form.
#[derive(Debug, PartialEq, Eq)]
pub struct Timestamp {
    unix_nanos: i128,
    offset: i32,
    form: String,
}

impl Timestamp {
    #[verifier::type_invariant]
    spec fn has_its_form(self) -> bool {
        outside::rfc_3339(self.unix_nanos, self.offset) == Some(self.form@)
    }

    /// The moment, in nanoseconds since the Unix epoch.
    pub closed spec fn unix_nanos(self) -> i128 {
        self.unix_nanos
    }

    /// The offset from UTC it is stated in, in seconds.
    pub closed spec fn offset(self) -> i32 {
        self.offset
    }

    /// A moment; absent where it has no RFC 3339 form, for want of a calendar
    /// year of four digits or of an offset in whole minutes.
    pub fn at(unix_nanos: i128, offset: i32) -> (moment: Option<Self>)
        ensures
            moment is Some <==> outside::rfc_3339(unix_nanos, offset) is Some,
            moment matches Some(moment) ==> moment.unix_nanos() == unix_nanos && moment.offset()
                == offset,
    {
        match format_rfc_3339(unix_nanos, offset) {
            Some(form) => Some(Self { unix_nanos, offset, form }),
            None => None,
        }
    }

    /// The RFC 3339 form.
    pub fn to_text(&self) -> (text: String)
        ensures
            outside::rfc_3339(self.unix_nanos(), self.offset()) == Some(text@),
    {
        proof {
            use_type_invariant(self);
        }
        self.form.clone()
    }
}

impl Clone for Timestamp {
    fn clone(&self) -> (copy: Self)
        ensures
            copy == *self,
    {
        proof {
            use_type_invariant(self);
        }
        Self { unix_nanos: self.unix_nanos, offset: self.offset, form: self.form.clone() }
    }
}

/// Whether a text is what the wire carries for an optional moment.
pub open spec fn timestamp_shown(text: Option<String>, moment: Option<Timestamp>) -> bool {
    match (text, moment) {
        (Some(text), Some(moment)) => outside::rfc_3339(moment.unix_nanos(), moment.offset()) == Some(text@),
        (None, None) => true,
        _ => false,
    }
}

/// A moment in its RFC 3339 form; absent where there is no moment.
pub fn format_timestamp(value: &Option<Timestamp>) -> (text: Option<String>)
    ensures
        timestamp_shown(text, *value),
{
    match value {
        Some(moment) => Some(moment.to_text()),
        None => None,
    }
}

/// A date is printed as its year, its month and its day in this order, with hyphens
/// between them: four digits at least of the year, two of the others, and a sign in front
/// of a year before the first.
pub proof fn law_a_date_is_printed_year_first(date: Date)
    ensures
        date.year >= 0 ==> date.text() == text::padded(date.year as nat, 4) + "-"@ + text::padded(
            date.month as nat,
            2,
        ) + "-"@ + text::padded(date.day as nat, 2),
        date.year < 0 ==> date.text() == "-"@ + text::padded((-date.year) as nat, 4) + "-"@
            + text::padded(date.month as nat, 2) + "-"@ + text::padded(date.day as nat, 2),
{
    reveal_strlit("");
    if date.year >= 0 {
        assert(""@ + text::padded(date.year as nat, 4) =~= text::padded(date.year as nat, 4));
    }
}

/// A time of day is printed as its hour, its minute and its second in this order, two
/// digits each, with colons between them.
pub proof fn law_a_time_is_printed_hour_first(time: SourceTime)
    ensures
        time.text() == text::padded(time.hour as nat, 2) + ":"@ + text::padded(
            time.minute as nat,
            2,
        ) + ":"@ + text::padded(time.second as nat, 2),
{
}

/// A moment is shown in the form it has, and shown exactly where there is one.
pub proof fn law_a_moment_is_shown_in_its_form(text: Option<String>, moment: Option<Timestamp>)
    requires
        timestamp_shown(text, moment),
    ensures
        text is Some <==> moment is Some,
        moment is Some ==> outside::rfc_3339(moment->0.unix_nanos(), moment->0.offset()) == Some(
            text->0@,
        ),
{
}

} // verus!
