//! Identifiers.

use crate::outside;
use crate::outside::{parse_uuid, uuid_text};
use vstd::prelude::*;

verus! {

/// An identifier of 128 bits.
#[derive(Debug, Clone, Copy, PartialEq, Eq, Structural)]
pub struct Uuid {
    pub value: u128,
}

impl Uuid {
    /// The identifier with these bits.
    pub fn from_u128(value: u128) -> (id: Self)
        ensures
            id.value == value,
    {
        Self { value }
    }

    /// The identifier in its hyphenated form.
    pub open spec fn text(self) -> Seq<char> {
        outside::hyphenated(self.value)
    }

    /// The identifier as text, in its hyphenated form.
    pub fn to_text(&self) -> (text: String)
        ensures
            text@ == self.text(),
    {
        uuid_text(self.value)
    }

    /// Reads an identifier out of a text; absent where the text is none.
    pub fn parse_str(text: &str) -> (id: Option<Self>)
        ensures
            match id {
                Some(id) => outside::uuid_read(text@) == Some(id.value),
                None => outside::uuid_read(text@) is None,
            },
            forall|known: Uuid| text@ == #[trigger] known.text() ==> id == Some(known),
    {
        match parse_uuid(text) {
            Some(value) => Some(Self { value }),
            None => None,
        }
    }
}

/// An account of the owner's.
#[derive(Debug, Clone, Copy, PartialEq, Eq, Structural)]
pub struct AccountId(pub Uuid);

impl AccountId {
    /// The bare identifier.
    pub fn inner(self) -> (id: Uuid)
        ensures
            id == self.0,
    {
        self.0
    }

    /// The bare identifier of a borrowed value.
    pub fn uuid(&self) -> (id: Uuid)
        ensures
            id == self.0,
    {
        self.0
    }
}

/// A security or another instrument.
#[derive(Debug, Clone, Copy, PartialEq, Eq, Structural)]
pub struct InstrumentId(pub Uuid);

impl InstrumentId {
    /// The bare identifier.
    pub fn inner(self) -> (id: Uuid)
        ensures
            id == self.0,
    {
        self.0
    }

    /// The bare identifier of a borrowed value.
    pub fn uuid(&self) -> (id: Uuid)
        ensures
            id == self.0,
    {
        self.0
    }
}

/// A place where instruments are kept.
#[derive(Debug, Clone, Copy, PartialEq, Eq, Structural)]
pub struct CustodyId(pub Uuid);

impl CustodyId {
    /// The bare identifier.
    pub fn inner(self) -> (id: Uuid)
        ensures
            id == self.0,
    {
        self.0
    }

    /// The bare identifier of a borrowed value.
    pub fn uuid(&self) -> (id: Uuid)
        ensures
            id == self.0,
    {
        self.0
    }
}

/// A journal event.
#[derive(Debug, Clone, Copy, PartialEq, Eq, Structural)]
pub struct EventId(pub Uuid);

impl EventId {
    /// The bare identifier.
    pub fn inner(self) -> (id: Uuid)
        ensures
            id == self.0,
    {
        self.0
    }

    /// The bare identifier of a borrowed value.
    pub fn uuid(&self) -> (id: Uuid)
        ensures
            id == self.0,
    {
        self.0
    }
}

/// A source rows arrive from.
#[derive(Debug, Clone, Copy, PartialEq, Eq, Structural)]
pub struct SourceId(pub Uuid);

impl SourceId {
    /// The bare identifier.
    pub fn inner(self) -> (id: Uuid)
        ensures
            id == self.0,
    {
        self.0
    }

    /// The bare identifier of a borrowed value.
    pub fn uuid(&self) -> (id: Uuid)
        ensures
            id == self.0,
    {
        self.0
    }
}

/// A named import within a source.
#[derive(Debug, Clone, Copy, PartialEq, Eq, Structural)]
pub struct ImportId(pub Uuid);

impl ImportId {
    /// The bare identifier.
    pub fn inner(self) -> (id: Uuid)
        ensures
            id == self.0,
    {
        self.0
    }

    /// The bare identifier of a borrowed value.
    pub fn uuid(&self) -> (id: Uuid)
        ensures
            id == self.0,
    {
        self.0
    }
}

/// An import session.
#[derive(Debug, Clone, Copy, PartialEq, Eq, Structural)]
pub struct ImportSessionId(pub Uuid);

impl ImportSessionId {
    /// The bare identifier.
    pub fn inner(self) -> (id: Uuid)
        ensures
            id == self.0,
    {
        self.0
    }

    /// The bare identifier of a borrowed value.
    pub fn uuid(&self) -> (id: Uuid)
        ensures
            id == self.0,
    {
        self.0
    }
}

/// A question an import session asks.
#[derive(Debug, Clone, Copy, PartialEq, Eq, Structural)]
pub struct ImportQuestionId(pub Uuid);

impl ImportQuestionId {
    /// The bare identifier.
    pub fn inner(self) -> (id: Uuid)
        ensures
            id == self.0,
    {
        self.0
    }

    /// The bare identifier of a borrowed value.
    pub fn uuid(&self) -> (id: Uuid)
        ensures
            id == self.0,
    {
        self.0
    }
}

/// A reporting perimeter.
#[derive(Debug, Clone, Copy, PartialEq, Eq, Structural)]
pub struct ContourId(pub Uuid);

impl ContourId {
    /// The bare identifier.
    pub fn inner(self) -> (id: Uuid)
        ensures
            id == self.0,
    {
        self.0
    }

    /// The bare identifier of a borrowed value.
    pub fn uuid(&self) -> (id: Uuid)
        ensures
            id == self.0,
    {
        self.0
    }
}

/// One of the owner's categories.
#[derive(Debug, Clone, Copy, PartialEq, Eq, Structural)]
pub struct CategoryId(pub Uuid);

impl CategoryId {
    /// The bare identifier.
    pub fn inner(self) -> (id: Uuid)
        ensures
            id == self.0,
    {
        self.0
    }

    /// The bare identifier of a borrowed value.
    pub fn uuid(&self) -> (id: Uuid)
        ensures
            id == self.0,
    {
        self.0
    }
}

/// A group of categories.
#[derive(Debug, Clone, Copy, PartialEq, Eq, Structural)]
pub struct CategoryGroupId(pub Uuid);

impl CategoryGroupId {
    /// The bare identifier.
    pub fn inner(self) -> (id: Uuid)
        ensures
            id == self.0,
    {
        self.0
    }

    /// The bare identifier of a borrowed value.
    pub fn uuid(&self) -> (id: Uuid)
        ensures
            id == self.0,
    {
        self.0
    }
}

/// A category rule.
#[derive(Debug, Clone, Copy, PartialEq, Eq, Structural)]
pub struct CategoryRuleId(pub Uuid);

impl CategoryRuleId {
    /// The bare identifier.
    pub fn inner(self) -> (id: Uuid)
        ensures
            id == self.0,
    {
        self.0
    }

    /// The bare identifier of a borrowed value.
    pub fn uuid(&self) -> (id: Uuid)
        ensures
            id == self.0,
    {
        self.0
    }
}

/// A submitted offer application.
#[derive(Debug, Clone, Copy, PartialEq, Eq, Structural)]
pub struct OfferSubmissionId(pub Uuid);

impl OfferSubmissionId {
    /// The bare identifier.
    pub fn inner(self) -> (id: Uuid)
        ensures
            id == self.0,
    {
        self.0
    }

    /// The bare identifier of a borrowed value.
    pub fn uuid(&self) -> (id: Uuid)
        ensures
            id == self.0,
    {
        self.0
    }
}

/// A window in which an offer may be exercised.
#[derive(Debug, Clone, Copy, PartialEq, Eq, Structural)]
pub struct OfferWindowId(pub Uuid);

impl OfferWindowId {
    /// The bare identifier.
    pub fn inner(self) -> (id: Uuid)
        ensures
            id == self.0,
    {
        self.0
    }

    /// The bare identifier of a borrowed value.
    pub fn uuid(&self) -> (id: Uuid)
        ensures
            id == self.0,
    {
        self.0
    }
}

/// An identifier is printed in its hyphenated form.
pub proof fn law_an_identifier_is_printed_with_hyphens(id: Uuid)
    ensures
        id.text() == outside::hyphenated(id.value),
{
}

} // verus!
