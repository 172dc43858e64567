//! Source profiles, and a document read through one.

use crate::ids::{ImportSessionId, SourceId};
use crate::ledger::rejection::Rejection;
use crate::ledger::session::HeldRow;
use vstd::prelude::*;

verus! {

/// Where a profile came from: the word of the place and the file. Both are the
/// catalogue's own.
#[derive(Debug, Clone, PartialEq, Eq)]
pub struct ProfileOrigin {
    pub code: String,
    pub file: String,
}

/// A profile that documents are read with.
#[derive(Debug, Clone, PartialEq, Eq)]
pub struct InstalledProfile {
    pub id: String,
    pub version: u32,
    pub digest: String,
    pub issuer: String,
    pub document_label: Option<String>,
    pub origin: ProfileOrigin,
    pub recognised_by: Vec<String>,
}

/// A profile that was not accepted, and why.
#[derive(Debug, Clone, PartialEq, Eq)]
pub struct RefusedProfile {
    pub id: Option<String>,
    pub origin: ProfileOrigin,
    pub reason: String,
}

/// The profiles that were accepted and the ones that were not.
#[derive(Debug, Clone, PartialEq, Eq)]
pub struct ProfileCatalogue {
    pub installed: Vec<InstalledProfile>,
    pub refused: Vec<RefusedProfile>,
}

/// The profile a document was read with.
#[derive(Debug, Clone, PartialEq, Eq)]
pub struct ReadingProfile {
    pub id: String,
    pub version: u32,
    pub digest: String,
    pub issuer: String,
    pub origin: String,
}

/// A record of a document.
#[derive(Debug, Clone, PartialEq, Eq)]
pub enum DocumentRow {
    Unreadable { locator: u64, rejection: Rejection },
    Held { locator: u64, held: HeldRow },
}

impl DocumentRow {
    /// The place of the record in the document.
    pub open spec fn place(self) -> u64 {
        match self {
            Self::Unreadable { locator, rejection } => locator,
            Self::Held { locator, held } => locator,
        }
    }

    /// The place of the record in the document.
    pub fn locator(&self) -> (locator: u64)
        ensures
            locator == self.place(),
    {
        match self {
            Self::Unreadable { locator, rejection } => *locator,
            Self::Held { locator, held } => *locator,
        }
    }
}

/// A printed account no record of the directory answers to.
#[derive(Debug, Clone, PartialEq, Eq)]
pub struct UnresolvedAccount {
    pub printed: String,
    pub records: usize,
}

/// A document that was read, record by record.
#[derive(Debug, Clone, PartialEq, Eq)]
pub struct DocumentImport {
    pub session: ImportSessionId,
    pub source: SourceId,
    pub document_hash: String,
    pub profile: ReadingProfile,
    pub rows: Vec<DocumentRow>,
    pub unresolved_accounts: Vec<UnresolvedAccount>,
}

/// A record stands where its document has it, read or not.
pub proof fn law_a_record_keeps_its_place(record: DocumentRow)
    ensures
        record matches DocumentRow::Unreadable { locator, rejection } ==> record.place()
            == locator,
        record matches DocumentRow::Held { locator, held } ==> record.place() == locator,
{
}

} // verus!
