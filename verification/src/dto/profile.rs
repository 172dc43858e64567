//! Source profiles, and a document read through one, on the wire.

use crate::dto::answer::AnswerAlternativeDto;
use crate::dto::session::ImportRowDto;
use crate::ids::Uuid;
use crate::ledger::profile::{
    DocumentImport, DocumentRow, InstalledProfile, ProfileCatalogue, ReadingProfile,
    RefusedProfile, UnresolvedAccount,
};
use crate::relate::map_each;
use crate::relate;
use crate::text::natural_text;
use crate::text;
use vstd::prelude::*;

verus! {

/// A profile that documents are read with.
#[derive(Debug, Clone, PartialEq, Eq)]
pub struct SourceProfileDto {
    pub id: String,
    pub version: u32,
    pub digest: String,
    pub issuer: String,
    pub document_label: Option<String>,
    pub origin: String,
    pub file: String,
    pub recognised_by: Vec<String>,
}

impl SourceProfileDto {
    /// What the wire form says of the record it was rendered from.
    pub open spec fn shows(self, installed: InstalledProfile) -> bool {
        &&& self.id == installed.id
        &&& self.version == installed.version
        &&& self.digest == installed.digest
        &&& self.issuer == installed.issuer
        &&& self.document_label == installed.document_label
        &&& self.origin == installed.origin.code
        &&& self.file == installed.origin.file
        &&& self.recognised_by@ == installed.recognised_by@
    }

    /// The wire form of the record.
    pub fn from_domain(installed: &InstalledProfile) -> (dto: Self)
        ensures
            dto.shows(*installed),
    {
        Self {
            id: installed.id.clone(),
            version: installed.version,
            digest: installed.digest.clone(),
            issuer: installed.issuer.clone(),
            document_label: installed.document_label.clone(),
            origin: installed.origin.code.clone(),
            file: installed.origin.file.clone(),
            recognised_by: installed.recognised_by.clone(),
        }
    }
}

/// A profile that was not accepted, and why.
#[derive(Debug, Clone, PartialEq, Eq)]
pub struct RefusedProfileDto {
    pub id: Option<String>,
    pub origin: String,
    pub file: String,
    pub reason: String,
}

impl RefusedProfileDto {
    /// What the wire form says of the record it was rendered from.
    pub open spec fn shows(self, refused: RefusedProfile) -> bool {
        &&& self.id == refused.id
        &&& self.origin == refused.origin.code
        &&& self.file == refused.origin.file
        &&& self.reason == refused.reason
    }

    /// The wire form of the record.
    pub fn from_domain(refused: &RefusedProfile) -> (dto: Self)
        ensures
            dto.shows(*refused),
    {
        Self {
            id: refused.id.clone(),
            origin: refused.origin.code.clone(),
            file: refused.origin.file.clone(),
            reason: refused.reason.clone(),
        }
    }
}

/// The profiles that were accepted and the ones that were not.
#[derive(Debug, Clone, PartialEq, Eq)]
pub struct SourceProfileCatalogueDto {
    pub profiles: Vec<SourceProfileDto>,
    pub refused: Vec<RefusedProfileDto>,
}

impl SourceProfileCatalogueDto {
    /// What the wire form says of the catalogue.
    pub open spec fn shows(self, catalogue: ProfileCatalogue) -> bool {
        &&& relate::each(
            self.profiles@,
            catalogue.installed@,
            |dto: SourceProfileDto, installed: InstalledProfile| dto.shows(installed),
        )
        &&& relate::each(
            self.refused@,
            catalogue.refused@,
            |dto: RefusedProfileDto, refused: RefusedProfile| dto.shows(refused),
        )
    }
}

/// The wire form of the catalogue.
pub fn source_profile_catalogue_dto(catalogue: &ProfileCatalogue) -> (
    dto: SourceProfileCatalogueDto
)
    ensures
        dto.shows(*catalogue),
{
    SourceProfileCatalogueDto {
        profiles: map_each(&catalogue.installed, SourceProfileDto::from_domain),
        refused: map_each(&catalogue.refused, RefusedProfileDto::from_domain),
    }
}

/// The profile a document was read with.
#[derive(Debug, Clone, PartialEq, Eq)]
pub struct ReadingProfileDto {
    pub id: String,
    pub version: u32,
    pub digest: String,
    pub issuer: String,
    pub origin: String,
    /// The parser the rows are recorded under.
    pub parser_version: String,
}

impl ReadingProfileDto {
    /// The parser that a profile is.
    pub open spec fn parser_of(profile: ReadingProfile) -> Seq<char> {
        "profile/"@ + profile.id@ + "/"@ + text::digits(profile.version as nat)
    }

    /// What the wire form says of the profile.
    pub open spec fn shows(self, profile: ReadingProfile) -> bool {
        &&& self.id == profile.id
        &&& self.version == profile.version
        &&& self.digest == profile.digest
        &&& self.issuer == profile.issuer
        &&& self.origin == profile.origin
        &&& self.parser_version@ == Self::parser_of(profile)
    }

    fn from_domain(profile: &ReadingProfile) -> (dto: Self)
        ensures
            dto.shows(*profile),
    {
        let mut parser_version = "profile/".to_owned();
        parser_version.append(profile.id.as_str());
        parser_version.append("/");
        parser_version.append(natural_text(profile.version as u64).as_str());
        Self {
            id: profile.id.clone(),
            version: profile.version,
            digest: profile.digest.clone(),
            issuer: profile.issuer.clone(),
            origin: profile.origin.clone(),
            parser_version,
        }
    }
}

/// A record of a document: what became of it in the session, or why it could not be
/// read.
#[derive(Debug, Clone, PartialEq, Eq)]
pub struct SourceDocumentRowDto {
    /// The place of the record in the document.
    pub locator: u64,
    /// The row of the session it became.
    pub row: Option<u32>,
    pub state: String,
    pub reason: Option<String>,
    pub explanation: Option<String>,
    pub question_id: Option<Uuid>,
    pub prompt: Option<String>,
    pub alternatives: Option<Vec<AnswerAlternativeDto>>,
    pub field: Option<String>,
    pub expected: Option<String>,
    pub actual: Option<String>,
}

impl SourceDocumentRowDto {
    /// The row of the session inside the record.
    pub open spec fn held_part(self, row: u32) -> ImportRowDto {
        ImportRowDto {
            row,
            state: self.state,
            reason: self.reason,
            explanation: self.explanation,
            question_id: self.question_id,
            prompt: self.prompt,
            alternatives: self.alternatives,
            field: self.field,
            expected: self.expected,
            actual: self.actual,
        }
    }

    /// What the wire form says of the record. A record that could not be read
    /// became no row; one that was held is shown as the session shows its row.
    pub open spec fn shows(self, record: DocumentRow) -> bool {
        &&& self.locator == record.place()
        &&& match record {
            DocumentRow::Unreadable { locator, rejection } => {
                &&& self.row is None
                &&& self.state@ == "unreadable"@
                &&& self.reason is None
                &&& self.explanation is None
                &&& self.question_id is None
                &&& self.prompt is None
                &&& self.alternatives is None
                &&& self.field == Some(rejection.field)
                &&& self.expected == Some(rejection.expected)
                &&& self.actual == Some(rejection.actual)
            },
            DocumentRow::Held { locator, held } => self.row matches Some(row) && self.held_part(
                row,
            ).shows(held),
        }
    }

    /// The wire form of the record.
    pub fn from_domain(record: &DocumentRow) -> (dto: Self)
        ensures
            dto.shows(*record),
    {
        let base = Self {
            locator: record.locator(),
            row: None,
            state: String::new(),
            reason: None,
            explanation: None,
            question_id: None,
            prompt: None,
            alternatives: None,
            field: None,
            expected: None,
            actual: None,
        };
        match record {
            DocumentRow::Unreadable { locator, rejection } => Self {
                state: "unreadable".to_owned(),
                field: Some(rejection.field.clone()),
                expected: Some(rejection.expected.clone()),
                actual: Some(rejection.actual.clone()),
                ..base
            },
            DocumentRow::Held { locator, held } => {
                let held = ImportRowDto::from_domain(held);
                Self {
                    row: Some(held.row),
                    state: held.state,
                    reason: held.reason,
                    explanation: held.explanation,
                    question_id: held.question_id,
                    prompt: held.prompt,
                    alternatives: held.alternatives,
                    field: held.field,
                    expected: held.expected,
                    actual: held.actual,
                    ..base
                }
            },
        }
    }
}

/// A printed account no record of the directory answers to.
#[derive(Debug, Clone, PartialEq, Eq)]
pub struct UnresolvedAccountDto {
    pub printed: String,
    pub records: usize,
}

impl UnresolvedAccountDto {
    /// What the wire form says of the record it was rendered from.
    pub open spec fn shows(self, name: UnresolvedAccount) -> bool {
        &&& self.printed == name.printed
        &&& self.records == name.records
    }

    /// The wire form of the record.
    pub fn from_domain(name: &UnresolvedAccount) -> (dto: Self)
        ensures
            dto.shows(*name),
    {
        Self {
            printed: name.printed.clone(),
            records: name.records,
        }
    }
}

/// A document that was read, record by record.
#[derive(Debug, Clone, PartialEq, Eq)]
pub struct SourceDocumentDto {
    pub session: Uuid,
    pub source: Uuid,
    pub document_hash: String,
    pub profile: ReadingProfileDto,
    pub rows: Vec<SourceDocumentRowDto>,
    pub unresolved_accounts: Vec<UnresolvedAccountDto>,
}

impl SourceDocumentDto {
    /// What the wire form says of the record it was rendered from.
    pub open spec fn shows(self, import: DocumentImport) -> bool {
        &&& self.session == import.session.0
        &&& self.source == import.source.0
        &&& self.document_hash == import.document_hash
        &&& self.profile.shows(import.profile)
        &&& relate::each(
            self.rows@,
            import.rows@,
            |dto: SourceDocumentRowDto, value: DocumentRow| dto.shows(value),
        )
        &&& relate::each(
            self.unresolved_accounts@,
            import.unresolved_accounts@,
            |dto: UnresolvedAccountDto, value: UnresolvedAccount| dto.shows(value),
        )
    }

    /// The wire form of the record.
    pub fn from_domain(import: &DocumentImport) -> (dto: Self)
        ensures
            dto.shows(*import),
    {
        Self {
            session: import.session.0,
            source: import.source.0,
            document_hash: import.document_hash.clone(),
            profile: ReadingProfileDto::from_domain(&import.profile),
            rows: map_each(&import.rows, SourceDocumentRowDto::from_domain),
            unresolved_accounts: map_each(
                &import.unresolved_accounts,
                UnresolvedAccountDto::from_domain,
            ),
        }
    }
}

/// How a document is to be read.
#[derive(Debug, Clone, PartialEq, Eq)]
pub struct SourceDocumentParams {
    pub profile: Option<String>,
    pub account: Option<Uuid>,
    pub document: Option<String>,
}

/// A record takes a row of the session exactly where it could be read: the rows of
/// a session are no lines of a document.
pub proof fn law_an_unreadable_record_takes_no_row(dto: SourceDocumentRowDto, record: DocumentRow)
    requires
        dto.shows(record),
    ensures
        dto.row is Some <==> record is Held,
        dto.locator == record.place(),
{
}

/// A `SourceProfileDto` tells each part of what it shows in a field of its own.
pub proof fn law_source_profile_is_told_part_by_part(
    dto: SourceProfileDto,
    installed: InstalledProfile,
)
    requires
        dto.shows(installed),
    ensures
        dto.id == installed.id,
        dto.version == installed.version,
        dto.digest == installed.digest,
        dto.issuer == installed.issuer,
        dto.document_label == installed.document_label,
        dto.origin == installed.origin.code,
        dto.file == installed.origin.file,
        dto.recognised_by@ == installed.recognised_by@,
{
}

/// A `RefusedProfileDto` tells each part of what it shows in a field of its own.
pub proof fn law_refused_profile_is_told_part_by_part(
    dto: RefusedProfileDto,
    refused: RefusedProfile,
)
    requires
        dto.shows(refused),
    ensures
        dto.id == refused.id,
        dto.origin == refused.origin.code,
        dto.file == refused.origin.file,
        dto.reason == refused.reason,
{
}

/// A `SourceProfileCatalogueDto` tells each part of what it shows in a field of its own.
pub proof fn law_source_profile_catalogue_is_told_part_by_part(
    dto: SourceProfileCatalogueDto,
    catalogue: ProfileCatalogue,
)
    requires
        dto.shows(catalogue),
    ensures
        dto.profiles@.len() == catalogue.installed@.len(),
        forall|i: int| 0 <= i < catalogue.installed@.len() ==> (
            #[trigger] dto.profiles@[i]
        ).shows(catalogue.installed@[i]),
        dto.refused@.len() == catalogue.refused@.len(),
        forall|i: int| 0 <= i < catalogue.refused@.len() ==> (
            #[trigger] dto.refused@[i]
        ).shows(catalogue.refused@[i]),
{
}

/// A `ReadingProfileDto` tells each part of what it shows in a field of its own.
pub proof fn law_reading_profile_is_told_part_by_part(
    dto: ReadingProfileDto,
    profile: ReadingProfile,
)
    requires
        dto.shows(profile),
    ensures
        dto.id == profile.id,
        dto.version == profile.version,
        dto.digest == profile.digest,
        dto.issuer == profile.issuer,
        dto.origin == profile.origin,
        dto.parser_version@ == ReadingProfileDto::parser_of(profile),
{
}

/// A `SourceDocumentRowDto` tells each part of what it shows in a field of its own.
pub proof fn law_source_document_row_is_told_part_by_part(
    dto: SourceDocumentRowDto,
    record: DocumentRow,
)
    requires
        dto.shows(record),
    ensures
        dto.locator == record.place(),
        match record {
            DocumentRow::Unreadable { locator, rejection } => {
                &&& dto.row is None
                &&& dto.state@ == "unreadable"@
                &&& dto.reason is None
                &&& dto.explanation is None
                &&& dto.question_id is None
                &&& dto.prompt is None
                &&& dto.alternatives is None
                &&& dto.field == Some(rejection.field)
                &&& dto.expected == Some(rejection.expected)
                &&& dto.actual == Some(rejection.actual)
            },
            DocumentRow::Held { locator, held } => dto.row matches Some(row) && dto.held_part(
                row,
            ).shows(held),
        },
{
}

/// An `UnresolvedAccountDto` tells each part of what it shows in a field of its own.
pub proof fn law_unresolved_account_is_told_part_by_part(
    dto: UnresolvedAccountDto,
    name: UnresolvedAccount,
)
    requires
        dto.shows(name),
    ensures
        dto.printed == name.printed,
        dto.records == name.records,
{
}

/// A `SourceDocumentDto` tells each part of what it shows in a field of its own.
pub proof fn law_source_document_is_told_part_by_part(
    dto: SourceDocumentDto,
    import: DocumentImport,
)
    requires
        dto.shows(import),
    ensures
        dto.session == import.session.0,
        dto.source == import.source.0,
        dto.document_hash == import.document_hash,
        dto.profile.shows(import.profile),
        dto.rows@.len() == import.rows@.len(),
        forall|i: int| 0 <= i < import.rows@.len() ==> (
            #[trigger] dto.rows@[i]
        ).shows(import.rows@[i]),
        dto.unresolved_accounts@.len() == import.unresolved_accounts@.len(),
        forall|i: int| 0 <= i < import.unresolved_accounts@.len() ==> (
            #[trigger] dto.unresolved_accounts@[i]
        ).shows(import.unresolved_accounts@[i]),
{
}

/// A profile is a parser of its own: its identifier and its version name it.
pub proof fn law_a_parser_is_named_by_profile_and_version(profile: ReadingProfile)
    ensures
        ReadingProfileDto::parser_of(profile) == "profile/"@ + profile.id@ + "/"@ + text::digits(
            profile.version as nat,
        ),
{
}

/// The row inside a record is the record's own fields, at the position it was given.
pub proof fn law_a_record_holds_its_own_row(dto: SourceDocumentRowDto, row: u32)
    ensures
        dto.held_part(row).row == row,
        dto.held_part(row).state == dto.state,
        dto.held_part(row).reason == dto.reason,
        dto.held_part(row).explanation == dto.explanation,
        dto.held_part(row).question_id == dto.question_id,
        dto.held_part(row).prompt == dto.prompt,
        dto.held_part(row).alternatives == dto.alternatives,
        dto.held_part(row).field == dto.field,
        dto.held_part(row).expected == dto.expected,
        dto.held_part(row).actual == dto.actual,
{
}

} // verus!
