//! Stored rows read back as API values: every uuid column is parsed and
//! rendered canonically, every enum column decoded; a row that fails
//! either is an internal error.

use vstd::prelude::*;
use crate::auth::{canonical_uuid, uuid_canonical};
use crate::error::ApiError;
use crate::notes::{
    scope_kind_from_str, scope_kind_of_name, visibility_from_str, visibility_of_name,
    NoteScopeKind, NoteVisibility,
};

verus! {

/// A stored uuid column as a canonical uuid; an unparsable one is an
/// internal error.
pub fn parse_uuid(s: &str) -> (r: Result<String, ApiError>)
    ensures
        r is Ok <==> uuid_canonical(s@) is Some,
        r matches Ok(u) ==> uuid_canonical(s@) == Some(u@),
        r is Err ==> r matches Err(ApiError::Internal(_)),
{
    match canonical_uuid(s) {
        Some(u) => Ok(u),
        None => Err(ApiError::Internal(String::from_str("invalid uuid '").concat(s).concat("'"))),
    }
}

/// The canonical form of a nullable uuid column, when it parses.
pub open spec fn opt_uuid_parses(s: Option<String>) -> bool {
    s matches Some(t) ==> uuid_canonical(t@) is Some
}

/// A nullable uuid column: NULL stays absent, a value is parsed.
pub fn parse_opt_uuid(s: &Option<String>) -> (r: Result<Option<String>, ApiError>)
    ensures
        r is Ok <==> opt_uuid_parses(*s),
        r matches Ok(p) ==> opt_uuid_read(*s, p),
        r is Err ==> r matches Err(ApiError::Internal(_)),
{
    match s {
        None => Ok(None),
        Some(t) => {
            let u = parse_uuid(t.as_str())?;
            Ok(Some(u))
        },
    }
}

/// `parsed` is what a nullable uuid column reads back as.
pub open spec fn opt_uuid_read(column: Option<String>, parsed: Option<String>) -> bool {
    match column {
        None => parsed is None,
        Some(t) => parsed matches Some(u) && uuid_canonical(t@) == Some(u@),
    }
}

/// A stored lore note.
pub struct LoreNoteRow {
    pub uuid: String,
    pub title: String,
    pub body_markdown: String,
    pub scope_kind: String,
    pub scope_target_uuid: String,
    pub visibility: String,
    pub derived_from_setting_note_uuid: Option<String>,
    pub created_by_user_uuid: Option<String>,
    pub created_at: String,
    pub updated_at: String,
}

/// Where a lore note is attached.
pub struct NoteScope {
    pub kind: NoteScopeKind,
    pub target_uuid: String,
}

/// A lore note as the API answers it.
pub struct LoreNote {
    pub uuid: String,
    pub title: String,
    pub body_markdown: String,
    pub scope: NoteScope,
    pub visibility: NoteVisibility,
    pub derived_from_setting_note_uuid: Option<String>,
    pub created_by_user_uuid: Option<String>,
    pub created_at: String,
    pub updated_at: String,
}

/// Every column of the row decodes.
pub open spec fn note_row_readable(row: LoreNoteRow) -> bool {
    &&& uuid_canonical(row.uuid@) is Some
    &&& scope_kind_of_name(row.scope_kind@) is Some
    &&& uuid_canonical(row.scope_target_uuid@) is Some
    &&& visibility_of_name(row.visibility@) is Some
    &&& opt_uuid_parses(row.derived_from_setting_note_uuid)
    &&& opt_uuid_parses(row.created_by_user_uuid)
}

impl LoreNoteRow {
    /// The note this row stores, decoded column by column.
    pub fn into_dto(self) -> (r: Result<LoreNote, ApiError>)
        ensures
            r is Ok <==> note_row_readable(self),
            r is Err ==> r matches Err(ApiError::Internal(_)),
            r matches Ok(n) ==> {
                &&& uuid_canonical(self.uuid@) == Some(n.uuid@)
                &&& n.title == self.title
                &&& n.body_markdown == self.body_markdown
                &&& scope_kind_of_name(self.scope_kind@) == Some(n.scope.kind)
                &&& uuid_canonical(self.scope_target_uuid@) == Some(n.scope.target_uuid@)
                &&& visibility_of_name(self.visibility@) == Some(n.visibility)
                &&& opt_uuid_read(self.derived_from_setting_note_uuid, n.derived_from_setting_note_uuid)
                &&& opt_uuid_read(self.created_by_user_uuid, n.created_by_user_uuid)
                &&& n.created_at == self.created_at
                &&& n.updated_at == self.updated_at
            },
    {
        let uuid = parse_uuid(self.uuid.as_str())?;
        let kind = scope_kind_from_str(self.scope_kind.as_str())?;
        let target_uuid = parse_uuid(self.scope_target_uuid.as_str())?;
        let visibility = visibility_from_str(self.visibility.as_str())?;
        let derived = parse_opt_uuid(&self.derived_from_setting_note_uuid)?;
        let creator = parse_opt_uuid(&self.created_by_user_uuid)?;
        Ok(
            LoreNote {
                uuid,
                title: self.title,
                body_markdown: self.body_markdown,
                scope: NoteScope { kind, target_uuid },
                visibility,
                derived_from_setting_note_uuid: derived,
                created_by_user_uuid: creator,
                created_at: self.created_at,
                updated_at: self.updated_at,
            },
        )
    }
}

} // verus!
