//! Campaign settings: only the owner may change a setting or its
//! collaborators; a setting whose owner was deleted is changed by no one.

use vstd::prelude::*;
use crate::auth::CurrentUser;
use crate::error::ApiError;
use crate::modules::check_setting_owner;
use crate::text::str_eq;
use crate::rows::{opt_uuid_parses, opt_uuid_read, parse_opt_uuid, parse_uuid};
use crate::auth::uuid_canonical;

verus! {

/// Owner check of a setting, given the owner column of its row (the
/// outer `None` when no such setting exists): missing is 404, not the
/// owner is 403.
pub fn require_owner(row: &Option<Option<String>>, user: &CurrentUser) -> (r: Result<(), ApiError>)
    ensures
        row is None ==> r matches Err(ApiError::NotFound),
        row matches Some(owner) ==> (r is Ok <==> (owner matches Some(o) && o@ == user.uuid@)),
        row is Some && r is Err ==> r matches Err(ApiError::Forbidden),
{
    match row {
        None => Err(ApiError::NotFound),
        Some(owner) => check_setting_owner(owner, user),
    }
}

pub open spec fn setting_select() -> Seq<char> {
    "SELECT uuid, name, description_note_uuid, owner_user_uuid, published_as_module_uuid, created_at, updated_at FROM setting"@
}

/// The caller may see a setting they own or collaborate on; `?1` binds
/// the caller.
pub open spec fn owned_or_shared(user_param: Seq<char>) -> Seq<char> {
    "(owner_user_uuid = "@ + user_param + " OR uuid IN (SELECT setting_uuid FROM setting_collaborator WHERE user_uuid = "@
        + user_param + "))"@
}

/// The settings the caller may see (the caller binds `?1`), most recently
/// changed first.
pub fn visible_settings_sql() -> (r: String)
    ensures
        r@ == setting_select() + " WHERE "@ + owned_or_shared("?1"@) + " ORDER BY updated_at DESC"@,
{
    let r = String::from_str(
        "SELECT uuid, name, description_note_uuid, owner_user_uuid, published_as_module_uuid, created_at, updated_at FROM setting",
    );
    let r = r.concat(" WHERE ").concat("(owner_user_uuid = ").concat("?1").concat(
        " OR uuid IN (SELECT setting_uuid FROM setting_collaborator WHERE user_uuid = ",
    ).concat("?1").concat("))");
    r.concat(" ORDER BY updated_at DESC")
}

/// A caller may see a setting they own or collaborate on. A setting whose
/// owner was deleted is owned by no one.
pub open spec fn may_see_setting(owner: Option<String>, collaborates: bool, user: CurrentUser) -> bool {
    (owner matches Some(o) && o@ == user.uuid@) || collaborates
}

/// Whether a lookup of a setting, by its owner column (the outer `None`
/// when no such setting exists), finds it for the caller.
pub open spec fn setting_visible(owner: Option<Option<String>>, collaborates: bool, user: CurrentUser) -> bool {
    owner matches Some(o) && may_see_setting(o, collaborates, user)
}

/// Whether the caller may read a setting, given its owner column (the
/// outer `None` when no such setting exists) and whether the caller
/// collaborates on it. A setting the caller may not see is answered
/// exactly as a missing one, not found, so its existence is not told.
pub fn check_setting_visible(owner: &Option<Option<String>>, collaborates: bool, user: &CurrentUser) -> (r: Result<
    (),
    ApiError,
>)
    ensures
        r is Ok <==> setting_visible(*owner, collaborates, *user),
        r is Err ==> r matches Err(ApiError::NotFound),
{
    match owner {
        None => Err(ApiError::NotFound),
        Some(o) => {
            let owns = match o {
                Some(u) => str_eq(u.as_str(), user.uuid.as_str()),
                None => false,
            };
            if owns || collaborates {
                Ok(())
            } else {
                Err(ApiError::NotFound)
            }
        },
    }
}

/// A caller who neither owns nor collaborates on an existing setting gets
/// the same answer as for a setting that does not exist.
pub proof fn lemma_hidden_setting_looks_missing(owner: Option<String>, collaborates: bool, user: CurrentUser)
    requires
        !may_see_setting(owner, collaborates, user),
    ensures
        setting_visible(Some(owner), collaborates, user) == setting_visible(None, collaborates, user),
{
}

/// A collaborator must be a registered user.
pub fn check_collaborator_exists(exists: bool) -> (r: Result<(), ApiError>)
    ensures
        r is Ok <==> exists,
        r is Err ==> (r matches Err(ApiError::BadRequest(m)) && m@ == "no such user"@),
{
    if !exists {
        return Err(ApiError::BadRequest(String::from_str("no such user")));
    }
    Ok(())
}

/// A stored setting.
pub struct SettingRow {
    pub uuid: String,
    pub name: String,
    pub description_note_uuid: Option<String>,
    pub owner_user_uuid: Option<String>,
    pub published_as_module_uuid: Option<String>,
    pub created_at: String,
    pub updated_at: String,
}

/// A setting as the API answers it; its uuids are canonical.
pub struct Setting {
    pub uuid: String,
    pub name: String,
    pub description_note_uuid: Option<String>,
    pub owner_user_uuid: Option<String>,
    pub published_as_module_uuid: Option<String>,
    pub created_at: String,
    pub updated_at: String,
}

impl SettingRow {
    /// The setting this row stores; a uuid column that does not parse is
    /// an internal error.
    pub fn into_dto(self) -> (r: Result<Setting, ApiError>)
        ensures
            r is Ok <==> uuid_canonical(self.uuid@) is Some && opt_uuid_parses(
                self.description_note_uuid,
            ) && opt_uuid_parses(self.owner_user_uuid) && opt_uuid_parses(
                self.published_as_module_uuid,
            ),
            r is Err ==> r matches Err(ApiError::Internal(_)),
            r matches Ok(s) ==> {
                &&& uuid_canonical(self.uuid@) == Some(s.uuid@)
                &&& s.name == self.name
                &&& opt_uuid_read(self.description_note_uuid, s.description_note_uuid)
                &&& opt_uuid_read(self.owner_user_uuid, s.owner_user_uuid)
                &&& opt_uuid_read(self.published_as_module_uuid, s.published_as_module_uuid)
                &&& s.created_at == self.created_at
                &&& s.updated_at == self.updated_at
            },
    {
        let uuid = parse_uuid(self.uuid.as_str())?;
        let description_note_uuid = parse_opt_uuid(&self.description_note_uuid)?;
        let owner_user_uuid = parse_opt_uuid(&self.owner_user_uuid)?;
        let published_as_module_uuid = parse_opt_uuid(&self.published_as_module_uuid)?;
        Ok(
            Setting {
                uuid,
                name: self.name,
                description_note_uuid,
                owner_user_uuid,
                published_as_module_uuid,
                created_at: self.created_at,
                updated_at: self.updated_at,
            },
        )
    }
}

} // verus!
