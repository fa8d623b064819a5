//! Character sheets: the server owns a sheet's identity (uuid, name,
//! timestamps, owner); writes are allowed to the owner or any admin.

use vstd::prelude::*;
use crate::auth::{uuid_canonical, CurrentUser};
use crate::authoring::new_uuid;
use crate::error::ApiError;
use crate::text::{blank, is_blank, str_eq, trim, trim_str};

verus! {

/// A name that must not be blank; it is kept trimmed.
pub fn required_name(name: &str) -> (r: Result<String, ApiError>)
    ensures
        r is Ok <==> !is_blank(name@),
        r matches Ok(n) ==> n@ == trim(name@),
        r is Err ==> (r matches Err(ApiError::BadRequest(m)) && m@ == "name is required"@),
{
    if blank(name) {
        return Err(ApiError::BadRequest(String::from_str("name is required")));
    }
    Ok(trim_str(name))
}

/// The identity columns of a stored sheet.
pub struct CharacterRowMeta {
    pub owner_user_uuid: String,
    pub owner_username: Option<String>,
    pub created_at: String,
}

/// The server-owned part of a sheet as answered: the stored blob holds
/// all of it but the owner, which lives in the identity columns only.
pub struct CharacterIdentity {
    pub uuid: String,
    pub name: String,
    pub created_at: String,
    pub updated_at: String,
    pub owner_user_uuid: String,
    pub owner_username: Option<String>,
}

/// The owner and any admin may change or delete a sheet.
pub open spec fn may_write(owner_user_uuid: Seq<char>, user: CurrentUser) -> bool {
    owner_user_uuid == user.uuid@ || user.admin
}

/// A sheet must exist (404) and be writable by the caller (403).
pub fn check_character_write(row: &Option<CharacterRowMeta>, user: &CurrentUser) -> (r: Result<
    (),
    ApiError,
>)
    ensures
        row is None ==> r matches Err(ApiError::NotFound),
        row matches Some(m) ==> (r is Ok <==> may_write(m.owner_user_uuid@, *user)),
        row is Some && r is Err ==> r matches Err(ApiError::Forbidden),
{
    match row {
        None => Err(ApiError::NotFound),
        Some(m) => {
            if !str_eq(m.owner_user_uuid.as_str(), user.uuid.as_str()) && !user.admin {
                return Err(ApiError::Forbidden);
            }
            Ok(())
        },
    }
}

/// The identity of a new sheet: a fresh uuid, the trimmed name, both
/// timestamps `now`, and the caller as owner.
pub fn new_character(name: &str, user: &CurrentUser, now: &str) -> (r: Result<
    CharacterIdentity,
    ApiError,
>)
    ensures
        r is Ok <==> !is_blank(name@),
        r is Err ==> (r matches Err(ApiError::BadRequest(m)) && m@ == "name is required"@),
        r matches Ok(c) ==> {
            &&& c.name@ == trim(name@)
            &&& c.uuid@.len() == 36
            &&& uuid_canonical(c.uuid@) == Some(c.uuid@)
            &&& c.created_at@ == now@
            &&& c.updated_at@ == now@
            &&& c.owner_user_uuid@ == user.uuid@
            &&& c.owner_username matches Some(u) && u@ == user.username@
        },
{
    let name = required_name(name)?;
    Ok(
        CharacterIdentity {
            uuid: new_uuid(),
            name,
            created_at: String::from_str(now),
            updated_at: String::from_str(now),
            owner_user_uuid: user.uuid.clone(),
            owner_username: Some(user.username.clone()),
        },
    )
}

/// The identity of a replaced sheet (last write wins): the name must not
/// be blank, then the sheet must exist and be writable; it keeps its
/// uuid, owner and creation time, and is updated `now`.
pub fn replaced_character(
    name: &str,
    uuid: &str,
    row: Option<CharacterRowMeta>,
    user: &CurrentUser,
    now: &str,
) -> (r: Result<CharacterIdentity, ApiError>)
    ensures
        is_blank(name@) ==> (r matches Err(ApiError::BadRequest(m)) && m@ == "name is required"@),
        !is_blank(name@) && row is None ==> r matches Err(ApiError::NotFound),
        !is_blank(name@) && row is Some ==> (r is Ok <==> may_write(
            row->Some_0.owner_user_uuid@,
            *user,
        )),
        !is_blank(name@) && row is Some && r is Err ==> r matches Err(ApiError::Forbidden),
        r matches Ok(c) ==> {
            let m = row->Some_0;
            &&& c.name@ == trim(name@)
            &&& c.uuid@ == uuid@
            &&& c.created_at@ == m.created_at@
            &&& c.updated_at@ == now@
            &&& c.owner_user_uuid@ == m.owner_user_uuid@
            &&& c.owner_username == m.owner_username
        },
{
    let name = required_name(name)?;
    check_character_write(&row, user)?;
    match row {
        Some(m) => Ok(
            CharacterIdentity {
                uuid: String::from_str(uuid),
                name,
                created_at: m.created_at,
                updated_at: String::from_str(now),
                owner_user_uuid: m.owner_user_uuid,
                owner_username: m.owner_username,
            },
        ),
        None => Err(ApiError::NotFound),
    }
}

} // verus!
