//! Administration: paging through the user list, the guards that keep an
//! admin from locking themselves out, and edits of the server's identity.

use vstd::prelude::*;
use crate::auth::AdminUser;
use crate::error::ApiError;
use crate::notes::clamp;
use crate::text::{str_eq, trim, trim_str};

verus! {

/// Query of `GET /api/admin/users`.
pub struct UserListQuery {
    pub page: Option<u32>,
    pub limit: Option<u32>,
}

/// One page of the user list: its number (from 1), its size, and how
/// many users come before it.
pub struct UserPage {
    pub page: u32,
    pub limit: u32,
    pub offset: u32,
}

/// The page asked for: 1 when absent, and never below 1.
pub open spec fn page_number(query: UserListQuery) -> int {
    match query.page {
        Some(p) => if p >= 1 { p as int } else { 1 },
        None => 1,
    }
}

/// The page size asked for: 20 when absent, between 1 and 100.
pub open spec fn page_size(query: UserListQuery) -> int {
    match query.limit {
        Some(l) => clamp(l as int, 1, 100),
        None => 20,
    }
}

/// Resolves the paging of the user list. The offset of the page is
/// `(page - 1) * limit`, which must fit in a `u32`.
pub fn user_page(query: &UserListQuery) -> (r: UserPage)
    requires
        (page_number(*query) - 1) * page_size(*query) <= u32::MAX,
    ensures
        r.page == page_number(*query),
        r.limit == page_size(*query),
        r.offset == (page_number(*query) - 1) * page_size(*query),
{
    let page: u32 = match query.page {
        Some(p) => if p >= 1 { p } else { 1 },
        None => 1,
    };
    let limit: u32 = match query.limit {
        Some(l) => if l < 1 { 1 } else if l > 100 { 100 } else { l },
        None => 20,
    };
    let offset: u32 = (page - 1) * limit;
    UserPage { page, limit, offset }
}

/// Whether the offset of the page asked for fits in a `u32` (paging
/// beyond that overflows).
pub fn user_page_fits(query: &UserListQuery) -> (r: bool)
    ensures
        r == ((page_number(*query) - 1) * page_size(*query) <= u32::MAX),
{
    let page: u64 = match query.page {
        Some(p) => if p >= 1 { p as u64 } else { 1 },
        None => 1,
    };
    let limit: u64 = match query.limit {
        Some(l) => if l < 1 { 1 } else if l > 100 { 100 } else { l as u64 },
        None => 20,
    };
    assert((page - 1) * limit <= 0xffff_ffff * 100) by (nonlinear_arith)
        requires
            1 <= page <= 0xffff_ffff,
            1 <= limit <= 100,
    ;
    (page - 1) * limit <= 0xffff_ffff
}

/// An admin may delete any account but their own.
pub fn check_user_delete(target_uuid: &str, admin: &AdminUser) -> (r: Result<(), ApiError>)
    ensures
        r is Ok <==> target_uuid@ != admin.0.uuid@,
        r is Err ==> (r matches Err(ApiError::BadRequest(m)) && m@ == "cannot delete your own account"@),
{
    if str_eq(target_uuid, admin.0.uuid.as_str()) {
        return Err(ApiError::BadRequest(String::from_str("cannot delete your own account")));
    }
    Ok(())
}

/// An admin may grant or revoke admin access on any account, but may not
/// revoke their own, so the server always keeps an admin.
pub fn check_admin_change(target_uuid: &str, admin: &AdminUser, grant: bool) -> (r: Result<
    (),
    ApiError,
>)
    ensures
        r is Ok <==> (grant || target_uuid@ != admin.0.uuid@),
        r is Err ==> (r matches Err(ApiError::BadRequest(m)) && m@
            == "cannot remove your own admin access"@),
{
    if !grant && str_eq(target_uuid, admin.0.uuid.as_str()) {
        return Err(ApiError::BadRequest(String::from_str("cannot remove your own admin access")));
    }
    Ok(())
}

/// An update or delete that touched no row names a resource that does
/// not exist.
pub fn require_rows_affected(rows_affected: u64) -> (r: Result<(), ApiError>)
    ensures
        r is Ok <==> rows_affected > 0,
        r is Err ==> r matches Err(ApiError::NotFound),
{
    if rows_affected == 0 {
        return Err(ApiError::NotFound);
    }
    Ok(())
}

/// A partial rename: an absent name keeps the current one; a present one
/// is trimmed and must not be empty.
pub fn rename_to(name: Option<&str>) -> (r: Result<Option<String>, ApiError>)
    ensures
        name is None ==> r matches Ok(None),
        name matches Some(n) ==> (trim(n@).len() == 0 <==> r is Err),
        name is Some && trim(name->Some_0@).len() > 0 ==> (r matches Ok(Some(t)) && t@ == trim(
            name->Some_0@,
        )),
        r is Err ==> (r matches Err(ApiError::BadRequest(m)) && m@ == "name cannot be empty"@),
{
    match name {
        None => Ok(None),
        Some(n) => {
            let t = trim_str(n);
            if t.unicode_len() == 0 {
                return Err(ApiError::BadRequest(String::from_str("name cannot be empty")));
            }
            Ok(Some(t))
        },
    }
}

} // verus!
