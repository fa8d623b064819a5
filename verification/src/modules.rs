//! Content modules: who may edit, disable or uninstall which module,
//! validation of new, published and installed modules, and the crediting
//! of a publisher.

use vstd::prelude::*;
use crate::auth::CurrentUser;
use crate::content::{module_origin_from_str, origin_of_name, ModuleOrigin};
use crate::error::ApiError;
use crate::text::{
    blank, contains_string, is_blank, lowercase, str_eq, to_lowercase, trim, trim_str, views,
};

verus! {

/// The place a user-created module takes in management lists: after the
/// bundled modules.
pub const NEW_MODULE_ORDERING: i32 = 1000;

/// The version a user-created module starts at.
pub const NEW_MODULE_VERSION: &'static str = "1.0.0";

/// Gate-relevant columns of a module.
pub struct ModuleMeta {
    pub origin: ModuleOrigin,
    pub created_by: Option<String>,
    pub slug: String,
}

/// Admins, and the module's creator, count as its creator.
pub open spec fn counts_as_creator(created_by: Option<String>, user: CurrentUser) -> bool {
    user.admin || (created_by matches Some(c) && c@ == user.uuid@)
}

impl ModuleMeta {
    pub fn is_creator(&self, user: &CurrentUser) -> (r: bool)
        ensures
            r == counts_as_creator(self.created_by, *user),
    {
        if user.admin {
            return true;
        }
        match &self.created_by {
            Some(c) => str_eq(c.as_str(), user.uuid.as_str()),
            None => false,
        }
    }
}

/// The stored origin of a module; an unreadable value counts as uploaded.
pub fn stored_origin(s: &str) -> (r: ModuleOrigin)
    ensures
        origin_of_name(s@) matches Some(o) ==> r == o,
        origin_of_name(s@) is None ==> r == ModuleOrigin::Uploaded,
{
    match module_origin_from_str(s) {
        Some(o) => o,
        None => ModuleOrigin::Uploaded,
    }
}

/// Only `local` modules are user-editable, and only by their creator or
/// an admin.
pub fn check_module_edit(meta: &ModuleMeta, user: &CurrentUser) -> (r: Result<(), ApiError>)
    ensures
        r is Ok <==> meta.origin == ModuleOrigin::Local && counts_as_creator(meta.created_by, *user),
        r is Err ==> r matches Err(ApiError::Forbidden),
{
    if meta.origin != ModuleOrigin::Local {
        return Err(ApiError::Forbidden);
    }
    if !meta.is_creator(user) {
        return Err(ApiError::Forbidden);
    }
    Ok(())
}

pub open spec fn is_pinned_slug(slug: Seq<char>) -> bool {
    slug == "srd"@ || slug == "homebrew"@
}

/// Whether a module may be uninstalled by the caller: never the pinned
/// SRD or homebrew modules, never a bundled module (disable it instead);
/// a `local` module by its creator or an admin; an uploaded or published
/// module by an admin.
pub fn check_module_delete(meta: &ModuleMeta, user: &CurrentUser) -> (r: Result<(), ApiError>)
    ensures
        is_pinned_slug(meta.slug@) ==> (r matches Err(ApiError::BadRequest(m)) && m@
            == "this module is pinned and cannot be uninstalled"@),
        !is_pinned_slug(meta.slug@) && meta.origin == ModuleOrigin::Bundled ==> (r matches Err(
            ApiError::BadRequest(m),
        ) && m@ == "bundled modules cannot be uninstalled; disable the module instead"@),
        !is_pinned_slug(meta.slug@) && meta.origin == ModuleOrigin::Local ==> (r is Ok <==> counts_as_creator(
            meta.created_by,
            *user,
        )),
        !is_pinned_slug(meta.slug@) && (meta.origin == ModuleOrigin::Uploaded || meta.origin
            == ModuleOrigin::Published) ==> (r is Ok <==> user.admin),
        !is_pinned_slug(meta.slug@) && meta.origin != ModuleOrigin::Bundled && r is Err ==> r matches Err(
            ApiError::Forbidden,
        ),
{
    if str_eq(meta.slug.as_str(), "srd") || str_eq(meta.slug.as_str(), "homebrew") {
        return Err(ApiError::BadRequest(String::from_str("this module is pinned and cannot be uninstalled")));
    }
    let permitted = match meta.origin {
        ModuleOrigin::Local => meta.is_creator(user),
        ModuleOrigin::Uploaded | ModuleOrigin::Published => user.admin,
        ModuleOrigin::Bundled => {
            return Err(
                ApiError::BadRequest(
                    String::from_str("bundled modules cannot be uninstalled; disable the module instead"),
                ),
            );
        },
    };
    if !permitted {
        return Err(ApiError::Forbidden);
    }
    Ok(())
}

/// An admin may uninstall any module except a bundled one.
pub fn check_admin_uninstall(origin: &str) -> (r: Result<(), ApiError>)
    ensures
        r is Ok <==> origin@ != "bundled"@,
        r is Err ==> (r matches Err(ApiError::BadRequest(m)) && m@
            == "bundled modules cannot be uninstalled; disable the module instead"@),
{
    if str_eq(origin, "bundled") {
        return Err(
            ApiError::BadRequest(String::from_str("bundled modules cannot be uninstalled; disable the module instead")),
        );
    }
    Ok(())
}

/// The pinned SRD module can never be disabled; any other module can be
/// switched either way, and activating is always allowed.
pub fn check_status_change(is_active: bool, slug: &str) -> (r: Result<(), ApiError>)
    ensures
        r is Ok <==> is_active || slug@ != "srd"@,
        r is Err ==> (r matches Err(ApiError::BadRequest(m)) && m@
            == "the SRD module provides the shared rules vocabulary every other module references and cannot be disabled"@),
{
    if !is_active && str_eq(slug, "srd") {
        return Err(
            ApiError::BadRequest(
                String::from_str(
                    "the SRD module provides the shared rules vocabulary every other module references and cannot be disabled",
                ),
            ),
        );
    }
    Ok(())
}

/// A bundle to install must hold at least one module.
pub fn check_bundle_not_empty(module_count: usize) -> (r: Result<(), ApiError>)
    ensures
        r is Ok <==> module_count > 0,
        r is Err ==> (r matches Err(ApiError::BadRequest(m)) && m@ == "bundle contains no modules"@),
{
    if module_count == 0 {
        return Err(ApiError::BadRequest(String::from_str("bundle contains no modules")));
    }
    Ok(())
}

/// A new custom module needs a non-blank name; it is stored trimmed.
pub fn custom_module_name(name: &str) -> (r: Result<String, ApiError>)
    ensures
        r is Ok <==> !is_blank(name@),
        r matches Ok(n) ==> n@ == trim(name@),
        r is Err ==> (r matches Err(ApiError::BadRequest(m)) && m@ == "module name is required"@),
{
    if blank(name) {
        return Err(ApiError::BadRequest(String::from_str("module name is required")));
    }
    Ok(trim_str(name))
}

/// The validated fields of a publish request: the trimmed name and the
/// normalized (trimmed, lower-cased) slug.
pub struct PublishFields {
    pub name: String,
    pub slug: String,
}

/// Validates a publish request: a non-blank name, a slug that is not
/// empty once normalized, and a non-blank version string, checked in that
/// order.
pub fn validate_publish(name: &str, slug: &str, version_string: &str) -> (r: Result<PublishFields, ApiError>)
    ensures
        r is Ok <==> !is_blank(name@) && trim(slug@).len() > 0 && !is_blank(version_string@),
        r matches Ok(p) ==> p.name@ == trim(name@) && p.slug@ == lowercase(trim(slug@)),
        is_blank(name@) ==> (r matches Err(ApiError::BadRequest(m)) && m@ == "name is required"@),
        !is_blank(name@) && trim(slug@).len() == 0 ==> (r matches Err(ApiError::BadRequest(m)) && m@
            == "slug is required"@),
        !is_blank(name@) && trim(slug@).len() > 0 && is_blank(version_string@) ==> (r matches Err(
            ApiError::BadRequest(m),
        ) && m@ == "version_string is required"@),
{
    if blank(name) {
        return Err(ApiError::BadRequest(String::from_str("name is required")));
    }
    let s = to_lowercase(trim_str(slug).as_str());
    if s.unicode_len() == 0 {
        return Err(ApiError::BadRequest(String::from_str("slug is required")));
    }
    if blank(version_string) {
        return Err(ApiError::BadRequest(String::from_str("version_string is required")));
    }
    Ok(PublishFields { name: trim_str(name), slug: s })
}

/// Only the owner of a setting may publish it; a setting whose owner was
/// deleted is publishable by no one.
pub fn check_setting_owner(owner: &Option<String>, user: &CurrentUser) -> (r: Result<(), ApiError>)
    ensures
        r is Ok <==> (owner matches Some(o) && o@ == user.uuid@),
        r is Err ==> r matches Err(ApiError::Forbidden),
{
    match owner {
        Some(o) => if str_eq(o.as_str(), user.uuid.as_str()) {
            Ok(())
        } else {
            Err(ApiError::Forbidden)
        },
        None => Err(ApiError::Forbidden),
    }
}

/// The refusal of a publish whose slug is already installed.
pub fn publish_slug_taken(slug: &str) -> (r: ApiError)
    ensures
        r matches ApiError::BadRequest(m) && m@ == "module slug '"@ + slug@ + "' is already taken"@,
{
    ApiError::BadRequest(String::from_str("module slug '").concat(slug).concat("' is already taken"))
}

/// Every selected note must belong to the source setting.
pub fn check_selected_notes(found: usize, selected: usize) -> (r: Result<(), ApiError>)
    ensures
        r is Ok <==> found == selected,
        r is Err ==> (r matches Err(ApiError::BadRequest(m)) && m@
            == "one or more selected_note_uuids do not belong to the source setting"@),
{
    if found != selected {
        return Err(
            ApiError::BadRequest(
                String::from_str("one or more selected_note_uuids do not belong to the source setting"),
            ),
        );
    }
    Ok(())
}

/// The authors a published module is credited to: the requested ones,
/// with the publisher's email appended unless already listed.
pub open spec fn credited(authors: Seq<Seq<char>>, email: Seq<char>) -> Seq<Seq<char>> {
    if authors.contains(email) {
        authors
    } else {
        authors.push(email)
    }
}

pub fn credit_publisher(authors: &Vec<String>, email: &str) -> (r: Vec<String>)
    ensures
        views(r@) == credited(views(authors@), email@),
{
    let mut out: Vec<String> = Vec::new();
    let mut i: usize = 0;
    while i < authors.len()
        invariant
            i <= authors.len(),
            views(out@) == views(authors@).subrange(0, i as int),
        decreases authors.len() - i,
    {
        let ghost before = out@;
        out.push(authors[i].clone());
        assert(views(out@) =~= views(before).push(authors@[i as int]@));
        assert(views(authors@).subrange(0, i + 1) =~= views(authors@).subrange(0, i as int).push(authors@[i as int]@));
        i = i + 1;
    }
    assert(views(authors@).subrange(0, authors.len() as int) =~= views(authors@));
    if !contains_string(authors, email) {
        let ghost before = out@;
        out.push(String::from_str(email));
        assert(views(out@) =~= views(before).push(email@));
    }
    out
}

/// The publisher is always credited, and listed once more at most.
pub proof fn lemma_publisher_credited(authors: Seq<Seq<char>>, email: Seq<char>)
    ensures
        credited(authors, email).contains(email),
        authors.contains(email) ==> credited(authors, email) == authors,
        forall|i: int| 0 <= i < authors.len() ==> credited(authors, email)[i] == #[trigger] authors[i],
{
    if !authors.contains(email) {
        assert(authors.push(email)[authors.len() as int] == email);
    }
}

/// The download header naming an exported module's bundle file.
pub fn export_disposition(slug: &str) -> (r: String)
    ensures
        r@ == "attachment; filename=\""@ + slug@ + ".lorebundle\""@,
{
    String::from_str("attachment; filename=\"").concat(slug).concat(".lorebundle\"")
}

} // verus!
