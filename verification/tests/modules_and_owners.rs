use lorewyld::admin::{
    check_admin_change, check_user_delete, rename_to, require_rows_affected, user_page, user_page_fits,
    UserListQuery,
};
use lorewyld::auth::{AdminUser, CurrentUser};
use lorewyld::characters::{
    check_character_write, new_character, replaced_character, required_name, CharacterRowMeta,
};
use lorewyld::content::ModuleOrigin;
use lorewyld::error::ApiError;
use lorewyld::modules::{
    check_admin_uninstall, check_bundle_not_empty, check_module_delete, check_module_edit,
    check_selected_notes, check_setting_owner, check_status_change, credit_publisher,
    custom_module_name, export_disposition, publish_slug_taken, stored_origin, validate_publish,
    ModuleMeta,
};
use lorewyld::settings::{check_collaborator_exists, check_setting_visible, require_owner, visible_settings_sql};

fn user(uuid: &str, admin: bool) -> CurrentUser {
    CurrentUser {
        uuid: uuid.to_string(),
        username: uuid.to_string(),
        email: format!("{uuid}@example.com"),
        admin,
    }
}

fn meta(origin: ModuleOrigin, created_by: Option<&str>, slug: &str) -> ModuleMeta {
    ModuleMeta { origin, created_by: created_by.map(str::to_string), slug: slug.to_string() }
}

fn bad_request(r: Result<(), ApiError>) -> String {
    match r {
        Err(ApiError::BadRequest(m)) => m,
        other => panic!("expected a bad request, got {other:?}"),
    }
}

#[test]
fn create_custom_module_trims_its_name() {
    assert_eq!(custom_module_name("  My World ").unwrap(), "My World");
    match custom_module_name("   ") {
        Err(ApiError::BadRequest(m)) => assert_eq!(m, "module name is required"),
        other => panic!("unexpected {other:?}"),
    }
}

#[test]
fn module_edit_and_delete_are_creator_or_admin_only() {
    let alice = user("alice", false);
    let bob = user("bob", false);
    let carol = user("carol", true);
    let m = meta(ModuleOrigin::Local, Some("alice"), "my-world");
    assert!(m.is_creator(&alice));
    assert!(m.is_creator(&carol));
    assert!(!m.is_creator(&bob));
    assert!(check_module_edit(&m, &alice).is_ok());
    assert!(check_module_edit(&m, &carol).is_ok());
    assert!(matches!(check_module_edit(&m, &bob), Err(ApiError::Forbidden)));
    assert!(check_module_delete(&m, &alice).is_ok());
    assert!(matches!(check_module_delete(&m, &bob), Err(ApiError::Forbidden)));
    // Only local modules are editable, whoever asks.
    let uploaded = meta(ModuleOrigin::Uploaded, Some("alice"), "pack");
    assert!(matches!(check_module_edit(&uploaded, &carol), Err(ApiError::Forbidden)));
    assert!(check_module_delete(&uploaded, &carol).is_ok());
    assert!(matches!(check_module_delete(&uploaded, &alice), Err(ApiError::Forbidden)));
}

#[test]
fn homebrew_module_cannot_be_deleted() {
    let carol = user("carol", true);
    let m = meta(ModuleOrigin::Local, None, "homebrew");
    assert_eq!(bad_request(check_module_delete(&m, &carol)), "this module is pinned and cannot be uninstalled");
    let srd = meta(ModuleOrigin::Bundled, None, "srd");
    assert_eq!(bad_request(check_module_delete(&srd, &carol)), "this module is pinned and cannot be uninstalled");
    let tob = meta(ModuleOrigin::Bundled, None, "tob");
    assert_eq!(
        bad_request(check_module_delete(&tob, &carol)),
        "bundled modules cannot be uninstalled; disable the module instead"
    );
    assert!(check_admin_uninstall("uploaded").is_ok());
    assert!(check_admin_uninstall("bundled").is_err());
}

#[test]
fn pinned_srd_module_cannot_be_disabled_even_by_admin() {
    assert!(check_status_change(false, "srd").is_err());
    assert!(check_status_change(true, "srd").is_ok());
    assert!(check_status_change(false, "tob").is_ok());
}

#[test]
fn stored_origin_falls_back_to_uploaded() {
    assert_eq!(stored_origin("local"), ModuleOrigin::Local);
    assert_eq!(stored_origin("bundled"), ModuleOrigin::Bundled);
    assert_eq!(stored_origin("garbage"), ModuleOrigin::Uploaded);
}

#[test]
fn publish_validation_and_crediting() {
    let p = validate_publish(" My World ", "  My-World ", "1.0.0").unwrap();
    assert_eq!(p.name, "My World");
    assert_eq!(p.slug, "my-world");
    assert_eq!(bad_request(validate_publish(" ", "x", "1").map(|_| ())), "name is required");
    assert_eq!(bad_request(validate_publish("n", "  ", "1").map(|_| ())), "slug is required");
    assert_eq!(bad_request(validate_publish("n", "s", " ").map(|_| ())), "version_string is required");
    let authors = vec!["Ann".to_string()];
    assert_eq!(credit_publisher(&authors, "pub@example.com"), vec!["Ann".to_string(), "pub@example.com".to_string()]);
    let already = vec!["pub@example.com".to_string(), "Ann".to_string()];
    assert_eq!(credit_publisher(&already, "pub@example.com"), already);
    match publish_slug_taken("my-world") {
        ApiError::BadRequest(m) => assert_eq!(m, "module slug 'my-world' is already taken"),
        other => panic!("unexpected {other:?}"),
    }
    assert!(check_selected_notes(2, 2).is_ok());
    assert!(check_selected_notes(1, 2).is_err());
    assert!(check_bundle_not_empty(1).is_ok());
    assert_eq!(bad_request(check_bundle_not_empty(0)), "bundle contains no modules");
    assert_eq!(export_disposition("my-world"), "attachment; filename=\"my-world.lorebundle\"");
}

#[test]
fn setting_owner_checks() {
    let alice = user("alice", false);
    let admin = user("root", true);
    assert!(check_setting_owner(&Some("alice".to_string()), &alice).is_ok());
    // Admin status does not make someone the owner of a setting.
    assert!(matches!(check_setting_owner(&Some("alice".to_string()), &admin), Err(ApiError::Forbidden)));
    assert!(matches!(check_setting_owner(&None, &alice), Err(ApiError::Forbidden)));
    assert!(require_owner(&Some(Some("alice".to_string())), &alice).is_ok());
    assert!(matches!(require_owner(&None, &alice), Err(ApiError::NotFound)));
    assert!(matches!(require_owner(&Some(None), &alice), Err(ApiError::Forbidden)));
    assert!(check_collaborator_exists(true).is_ok());
    assert_eq!(bad_request(check_collaborator_exists(false)), "no such user");
}

#[test]
fn user_list_paging() {
    let p = user_page(&UserListQuery { page: None, limit: None });
    assert_eq!((p.page, p.limit, p.offset), (1, 20, 0));
    let p = user_page(&UserListQuery { page: Some(0), limit: Some(0) });
    assert_eq!((p.page, p.limit, p.offset), (1, 1, 0));
    let p = user_page(&UserListQuery { page: Some(3), limit: Some(500) });
    assert_eq!((p.page, p.limit, p.offset), (3, 100, 200));
    let p = user_page(&UserListQuery { page: Some(2), limit: Some(25) });
    assert_eq!(p.offset, 25);
    assert!(user_page_fits(&UserListQuery { page: Some(1000), limit: Some(100) }));
    assert!(!user_page_fits(&UserListQuery { page: Some(u32::MAX), limit: Some(100) }));
    assert!(user_page_fits(&UserListQuery { page: Some(u32::MAX), limit: Some(1) }));
}

#[test]
fn admins_cannot_lock_themselves_out() {
    let me = AdminUser(user("root", true));
    assert_eq!(bad_request(check_user_delete("root", &me)), "cannot delete your own account");
    assert!(check_user_delete("alice", &me).is_ok());
    assert_eq!(bad_request(check_admin_change("root", &me, false)), "cannot remove your own admin access");
    assert!(check_admin_change("root", &me, true).is_ok());
    assert!(check_admin_change("alice", &me, false).is_ok());
    assert!(matches!(require_rows_affected(0), Err(ApiError::NotFound)));
    assert!(require_rows_affected(1).is_ok());
}

#[test]
fn renames_are_trimmed_and_never_empty() {
    assert_eq!(rename_to(None).unwrap(), None);
    assert_eq!(rename_to(Some("  New Name ")).unwrap(), Some("New Name".to_string()));
    match rename_to(Some("   ")) {
        Err(ApiError::BadRequest(m)) => assert_eq!(m, "name cannot be empty"),
        other => panic!("unexpected {other:?}"),
    }
}

#[test]
fn owner_crud_roundtrip() {
    let alice = user("alice", false);
    let created = new_character("  Thistle ", &alice, "2024-05-01T00:00:00Z").unwrap();
    assert_eq!(created.name, "Thistle");
    assert_eq!(created.uuid.len(), 36);
    assert_eq!(created.created_at, "2024-05-01T00:00:00Z");
    assert_eq!(created.updated_at, "2024-05-01T00:00:00Z");
    assert_eq!(created.owner_user_uuid, "alice");
    assert_eq!(created.owner_username.as_deref(), Some("alice"));
    let row = CharacterRowMeta {
        owner_user_uuid: "alice".to_string(),
        owner_username: Some("alice".to_string()),
        created_at: created.created_at.clone(),
    };
    let replaced =
        replaced_character("Thistle Quickfoot", &created.uuid, Some(row), &alice, "2024-05-02T00:00:00Z").unwrap();
    assert_eq!(replaced.name, "Thistle Quickfoot");
    assert_eq!(replaced.uuid, created.uuid);
    assert_eq!(replaced.created_at, "2024-05-01T00:00:00Z");
    assert_eq!(replaced.updated_at, "2024-05-02T00:00:00Z");
}

#[test]
fn non_owner_can_read_but_not_write() {
    let bob = user("bob", false);
    let row = CharacterRowMeta {
        owner_user_uuid: "alice".to_string(),
        owner_username: Some("alice".to_string()),
        created_at: "t0".to_string(),
    };
    assert!(matches!(check_character_write(&Some(row), &bob), Err(ApiError::Forbidden)));
    assert!(matches!(check_character_write(&None, &bob), Err(ApiError::NotFound)));
    match new_character("  ", &bob, "t") {
        Err(ApiError::BadRequest(m)) => assert_eq!(m, "name is required"),
        other => panic!("unexpected {:?}", other.is_ok()),
    }
}

#[test]
fn admin_can_write_others_characters() {
    let carol = user("carol", true);
    let row = CharacterRowMeta {
        owner_user_uuid: "alice".to_string(),
        owner_username: Some("alice".to_string()),
        created_at: "t0".to_string(),
    };
    let c = replaced_character("Thistle, revised", "c-1", Some(row), &carol, "t1").unwrap();
    // An admin editing keeps the owner it had.
    assert_eq!(c.owner_user_uuid, "alice");
    assert_eq!(c.owner_username.as_deref(), Some("alice"));
    // A blank name is refused before the sheet is even looked at.
    assert!(matches!(replaced_character(" ", "c-1", None, &carol, "t1"), Err(ApiError::BadRequest(_))));
    assert_eq!(required_name(" x ").unwrap(), "x");
}

#[test]
fn settings_visible_to_owner_or_collaborator() {
    let sel = "SELECT uuid, name, description_note_uuid, owner_user_uuid, published_as_module_uuid, created_at, updated_at FROM setting";
    assert_eq!(
        visible_settings_sql(),
        format!("{sel} WHERE (owner_user_uuid = ?1 OR uuid IN (SELECT setting_uuid FROM setting_collaborator WHERE user_uuid = ?1)) ORDER BY updated_at DESC")
    );
}

#[test]
fn a_hidden_setting_looks_missing() {
    let alice = user("alice", false);
    let bob = user("bob", true);
    let owned = Some(Some("alice".to_string()));
    assert!(check_setting_visible(&owned, false, &alice).is_ok());
    assert!(check_setting_visible(&owned, true, &bob).is_ok());
    // Being an admin does not reveal someone else's setting.
    assert!(matches!(check_setting_visible(&owned, false, &bob), Err(ApiError::NotFound)));
    assert!(matches!(check_setting_visible(&None, false, &bob), Err(ApiError::NotFound)));
    assert!(matches!(check_setting_visible(&Some(None), false, &alice), Err(ApiError::NotFound)));
}
