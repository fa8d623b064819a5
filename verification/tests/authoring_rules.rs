use lorewyld::auth::CurrentUser;
use lorewyld::authoring::{
    assemble_record, authorize_edit, check_editable_module, is_managed_key, json_str, merge_fields,
    record_document, record_str, set_managed, FieldValue, JsonValue, Record,
};
use lorewyld::content::{ModuleOrigin, RecordError};
use lorewyld::error::ApiError;

fn user(uuid: &str, admin: bool) -> CurrentUser {
    CurrentUser {
        uuid: uuid.to_string(),
        username: uuid.to_string(),
        email: format!("{uuid}@example.com"),
        admin,
    }
}

fn object(fields: &[(&str, &str)]) -> JsonValue {
    let mut r = Record::new();
    for (k, v) in fields {
        r.insert(k, FieldValue::Text(v.to_string()));
    }
    JsonValue::Object(r)
}

fn text(v: &JsonValue, key: &str) -> Option<String> {
    match v {
        JsonValue::Object(r) => r.get_text(key),
        JsonValue::Other(_) => None,
    }
}

#[test]
fn managed_keys_are_exactly_the_server_owned_fields() {
    for k in ["uuid", "key", "slug", "content_module_uuid", "document_uuid", "created_at", "updated_at", "created_by_user_uuid"] {
        assert!(is_managed_key(k));
    }
    for k in ["name", "desc", "Uuid", ""] {
        assert!(!is_managed_key(k));
    }
}

#[test]
fn forged_uuid_in_fields_cannot_clobber_another_record() {
    let mut record = object(&[("uuid", "alice-feat"), ("key", "feat-alice-feat"), ("name", "Alice's Feat")]);
    let fields = object(&[("uuid", "bob-feat"), ("key", "feat-bob-feat"), ("name", "Pwned"), ("desc", "evil")]);
    merge_fields(&mut record, &fields).unwrap();
    assert_eq!(text(&record, "uuid").as_deref(), Some("alice-feat"));
    assert_eq!(text(&record, "key").as_deref(), Some("feat-alice-feat"));
    assert_eq!(text(&record, "name").as_deref(), Some("Pwned"));
    assert_eq!(text(&record, "desc").as_deref(), Some("evil"));
}

#[test]
fn merge_refuses_non_objects_and_leaves_the_record() {
    let mut record = object(&[("name", "Tough")]);
    match merge_fields(&mut record, &JsonValue::Other(7)) {
        Err(ApiError::BadRequest(m)) => assert_eq!(m, "fields must be a JSON object"),
        other => panic!("unexpected {other:?}"),
    }
    assert_eq!(text(&record, "name").as_deref(), Some("Tough"));
    let mut scalar = JsonValue::Other(3);
    assert!(merge_fields(&mut scalar, &object(&[("name", "x")])).is_err());
    assert!(matches!(scalar, JsonValue::Other(3)));
}

#[test]
fn create_lands_in_module_and_derives_slug() {
    let skeleton = object(&[("name", ""), ("desc", ""), ("document_uuid", "")]);
    let fields = object(&[("name", "Tough"), ("desc", "More HP."), ("slug", "forged")]);
    let r = assemble_record("feat", Some(skeleton), &fields, "hb-module", "hb-doc", Some("u-1"), "2024-01-01T00:00:00Z")
        .unwrap();
    assert_eq!(text(&r, "uuid").as_deref(), Some("u-1"));
    assert_eq!(text(&r, "key").as_deref(), Some("feat-u-1"));
    assert_eq!(text(&r, "slug").as_deref(), Some("tough"));
    assert_eq!(text(&r, "content_module_uuid").as_deref(), Some("hb-module"));
    assert_eq!(text(&r, "document_uuid").as_deref(), Some("hb-doc"));
    assert_eq!(text(&r, "created_at").as_deref(), Some("2024-01-01T00:00:00Z"));
    assert_eq!(text(&r, "updated_at").as_deref(), Some("2024-01-01T00:00:00Z"));
    assert_eq!(text(&r, "desc").as_deref(), Some("More HP."));
}

#[test]
fn assemble_without_uuid_draws_a_fresh_one() {
    let skeleton = object(&[("name", "")]);
    let fields = object(&[("name", "Brawler")]);
    let r = assemble_record("feat", Some(skeleton), &fields, "m", "d", None, "t").unwrap();
    let uuid = text(&r, "uuid").unwrap();
    assert_eq!(uuid.len(), 36);
    assert_eq!(text(&r, "key").unwrap(), format!("feat-{uuid}"));
    // A record type without a document field does not get one.
    assert_eq!(text(&r, "document_uuid"), None);
}

#[test]
fn unknown_category_is_not_found() {
    assert!(matches!(
        assemble_record("dragon", None, &object(&[("name", "x")]), "m", "d", None, "t"),
        Err(ApiError::NotFound)
    ));
}

#[test]
fn nameless_record_slug_falls_back_to_uuid() {
    let mut r = object(&[("name", "!!!")]);
    set_managed(&mut r, "m", "d", Some("u-9"), None, "now");
    assert_eq!(text(&r, "slug").as_deref(), Some("u-9"));
    let mut r2 = object(&[("name", "???")]);
    set_managed(&mut r2, "m", "d", None, None, "now");
    assert_eq!(text(&r2, "slug").as_deref(), Some("item"));
}

#[test]
fn edit_is_creator_or_admin_only() {
    let alice = user("alice", false);
    let bob = user("bob", false);
    let carol = user("carol", true);
    let created_by = Some("alice".to_string());
    assert!(authorize_edit(&created_by, &alice, Some(ModuleOrigin::Local)).is_ok());
    assert!(authorize_edit(&created_by, &carol, Some(ModuleOrigin::Local)).is_ok());
    assert!(matches!(authorize_edit(&created_by, &bob, Some(ModuleOrigin::Local)), Err(ApiError::Forbidden)));
    assert!(matches!(authorize_edit(&None, &bob, Some(ModuleOrigin::Local)), Err(ApiError::Forbidden)));
}

#[test]
fn cannot_author_into_or_out_of_non_local_module() {
    let alice = user("alice", false);
    let created_by = Some("alice".to_string());
    assert!(matches!(authorize_edit(&created_by, &alice, Some(ModuleOrigin::Uploaded)), Err(ApiError::Forbidden)));
    assert!(matches!(authorize_edit(&created_by, &alice, None), Err(ApiError::Forbidden)));
    assert!(check_editable_module(Some(ModuleOrigin::Local)).is_ok());
    assert!(matches!(check_editable_module(Some(ModuleOrigin::Bundled)), Err(ApiError::Forbidden)));
    assert!(matches!(check_editable_module(None), Err(ApiError::NotFound)));
}

#[test]
fn record_field_readers() {
    let JsonValue::Object(r) = object(&[("name", "Tough")]) else { unreachable!() };
    assert_eq!(json_str(&r, "name").unwrap(), "Tough");
    match json_str(&r, "uuid") {
        Err(ApiError::Internal(m)) => assert_eq!(m, "assembled record missing uuid"),
        other => panic!("unexpected {other:?}"),
    }
    match record_str(&r, "key") {
        Err(RecordError::Invalid(m)) => assert_eq!(m, "record missing string field key"),
        other => panic!("unexpected {other:?}"),
    }
}

#[test]
fn record_document_defaults_to_nil_uuid() {
    assert_eq!(record_document(&object(&[("document_uuid", "doc-1")])), "doc-1");
    assert_eq!(record_document(&object(&[("name", "x")])), "00000000-0000-0000-0000-000000000000");
    assert_eq!(record_document(&JsonValue::Other(1)), "00000000-0000-0000-0000-000000000000");
}
