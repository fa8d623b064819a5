use lorewyld::auth::CurrentUser;
use lorewyld::error::ApiError;
use lorewyld::notes::{
    can_view, note_is_publicly_visible, note_list_limit, note_list_query, note_title,
    note_patch, require_note_creator, scope_authorization, setting_access, scope_kind_from_str, scope_kind_to_str,
    validate_scope_kind, visibility_from_str, visibility_to_str, LoreNoteListQuery, NoteScopeKind,
    NoteVisibility, SettingAccess,
};
use lorewyld::rows::LoreNoteRow;
use lorewyld::search::{fts5_quote, search_query, SearchRequest};
use lorewyld::tags::{
    missing_slugs, new_tag, normalize_tag_slugs, tag_display_name, tag_list_plan, tag_slug_taken, uuids_in_order,
    TagListQuery, TagRow,
};

const SELECT: &str = "SELECT n.uuid, n.title, n.body_markdown, n.scope_kind, n.scope_target_uuid, n.visibility, n.derived_from_setting_note_uuid, n.created_by_user_uuid, n.created_at, n.updated_at FROM lore_note n";

fn user(uuid: &str) -> CurrentUser {
    CurrentUser {
        uuid: uuid.to_string(),
        username: uuid.to_string(),
        email: format!("{uuid}@example.com"),
        admin: false,
    }
}

fn strings(v: &[&str]) -> Vec<String> {
    v.iter().map(|s| s.to_string()).collect()
}

#[test]
fn scope_and_visibility_codecs_round_trip() {
    for k in [NoteScopeKind::Module, NoteScopeKind::Setting, NoteScopeKind::Campaign, NoteScopeKind::Character] {
        assert_eq!(scope_kind_from_str(scope_kind_to_str(k)).unwrap(), k);
    }
    for v in [NoteVisibility::Visible, NoteVisibility::AuthorOnly, NoteVisibility::GamemasterOnly] {
        assert_eq!(visibility_from_str(visibility_to_str(v)).unwrap(), v);
    }
    assert_eq!(visibility_to_str(NoteVisibility::GamemasterOnly), "gamemaster_only");
    match scope_kind_from_str("world") {
        Err(ApiError::Internal(m)) => assert_eq!(m, "unknown scope_kind in database: world"),
        other => panic!("unexpected {other:?}"),
    }
    match visibility_from_str("secret") {
        Err(ApiError::Internal(m)) => assert_eq!(m, "unknown visibility in database: secret"),
        other => panic!("unexpected {other:?}"),
    }
    assert!(validate_scope_kind("setting").is_ok());
    assert!(validate_scope_kind("Setting").is_err());
}

#[test]
fn who_may_read_a_note() {
    let alice = user("alice");
    let bob = user("bob");
    let by_alice = Some("alice".to_string());
    assert!(can_view(NoteVisibility::Visible, &by_alice, &bob));
    assert!(can_view(NoteVisibility::AuthorOnly, &by_alice, &alice));
    assert!(!can_view(NoteVisibility::AuthorOnly, &by_alice, &bob));
    assert!(!can_view(NoteVisibility::GamemasterOnly, &by_alice, &bob));
    // An orphaned restricted note is readable by no one.
    assert!(!can_view(NoteVisibility::AuthorOnly, &None, &alice));
    assert!(can_view(NoteVisibility::Visible, &None, &alice));
    assert!(note_is_publicly_visible("visible"));
    assert!(!note_is_publicly_visible("author_only"));
}

#[test]
fn only_the_creator_changes_a_note() {
    assert!(require_note_creator(&Some("alice".to_string()), &user("alice")).is_ok());
    assert!(matches!(require_note_creator(&Some("alice".to_string()), &user("bob")), Err(ApiError::Unauthorized)));
    assert!(matches!(require_note_creator(&None, &user("bob")), Err(ApiError::Unauthorized)));
    assert_eq!(note_title("  Dragons ").unwrap(), "Dragons");
    assert!(matches!(note_title("\t"), Err(ApiError::BadRequest(_))));
}

#[test]
fn scope_authorization_rules() {
    let own = SettingAccess { exists: true, owner_is_caller: true, caller_collaborates: false };
    let collab = SettingAccess { exists: true, owner_is_caller: false, caller_collaborates: true };
    let stranger = SettingAccess { exists: true, owner_is_caller: false, caller_collaborates: false };
    let missing = SettingAccess { exists: false, owner_is_caller: false, caller_collaborates: false };
    assert!(scope_authorization(NoteScopeKind::Setting, "s1", &own).is_ok());
    assert!(scope_authorization(NoteScopeKind::Setting, "s1", &collab).is_ok());
    assert!(matches!(scope_authorization(NoteScopeKind::Setting, "s1", &stranger), Err(ApiError::Unauthorized)));
    match scope_authorization(NoteScopeKind::Setting, "s1", &missing) {
        Err(ApiError::BadRequest(m)) => assert_eq!(m, "no setting with uuid s1 exists"),
        other => panic!("unexpected {other:?}"),
    }
    assert!(matches!(scope_authorization(NoteScopeKind::Module, "m", &own), Err(ApiError::BadRequest(_))));
    match scope_authorization(NoteScopeKind::Campaign, "c", &own) {
        Err(ApiError::BadRequest(m)) => assert_eq!(m, "campaign- and character-scope notes are not yet supported"),
        other => panic!("unexpected {other:?}"),
    }
}

#[test]
fn note_listing_query() {
    assert_eq!(note_list_limit(None), 100);
    assert_eq!(note_list_limit(Some(0)), 1);
    assert_eq!(note_list_limit(Some(9999)), 500);
    let q = LoreNoteListQuery {
        scope_kind: Some("setting".to_string()),
        scope_target: Some("s1".to_string()),
        tag: Some("NPC".to_string()),
        limit: Some(10),
    };
    let nq = note_list_query(&q, "alice").unwrap();
    assert_eq!(
        nq.sql,
        format!(
            "{SELECT} JOIN tag_attachment_lore_note tan ON tan.lore_note_uuid = n.uuid JOIN tag t ON t.uuid = tan.tag_uuid WHERE n.scope_kind = ? AND n.scope_target_uuid = ? AND t.slug = ? AND (n.visibility = 'visible' OR n.created_by_user_uuid = ?) ORDER BY n.updated_at DESC LIMIT ?"
        )
    );
    assert_eq!(nq.binds, strings(&["setting", "s1", "npc", "alice"]));
    assert_eq!(nq.limit, 10);
    let bare = LoreNoteListQuery { scope_kind: None, scope_target: None, tag: Some(String::new()), limit: None };
    let nq = note_list_query(&bare, "bob").unwrap();
    assert_eq!(
        nq.sql,
        format!("{SELECT} WHERE (n.visibility = 'visible' OR n.created_by_user_uuid = ?) ORDER BY n.updated_at DESC LIMIT ?")
    );
    assert_eq!(nq.binds, strings(&["bob"]));
    let bad = LoreNoteListQuery { scope_kind: Some("world".to_string()), scope_target: None, tag: None, limit: None };
    assert!(note_list_query(&bad, "bob").is_err());
}

#[test]
fn fts5_terms_are_quoted() {
    assert_eq!(fts5_quote("red dragon"), "\"red\" \"dragon\"");
    assert_eq!(fts5_quote("  say \"hi\"  "), "\"say\" \"\"\"hi\"\"\"");
    assert_eq!(fts5_quote("   "), "");
    assert_eq!(fts5_quote("OR"), "\"OR\"");
}

#[test]
fn search_query_combines_filters() {
    let req = SearchRequest {
        q: Some("red dragon".to_string()),
        scope_kind: Some(NoteScopeKind::Setting),
        scope_target_uuid: None,
        tag_slugs: strings(&["NPC", "lair"]),
        limit: None,
    };
    let nq = search_query(&req, "alice");
    assert_eq!(
        nq.sql,
        format!(
            "{SELECT} JOIN lore_note_fts fts ON fts.rowid = n.rowid WHERE lore_note_fts MATCH ? AND n.scope_kind = ? AND n.uuid IN (SELECT tan.lore_note_uuid FROM tag_attachment_lore_note tan JOIN tag t ON t.uuid = tan.tag_uuid WHERE t.slug IN (?, ?) GROUP BY tan.lore_note_uuid HAVING COUNT(DISTINCT t.uuid) = 2) AND (n.visibility = 'visible' OR n.created_by_user_uuid = ?) ORDER BY n.updated_at DESC LIMIT ?"
        )
    );
    assert_eq!(nq.binds, strings(&["\"red\" \"dragon\"", "setting", "npc", "lair", "alice"]));
    assert_eq!(nq.limit, 50);
    let blank = SearchRequest { q: Some("  ".to_string()), scope_kind: None, scope_target_uuid: None, tag_slugs: vec![], limit: Some(900) };
    let nq = search_query(&blank, "bob");
    assert_eq!(
        nq.sql,
        format!("{SELECT} WHERE (n.visibility = 'visible' OR n.created_by_user_uuid = ?) ORDER BY n.updated_at DESC LIMIT ?")
    );
    assert_eq!(nq.binds, strings(&["bob"]));
    assert_eq!(nq.limit, 200);
}

#[test]
fn tag_slugs_are_normalized_in_first_seen_order() {
    let raw = strings(&[" NPC ", "lair", "npc", "", "  ", "Lair", "Boss"]);
    assert_eq!(normalize_tag_slugs(&raw), strings(&["npc", "lair", "boss"]));
    assert!(normalize_tag_slugs(&vec![]).is_empty());
}

#[test]
fn tag_creation_rules() {
    assert_eq!(tag_display_name("big-bad-wolf"), "big bad wolf");
    assert_eq!(new_tag("  NPC ", " Non-player character ").unwrap(), ("npc".to_string(), "Non-player character".to_string()));
    match new_tag("  ", "x") {
        Err(ApiError::BadRequest(m)) => assert_eq!(m, "slug cannot be empty"),
        other => panic!("unexpected {other:?}"),
    }
    match new_tag("a", " ") {
        Err(ApiError::BadRequest(m)) => assert_eq!(m, "display_name cannot be empty"),
        other => panic!("unexpected {other:?}"),
    }
    match tag_slug_taken("npc") {
        ApiError::BadRequest(m) => assert_eq!(m, "tag slug 'npc' already exists"),
        other => panic!("unexpected {other:?}"),
    }
}

#[test]
fn tag_list_plan_and_resolution() {
    let plan = tag_list_plan(&TagListQuery { q: Some("NPC".to_string()), limit: None });
    assert_eq!(plan.pattern.as_deref(), Some("%npc%"));
    assert_eq!(plan.limit, 50);
    let plan = tag_list_plan(&TagListQuery { q: Some(String::new()), limit: Some(1000) });
    assert_eq!(plan.pattern, None);
    assert_eq!(plan.limit, 200);
    let known = vec![("lair".to_string(), "u-lair".to_string()), ("npc".to_string(), "u-npc".to_string())];
    assert_eq!(uuids_in_order(&strings(&["npc", "lair"]), &known).unwrap(), strings(&["u-npc", "u-lair"]));
    assert!(matches!(uuids_in_order(&strings(&["boss"]), &known), Err(ApiError::Internal(_))));
}

#[test]
fn stored_rows_decode_with_canonical_uuids() {
    let row = LoreNoteRow {
        uuid: "AAAAAAAA-BBBB-CCCC-DDDD-EEEEEEEEEEEE".to_string(),
        title: "Dragons".to_string(),
        body_markdown: "# Dragons".to_string(),
        scope_kind: "setting".to_string(),
        scope_target_uuid: "11111111-2222-3333-4444-555555555555".to_string(),
        visibility: "author_only".to_string(),
        derived_from_setting_note_uuid: None,
        created_by_user_uuid: Some("99999999-8888-7777-6666-555555555555".to_string()),
        created_at: "t0".to_string(),
        updated_at: "t1".to_string(),
    };
    let note = row.into_dto().unwrap();
    assert_eq!(note.uuid, "aaaaaaaa-bbbb-cccc-dddd-eeeeeeeeeeee");
    assert_eq!(note.scope.kind, NoteScopeKind::Setting);
    assert_eq!(note.visibility, NoteVisibility::AuthorOnly);
    assert_eq!(note.derived_from_setting_note_uuid, None);
    assert_eq!(note.created_by_user_uuid.as_deref(), Some("99999999-8888-7777-6666-555555555555"));
    let tag = TagRow {
        uuid: "not a uuid".to_string(),
        slug: "npc".to_string(),
        display_name: "npc".to_string(),
        is_system: 1,
        introduced_by_module_uuid: None,
        created_at: "t".to_string(),
    };
    assert!(matches!(tag.into_dto(), Err(ApiError::Internal(_))));
    let tag = TagRow {
        uuid: "11111111-2222-3333-4444-555555555555".to_string(),
        slug: "npc".to_string(),
        display_name: "npc".to_string(),
        is_system: 2,
        introduced_by_module_uuid: None,
        created_at: "t".to_string(),
    };
    let t = tag.into_dto().unwrap();
    assert!(t.is_system);
}

#[test]
fn setting_access_and_note_patches() {
    let alice = user("alice");
    let a = setting_access(&Some(Some("alice".to_string())), false, &alice);
    assert!(a.exists && a.owner_is_caller && !a.caller_collaborates);
    let orphan = setting_access(&Some(None), true, &alice);
    assert!(orphan.exists && !orphan.owner_is_caller && orphan.caller_collaborates);
    assert!(!setting_access(&None, false, &alice).exists);
    let p = note_patch(Some("  New title "), None, Some(NoteVisibility::AuthorOnly));
    assert_eq!(p.title.as_deref(), Some("New title"));
    assert_eq!(p.body_markdown, None);
    assert_eq!(p.visibility, Some("author_only"));
    let keep = note_patch(None, Some("body".to_string()), None);
    assert!(keep.title.is_none() && keep.visibility.is_none());
    assert_eq!(keep.body_markdown.as_deref(), Some("body"));
}

#[test]
fn resolving_tags_twice_creates_nothing_more() {
    let cleaned = strings(&["npc", "lair", "boss"]);
    let mut known = vec![("lair".to_string(), "u-lair".to_string())];
    let missing = missing_slugs(&cleaned, &known);
    assert_eq!(missing, strings(&["npc", "boss"]));
    for (i, slug) in missing.iter().enumerate() {
        known.push((slug.clone(), format!("fresh-{i}")));
    }
    assert!(missing_slugs(&cleaned, &known).is_empty());
    assert_eq!(uuids_in_order(&cleaned, &known).unwrap(), strings(&["fresh-0", "u-lair", "fresh-1"]));
}
