use lorewyld::authoring::{FieldValue, Record};
use lorewyld::bundle::{parents_first, record_identity, record_insert_sql};
use lorewyld::compendium::{
    category_list_query, content_counts_query, entry_query, escape_like, module_counts_query,
    summary_projection, ContentListQuery,
};
use lorewyld::content::{category_spec, spec_extras};
use lorewyld::error::ApiError;
use lorewyld::join_code::{generate_join_code, is_valid_join_code, join_code_from_indices};
use lorewyld::sheet::{multiclass_or_empty, stats_or_zeroed, DerivedStats, NamedBonus};

const ACTIVE: &str = "JOIN content_module m ON m.uuid = t.content_module_uuid AND m.is_active = 1";

#[test]
fn weapon_projection_names_identity_extras_and_summary() {
    let spec = category_spec("weapon").unwrap();
    assert_eq!(
        summary_projection(&spec),
        "json_object('uuid', t.uuid, 'key', t.key, 'slug', t.slug, 'name', t.name, \
         'content_module_uuid', t.content_module_uuid, 'is_simple', t.is_simple, \
         'document_uuid', json_extract(t.data, '$.document_uuid'), \
         'damage_dice', json_extract(t.data, '$.damage_dice'), \
         'damage_type', json_extract(t.data, '$.damage_type'))"
    );
}

#[test]
fn like_patterns_escape_wildcards() {
    assert_eq!(escape_like("50%_off\\"), "50\\%\\_off\\\\");
    assert_eq!(escape_like("plain"), "plain");
}

#[test]
fn category_listing_queries() {
    let q = category_list_query("condition", &ContentListQuery { q: None, limit: None }).unwrap();
    assert_eq!(q.sql, format!("SELECT t.data FROM condition t {ACTIVE} ORDER BY t.name"));
    assert_eq!(q.pattern, None);
    assert_eq!(q.limit, None);
    let q = category_list_query("condition", &ContentListQuery { q: Some("Blind_%".to_string()), limit: Some(0) })
        .unwrap();
    assert_eq!(
        q.sql,
        format!("SELECT t.data FROM condition t {ACTIVE} WHERE t.name LIKE ? ESCAPE '\\' ORDER BY t.name LIMIT ?")
    );
    assert_eq!(q.pattern.as_deref(), Some("%Blind\\_\\%%"));
    assert_eq!(q.limit, Some(1));
    let q = category_list_query("spell", &ContentListQuery { q: None, limit: Some(50_000) }).unwrap();
    assert!(q.sql.starts_with("SELECT json_object('uuid', t.uuid"));
    assert_eq!(q.limit, Some(10_000));
    assert!(matches!(category_list_query("users", &ContentListQuery { q: None, limit: None }), Err(ApiError::NotFound)));
}

#[test]
fn entry_and_count_queries() {
    assert_eq!(entry_query("feat").unwrap(), format!("SELECT t.data FROM feat t {ACTIVE} WHERE t.uuid = ?"));
    assert!(matches!(entry_query("feat; DROP TABLE users"), Err(ApiError::NotFound)));
    let counts = content_counts_query();
    assert!(counts.starts_with(&format!("SELECT 'spell' AS category, COUNT(*) AS n FROM spell t {ACTIVE} UNION ALL ")));
    assert_eq!(counts.matches(" UNION ALL ").count(), 10);
    let per_module = module_counts_query();
    assert!(per_module.starts_with(
        "SELECT 'license' AS category, content_module_uuid, COUNT(*) AS n FROM license GROUP BY content_module_uuid"
    ));
    assert_eq!(per_module.matches(" UNION ALL ").count(), 23);
}

#[test]
fn insert_statements_per_table() {
    assert_eq!(
        record_insert_sql("condition", &spec_extras("condition"), false),
        "INSERT INTO condition (uuid, content_module_uuid, key, slug, name, data) VALUES (?, ?, ?, ?, ?, ?)"
    );
    assert_eq!(
        record_insert_sql("weapon", &spec_extras("weapon"), true),
        "INSERT INTO weapon (uuid, content_module_uuid, key, slug, name, is_simple, summary, data) \
         VALUES (?, ?, ?, ?, ?, ?, ?, ?)"
    );
}

#[test]
fn parents_are_inserted_before_children() {
    // A subclass that sorts before its parent is still inserted after it.
    assert_eq!(parents_first(&vec![true, false, true, false]), vec![1, 3, 0, 2]);
    assert_eq!(parents_first(&vec![]), Vec::<usize>::new());
    assert_eq!(parents_first(&vec![false, false]), vec![0, 1]);
}

fn record(fields: &[(&str, &str)]) -> Record {
    let mut r = Record::new();
    for (k, v) in fields {
        r.insert(k, FieldValue::Text(v.to_string()));
    }
    r
}

#[test]
fn record_identity_skips_other_modules_and_names_missing_fields() {
    let allowed = vec!["m1".to_string()];
    let full = record(&[("uuid", "u"), ("content_module_uuid", "m1"), ("key", "k"), ("slug", "s"), ("name", "n")]);
    let id = record_identity("feat", &full, &allowed).unwrap().unwrap();
    assert_eq!((id.uuid.as_str(), id.key.as_str(), id.slug.as_str(), id.name.as_str()), ("u", "k", "s", "n"));
    let other = record(&[("uuid", "u"), ("content_module_uuid", "m2")]);
    assert!(record_identity("feat", &other, &allowed).unwrap().is_none());
    let no_key = record(&[("uuid", "u"), ("content_module_uuid", "m1"), ("slug", "s")]);
    match record_identity("feat", &no_key, &allowed) {
        Err(m) => assert_eq!(m, "feat record missing field /key"),
        Ok(_) => panic!("expected an error"),
    }
    let mut odd = record(&[("uuid", "u"), ("content_module_uuid", "m1"), ("key", "k"), ("slug", "s")]);
    odd.insert("name", FieldValue::Opaque(4));
    match record_identity("feat", &odd, &allowed) {
        Err(m) => assert_eq!(m, "feat field /name is not a string"),
        Ok(_) => panic!("expected an error"),
    }
}

#[test]
fn generated_join_codes_are_valid() {
    for _ in 0..50 {
        let code = generate_join_code();
        assert_eq!(code.len(), 20);
        assert!(is_valid_join_code(&code));
        assert_eq!(code.as_bytes()[6], b'-');
        assert_eq!(code.as_bytes()[13], b'-');
    }
    // Two draws are (overwhelmingly likely) different codes.
    assert_ne!(generate_join_code(), generate_join_code());
}

#[test]
fn join_code_validation() {
    assert!(is_valid_join_code("AbC123-xYz789-Q1w2E3"));
    assert!(!is_valid_join_code("AbC123-xYz789-Q1w2E"));
    assert!(!is_valid_join_code("AbC123_xYz789-Q1w2E3"));
    assert!(!is_valid_join_code("AbC12!-xYz789-Q1w2E3"));
    assert!(!is_valid_join_code("ÄbC123-xYz789-Q1w2E3"));
}

#[test]
fn unreadable_sheet_gives_zeroed_block() {
    let z = stats_or_zeroed(None);
    assert_eq!((z.level, z.proficiency_bonus, z.initiative, z.passive_perception), (0, 0, 0, 0));
    assert!(z.ability_modifiers.is_empty() && z.saving_throw_bonuses.is_empty() && z.skill_bonuses.is_empty());
    let d = DerivedStats {
        level: 3,
        proficiency_bonus: 2,
        ability_modifiers: vec![NamedBonus { name: "STR".to_string(), bonus: 1 }],
        saving_throw_bonuses: vec![],
        skill_bonuses: vec![],
        initiative: 1,
        passive_perception: 11,
    };
    let kept = stats_or_zeroed(Some(d));
    assert_eq!(kept.level, 3);
    assert_eq!(kept.ability_modifiers[0].name, "STR");
    assert_eq!(multiclass_or_empty(None), "[]");
    assert_eq!(multiclass_or_empty(Some("[{\"ok\":true}]".to_string())), "[{\"ok\":true}]");
}

#[test]
fn join_code_spelled_from_indices() {
    let mut ix: Vec<usize> = (0..18).collect();
    assert_eq!(join_code_from_indices(&ix), "ABCDEF-GHIJKL-MNOPQR");
    ix[0] = 26;
    ix[17] = 61;
    ix[6] = 52;
    assert_eq!(join_code_from_indices(&ix), "aBCDEF-0HIJKL-MNOPQ9");
}
