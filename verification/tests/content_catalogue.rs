use lorewyld::content::{
    authored_kind, categories, category_spec, category_tables, check_category, custom_module_slug,
    display_categories, document_key, has_summary, module_origin_from_str, module_origin_to_str,
    placeholders, slug_taken_error, spec_extras, summary_table_names, uninstall_tables, AuthoredKind,
    ModuleOrigin, RecordError, HOMEBREW_MODULE_SLUG, PINNED_MODULE_SLUG,
};

#[test]
fn category_table_order_is_import_order() {
    let tables = category_tables();
    assert_eq!(tables.len(), 24);
    assert_eq!(tables[0], "license");
    assert_eq!(tables[14], "weapon_property");
    assert_eq!(tables[15], "spell");
    assert_eq!(tables[23], "item");
    assert_eq!(categories().len(), 24);
}

#[test]
fn uninstall_order_is_reverse_import_order() {
    let import = category_tables();
    let mut reversed = uninstall_tables();
    assert_eq!(reversed.len(), import.len());
    assert_eq!(reversed[0], "item");
    reversed.reverse();
    assert_eq!(reversed, import);
}

#[test]
fn category_spec_is_found_only_for_content_tables() {
    let spell = category_spec("spell").unwrap();
    assert_eq!(spell.table, "spell");
    assert_eq!(
        spell.extras,
        vec![
            ("level", "/level"),
            ("school_uuid", "/school"),
            ("concentration", "/concentration"),
            ("ritual", "/ritual"),
        ]
    );
    assert_eq!(spell.summary_fields, vec!["document_uuid", "verbal", "somatic", "material"]);
    assert!(!spell.include_data);
    let condition = category_spec("condition").unwrap();
    assert!(condition.include_data);
    assert!(condition.extras.is_empty());
    assert!(category_spec("dragon").is_none());
    assert!(category_spec("Spell").is_none());
    assert!(category_spec("").is_none());
}

#[test]
fn summary_tables_are_the_big_record_tables() {
    assert!(has_summary("spell"));
    assert!(has_summary("item"));
    assert!(!has_summary("condition"));
    assert!(!has_summary("users"));
    assert_eq!(summary_table_names().len(), 9);
}

#[test]
fn every_display_category_is_a_content_table() {
    let shown = display_categories();
    assert_eq!(shown.len(), 11);
    assert_eq!(shown[0], "spell");
    assert_eq!(shown[10], "language");
    for c in shown {
        assert!(category_spec(c).is_some());
    }
}

#[test]
fn spec_extras_of_unknown_table_is_empty() {
    assert!(spec_extras("nope").is_empty());
    assert_eq!(spec_extras("weapon"), vec![("is_simple", "/is_simple")]);
    assert_eq!(spec_extras("class"), vec![("subclass_of", "/subclass_of")]);
}

#[test]
fn module_origin_codec_round_trips() {
    for o in [ModuleOrigin::Bundled, ModuleOrigin::Uploaded, ModuleOrigin::Local, ModuleOrigin::Published] {
        assert_eq!(module_origin_from_str(module_origin_to_str(o)), Some(o));
    }
    assert_eq!(module_origin_to_str(ModuleOrigin::Local), "local");
    assert_eq!(module_origin_from_str("bundled"), Some(ModuleOrigin::Bundled));
    assert_eq!(module_origin_from_str("Local"), None);
    assert_eq!(module_origin_from_str(""), None);
}

#[test]
fn pinned_and_homebrew_slugs() {
    assert_eq!(PINNED_MODULE_SLUG, "srd");
    assert_eq!(HOMEBREW_MODULE_SLUG, "homebrew");
}

#[test]
fn custom_module_slug_is_normalized_and_non_empty() {
    assert_eq!(custom_module_slug("My World").unwrap(), "my-world");
    match custom_module_slug("!!!") {
        Err(RecordError::Invalid(m)) => assert_eq!(m, "module slug cannot be empty"),
        other => panic!("unexpected {other:?}"),
    }
    match slug_taken_error("my-world") {
        RecordError::Invalid(m) => assert_eq!(m, "a module with slug 'my-world' already exists"),
        other => panic!("unexpected {other:?}"),
    }
}

#[test]
fn categories_and_authorable_kinds() {
    assert!(check_category("feat").is_ok());
    match check_category("dragon") {
        Err(RecordError::Invalid(m)) => assert_eq!(m, "unknown category dragon"),
        other => panic!("unexpected {other:?}"),
    }
    assert_eq!(authored_kind("feat").unwrap(), AuthoredKind::Summarized);
    assert_eq!(authored_kind("language").unwrap(), AuthoredKind::Lookup);
    match authored_kind("license") {
        Err(RecordError::Invalid(m)) => assert_eq!(m, "category license is not authorable"),
        other => panic!("unexpected {other:?}"),
    }
}

#[test]
fn document_key_and_placeholders() {
    assert_eq!(document_key("abc"), "doc-abc");
    assert_eq!(placeholders(0), "");
    assert_eq!(placeholders(1), "?");
    assert_eq!(placeholders(3), "?, ?, ?");
}
