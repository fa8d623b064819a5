use lorewyld::content::{
    plan_import, BundleModule, ImportError, ImportOptions, ModuleOrigin, SlugConflict,
};
use lorewyld::error::{import_error, ApiError};

fn module(uuid: &str, slug: &str, licensed: bool) -> BundleModule {
    BundleModule { uuid: uuid.to_string(), slug: slug.to_string(), bundling_license: licensed }
}

fn opts(conflict: SlugConflict, require_license: bool) -> ImportOptions {
    ImportOptions {
        origin: ModuleOrigin::Uploaded,
        on_slug_conflict: conflict,
        require_bundling_license: require_license,
    }
}

#[test]
fn schema_outside_window_is_refused() {
    let mods = vec![module("u1", "a", true)];
    match plan_import(0, 0, &mods, &vec![], &opts(SlugConflict::Skip, false), 1, 3) {
        Err(ImportError::UnsupportedSchema { version }) => assert_eq!(version, 0),
        other => panic!("unexpected {:?}", other.is_ok()),
    }
    // A newer bundle that still reads as the current schema is accepted.
    assert!(plan_import(7, 3, &mods, &vec![], &opts(SlugConflict::Skip, false), 1, 3).is_ok());
    match plan_import(2, 5, &mods, &vec![], &opts(SlugConflict::Skip, false), 1, 3) {
        Err(ImportError::UnsupportedSchema { version }) => assert_eq!(version, 2),
        other => panic!("unexpected {:?}", other.is_ok()),
    }
    let e = ImportError::UnsupportedSchema { version: 7 };
    assert_eq!(e.message(1, 3), "bundle schema v7 is outside the supported window 1..=3");
}

#[test]
fn first_unlicensed_module_is_named() {
    let mods = vec![module("u1", "a", true), module("u2", "b", false), module("u3", "c", false)];
    match plan_import(2, 1, &mods, &vec![], &opts(SlugConflict::Reject, true), 1, 3) {
        Err(ImportError::UnsupportedLicense { slug }) => assert_eq!(slug, "b"),
        other => panic!("unexpected {:?}", other.is_ok()),
    }
    // Without the requirement the same bundle installs.
    let plan = plan_import(2, 1, &mods, &vec![], &opts(SlugConflict::Reject, false), 1, 3).unwrap();
    assert_eq!(plan.install, vec![0, 1, 2]);
}

#[test]
fn upload_installs_then_rejects_slug_conflict() {
    let mods = vec![module("u1", "testpack", true)];
    let plan = plan_import(2, 1, &mods, &vec!["srd".to_string()], &opts(SlugConflict::Reject, false), 1, 3)
        .unwrap();
    assert_eq!(plan.install, vec![0]);
    assert_eq!(plan.allowed_module_uuids, vec!["u1".to_string()]);
    assert!(plan.skipped_slugs.is_empty());
    let installed = vec!["srd".to_string(), "testpack".to_string()];
    match plan_import(2, 1, &mods, &installed, &opts(SlugConflict::Reject, false), 1, 3) {
        Err(ImportError::SlugConflict { slugs }) => {
            assert_eq!(slugs, vec!["testpack".to_string()]);
            let e = ImportError::SlugConflict { slugs };
            assert_eq!(e.message(1, 3), "module slug(s) already installed: testpack");
        }
        other => panic!("unexpected {:?}", other.is_ok()),
    }
}

#[test]
fn seeding_skips_installed_modules_and_keeps_order() {
    let mods = vec![module("u1", "srd", true), module("u2", "tob", true), module("u3", "cc", true)];
    let installed = vec!["srd".to_string()];
    let plan = plan_import(2, 1, &mods, &installed, &opts(SlugConflict::Skip, true), 1, 3).unwrap();
    assert_eq!(plan.install, vec![1, 2]);
    assert_eq!(plan.skipped_slugs, vec!["srd".to_string()]);
    assert_eq!(plan.allowed_module_uuids, vec!["u2".to_string(), "u3".to_string()]);
    // Seeding again with everything present is a no-op.
    let all = vec!["srd".to_string(), "tob".to_string(), "cc".to_string()];
    let again = plan_import(2, 1, &mods, &all, &opts(SlugConflict::Skip, true), 1, 3).unwrap();
    assert!(again.install.is_empty());
    assert_eq!(again.skipped_slugs.len(), 3);
}

#[test]
fn import_errors_as_api_errors() {
    match import_error(ImportError::Db("disk full".to_string()), 1, 3) {
        ApiError::Internal(m) => assert_eq!(m, "disk full"),
        other => panic!("unexpected {other:?}"),
    }
    match import_error(ImportError::UnsupportedLicense { slug: "x".to_string() }, 1, 3) {
        ApiError::BadRequest(m) => assert_eq!(m, "module 'x' carries a license unsupported for bundling"),
        other => panic!("unexpected {other:?}"),
    }
    match import_error(
        ImportError::SlugConflict { slugs: vec!["a".to_string(), "b".to_string()] },
        1,
        3,
    ) {
        ApiError::BadRequest(m) => assert_eq!(m, "module slug(s) already installed: a, b"),
        other => panic!("unexpected {other:?}"),
    }
}

#[test]
fn a_new_licence_free_module_installs() {
    let mods = vec![module("u9", "newpack", false)];
    let plan = plan_import(2, 1, &mods, &vec!["srd".to_string()], &opts(SlugConflict::Reject, false), 1, 3).unwrap();
    assert_eq!(plan.install, vec![0]);
    assert!(plan.skipped_slugs.is_empty());
}
