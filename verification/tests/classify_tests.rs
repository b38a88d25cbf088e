use sahakari::classify::{classify, BuildAction};

fn cs(paths: &[&str]) -> Vec<String> {
    paths.iter().map(|p| p.to_string()).collect()
}

#[test]
fn classify_is_deterministic() {
    let changes = cs(&["resources/js/app.js", "composer.json", "database/migrations/x.php"]);
    let a = classify(&changes, false);
    let b = classify(&changes, false);
    assert_eq!(a, b);
}

#[test]
fn js_change_needs_asset_build_only() {
    let changes = cs(&["resources/js/app.js"]);
    let action = classify(&changes, false);
    assert_eq!(
        action,
        BuildAction { dependency_install: false, asset_build: true, migration: false }
    );
}

#[test]
fn migration_change_needs_migration_only() {
    let changes = cs(&["database/migrations/2024_01_01_create.php"]);
    let action = classify(&changes, false);
    assert_eq!(
        action,
        BuildAction { dependency_install: false, asset_build: false, migration: true }
    );
}

#[test]
fn force_overrides_empty_change_set() {
    let changes: Vec<String> = Vec::new();
    let action = classify(&changes, true);
    assert_eq!(
        action,
        BuildAction { dependency_install: false, asset_build: true, migration: true }
    );
}

#[test]
fn empty_change_set_without_force_needs_nothing() {
    let changes: Vec<String> = Vec::new();
    let action = classify(&changes, false);
    assert_eq!(
        action,
        BuildAction { dependency_install: false, asset_build: false, migration: false }
    );
}

#[test]
fn composer_manifest_anywhere_needs_dependency_install() {
    let changes = cs(&["composer.json"]);
    assert!(classify(&changes, false).dependency_install);
    let nested = cs(&["sub/composer.json"]);
    assert!(classify(&nested, false).dependency_install);
}

#[test]
fn frontend_manifest_exact_path_needs_dependency_install() {
    let changes = cs(&["package.json"]);
    assert!(classify(&changes, false).dependency_install);
    // Only the manifest itself counts, not a file of a similar name
    // elsewhere.
    let other = cs(&["docs/package.json.md"]);
    assert!(!classify(&other, false).dependency_install);
}

#[test]
fn all_frontend_suffixes_trigger_asset_build() {
    for p in ["a.js", "b.jsx", "c.ts", "d.tsx"] {
        let changes = cs(&[p]);
        assert!(classify(&changes, false).asset_build, "{p}");
    }
    let changes = cs(&["readme.md", "app/Models/User.php"]);
    assert!(!classify(&changes, false).asset_build);
}

#[test]
fn mixed_changes_set_all_matching_flags() {
    let changes = cs(&["composer.json", "resources/js/app.tsx", "database/migrations/m.php"]);
    let action = classify(&changes, false);
    assert_eq!(
        action,
        BuildAction { dependency_install: true, asset_build: true, migration: true }
    );
}
