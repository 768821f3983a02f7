use astropress_cli::manifest::{pin_astropress_dependency, PackageManifest};
use astropress_cli::string_map::StringMap;

const REPO_ROOT: &str = "/home/dev/astropress";

/// A manifest in the state the embedded template leaves it: carrying the
/// `workspace:*` specifier that only resolves inside the monorepo.
fn template_manifest() -> PackageManifest {
    let mut dependencies = StringMap::new();
    dependencies.insert("@astropress-diy/astropress".to_string(), "workspace:*".to_string());
    PackageManifest {
        name: "demo".into(),
        private: true,
        package_type: Some("module".into()),
        scripts: StringMap::new(),
        dependencies,
        dev_dependencies: StringMap::new(),
    }
}

#[test]
fn local_package_replaces_the_workspace_specifier_with_a_file_path() {
    let mut manifest = template_manifest();
    pin_astropress_dependency(&mut manifest, true, "0.0.3", REPO_ROOT);

    let pinned = manifest.dependencies.get("@astropress-diy/astropress").unwrap();
    assert!(pinned.starts_with("file:"), "expected a file: path, got `{pinned}`");
    assert!(pinned.ends_with("packages/astropress"), "should point at the local package, got `{pinned}`");
}

#[test]
fn published_package_pins_the_supplied_semver_range() {
    let mut manifest = template_manifest();
    pin_astropress_dependency(&mut manifest, false, "9.9.9", REPO_ROOT);

    assert_eq!(manifest.dependencies.get("@astropress-diy/astropress").unwrap(), "^9.9.9");
}

#[test]
fn never_emits_the_bare_astropress_alias() {
    let mut manifest = template_manifest();
    pin_astropress_dependency(&mut manifest, true, "0.0.3", REPO_ROOT);

    assert!(
        !manifest.dependencies.contains_key("astropress"),
        "the bare alias resolves to nothing the scaffold imports"
    );
}

#[test]
fn local_specifier_joins_the_repository_root() {
    let mut manifest = template_manifest();
    pin_astropress_dependency(&mut manifest, true, "0.0.3", REPO_ROOT);
    assert_eq!(
        manifest.dependencies.get("@astropress-diy/astropress").unwrap(),
        "file:/home/dev/astropress/packages/astropress"
    );

    let mut manifest = template_manifest();
    pin_astropress_dependency(&mut manifest, true, "0.0.3", "/srv/repo/");
    assert_eq!(
        manifest.dependencies.get("@astropress-diy/astropress").unwrap(),
        "file:/srv/repo/packages/astropress"
    );

    let mut manifest = template_manifest();
    pin_astropress_dependency(&mut manifest, true, "0.0.3", "");
    assert_eq!(
        manifest.dependencies.get("@astropress-diy/astropress").unwrap(),
        "file:packages/astropress"
    );
}

#[test]
fn pinning_leaves_the_other_fields_alone() {
    let mut manifest = template_manifest();
    manifest.dependencies.insert("react".to_string(), "^18.0.0".to_string());
    manifest.scripts.insert("dev".to_string(), "astropress dev".to_string());
    pin_astropress_dependency(&mut manifest, false, "1.2.3", REPO_ROOT);

    assert_eq!(manifest.name, "demo");
    assert!(manifest.private);
    assert_eq!(manifest.package_type.as_deref(), Some("module"));
    assert_eq!(manifest.dependencies.len(), 2);
    assert_eq!(manifest.dependencies.get("react").unwrap(), "^18.0.0");
    assert_eq!(manifest.scripts.get("dev").unwrap(), "astropress dev");
    assert_eq!(manifest.dev_dependencies.len(), 0);
}

#[test]
fn string_map_insert_replaces_and_keeps_first_position() {
    let mut m = StringMap::new();
    m.insert("b".to_string(), "1".to_string());
    m.insert("a".to_string(), "2".to_string());
    m.insert("b".to_string(), "3".to_string());
    assert_eq!(m.len(), 2);
    assert_eq!(m.get("b").unwrap(), "3");
    assert_eq!(m.get("a").unwrap(), "2");
    assert!(m.get("c").is_none());
    let keys: Vec<&str> = m.entries().iter().map(|(k, _)| k.as_str()).collect();
    assert_eq!(keys, vec!["b", "a"]);
}
