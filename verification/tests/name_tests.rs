//! Package identifiers and manifests: what is accepted, and how they render.

use wally_index::manifest::Manifest;
use wally_index::package_name::PackageName;

#[test]
fn well_formed_identifiers_are_accepted() {
    let name = PackageName::new("acme-labs", "foo2").expect("identifier should be accepted");
    assert_eq!(name.scope(), "acme-labs");
    assert_eq!(name.name(), "foo2");
}

#[test]
fn ill_formed_identifiers_are_rejected() {
    assert!(PackageName::new("", "foo").is_none());
    assert!(PackageName::new("acme", "").is_none());
    assert!(PackageName::new("Acme", "foo").is_none());
    assert!(PackageName::new("acme", "f oo").is_none());
    assert!(PackageName::new("ac/me", "foo").is_none());
    assert!(PackageName::new("acme", "foo\"").is_none());
}

#[test]
fn ill_formed_versions_are_rejected() {
    let name = PackageName::new("acme", "foo").expect("identifier should be accepted");
    assert!(Manifest::new(name, "1 0").is_err());
    let name = PackageName::new("acme", "foo").expect("identifier should be accepted");
    assert!(Manifest::new(name, "").is_err());
}

#[test]
fn package_id_renders_scope_name_and_version() {
    let name = PackageName::new("acme", "foo").expect("identifier should be accepted");
    let manifest = Manifest::new(name, "1.0.0").expect("version should be accepted");
    assert_eq!(manifest.package_id(), "acme/foo@1.0.0");
}

#[test]
fn default_metadata_is_empty() {
    let md = wally_index::cache::PackageMetadata::default();
    assert!(md.versions.is_empty());
}

#[test]
fn same_as_compares_both_parts() {
    let a = PackageName::new("acme", "foo").expect("identifier");
    let b = PackageName::new("acme", "foo").expect("identifier");
    let c = PackageName::new("acme", "bar").expect("identifier");
    assert!(a.same_as(&b));
    assert!(!a.same_as(&c));
}
