//! End-to-end runs of the index against a real git remote: a bare repository
//! seeded with a config.json, reached over a file URL.

use wally_index::index::PackageIndex;
use wally_index::manifest::Manifest;
use wally_index::package_name::PackageName;
use wally_index::regurl::RegistryUrl;

fn manifest(scope: &str, name: &str, version: &str) -> Manifest {
    let name = PackageName::new(scope, name).expect("identifier should be accepted");
    Manifest::new(name, version).expect("version should be accepted")
}

/// Builds a bare remote holding one commit with the given config.json, and
/// returns its file URL.
fn seed_remote(dir: &std::path::Path, config_json: &str) -> String {
    let work = dir.join("seed");
    fs_err::create_dir_all(&work).expect("create seed dir");
    let repo = git2::Repository::init(&work).expect("init seed repo");
    fs_err::write(work.join("config.json"), config_json).expect("write config.json");
    let mut index = repo.index().expect("open index");
    index.add_path(std::path::Path::new("config.json")).expect("stage config.json");
    index.write().expect("write index");
    let tree_id = index.write_tree().expect("write tree");
    let tree = repo.find_tree(tree_id).expect("find tree");
    let sig = git2::Signature::now("tester", "tester@example.com").expect("signature");
    repo.commit(Some("HEAD"), &sig, &sig, "initial", &tree, &[]).expect("initial commit");
    let branch = repo.head().expect("head").name().expect("head name").to_owned();

    let bare = dir.join("remote.git");
    let bare_repo = git2::Repository::init_bare(&bare).expect("init bare remote");
    let url = format!("file://{}", bare.display());
    repo.remote("origin", &url).expect("add origin");
    let mut origin = repo.find_remote("origin").expect("find origin");
    origin.push(&[&format!("{}:{}", branch, branch)], None).expect("seed push");
    bare_repo.set_head(&branch).expect("set remote head");
    url
}

fn versions_of(index: &mut PackageIndex, scope: &str, name: &str) -> Vec<String> {
    let name = PackageName::new(scope, name).expect("identifier should be accepted");
    let md = index.get_package_metadata(&name).expect("package should be readable");
    md.versions.iter().map(|m| m.version().clone()).collect()
}

#[test]
fn scenario_publish_then_read() {
    let tmp = tempfile::tempdir().expect("tempdir");
    let url_text = seed_remote(tmp.path(), "{\"api\":\"https://example.com\"}");
    let url = RegistryUrl::parse(&url_text).expect("url should parse");
    let mut index = PackageIndex::new_temp(&url, None).expect("index should open");
    assert_eq!(index.url().text(), url.text());

    assert_eq!(index.config().expect("config should parse").api, "https://example.com");

    let name = PackageName::new("acme", "foo").expect("identifier");
    let missing = index.get_package_metadata(&name).expect_err("nothing published yet");
    assert!(missing.is_not_found());

    index.publish(&manifest("acme", "foo", "1.0.0")).expect("first publish");
    assert_eq!(versions_of(&mut index, "acme", "foo"), vec!["1.0.0"]);

    // The package is cached now; the second publish must evict that entry so
    // the next read sees both versions, in publish order.
    index.publish(&manifest("acme", "foo", "1.1.0")).expect("second publish");
    assert_eq!(versions_of(&mut index, "acme", "foo"), vec!["1.0.0", "1.1.0"]);
}

#[test]
fn pretty_printed_config_is_read() {
    let tmp = tempfile::tempdir().expect("tempdir");
    let url_text = seed_remote(tmp.path(), "{\n  \"api\": \"https://example.com\"\n}\n");
    let url = RegistryUrl::parse(&url_text).expect("url should parse");
    let index = PackageIndex::new_temp(&url, None).expect("index should open");
    assert_eq!(index.config().expect("config should parse").api, "https://example.com");
}

#[test]
fn update_changes_nothing_without_upstream_changes() {
    let tmp = tempfile::tempdir().expect("tempdir");
    let url_text = seed_remote(tmp.path(), "{\"api\":\"https://example.com\"}");
    let url = RegistryUrl::parse(&url_text).expect("url should parse");
    let mut index = PackageIndex::new_temp(&url, None).expect("index should open");
    index.publish(&manifest("acme", "foo", "1.0.0")).expect("publish");

    index.update().expect("first update");
    index.update().expect("second update");
    assert_eq!(index.config().expect("config").api, "https://example.com");
    assert_eq!(versions_of(&mut index, "acme", "foo"), vec!["1.0.0"]);
}

#[test]
fn publishes_reach_other_mirrors() {
    let tmp = tempfile::tempdir().expect("tempdir");
    let url_text = seed_remote(tmp.path(), "{\"api\":\"https://example.com\"}");
    let url = RegistryUrl::parse(&url_text).expect("url should parse");

    let mut writer = PackageIndex::new_temp(&url, None).expect("writer should open");
    writer.publish(&manifest("acme", "foo", "1.0.0")).expect("publish");

    let mut reader = PackageIndex::new_temp(&url, None).expect("reader should open");
    assert_eq!(versions_of(&mut reader, "acme", "foo"), vec!["1.0.0"]);
}

#[test]
fn distinct_packages_live_apart() {
    let tmp = tempfile::tempdir().expect("tempdir");
    let url_text = seed_remote(tmp.path(), "{\"api\":\"https://example.com\"}");
    let url = RegistryUrl::parse(&url_text).expect("url should parse");
    let mut index = PackageIndex::new_temp(&url, None).expect("index should open");

    index.publish(&manifest("acme", "foo", "1.0.0")).expect("publish foo");
    index.publish(&manifest("acme", "bar", "2.0.0")).expect("publish bar");
    assert_eq!(versions_of(&mut index, "acme", "foo"), vec!["1.0.0"]);
    assert_eq!(versions_of(&mut index, "acme", "bar"), vec!["2.0.0"]);
}

#[test]
fn push_conflicts_are_retried() {
    let tmp = tempfile::tempdir().expect("tempdir");
    let url_text = seed_remote(tmp.path(), "{\"api\":\"https://example.com\"}");
    let url = RegistryUrl::parse(&url_text).expect("url should parse");

    let mut first = PackageIndex::new_temp(&url, None).expect("first should open");
    let mut second = PackageIndex::new_temp(&url, None).expect("second should open");

    // The first publisher moves the remote on; the second's push is then a
    // non-fast-forward and must succeed through the re-fetch-and-rebase
    // retry.
    first.publish(&manifest("acme", "foo", "1.0.0")).expect("first publish");
    second.publish(&manifest("acme", "bar", "2.0.0")).expect("conflicting publish");

    let mut reader = PackageIndex::new_temp(&url, None).expect("reader should open");
    assert_eq!(versions_of(&mut reader, "acme", "foo"), vec!["1.0.0"]);
    assert_eq!(versions_of(&mut reader, "acme", "bar"), vec!["2.0.0"]);
}
