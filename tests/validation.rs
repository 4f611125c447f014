use mcmeta::model::{
    find_invalid_url, find_manifest_problem, find_release, find_version_problem, is_release_url,
    starts_with, LatestVersions, VersionDocument, VersionManifest, VersionSummary,
};
use mcmeta::{default_download_url, manifest_url, Channel, Problem};

fn summary(id: &str, url: &str) -> VersionSummary {
    VersionSummary {
        id: id.to_string(),
        kind: "release".to_string(),
        url: url.to_string(),
        time: "2021-01-14T16:05:32+00:00".to_string(),
        release_time: "2021-01-14T16:05:32+00:00".to_string(),
    }
}

fn manifest(release: Option<&str>, snapshot: Option<&str>, versions: Vec<VersionSummary>) -> VersionManifest {
    VersionManifest {
        latest: LatestVersions {
            release: release.map(|s| s.to_string()),
            snapshot: snapshot.map(|s| s.to_string()),
        },
        versions,
    }
}

fn two_releases() -> Vec<VersionSummary> {
    vec![
        summary("21w03a", "https://piston-meta.mojang.com/v1/packages/aa/21w03a.json"),
        summary("1.16.5", "https://piston-meta.mojang.com/v1/packages/bb/1.16.5.json"),
    ]
}

fn document(id: &str, main_class: &str) -> VersionDocument {
    VersionDocument {
        id: id.to_string(),
        kind: "release".to_string(),
        main_class: main_class.to_string(),
        time: "2021-01-14T16:05:32+00:00".to_string(),
        release_time: "2021-01-14T16:05:32+00:00".to_string(),
    }
}

#[test]
fn default_url_is_publisher_endpoint() {
    assert_eq!(
        default_download_url(),
        "https://piston-meta.mojang.com/mc/game/version_manifest_v2.json"
    );
}

#[test]
fn configured_url_overrides_default() {
    assert_eq!(manifest_url(Some("http://localhost:8080/m.json".to_string())), "http://localhost:8080/m.json");
    assert_eq!(manifest_url(None), default_download_url());
}

#[test]
fn prefix_check() {
    assert!(starts_with("https://x", "https://"));
    assert!(starts_with("abc", ""));
    assert!(!starts_with("http", "https"));
    assert!(!starts_with("ftp://x", "http"));
}

#[test]
fn http_urls() {
    assert!(is_release_url("https://a"));
    assert!(is_release_url("http://a"));
    assert!(!is_release_url("https://"));
    assert!(!is_release_url("http://"));
    assert!(!is_release_url("ftp://a"));
    assert!(!is_release_url("/relative/path.json"));
    assert!(!is_release_url(""));
}

#[test]
fn release_lookup() {
    let vs = two_releases();
    assert!(find_release(&vs, &"1.16.5".to_string()));
    assert!(find_release(&vs, &"21w03a".to_string()));
    assert!(!find_release(&vs, &"1.16".to_string()));
    assert!(!find_release(&Vec::new(), &"1.16.5".to_string()));
}

#[test]
fn first_invalid_release_url() {
    let mut vs = two_releases();
    assert_eq!(find_invalid_url(&vs), None);
    vs.push(summary("b1", "not a url"));
    vs.push(summary("b2", "also not"));
    assert_eq!(find_invalid_url(&vs), Some(2));
}

#[test]
fn valid_manifest_has_no_problem() {
    let m = manifest(Some("1.16.5"), Some("21w03a"), two_releases());
    assert_eq!(find_manifest_problem(&m), None);
}

#[test]
fn manifest_missing_latest_release() {
    let m = manifest(None, Some("21w03a"), two_releases());
    assert_eq!(find_manifest_problem(&m), Some(Problem::MissingLatest(Channel::Release)));
    let m = manifest(Some("1.16.5"), None, two_releases());
    assert_eq!(find_manifest_problem(&m), Some(Problem::MissingLatest(Channel::Snapshot)));
}

#[test]
fn manifest_unknown_latest() {
    let m = manifest(Some("1.17"), Some("21w03a"), two_releases());
    assert_eq!(find_manifest_problem(&m), Some(Problem::UnknownLatest(Channel::Release)));
    let m = manifest(Some("1.16.5"), Some("21w99a"), two_releases());
    assert_eq!(find_manifest_problem(&m), Some(Problem::UnknownLatest(Channel::Snapshot)));
    let m = manifest(Some("1.16.5"), Some("1.16.5"), Vec::new());
    assert_eq!(find_manifest_problem(&m), Some(Problem::UnknownLatest(Channel::Release)));
}

#[test]
fn manifest_bad_release_url() {
    let mut vs = two_releases();
    vs.insert(1, summary("1.16.4", ""));
    let m = manifest(Some("1.16.5"), Some("21w03a"), vs);
    assert_eq!(find_manifest_problem(&m), Some(Problem::InvalidReleaseUrl(1)));
}

#[test]
fn version_document_problems() {
    assert_eq!(find_version_problem(&document("1.16.5", "net.minecraft.client.main.Main")), None);
    assert_eq!(find_version_problem(&document("", "net.minecraft.client.main.Main")), Some(Problem::MissingId));
    assert_eq!(find_version_problem(&document("1.16.5", "")), Some(Problem::MissingMainClass));
    assert_eq!(find_version_problem(&document("", "")), Some(Problem::MissingId));
}
