use minecraft_download::model::{LatestVersion, Version, VersionManifest};

fn version(id: &str) -> Version {
    Version {
        id: id.to_string(),
        kind: "release".to_string(),
        url: format!("https://example.test/{}.json", id),
        time: "2024-01-01T00:00:00+00:00".to_string(),
        release_time: "2024-01-01T00:00:00+00:00".to_string(),
    }
}

fn manifest(ids: &[&str]) -> VersionManifest {
    VersionManifest {
        latest: LatestVersion {
            release: "1.20.4".to_string(),
            snapshot: "24w03a".to_string(),
        },
        versions: ids.iter().map(|id| version(id)).collect(),
    }
}

#[test]
fn newest_is_the_first_release_listed() {
    let index = manifest(&["24w03a", "1.20.4", "1.20.3"]);
    assert_eq!(index.newest(), Some(&version("24w03a")));
}

#[test]
fn newest_of_a_single_release() {
    let index = manifest(&["1.0"]);
    assert_eq!(index.newest().map(|v| v.id.as_str()), Some("1.0"));
}

#[test]
fn newest_of_an_empty_index_is_none() {
    let index = manifest(&[]);
    assert_eq!(index.newest(), None);
}

#[test]
fn newest_does_not_follow_the_latest_ids() {
    let index = manifest(&["1.20.3", "1.20.4"]);
    assert_eq!(index.latest.release, "1.20.4");
    assert_eq!(index.newest().map(|v| v.id.as_str()), Some("1.20.3"));
}
