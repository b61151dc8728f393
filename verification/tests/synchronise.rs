use minecraft_download::digest;
use minecraft_download::machine::Synchronizer;
use minecraft_download::model::{
    DownloadInfo, Downloads, Library, LibraryArtifact, LibraryDownloads, Version, VersionInfo,
};
use minecraft_download::protocol::{Action, Event, SyncError};
use std::collections::{BTreeMap, BTreeSet};

fn sha1_hex(data: &[u8]) -> String {
    digest::sha1_hex(data).expect("the content is short enough")
}

/// A directory tree and a remote source held in memory, with a record of
/// what a synchronisation asked of them.
#[derive(Default)]
struct Fake {
    dirs: BTreeSet<Vec<String>>,
    housed: BTreeSet<Vec<String>>,
    files: BTreeMap<Vec<String>, Vec<u8>>,
    descriptor: Option<VersionInfo>,
    contents: BTreeMap<String, Vec<u8>>,
    fetched: Vec<String>,
    written: Vec<Vec<String>>,
    measured: Vec<Vec<String>>,
    digested: Vec<Vec<String>>,
    notices: Vec<String>,
    asked: Vec<Action>,
}

impl Fake {
    fn answer(&mut self, action: Action) -> Event {
        match action {
            Action::DirExists { path } => Event::Exists(self.dirs.contains(&path)),
            Action::CreateDir { path } => {
                self.dirs.insert(path);
                Event::Done
            }
            Action::Report(notice) => {
                self.notices.push(notice.message());
                Event::Done
            }
            Action::FetchDescriptor { .. } => match &self.descriptor {
                Some(info) => Event::Descriptor(info.clone()),
                None => Event::Failed(SyncError::Transport),
            },
            Action::FileExists { path } => Event::Exists(self.files.contains_key(&path)),
            Action::FileLength { path } => {
                self.measured.push(path.clone());
                match self.files.get(&path) {
                    Some(bytes) => Event::Length(bytes.len() as u64),
                    None => Event::Failed(SyncError::Filesystem),
                }
            }
            Action::FileDigest { path } => {
                self.digested.push(path.clone());
                match self.files.get(&path) {
                    Some(bytes) => Event::Digest(sha1_hex(bytes)),
                    None => Event::Failed(SyncError::Filesystem),
                }
            }
            Action::CreateParent { path } => {
                self.housed.insert(path);
                Event::Done
            }
            Action::Fetch { url } => {
                self.fetched.push(url.clone());
                match self.contents.get(&url) {
                    Some(bytes) => Event::Fetched(bytes.clone()),
                    None => Event::Failed(SyncError::Transport),
                }
            }
            Action::Write { path, bytes } => {
                if self.housed.contains(&path) {
                    self.written.push(path.clone());
                    self.files.insert(path, bytes);
                    Event::Done
                } else {
                    Event::Failed(SyncError::Filesystem)
                }
            }
            Action::Finished | Action::Abort(_) => unreachable!(),
        }
    }

    fn synchronise(&mut self, version: &Version) -> Result<(), SyncError> {
        let (mut machine, mut action) = Synchronizer::start(version);
        for _ in 0..10_000 {
            self.asked.push(action.clone());
            match action {
                Action::Finished => return Ok(()),
                Action::Abort(error) => return Err(error),
                other => action = machine.step(self.answer(other)),
            }
        }
        panic!("the synchronisation did not end");
    }
}

fn release() -> Version {
    Version {
        id: "1.20.4".to_string(),
        kind: "release".to_string(),
        url: "https://meta.test/1.20.4.json".to_string(),
        time: "2023-12-07T12:56:20+00:00".to_string(),
        release_time: "2023-12-07T12:56:20+00:00".to_string(),
    }
}

fn url_of(path: &str) -> String {
    format!("https://libraries.test/{}", path)
}

/// A library whose declared size and digest are those of `content`.
fn library_of(name: &str, path: &str, content: &[u8]) -> Library {
    Library {
        name: name.to_string(),
        downloads: LibraryDownloads {
            artifact: LibraryArtifact {
                path: path.to_string(),
                sha1: sha1_hex(content),
                size: content.len() as u64,
                url: url_of(path),
            },
        },
    }
}

fn binary() -> DownloadInfo {
    DownloadInfo {
        sha1: "0000000000000000000000000000000000000000".to_string(),
        size: 1,
        url: "https://binaries.test/x".to_string(),
    }
}

fn descriptor(libraries: Vec<Library>) -> VersionInfo {
    VersionInfo {
        assets: "12".to_string(),
        id: "1.20.4".to_string(),
        downloads: Downloads {
            client: binary(),
            client_mappings: binary(),
            server: binary(),
            server_mappings: binary(),
        },
        libraries,
    }
}

fn target(path: &str) -> Vec<String> {
    vec!["1.20.4".to_string(), "libs".to_string(), path.to_string()]
}

/// A world that publishes the given libraries, each with its content, and
/// holds no directory and no file.
fn world_of(libraries: &[(&str, &str, &[u8])]) -> Fake {
    let mut world = Fake::default();
    let mut list = Vec::new();
    for (name, path, content) in libraries {
        list.push(library_of(name, path, content));
        world.contents.insert(url_of(path), content.to_vec());
    }
    world.descriptor = Some(descriptor(list));
    world
}

#[test]
fn empty_artifact_is_created_and_then_skipped() {
    let mut world = world_of(&[("empty", "empty.bin", b"")]);
    let declared = &world.descriptor.as_ref().unwrap().libraries[0].downloads.artifact;
    assert_eq!(declared.size, 0);
    assert_eq!(declared.sha1, "da39a3ee5e6b4b0d3255bfef95601890afd80709");

    assert_eq!(world.synchronise(&release()), Ok(()));
    assert_eq!(world.files.get(&target("empty.bin")), Some(&vec![]));
    assert_eq!(world.written, vec![target("empty.bin")]);

    assert_eq!(world.synchronise(&release()), Ok(()));
    assert_eq!(world.written, vec![target("empty.bin")]);
    assert_eq!(world.fetched, vec![url_of("empty.bin")]);
    assert_eq!(world.notices.last().map(|s| s.as_str()), Some("Skipping empty"));
}

#[test]
fn file_with_the_right_size_and_the_wrong_digest_is_replaced() {
    let mut world = world_of(&[("a", "a.jar", b"right")]);
    world.files.insert(target("a.jar"), b"wrong".to_vec());

    assert_eq!(world.synchronise(&release()), Ok(()));
    assert_eq!(world.measured, vec![target("a.jar")]);
    assert_eq!(world.digested, vec![target("a.jar")]);
    assert_eq!(world.fetched, vec![url_of("a.jar")]);
    assert_eq!(world.files.get(&target("a.jar")), Some(&b"right".to_vec()));
}

#[test]
fn fresh_file_is_neither_fetched_nor_written() {
    let mut world = world_of(&[("a", "a.jar", b"content of a")]);
    world.files.insert(target("a.jar"), b"content of a".to_vec());

    assert_eq!(world.synchronise(&release()), Ok(()));
    assert!(world.fetched.is_empty());
    assert!(world.written.is_empty());
    assert!(world.housed.is_empty());
    assert_eq!(world.files.get(&target("a.jar")), Some(&b"content of a".to_vec()));
    assert!(!world
        .asked
        .iter()
        .any(|a| matches!(a, Action::Fetch { .. } | Action::Write { .. })));
}

#[test]
fn only_the_stale_files_are_fetched() {
    let mut world = world_of(&[
        ("fresh", "fresh.jar", b"fresh content"),
        ("missing", "missing.jar", b"missing content"),
        ("short", "short.jar", b"the whole content"),
        ("altered", "altered.jar", b"untouched"),
    ]);
    world.files.insert(target("fresh.jar"), b"fresh content".to_vec());
    world.files.insert(target("short.jar"), b"the whole".to_vec());
    world.files.insert(target("altered.jar"), b"unt0uched".to_vec());

    assert_eq!(world.synchronise(&release()), Ok(()));
    assert_eq!(
        world.fetched,
        vec![url_of("missing.jar"), url_of("short.jar"), url_of("altered.jar")]
    );
    assert_eq!(
        world.written,
        vec![target("missing.jar"), target("short.jar"), target("altered.jar")]
    );
}

#[test]
fn every_file_matches_its_requirement_afterwards() {
    let mut world = world_of(&[
        ("fresh", "fresh.jar", b"fresh content"),
        ("missing", "deep/down/missing.jar", b"missing content"),
        ("short", "short.jar", b"the whole content"),
        ("altered", "altered.jar", b"untouched"),
    ]);
    world.files.insert(target("fresh.jar"), b"fresh content".to_vec());
    world.files.insert(target("short.jar"), b"the whole".to_vec());
    world.files.insert(target("altered.jar"), b"unt0uched".to_vec());

    assert_eq!(world.synchronise(&release()), Ok(()));
    let libraries = world.descriptor.clone().unwrap().libraries;
    assert_eq!(libraries.len(), 4);
    for library in libraries {
        let artifact = library.downloads.artifact;
        let bytes = world.files.get(&target(&artifact.path)).expect("the file exists");
        assert_eq!(bytes.len() as u64, artifact.size);
        assert_eq!(sha1_hex(bytes), artifact.sha1);
    }
}

#[test]
fn second_synchronisation_writes_nothing() {
    let mut world = world_of(&[
        ("a", "org/a/1/a-1.jar", b"content of a"),
        ("b", "org/b/2/b-2.jar", b"content of b"),
        ("c", "c.jar", b""),
    ]);
    world.files.insert(target("c.jar"), b"stale".to_vec());

    assert_eq!(world.synchronise(&release()), Ok(()));
    let files = world.files.clone();
    let written = world.written.clone();
    let fetched = world.fetched.clone();
    assert_eq!(written.len(), 3);

    assert_eq!(world.synchronise(&release()), Ok(()));
    assert_eq!(world.files, files);
    assert_eq!(world.written, written);
    assert_eq!(world.fetched, fetched);
}

#[test]
fn length_is_not_asked_of_a_missing_file() {
    let mut world = world_of(&[("a", "a.jar", b"abc")]);
    assert_eq!(world.synchronise(&release()), Ok(()));
    assert!(world.measured.is_empty());
    assert!(world.digested.is_empty());
}

#[test]
fn digest_is_not_asked_of_a_file_of_the_wrong_size() {
    let mut world = world_of(&[("a", "a.jar", b"abc")]);
    world.files.insert(target("a.jar"), b"abcd".to_vec());
    assert_eq!(world.synchronise(&release()), Ok(()));
    assert_eq!(world.measured, vec![target("a.jar")]);
    assert!(world.digested.is_empty());
    assert_eq!(world.files.get(&target("a.jar")), Some(&b"abc".to_vec()));
}

#[test]
fn missing_directories_are_created_before_the_write() {
    let mut world = world_of(&[("deep", "com/example/deep/1.0/deep-1.0.jar", b"deep")]);
    assert!(world.dirs.is_empty());

    assert_eq!(world.synchronise(&release()), Ok(()));
    let file = target("com/example/deep/1.0/deep-1.0.jar");
    assert!(world.dirs.contains(&vec!["1.20.4".to_string()]));
    assert!(world.dirs.contains(&vec!["1.20.4".to_string(), "libs".to_string()]));
    assert!(world.housed.contains(&file));
    assert_eq!(world.files.get(&file), Some(&b"deep".to_vec()));

    let prepared = world
        .asked
        .iter()
        .position(|a| *a == Action::CreateParent { path: file.clone() })
        .expect("the parent was asked for");
    let wrote = world
        .asked
        .iter()
        .position(|a| matches!(a, Action::Write { .. }))
        .expect("the file was written");
    assert!(prepared < wrote);
}

#[test]
fn existing_directories_are_not_created_again() {
    let mut world = world_of(&[]);
    world.dirs.insert(vec!["1.20.4".to_string()]);
    world.dirs.insert(vec!["1.20.4".to_string(), "libs".to_string()]);
    assert_eq!(world.synchronise(&release()), Ok(()));
    assert!(!world.asked.iter().any(|a| matches!(a, Action::CreateDir { .. })));
    assert_eq!(world.asked.len(), 5);
}

#[test]
fn the_operator_is_told_of_every_library() {
    let mut world = world_of(&[("first", "first.jar", b"1"), ("second", "second.jar", b"2")]);
    world.files.insert(target("second.jar"), b"2".to_vec());
    assert_eq!(world.synchronise(&release()), Ok(()));
    assert_eq!(
        world.notices,
        vec![
            "Fetching version info 1.20.4...",
            "Downloading first",
            "Downloading second",
            "Skipping second",
        ]
    );
}

#[test]
fn libraries_are_dealt_with_in_the_order_of_the_descriptor() {
    let mut world = world_of(&[("z", "z.jar", b"z"), ("a", "a.jar", b"a"), ("m", "m.jar", b"m")]);
    assert_eq!(world.synchronise(&release()), Ok(()));
    assert_eq!(world.written, vec![target("z.jar"), target("a.jar"), target("m.jar")]);
}

#[test]
fn of_two_libraries_with_one_path_the_last_write_wins() {
    let mut world = Fake::default();
    let mut first = library_of("first", "shared.jar", b"first content");
    first.downloads.artifact.url = "https://libraries.test/first".to_string();
    let mut second = library_of("second", "shared.jar", b"second content");
    second.downloads.artifact.url = "https://libraries.test/second".to_string();
    world.contents.insert("https://libraries.test/first".to_string(), b"first content".to_vec());
    world
        .contents
        .insert("https://libraries.test/second".to_string(), b"second content".to_vec());
    world.descriptor = Some(descriptor(vec![first, second]));

    assert_eq!(world.synchronise(&release()), Ok(()));
    assert_eq!(world.written, vec![target("shared.jar"), target("shared.jar")]);
    assert_eq!(world.files.get(&target("shared.jar")), Some(&b"second content".to_vec()));
}

#[test]
fn first_failure_ends_the_synchronisation() {
    let mut world = world_of(&[
        ("a", "a.jar", b"a"),
        ("b", "b.jar", b"b"),
        ("c", "c.jar", b"c"),
    ]);
    world.contents.remove(&url_of("b.jar"));

    assert_eq!(world.synchronise(&release()), Err(SyncError::Transport));
    assert_eq!(world.fetched, vec![url_of("a.jar"), url_of("b.jar")]);
    assert_eq!(world.written, vec![target("a.jar")]);
    assert!(!world.files.contains_key(&target("c.jar")));
    assert_eq!(world.asked.last(), Some(&Action::Abort(SyncError::Transport)));
}

#[test]
fn descriptor_that_cannot_be_fetched_ends_the_synchronisation() {
    let mut world = Fake::default();
    assert_eq!(world.synchronise(&release()), Err(SyncError::Transport));
    assert!(world.fetched.is_empty());
    assert!(world.files.is_empty());
    assert_eq!(world.notices, vec!["Fetching version info 1.20.4..."]);
}

#[test]
fn content_that_does_not_match_is_written_and_fetched_again_next_time() {
    let mut world = world_of(&[("a", "a.jar", b"declared")]);
    world.contents.insert(url_of("a.jar"), b"something else".to_vec());

    assert_eq!(world.synchronise(&release()), Ok(()));
    assert_eq!(world.files.get(&target("a.jar")), Some(&b"something else".to_vec()));
    assert_eq!(world.synchronise(&release()), Ok(()));
    assert_eq!(world.fetched, vec![url_of("a.jar"), url_of("a.jar")]);
}

#[test]
fn release_without_libraries_only_sets_up_its_directories() {
    let mut world = world_of(&[]);
    assert_eq!(world.synchronise(&release()), Ok(()));
    assert_eq!(world.dirs.len(), 2);
    assert!(world.files.is_empty());
    assert_eq!(world.notices, vec!["Fetching version info 1.20.4..."]);
}
