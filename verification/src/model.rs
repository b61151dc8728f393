//! The data contracts: the release index, the descriptor of one release and
//! the library artifacts that a release requires.
//!
//! These are plain records. They are produced once, from the documents that
//! the remote source publishes, and are never changed afterwards.

use vstd::prelude::*;

verus! {

/// The ids of the newest stable release and of the newest preview.
#[derive(Debug, Clone, PartialEq, Eq)]
pub struct LatestVersion {
    pub release: String,
    pub snapshot: String,
}

/// One known release, as the release index lists it.
#[derive(Debug, Clone, PartialEq, Eq)]
pub struct Version {
    /// The unique id of the release.
    pub id: String,
    /// The kind of release: stable, preview or historical.
    pub kind: String,
    /// Where the descriptor of the release is published.
    pub url: String,
    pub time: String,
    pub release_time: String,
}

/// The release index: every known release, newest first, and which of them
/// are the latest.
#[derive(Debug, Clone, PartialEq, Eq)]
pub struct VersionManifest {
    pub latest: LatestVersion,
    pub versions: Vec<Version>,
}

/// Where a file can be had, with the size and digest that it must have.
#[derive(Debug, Clone, PartialEq, Eq)]
pub struct DownloadInfo {
    pub sha1: String,
    pub size: u64,
    pub url: String,
}

/// The top-level binaries of a release.
#[derive(Debug, Clone, PartialEq, Eq)]
pub struct Downloads {
    pub client: DownloadInfo,
    pub client_mappings: DownloadInfo,
    pub server: DownloadInfo,
    pub server_mappings: DownloadInfo,
}

/// The descriptor of one release: its id, the asset set it targets, its
/// binaries and the libraries it requires, in the order of the source.
#[derive(Debug, Clone, PartialEq, Eq)]
pub struct VersionInfo {
    pub assets: String,
    pub id: String,
    pub downloads: Downloads,
    pub libraries: Vec<Library>,
}

/// The index of an asset set.
#[derive(Debug, Clone, PartialEq, Eq)]
pub struct AssetIndex {
    pub id: String,
    pub download_info: DownloadInfo,
    pub total_size: u64,
}

/// The files of one library.
#[derive(Debug, Clone, PartialEq, Eq)]
pub struct LibraryDownloads {
    pub artifact: LibraryArtifact,
}

/// A library that a release requires.
#[derive(Debug, Clone, PartialEq, Eq)]
pub struct Library {
    pub name: String,
    pub downloads: LibraryDownloads,
}

/// The artifact of a library: a path below the directory of libraries, which
/// may name nested directories, the size and digest that the file must have,
/// and where its content is published.
#[derive(Debug, Clone, PartialEq, Eq)]
pub struct LibraryArtifact {
    pub path: String,
    /// The SHA-1 digest of the content, in lowercase hexadecimal.
    pub sha1: String,
    pub size: u64,
    pub url: String,
}

/// What synchronisation reads of a required library.
pub struct Requirement {
    pub name: Seq<char>,
    pub path: Seq<char>,
    pub sha1: Seq<char>,
    pub size: u64,
    pub url: Seq<char>,
}

impl View for Library {
    type V = Requirement;

    open spec fn view(&self) -> Requirement {
        Requirement {
            name: self.name@,
            path: self.downloads.artifact.path@,
            sha1: self.downloads.artifact.sha1@,
            size: self.downloads.artifact.size,
            url: self.downloads.artifact.url@,
        }
    }
}

/// The requirements that a list of libraries stands for, in the same order.
pub open spec fn requirements(libraries: Seq<Library>) -> Seq<Requirement> {
    Seq::new(libraries.len(), |i: int| libraries[i]@)
}

impl VersionManifest {
    /// The release that the index lists first, which is the newest one;
    /// `None` where the index lists no release.
    pub fn newest(&self) -> (found: Option<&Version>)
        ensures
            self.versions@.len() == 0 ==> found is None,
            self.versions@.len() > 0 ==> found == Some(&self.versions@[0]),
    {
        if self.versions.len() == 0 {
            None
        } else {
            Some(&self.versions[0])
        }
    }
}

} // verus!
