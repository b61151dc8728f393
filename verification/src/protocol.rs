//! What passes between the synchroniser and the code that drives it.
//!
//! The synchroniser does no input or output itself. It hands its driver one
//! [`Action`] at a time; the driver carries the action out and reports what
//! came of it as an [`Event`].

use crate::model::{requirements, Requirement, VersionInfo};
use vstd::prelude::*;

verus! {

/// Why a synchronisation was given up.
#[derive(Debug, Clone, Copy, PartialEq, Eq, Structural)]
pub enum SyncError {
    /// A request failed on the network or was answered with a failure.
    Transport,
    /// A response did not have the expected shape.
    Decode,
    /// A directory or a file could not be created, read or written.
    Filesystem,
    /// The driver reported an event that the pending action cannot end in.
    Unexpected,
}

/// A line of progress for the operator.
#[derive(Debug, Clone, PartialEq, Eq)]
pub enum Notice {
    /// The descriptor of the release with this id is about to be fetched.
    FetchingVersionInfo(String),
    /// The library with this name is about to be examined.
    Downloading(String),
    /// The library with this name is up to date and is left as it is.
    Skipping(String),
}

/// A [`Notice`] as contracts speak of it.
pub enum NoticeView {
    FetchingVersionInfo(Seq<char>),
    Downloading(Seq<char>),
    Skipping(Seq<char>),
}

impl NoticeView {
    /// The text of the line.
    pub open spec fn message(self) -> Seq<char> {
        match self {
            NoticeView::FetchingVersionInfo(id) => "Fetching version info "@ + id + "..."@,
            NoticeView::Downloading(name) => "Downloading "@ + name,
            NoticeView::Skipping(name) => "Skipping "@ + name,
        }
    }
}

impl View for Notice {
    type V = NoticeView;

    open spec fn view(&self) -> NoticeView {
        match self {
            Notice::FetchingVersionInfo(id) => NoticeView::FetchingVersionInfo(id@),
            Notice::Downloading(name) => NoticeView::Downloading(name@),
            Notice::Skipping(name) => NoticeView::Skipping(name@),
        }
    }
}

impl Notice {
    /// The text of the line, as it is shown to the operator.
    pub fn message(&self) -> (text: String)
        ensures
            text@ == self@.message(),
    {
        match self {
            Notice::FetchingVersionInfo(id) => {
                let mut text = String::from_str("Fetching version info ");
                text.append(id.as_str());
                text.append("...");
                text
            },
            Notice::Downloading(name) => {
                let mut text = String::from_str("Downloading ");
                text.append(name.as_str());
                text
            },
            Notice::Skipping(name) => {
                let mut text = String::from_str("Skipping ");
                text.append(name.as_str());
                text
            },
        }
    }
}

/// What the driver reports once it has carried out an action.
#[derive(Debug, Clone, PartialEq, Eq)]
pub enum Event {
    /// Whether the directory or file asked about exists.
    Exists(bool),
    /// The action was carried out and has nothing to report.
    Done,
    /// The descriptor that was fetched.
    Descriptor(VersionInfo),
    /// The length in bytes of the file asked about.
    Length(u64),
    /// The digest of the file asked about, in lowercase hexadecimal.
    Digest(String),
    /// The content that was fetched.
    Fetched(Vec<u8>),
    /// The action failed.
    Failed(SyncError),
}

/// An [`Event`] as contracts speak of it. Of a descriptor, only the
/// requirements count.
pub enum EventView {
    Exists(bool),
    Done,
    Descriptor(Seq<Requirement>),
    Length(u64),
    Digest(Seq<char>),
    Fetched(Seq<u8>),
    Failed(SyncError),
}

impl View for Event {
    type V = EventView;

    open spec fn view(&self) -> EventView {
        match self {
            Event::Exists(found) => EventView::Exists(*found),
            Event::Done => EventView::Done,
            Event::Descriptor(info) => EventView::Descriptor(requirements(info.libraries@)),
            Event::Length(length) => EventView::Length(*length),
            Event::Digest(text) => EventView::Digest(text@),
            Event::Fetched(bytes) => EventView::Fetched(bytes@),
            Event::Failed(error) => EventView::Failed(*error),
        }
    }
}

/// What the driver is asked to do next. A path is a list of segments, to be
/// joined in order below the root directory of the synchronisation.
#[derive(Debug, Clone, PartialEq, Eq)]
pub enum Action {
    /// Report whether this directory exists.
    DirExists { path: Vec<String> },
    /// Create this directory and every missing directory above it.
    CreateDir { path: Vec<String> },
    /// Show this line to the operator.
    Report(Notice),
    /// Fetch the release descriptor published at this address and decode it.
    FetchDescriptor { url: String },
    /// Report whether this file exists.
    FileExists { path: Vec<String> },
    /// Report the length of this file.
    FileLength { path: Vec<String> },
    /// Report the digest of the content of this file.
    FileDigest { path: Vec<String> },
    /// Create the directory that is to contain this file, and every missing
    /// directory above it.
    CreateParent { path: Vec<String> },
    /// Fetch the whole content published at this address.
    Fetch { url: String },
    /// Make these bytes the whole content of this file, replacing what it
    /// held.
    Write { path: Vec<String>, bytes: Vec<u8> },
    /// Nothing is left to do: the synchronisation has succeeded.
    Finished,
    /// Nothing more will be done: the synchronisation has failed.
    Abort(SyncError),
}

/// An [`Action`] as contracts speak of it.
pub enum ActionView {
    DirExists { path: Seq<Seq<char>> },
    CreateDir { path: Seq<Seq<char>> },
    Report(NoticeView),
    FetchDescriptor { url: Seq<char> },
    FileExists { path: Seq<Seq<char>> },
    FileLength { path: Seq<Seq<char>> },
    FileDigest { path: Seq<Seq<char>> },
    CreateParent { path: Seq<Seq<char>> },
    Fetch { url: Seq<char> },
    Write { path: Seq<Seq<char>>, bytes: Seq<u8> },
    Finished,
    Abort(SyncError),
}

impl View for Action {
    type V = ActionView;

    open spec fn view(&self) -> ActionView {
        match self {
            Action::DirExists { path } => ActionView::DirExists { path: path.deep_view() },
            Action::CreateDir { path } => ActionView::CreateDir { path: path.deep_view() },
            Action::Report(notice) => ActionView::Report(notice@),
            Action::FetchDescriptor { url } => ActionView::FetchDescriptor { url: url@ },
            Action::FileExists { path } => ActionView::FileExists { path: path.deep_view() },
            Action::FileLength { path } => ActionView::FileLength { path: path.deep_view() },
            Action::FileDigest { path } => ActionView::FileDigest { path: path.deep_view() },
            Action::CreateParent { path } => ActionView::CreateParent { path: path.deep_view() },
            Action::Fetch { url } => ActionView::Fetch { url: url@ },
            Action::Write { path, bytes } => ActionView::Write {
                path: path.deep_view(),
                bytes: bytes@,
            },
            Action::Finished => ActionView::Finished,
            Action::Abort(error) => ActionView::Abort(*error),
        }
    }
}

} // verus!
