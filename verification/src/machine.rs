//! The synchroniser: the decisions that bring a directory tree into agreement
//! with the libraries that a release requires.
//!
//! A synchronisation is a conversation. The [`Synchronizer`] asks for one
//! thing at a time (see [`Action`]), and what it asks next depends on what
//! it is told (see [`Event`]). For each library it asks, cheapest question
//! first, whether the file exists, whether it has the declared length and
//! whether it has the declared digest; the first answer that shows the file
//! to be stale ends the questions and starts the download. Any failure ends
//! the whole synchronisation at once.

use crate::model::{requirements, Library, Requirement, Version};
use crate::protocol::{Action, ActionView, Event, EventView, Notice, NoticeView, SyncError};
use vstd::prelude::*;

verus! {

/// Where a synchronisation stands: what it has asked for and is waiting on.
#[derive(Debug, Clone, Copy, PartialEq, Eq, Structural)]
pub enum Phase {
    /// Asked whether the directory of the release exists.
    ProbingVersionDir,
    /// Asked for the directory of the release to be created.
    CreatingVersionDir,
    /// Asked whether the directory of libraries exists.
    ProbingLibsDir,
    /// Asked for the directory of libraries to be created.
    CreatingLibsDir,
    /// Asked for the operator to be told that the descriptor is fetched.
    AnnouncingDescriptor,
    /// Asked for the descriptor of the release.
    FetchingDescriptor,
    /// Asked for the operator to be told which library is examined.
    AnnouncingLibrary,
    /// Asked whether the file of the library exists.
    ProbingFile,
    /// Asked for the length of the file.
    MeasuringFile,
    /// Asked for the digest of the file.
    DigestingFile,
    /// Asked for the operator to be told that the library is up to date.
    AnnouncingSkip,
    /// Asked for the directory that is to contain the file.
    PreparingParent,
    /// Asked for the content of the library.
    FetchingArtifact,
    /// Asked for the content to be written to the file.
    WritingArtifact,
    /// Every library has been dealt with.
    Finished,
    /// The synchronisation was given up for this reason.
    Failed(SyncError),
}

impl Phase {
    /// Whether the synchronisation has ended, in success or in failure.
    pub open spec fn is_over(self) -> bool {
        self is Finished || self is Failed
    }

    /// Whether the phase is one of those that deal with a single library.
    pub open spec fn at_library(self) -> bool {
        self is AnnouncingLibrary || self is ProbingFile || self is MeasuringFile
            || self is DigestingFile || self is AnnouncingSkip || self is PreparingParent
            || self is FetchingArtifact || self is WritingArtifact
    }
}

/// The directory of the release with this id.
pub open spec fn version_dir(id: Seq<char>) -> Seq<Seq<char>> {
    seq![id]
}

/// The directory that holds the libraries of the release with this id.
pub open spec fn libs_dir(id: Seq<char>) -> Seq<Seq<char>> {
    seq![id, "libs"@]
}

/// The file of the library with this path, for the release with this id.
pub open spec fn destination(id: Seq<char>, path: Seq<char>) -> Seq<Seq<char>> {
    seq![id, "libs"@, path]
}

/// A synchronisation as contracts speak of it.
pub struct SyncModel {
    /// The id of the release.
    pub id: Seq<char>,
    /// Where the descriptor of the release is published.
    pub url: Seq<char>,
    /// The requirements of the release; empty until the descriptor is known.
    pub libraries: Seq<Requirement>,
    /// How many of the requirements have been dealt with.
    pub index: nat,
    pub phase: Phase,
    /// The content that is waiting to be written; empty in every phase but
    /// [`Phase::WritingArtifact`].
    pub payload: Seq<u8>,
}

impl SyncModel {
    /// What holds of every synchronisation: a phase that deals with a
    /// library has a library to deal with, and content waits to be written
    /// only while a write is pending.
    pub open spec fn wf(self) -> bool {
        &&& self.index <= self.libraries.len()
        &&& self.phase.at_library() ==> self.index < self.libraries.len()
        &&& self.phase is WritingArtifact || self.payload == Seq::<u8>::empty()
    }

    /// The requirement that is being dealt with.
    pub open spec fn current(self) -> Requirement {
        self.libraries[self.index as int]
    }

    /// The file of the requirement that is being dealt with.
    pub open spec fn target(self) -> Seq<Seq<char>> {
        destination(self.id, self.current().path)
    }

    /// The same synchronisation in another phase, with nothing waiting to be
    /// written.
    pub open spec fn at(self, phase: Phase) -> SyncModel {
        SyncModel { phase, payload: Seq::empty(), ..self }
    }

    /// The synchronisation as it turns to requirement number `index`: it
    /// announces that requirement, or is finished where there is none.
    pub open spec fn enter(self, index: nat) -> SyncModel {
        if index < self.libraries.len() {
            SyncModel { index, ..self.at(Phase::AnnouncingLibrary) }
        } else {
            SyncModel { index: self.libraries.len(), ..self.at(Phase::Finished) }
        }
    }
}

/// The synchronisation of a release before anything has been reported.
pub open spec fn initial(id: Seq<char>, url: Seq<char>) -> SyncModel {
    SyncModel {
        id,
        url,
        libraries: Seq::empty(),
        index: 0,
        phase: Phase::ProbingVersionDir,
        payload: Seq::empty(),
    }
}

/// What a synchronisation is waiting on: the action that its driver is to
/// carry out.
pub open spec fn pending(m: SyncModel) -> ActionView {
    match m.phase {
        Phase::ProbingVersionDir => ActionView::DirExists { path: version_dir(m.id) },
        Phase::CreatingVersionDir => ActionView::CreateDir { path: version_dir(m.id) },
        Phase::ProbingLibsDir => ActionView::DirExists { path: libs_dir(m.id) },
        Phase::CreatingLibsDir => ActionView::CreateDir { path: libs_dir(m.id) },
        Phase::AnnouncingDescriptor => ActionView::Report(NoticeView::FetchingVersionInfo(m.id)),
        Phase::FetchingDescriptor => ActionView::FetchDescriptor { url: m.url },
        Phase::AnnouncingLibrary => ActionView::Report(NoticeView::Downloading(m.current().name)),
        Phase::ProbingFile => ActionView::FileExists { path: m.target() },
        Phase::MeasuringFile => ActionView::FileLength { path: m.target() },
        Phase::DigestingFile => ActionView::FileDigest { path: m.target() },
        Phase::AnnouncingSkip => ActionView::Report(NoticeView::Skipping(m.current().name)),
        Phase::PreparingParent => ActionView::CreateParent { path: m.target() },
        Phase::FetchingArtifact => ActionView::Fetch { url: m.current().url },
        Phase::WritingArtifact => ActionView::Write { path: m.target(), bytes: m.payload },
        Phase::Finished => ActionView::Finished,
        Phase::Failed(error) => ActionView::Abort(error),
    }
}

/// The synchronisation after its driver has reported `e` for the pending
/// action.
///
/// A synchronisation that has ended stays as it is. Otherwise a failure ends
/// it with the error reported, and an event that the pending action cannot
/// end in ends it with [`SyncError::Unexpected`]. A file is fetched unless
/// it exists, has the declared length and has the declared digest; its
/// length is asked for only once it is known to exist, and its digest only
/// once its length is known to be right.
pub open spec fn advance(m: SyncModel, e: EventView) -> SyncModel {
    let astray = m.at(Phase::Failed(SyncError::Unexpected));
    if m.phase.is_over() {
        m
    } else if e is Failed {
        m.at(Phase::Failed(e->Failed_0))
    } else {
        match m.phase {
            Phase::ProbingVersionDir => match e {
                EventView::Exists(true) => m.at(Phase::ProbingLibsDir),
                EventView::Exists(false) => m.at(Phase::CreatingVersionDir),
                _ => astray,
            },
            Phase::CreatingVersionDir => match e {
                EventView::Done => m.at(Phase::ProbingLibsDir),
                _ => astray,
            },
            Phase::ProbingLibsDir => match e {
                EventView::Exists(true) => m.at(Phase::AnnouncingDescriptor),
                EventView::Exists(false) => m.at(Phase::CreatingLibsDir),
                _ => astray,
            },
            Phase::CreatingLibsDir => match e {
                EventView::Done => m.at(Phase::AnnouncingDescriptor),
                _ => astray,
            },
            Phase::AnnouncingDescriptor => match e {
                EventView::Done => m.at(Phase::FetchingDescriptor),
                _ => astray,
            },
            Phase::FetchingDescriptor => match e {
                EventView::Descriptor(libraries) => SyncModel { libraries, ..m }.enter(0),
                _ => astray,
            },
            Phase::AnnouncingLibrary => match e {
                EventView::Done => m.at(Phase::ProbingFile),
                _ => astray,
            },
            Phase::ProbingFile => match e {
                EventView::Exists(true) => m.at(Phase::MeasuringFile),
                EventView::Exists(false) => m.at(Phase::PreparingParent),
                _ => astray,
            },
            Phase::MeasuringFile => match e {
                EventView::Length(length) => if length == m.current().size {
                    m.at(Phase::DigestingFile)
                } else {
                    m.at(Phase::PreparingParent)
                },
                _ => astray,
            },
            Phase::DigestingFile => match e {
                EventView::Digest(text) => if text == m.current().sha1 {
                    m.at(Phase::AnnouncingSkip)
                } else {
                    m.at(Phase::PreparingParent)
                },
                _ => astray,
            },
            Phase::AnnouncingSkip => match e {
                EventView::Done => m.enter(m.index + 1),
                _ => astray,
            },
            Phase::PreparingParent => match e {
                EventView::Done => m.at(Phase::FetchingArtifact),
                _ => astray,
            },
            Phase::FetchingArtifact => match e {
                EventView::Fetched(bytes) => SyncModel {
                    payload: bytes,
                    ..m.at(Phase::WritingArtifact)
                },
                _ => astray,
            },
            Phase::WritingArtifact => match e {
                EventView::Done => m.enter(m.index + 1),
                _ => astray,
            },
            Phase::Finished => m,
            Phase::Failed(_) => m,
        }
    }
}

/// The synchronisation of one release.
pub struct Synchronizer {
    id: String,
    url: String,
    libraries: Vec<Library>,
    index: usize,
    phase: Phase,
    payload: Ghost<Seq<u8>>,
}

impl View for Synchronizer {
    type V = SyncModel;

    closed spec fn view(&self) -> SyncModel {
        SyncModel {
            id: self.id@,
            url: self.url@,
            libraries: requirements(self.libraries@),
            index: self.index as nat,
            phase: self.phase,
            payload: self.payload@,
        }
    }
}

/// The segments of [`version_dir`].
fn version_dir_path(id: &String) -> (path: Vec<String>)
    ensures
        path.deep_view() == version_dir(id@),
{
    let mut path: Vec<String> = Vec::new();
    path.push(id.clone());
    assert(path.deep_view() =~= version_dir(id@));
    path
}

/// The segments of [`libs_dir`].
fn libs_dir_path(id: &String) -> (path: Vec<String>)
    ensures
        path.deep_view() == libs_dir(id@),
{
    let mut path: Vec<String> = Vec::new();
    path.push(id.clone());
    path.push(String::from_str("libs"));
    assert(path.deep_view() =~= libs_dir(id@));
    path
}

/// The segments of [`destination`].
fn destination_path(id: &String, file: &String) -> (path: Vec<String>)
    ensures
        path.deep_view() == destination(id@, file@),
{
    let mut path: Vec<String> = Vec::new();
    path.push(id.clone());
    path.push(String::from_str("libs"));
    path.push(file.clone());
    assert(path.deep_view() =~= destination(id@, file@));
    path
}

impl Synchronizer {
    /// Every synchronisation is well formed, at all times.
    #[verifier::type_invariant]
    spec fn well_formed(&self) -> bool {
        self@.wf()
    }

    /// Begins the synchronisation of a release, and gives the first action
    /// for the driver to carry out.
    pub fn start(version: &Version) -> (begun: (Synchronizer, Action))
        ensures
            begun.0@ == initial(version.id@, version.url@),
            begun.1@ == pending(begun.0@),
    {
        let machine = Synchronizer {
            id: version.id.clone(),
            url: version.url.clone(),
            libraries: Vec::new(),
            index: 0,
            phase: Phase::ProbingVersionDir,
            payload: Ghost(Seq::empty()),
        };
        assert(machine@.libraries =~= Seq::empty());
        let action = Action::DirExists { path: version_dir_path(&version.id) };
        (machine, action)
    }

    /// The phase that the synchronisation is in.
    pub fn phase(&self) -> (phase: Phase)
        ensures
            phase == self@.phase,
    {
        self.phase
    }

    /// How the synchronisation has ended: `None` while it has not, then
    /// `Ok` once every library has been dealt with, or the error for which
    /// it was given up.
    pub fn outcome(&self) -> (ended: Option<Result<(), SyncError>>)
        ensures
            ended is None <==> !self@.phase.is_over(),
            self@.phase is Finished ==> ended == Some(Ok::<(), SyncError>(())),
            self@.phase is Failed ==> ended == Some(
                Err::<(), SyncError>(self@.phase->Failed_0),
            ),
    {
        match self.phase {
            Phase::Finished => Some(Ok(())),
            Phase::Failed(error) => Some(Err(error)),
            _ => None,
        }
    }

    /// The action for the phase that the synchronisation is in. The content
    /// that a write carries is handed in, as the synchroniser keeps none.
    fn request(&self, bytes: Vec<u8>) -> (action: Action)
        requires
            self@.phase is WritingArtifact ==> bytes@ == self@.payload,
        ensures
            action@ == pending(self@),
    {
        proof {
            use_type_invariant(self);
        }
        match self.phase {
            Phase::ProbingVersionDir => Action::DirExists { path: version_dir_path(&self.id) },
            Phase::CreatingVersionDir => Action::CreateDir { path: version_dir_path(&self.id) },
            Phase::ProbingLibsDir => Action::DirExists { path: libs_dir_path(&self.id) },
            Phase::CreatingLibsDir => Action::CreateDir { path: libs_dir_path(&self.id) },
            Phase::AnnouncingDescriptor => Action::Report(
                Notice::FetchingVersionInfo(self.id.clone()),
            ),
            Phase::FetchingDescriptor => Action::FetchDescriptor { url: self.url.clone() },
            Phase::AnnouncingLibrary => Action::Report(
                Notice::Downloading(self.libraries[self.index].name.clone()),
            ),
            Phase::ProbingFile => Action::FileExists {
                path: destination_path(&self.id, &self.libraries[self.index].downloads.artifact.path),
            },
            Phase::MeasuringFile => Action::FileLength {
                path: destination_path(&self.id, &self.libraries[self.index].downloads.artifact.path),
            },
            Phase::DigestingFile => Action::FileDigest {
                path: destination_path(&self.id, &self.libraries[self.index].downloads.artifact.path),
            },
            Phase::AnnouncingSkip => Action::Report(
                Notice::Skipping(self.libraries[self.index].name.clone()),
            ),
            Phase::PreparingParent => Action::CreateParent {
                path: destination_path(&self.id, &self.libraries[self.index].downloads.artifact.path),
            },
            Phase::FetchingArtifact => Action::Fetch {
                url: self.libraries[self.index].downloads.artifact.url.clone(),
            },
            Phase::WritingArtifact => Action::Write {
                path: destination_path(&self.id, &self.libraries[self.index].downloads.artifact.path),
                bytes,
            },
            Phase::Finished => Action::Finished,
            Phase::Failed(error) => Action::Abort(error),
        }
    }

    /// Moves on to the phase `phase`, with nothing waiting to be written.
    fn turn_to(&mut self, phase: Phase)
        requires
            old(self)@.at(phase).wf(),
        ensures
            final(self)@ == old(self)@.at(phase),
    {
        proof {
            use_type_invariant(&*self);
        }
        self.payload = Ghost(Seq::empty());
        self.phase = phase;
    }

    /// Moves on to the next library, or ends where none is left.
    fn turn_to_next(&mut self)
        requires
            old(self)@.phase.at_library(),
        ensures
            final(self)@ == old(self)@.enter(old(self)@.index + 1),
    {
        proof {
            use_type_invariant(&*self);
            assert(self.index < self.libraries.len());
        }
        self.payload = Ghost(Seq::empty());
        if self.index + 1 < self.libraries.len() {
            self.index = self.index + 1;
            self.phase = Phase::AnnouncingLibrary;
        } else {
            self.phase = Phase::Finished;
            self.index = self.libraries.len();
        }
    }

    /// Takes in what the driver reports for the pending action, and gives
    /// the next action for it to carry out.
    pub fn step(&mut self, event: Event) -> (action: Action)
        ensures
            final(self)@ == advance(old(self)@, event@),
            action@ == pending(final(self)@),
            final(self)@.wf(),
    {
        proof {
            use_type_invariant(&*self);
        }
        let mut bytes: Vec<u8> = Vec::new();
        let astray = Phase::Failed(SyncError::Unexpected);
        match self.phase {
            Phase::Finished => {},
            Phase::Failed(_) => {},
            Phase::ProbingVersionDir => match event {
                Event::Failed(error) => self.turn_to(Phase::Failed(error)),
                Event::Exists(true) => self.turn_to(Phase::ProbingLibsDir),
                Event::Exists(false) => self.turn_to(Phase::CreatingVersionDir),
                _ => self.turn_to(astray),
            },
            Phase::CreatingVersionDir => match event {
                Event::Failed(error) => self.turn_to(Phase::Failed(error)),
                Event::Done => self.turn_to(Phase::ProbingLibsDir),
                _ => self.turn_to(astray),
            },
            Phase::ProbingLibsDir => match event {
                Event::Failed(error) => self.turn_to(Phase::Failed(error)),
                Event::Exists(true) => self.turn_to(Phase::AnnouncingDescriptor),
                Event::Exists(false) => self.turn_to(Phase::CreatingLibsDir),
                _ => self.turn_to(astray),
            },
            Phase::CreatingLibsDir => match event {
                Event::Failed(error) => self.turn_to(Phase::Failed(error)),
                Event::Done => self.turn_to(Phase::AnnouncingDescriptor),
                _ => self.turn_to(astray),
            },
            Phase::AnnouncingDescriptor => match event {
                Event::Failed(error) => self.turn_to(Phase::Failed(error)),
                Event::Done => self.turn_to(Phase::FetchingDescriptor),
                _ => self.turn_to(astray),
            },
            Phase::FetchingDescriptor => match event {
                Event::Failed(error) => self.turn_to(Phase::Failed(error)),
                Event::Descriptor(info) => {
                    self.index = 0;
                    self.libraries = info.libraries;
                    if self.libraries.len() > 0 {
                        self.turn_to(Phase::AnnouncingLibrary);
                    } else {
                        self.turn_to(Phase::Finished);
                    }
                },
                _ => self.turn_to(astray),
            },
            Phase::AnnouncingLibrary => match event {
                Event::Failed(error) => self.turn_to(Phase::Failed(error)),
                Event::Done => self.turn_to(Phase::ProbingFile),
                _ => self.turn_to(astray),
            },
            Phase::ProbingFile => match event {
                Event::Failed(error) => self.turn_to(Phase::Failed(error)),
                Event::Exists(true) => self.turn_to(Phase::MeasuringFile),
                Event::Exists(false) => self.turn_to(Phase::PreparingParent),
                _ => self.turn_to(astray),
            },
            Phase::MeasuringFile => match event {
                Event::Failed(error) => self.turn_to(Phase::Failed(error)),
                Event::Length(length) => {
                    if length == self.libraries[self.index].downloads.artifact.size {
                        self.turn_to(Phase::DigestingFile);
                    } else {
                        self.turn_to(Phase::PreparingParent);
                    }
                },
                _ => self.turn_to(astray),
            },
            Phase::DigestingFile => match event {
                Event::Failed(error) => self.turn_to(Phase::Failed(error)),
                Event::Digest(text) => {
                    if text == self.libraries[self.index].downloads.artifact.sha1 {
                        self.turn_to(Phase::AnnouncingSkip);
                    } else {
                        self.turn_to(Phase::PreparingParent);
                    }
                },
                _ => self.turn_to(astray),
            },
            Phase::AnnouncingSkip => match event {
                Event::Failed(error) => self.turn_to(Phase::Failed(error)),
                Event::Done => self.turn_to_next(),
                _ => self.turn_to(astray),
            },
            Phase::PreparingParent => match event {
                Event::Failed(error) => self.turn_to(Phase::Failed(error)),
                Event::Done => self.turn_to(Phase::FetchingArtifact),
                _ => self.turn_to(astray),
            },
            Phase::FetchingArtifact => match event {
                Event::Failed(error) => self.turn_to(Phase::Failed(error)),
                Event::Fetched(content) => {
                    self.phase = Phase::WritingArtifact;
                    self.payload = Ghost(content@);
                    bytes = content;
                },
                _ => self.turn_to(astray),
            },
            Phase::WritingArtifact => match event {
                Event::Failed(error) => self.turn_to(Phase::Failed(error)),
                Event::Done => self.turn_to_next(),
                _ => self.turn_to(astray),
            },
        }
        proof {
            use_type_invariant(&*self);
        }
        self.request(bytes)
    }
}

} // verus!
