//! What a synchronisation does to the world, when its driver carries out
//! every action faithfully.
//!
//! The [`World`] holds the directory tree and what the remote source
//! publishes. [`respond`] says how such a world answers an action, and
//! [`run`] lets a synchronisation and a world take turns. What a
//! synchronisation guarantees is stated and proved of those runs.

use crate::digest::{digest_text, MAX_STREAM_BYTES};
use crate::machine::{advance, destination, initial, libs_dir, pending, version_dir, Phase, SyncModel};
use crate::model::Requirement;
use crate::protocol::{ActionView, EventView, NoticeView, SyncError};
use vstd::prelude::*;

verus! {

/// The directory tree, the remote source, and a record of what was done.
pub struct World {
    /// The directories that exist.
    pub dirs: Set<Seq<Seq<char>>>,
    /// The files whose containing directory exists.
    pub housed: Set<Seq<Seq<char>>>,
    /// The files that exist, each with its content.
    pub files: Map<Seq<Seq<char>>, Seq<u8>>,
    /// The requirements of the descriptor published at each address.
    pub descriptors: Map<Seq<char>, Seq<Requirement>>,
    /// The content published at each address.
    pub contents: Map<Seq<char>, Seq<u8>>,
    /// The addresses whose content was asked for, in order.
    pub fetched: Seq<Seq<char>>,
    /// The files that were written, in order.
    pub written: Seq<Seq<Seq<char>>>,
    /// The lines that were shown to the operator, in order.
    pub notices: Seq<NoticeView>,
}

impl World {
    /// No file and no published content is longer than can be digested.
    pub open spec fn wf(self) -> bool {
        &&& forall|path: Seq<Seq<char>>| #[trigger]
            self.files.dom().contains(path) ==> self.files[path].len() <= MAX_STREAM_BYTES
        &&& forall|url: Seq<char>| #[trigger]
            self.contents.dom().contains(url) ==> self.contents[url].len() <= MAX_STREAM_BYTES
    }
}

/// Whether the file at `path` satisfies the requirement: it exists, and has
/// the declared size and the declared digest.
pub open spec fn fresh(files: Map<Seq<Seq<char>>, Seq<u8>>, path: Seq<Seq<char>>, r: Requirement) -> bool {
    &&& files.dom().contains(path)
    &&& files[path].len() == r.size
    &&& digest_text(files[path]) == r.sha1
}

/// The world after an action has been carried out in it, and what the
/// driver reports.
///
/// A descriptor or a content that is not published fails as a transport
/// error. The length or digest of a file that does not exist, and a write
/// to a file whose containing directory does not exist, fail as filesystem
/// errors. Nothing else fails.
pub open spec fn respond(w: World, a: ActionView) -> (World, EventView) {
    match a {
        ActionView::DirExists { path } => (w, EventView::Exists(w.dirs.contains(path))),
        ActionView::CreateDir { path } => (World { dirs: w.dirs.insert(path), ..w }, EventView::Done),
        ActionView::Report(notice) => (
            World { notices: w.notices.push(notice), ..w },
            EventView::Done,
        ),
        ActionView::FetchDescriptor { url } => if w.descriptors.dom().contains(url) {
            (w, EventView::Descriptor(w.descriptors[url]))
        } else {
            (w, EventView::Failed(SyncError::Transport))
        },
        ActionView::FileExists { path } => (w, EventView::Exists(w.files.dom().contains(path))),
        ActionView::FileLength { path } => if w.files.dom().contains(path) {
            (w, EventView::Length(w.files[path].len() as u64))
        } else {
            (w, EventView::Failed(SyncError::Filesystem))
        },
        ActionView::FileDigest { path } => if w.files.dom().contains(path) {
            (w, EventView::Digest(digest_text(w.files[path])))
        } else {
            (w, EventView::Failed(SyncError::Filesystem))
        },
        ActionView::CreateParent { path } => (
            World { housed: w.housed.insert(path), ..w },
            EventView::Done,
        ),
        ActionView::Fetch { url } => {
            let asked = World { fetched: w.fetched.push(url), ..w };
            if w.contents.dom().contains(url) {
                (asked, EventView::Fetched(w.contents[url]))
            } else {
                (asked, EventView::Failed(SyncError::Transport))
            }
        },
        ActionView::Write { path, bytes } => if w.housed.contains(path) {
            (
                World {
                    files: w.files.insert(path, bytes),
                    written: w.written.push(path),
                    ..w
                },
                EventView::Done,
            )
        } else {
            (w, EventView::Failed(SyncError::Filesystem))
        },
        ActionView::Finished => (w, EventView::Done),
        ActionView::Abort(_) => (w, EventView::Done),
    }
}

/// One turn: the world answers the pending action, and the synchronisation
/// takes the answer in.
pub open spec fn turn(m: SyncModel, w: World) -> (SyncModel, World) {
    let (after, event) = respond(w, pending(m));
    (advance(m, event), after)
}

/// At most `turns` turns, ending early where the synchronisation ends.
pub open spec fn run(m: SyncModel, w: World, turns: nat) -> (SyncModel, World)
    decreases turns,
{
    if turns == 0 || m.phase.is_over() {
        (m, w)
    } else {
        let (next, after) = turn(m, w);
        run(next, after, (turns - 1) as nat)
    }
}

/// The world after one requirement has been dealt with: untouched but for
/// the notices where the file was fresh; else with the published content in
/// place of the file.
pub open spec fn after_library(w: World, id: Seq<char>, r: Requirement) -> World {
    let path = destination(id, r.path);
    if fresh(w.files, path, r) {
        World {
            notices: w.notices.push(NoticeView::Downloading(r.name)).push(
                NoticeView::Skipping(r.name),
            ),
            ..w
        }
    } else {
        World {
            housed: w.housed.insert(path),
            files: w.files.insert(path, w.contents[r.url]),
            fetched: w.fetched.push(r.url),
            written: w.written.push(path),
            notices: w.notices.push(NoticeView::Downloading(r.name)),
            ..w
        }
    }
}

/// How many turns one requirement takes: five where the file is fresh or
/// missing, six where its length is wrong, seven where only its digest is.
pub open spec fn library_turns(w: World, id: Seq<char>, r: Requirement) -> nat {
    let path = destination(id, r.path);
    if !w.files.dom().contains(path) {
        5
    } else if w.files[path].len() != r.size {
        6
    } else if digest_text(w.files[path]) != r.sha1 {
        7
    } else {
        5
    }
}

/// A run of `a + b` turns is a run of `a` turns and then one of `b` turns.
pub proof fn lemma_run_split(m: SyncModel, w: World, a: nat, b: nat)
    ensures
        run(m, w, a + b) == run(run(m, w, a).0, run(m, w, a).1, b),
    decreases a,
{
    if m.phase.is_over() {
        assert(run(m, w, a) == (m, w));
        assert(run(m, w, a + b) == (m, w));
        assert(run(m, w, b) == (m, w));
    } else if a == 0 {
    } else {
        let (next, after) = turn(m, w);
        lemma_run_split(next, after, (a - 1) as nat, b);
        assert(run(m, w, a + b) == run(next, after, (a + b - 1) as nat));
    }
}

/// Dealing with one requirement.
///
/// From the announcement of a requirement, and provided that its content is
/// published, the synchronisation turns to the next requirement after
/// [`library_turns`] turns, and the world is then as [`after_library`] says.
pub proof fn lemma_library(m: SyncModel, w: World)
    requires
        m.wf(),
        w.wf(),
        m.phase is AnnouncingLibrary,
        fresh(w.files, m.target(), m.current()) || w.contents.dom().contains(m.current().url),
    ensures
        run(m, w, library_turns(w, m.id, m.current())) == (
            m.enter(m.index + 1),
            after_library(w, m.id, m.current()),
        ),
{
    let r = m.current();
    let path = m.target();
    let (m1, w1) = turn(m, w);
    assert(m1 == m.at(Phase::ProbingFile));
    let (m2, w2) = turn(m1, w1);
    reveal_with_fuel(run, 8);
    if !w.files.dom().contains(path) {
        assert(m2 == m.at(Phase::PreparingParent));
        let (m3, w3) = turn(m2, w2);
        assert(m3 == m.at(Phase::FetchingArtifact));
        let (m4, w4) = turn(m3, w3);
        assert(m4.phase is WritingArtifact);
        let (m5, w5) = turn(m4, w4);
        assert(m5 == m.enter(m.index + 1));
        assert(w5 == after_library(w, m.id, r));
    } else {
        assert(m2 == m.at(Phase::MeasuringFile));
        let (m3, w3) = turn(m2, w2);
        if w.files[path].len() != r.size {
            assert(m3 == m.at(Phase::PreparingParent));
            let (m4, w4) = turn(m3, w3);
            assert(m4 == m.at(Phase::FetchingArtifact));
            let (m5, w5) = turn(m4, w4);
            assert(m5.phase is WritingArtifact);
            let (m6, w6) = turn(m5, w5);
            assert(m6 == m.enter(m.index + 1));
            assert(w6 == after_library(w, m.id, r));
        } else {
            assert(m3 == m.at(Phase::DigestingFile));
            let (m4, w4) = turn(m3, w3);
            if digest_text(w.files[path]) != r.sha1 {
                assert(m4 == m.at(Phase::PreparingParent));
                let (m5, w5) = turn(m4, w4);
                assert(m5 == m.at(Phase::FetchingArtifact));
                let (m6, w6) = turn(m5, w5);
                assert(m6.phase is WritingArtifact);
                let (m7, w7) = turn(m6, w6);
                assert(m7 == m.enter(m.index + 1));
                assert(w7 == after_library(w, m.id, r));
            } else {
                assert(m4 == m.at(Phase::AnnouncingSkip));
                let (m5, w5) = turn(m4, w4);
                assert(m5 == m.enter(m.index + 1));
                assert(w5 == after_library(w, m.id, r));
            }
        }
    }
}

/// The world after the directories have been seen to and the descriptor
/// has been announced and fetched: the two directories exist.
pub open spec fn after_prelude(w: World, id: Seq<char>) -> World {
    World {
        dirs: w.dirs.insert(version_dir(id)).insert(libs_dir(id)),
        notices: w.notices.push(NoticeView::FetchingVersionInfo(id)),
        ..w
    }
}

/// How many turns it takes until the descriptor is known: four, and one
/// more for each of the two directories that has to be created.
pub open spec fn prelude_turns(w: World, id: Seq<char>) -> nat {
    let first: nat = if w.dirs.contains(version_dir(id)) { 0 } else { 1 };
    let second: nat = if w.dirs.contains(libs_dir(id)) { 0 } else { 1 };
    4 + first + second
}

/// The world after the requirements from number `from` on have been dealt
/// with, one after the other.
pub open spec fn after_libraries(w: World, id: Seq<char>, libraries: Seq<Requirement>, from: nat) -> World
    decreases libraries.len() - from,
{
    if from >= libraries.len() {
        w
    } else {
        after_libraries(after_library(w, id, libraries[from as int]), id, libraries, from + 1)
    }
}

/// Turns enough for any synchronisation of the release whose descriptor is
/// published at `url`.
pub open spec fn enough_turns(w: World, url: Seq<char>) -> nat {
    6 + 7 * w.descriptors[url].len()
}

/// A whole synchronisation of the release `id`, whose descriptor is
/// published at `url`: how it ends, and the world that it leaves.
pub open spec fn synchronise(id: Seq<char>, url: Seq<char>, w: World) -> (SyncModel, World) {
    run(initial(id, url), w, enough_turns(w, url))
}

/// Whether the remote source publishes, for a requirement, content of the
/// declared size and digest.
pub open spec fn served(w: World, r: Requirement) -> bool {
    &&& w.contents.dom().contains(r.url)
    &&& w.contents[r.url].len() == r.size
    &&& digest_text(w.contents[r.url]) == r.sha1
}

/// Whether every requirement of the list is served.
pub open spec fn all_served(w: World, libraries: Seq<Requirement>) -> bool {
    forall|j: int| 0 <= j < libraries.len() ==> served(w, #[trigger] libraries[j])
}

/// Whether requirements that name the same path declare the same size and
/// digest.
pub open spec fn consistent(libraries: Seq<Requirement>) -> bool {
    forall|j: int, k: int|
        0 <= j < libraries.len() && 0 <= k < libraries.len()
            && (#[trigger] libraries[j]).path == (#[trigger] libraries[k]).path ==> libraries[j].size
            == libraries[k].size && libraries[j].sha1 == libraries[k].sha1
}

/// Whether the file of every requirement of the list is fresh.
pub open spec fn all_fresh(
    files: Map<Seq<Seq<char>>, Seq<u8>>,
    id: Seq<char>,
    libraries: Seq<Requirement>,
) -> bool {
    forall|j: int|
        0 <= j < libraries.len() ==> fresh(
            files,
            destination(id, (#[trigger] libraries[j]).path),
            libraries[j],
        )
}

/// Until the descriptor is known.
///
/// Where the descriptor is published, the synchronisation turns to the
/// first requirement after [`prelude_turns`] turns, whatever directories
/// exist, and the world is then as [`after_prelude`] says.
pub proof fn lemma_prelude(id: Seq<char>, url: Seq<char>, w: World)
    requires
        w.descriptors.dom().contains(url),
    ensures
        run(initial(id, url), w, prelude_turns(w, id)) == (
            SyncModel { libraries: w.descriptors[url], ..initial(id, url) }.enter(0),
            after_prelude(w, id),
        ),
{
    let m = initial(id, url);
    reveal_with_fuel(run, 7);
    assert(version_dir(id) != libs_dir(id)) by {
        assert(version_dir(id).len() != libs_dir(id).len());
    }
    let (m1, w1) = turn(m, w);
    let (m2, w2) = if w.dirs.contains(version_dir(id)) {
        (m1, w1)
    } else {
        turn(m1, w1)
    };
    assert(m2 == m.at(Phase::ProbingLibsDir));
    assert(w2.dirs =~= w.dirs.insert(version_dir(id)));
    let (m3, w3) = turn(m2, w2);
    let (m4, w4) = if w.dirs.contains(libs_dir(id)) {
        (m3, w3)
    } else {
        turn(m3, w3)
    };
    assert(m4 == m.at(Phase::AnnouncingDescriptor));
    assert(w4.dirs =~= w.dirs.insert(version_dir(id)).insert(libs_dir(id)));
    let (m5, w5) = turn(m4, w4);
    assert(m5 == m.at(Phase::FetchingDescriptor));
    let (m6, w6) = turn(m5, w5);
    assert(w6 == after_prelude(w, id));
}

/// Dealing with the requirements that are left.
///
/// From the announcement of a requirement, and provided that the content of
/// every requirement that is left is published, the synchronisation
/// finishes within seven turns for each of them, and the world is then as
/// [`after_libraries`] says.
pub proof fn lemma_libraries(m: SyncModel, w: World, turns: nat)
    requires
        m.wf(),
        w.wf(),
        m.phase is AnnouncingLibrary || (m.phase is Finished && m.index == m.libraries.len()),
        forall|j: int|
            m.index <= j < m.libraries.len() ==> w.contents.dom().contains(
                (#[trigger] m.libraries[j]).url,
            ),
        turns >= 7 * (m.libraries.len() - m.index),
    ensures
        run(m, w, turns) == (
            m.enter(m.libraries.len()),
            after_libraries(w, m.id, m.libraries, m.index),
        ),
    decreases m.libraries.len() - m.index,
{
    if m.phase is Finished {
        assert(m.enter(m.libraries.len()) == m);
    } else {
        let r = m.current();
        let spent = library_turns(w, m.id, r);
        let next = m.enter(m.index + 1);
        let after = after_library(w, m.id, r);
        lemma_library(m, w);
        lemma_run_split(m, w, spent, (turns - spent) as nat);
        assert(after.wf());
        lemma_libraries(next, after, (turns - spent) as nat);
        assert(next.enter(m.libraries.len()) == m.enter(m.libraries.len()));
    }
}

/// A whole synchronisation.
///
/// Where the descriptor and the content of every requirement are published,
/// the synchronisation finishes, whatever directories and files exist
/// beforehand, and the world is then as [`after_prelude`] and
/// [`after_libraries`] say.
pub proof fn lemma_synchronise(id: Seq<char>, url: Seq<char>, w: World)
    requires
        w.wf(),
        w.descriptors.dom().contains(url),
        forall|j: int|
            0 <= j < w.descriptors[url].len() ==> w.contents.dom().contains(
                (#[trigger] w.descriptors[url][j]).url,
            ),
    ensures
        synchronise(id, url, w).0.phase is Finished,
        synchronise(id, url, w).1 == after_libraries(
            after_prelude(w, id),
            id,
            w.descriptors[url],
            0,
        ),
{
    let libraries = w.descriptors[url];
    let spent = prelude_turns(w, id);
    let left = (enough_turns(w, url) - spent) as nat;
    let m = SyncModel { libraries, ..initial(id, url) }.enter(0);
    lemma_prelude(id, url, w);
    lemma_run_split(initial(id, url), w, spent, left);
    lemma_libraries(m, after_prelude(w, id), left);
}

} // verus!
