//! What synchronisation guarantees, proved of every run in a world whose
//! driver carries out each action faithfully (see [`crate::world`]).

use crate::machine::{
    advance, destination, initial, libs_dir, pending, version_dir, Phase, SyncModel,
};
use crate::model::Requirement;
use crate::protocol::EventView;
use crate::world::{
    after_libraries, after_library, after_prelude, all_fresh, all_served, consistent,
    enough_turns, fresh, lemma_library, lemma_prelude, lemma_run_split, lemma_synchronise,
    library_turns, prelude_turns, respond, run, served, synchronise, World,
};
use vstd::prelude::*;

verus! {

/// The cheapest question comes first.
///
/// The length of a file is asked for only after the file was found to exist,
/// its digest only after its length was found to be the declared one, and a
/// library is skipped only after its digest was found to be the declared
/// one.
pub proof fn lemma_cheapest_question_first(m: SyncModel, e: EventView)
    ensures
        advance(m, e).phase is MeasuringFile ==> m.phase is ProbingFile && e == EventView::Exists(
            true,
        ),
        advance(m, e).phase is DigestingFile ==> m.phase is MeasuringFile && e
            == EventView::Length(m.current().size),
        advance(m, e).phase is AnnouncingSkip ==> m.phase is DigestingFile && e
            == EventView::Digest(m.current().sha1),
{
}

/// A download begins only for a file that is missing or stale.
///
/// The containing directory of a file is asked for, which is where its
/// download begins, only after the file was found to be missing, or to have
/// another length than declared, or to have another digest than declared.
/// The content is fetched only after that directory was seen to, and is then
/// written as it was fetched.
pub proof fn lemma_download_only_when_stale(m: SyncModel, e: EventView)
    ensures
        advance(m, e).phase is PreparingParent ==> {
            ||| m.phase is ProbingFile && e == EventView::Exists(false)
            ||| m.phase is MeasuringFile && e is Length && e->Length_0 != m.current().size
            ||| m.phase is DigestingFile && e is Digest && e->Digest_0 != m.current().sha1
        },
        advance(m, e).phase is FetchingArtifact ==> m.phase is PreparingParent && e
            == EventView::Done,
        advance(m, e).phase is WritingArtifact ==> m.phase is FetchingArtifact && e
            == EventView::Fetched(advance(m, e).payload),
{
}

/// Dealing with requirements changes neither what is published nor which
/// directories exist; it makes no file disappear, and every containing
/// directory that existed still exists.
pub proof fn lemma_libraries_keep(w: World, id: Seq<char>, libraries: Seq<Requirement>, from: nat)
    ensures
        after_libraries(w, id, libraries, from).contents == w.contents,
        after_libraries(w, id, libraries, from).descriptors == w.descriptors,
        after_libraries(w, id, libraries, from).dirs == w.dirs,
        w.housed.subset_of(after_libraries(w, id, libraries, from).housed),
        w.files.dom().subset_of(after_libraries(w, id, libraries, from).files.dom()),
    decreases libraries.len() - from,
{
    if from < libraries.len() {
        lemma_libraries_keep(after_library(w, id, libraries[from as int]), id, libraries, from + 1);
    }
}

/// Dealing with requirements whose content is published leaves no file and
/// no content longer than can be digested.
pub proof fn lemma_libraries_keep_wf(w: World, id: Seq<char>, libraries: Seq<Requirement>, from: nat)
    requires
        w.wf(),
        forall|j: int|
            from <= j < libraries.len() ==> w.contents.dom().contains((#[trigger] libraries[j]).url),
    ensures
        after_libraries(w, id, libraries, from).wf(),
    decreases libraries.len() - from,
{
    if from < libraries.len() {
        let next = after_library(w, id, libraries[from as int]);
        assert(next.wf());
        lemma_libraries_keep_wf(next, id, libraries, from + 1);
    }
}

/// The first failure ends the synchronisation.
///
/// Where the pending action fails, the synchronisation is given up for the
/// error reported, and however many turns follow, nothing more is done: the
/// world stays as the failed action left it.
pub proof fn lemma_failure_ends_the_run(m: SyncModel, w: World, turns: nat)
    requires
        !m.phase.is_over(),
        respond(w, pending(m)).1 is Failed,
        turns >= 1,
    ensures
        run(m, w, turns).0 == m.at(Phase::Failed(respond(w, pending(m)).1->Failed_0)),
        run(m, w, turns).1 == respond(w, pending(m)).0,
{
    reveal_with_fuel(run, 2);
}

/// A file that is up to date is not fetched.
///
/// Where the file of the requirement that is announced exists with the
/// declared size and digest, the synchronisation turns to the next
/// requirement within five turns, in which nothing is fetched, nothing is
/// written and no file is changed.
pub proof fn lemma_fresh_file_is_not_fetched(m: SyncModel, w: World)
    requires
        m.wf(),
        w.wf(),
        m.phase is AnnouncingLibrary,
        fresh(w.files, m.target(), m.current()),
    ensures
        run(m, w, 5).0 == m.enter(m.index + 1),
        run(m, w, 5).1.fetched == w.fetched,
        run(m, w, 5).1.written == w.written,
        run(m, w, 5).1.files == w.files,
{
    lemma_library(m, w);
}

/// A file that is missing or stale is replaced by what is published.
///
/// Where the file of the requirement that is announced does not exist, or
/// has another size or digest than declared, and the content is published,
/// the synchronisation turns to the next requirement within seven turns;
/// the content is fetched once and makes up the whole file afterwards, and
/// no other file is changed.
pub proof fn lemma_stale_file_is_replaced(m: SyncModel, w: World)
    requires
        m.wf(),
        w.wf(),
        m.phase is AnnouncingLibrary,
        !fresh(w.files, m.target(), m.current()),
        w.contents.dom().contains(m.current().url),
    ensures
        5 <= library_turns(w, m.id, m.current()) <= 7,
        run(m, w, library_turns(w, m.id, m.current())).0 == m.enter(m.index + 1),
        run(m, w, library_turns(w, m.id, m.current())).1.fetched == w.fetched.push(
            m.current().url,
        ),
        run(m, w, library_turns(w, m.id, m.current())).1.written == w.written.push(m.target()),
        run(m, w, library_turns(w, m.id, m.current())).1.files == w.files.insert(
            m.target(),
            w.contents[m.current().url],
        ),
{
    lemma_library(m, w);
}

/// Where every requirement from number `from` on is served, requirements
/// that name the same path agree, and the files of the requirements before
/// `from` are fresh, dealing with the rest leaves every file fresh.
proof fn lemma_rest_becomes_fresh(w: World, id: Seq<char>, libraries: Seq<Requirement>, from: nat)
    requires
        all_served(w, libraries),
        consistent(libraries),
        forall|j: int|
            0 <= j < from && j < libraries.len() ==> fresh(
                w.files,
                destination(id, (#[trigger] libraries[j]).path),
                libraries[j],
            ),
    ensures
        all_fresh(after_libraries(w, id, libraries, from).files, id, libraries),
    decreases libraries.len() - from,
{
    if from < libraries.len() {
        let r = libraries[from as int];
        let path = destination(id, r.path);
        let next = after_library(w, id, r);
        assert(served(w, r));
        assert forall|j: int| 0 <= j < from + 1 && j < libraries.len() implies fresh(
            next.files,
            destination(id, (#[trigger] libraries[j]).path),
            libraries[j],
        ) by {
            let other = destination(id, libraries[j].path);
            if other == path {
                assert(other[2] == path[2]);
                assert(libraries[j].path == r.path);
            }
        }
        assert forall|j: int| 0 <= j < libraries.len() implies served(
            next,
            #[trigger] libraries[j],
        ) by {
            assert(served(w, libraries[j]));
        }
        lemma_rest_becomes_fresh(next, id, libraries, from + 1);
    }
}

/// After a synchronisation, every file is as its requirement declares.
///
/// Where the descriptor is published, every requirement is served with
/// content of the declared size and digest, and requirements that name the
/// same path agree, the synchronisation finishes, whatever files exist
/// beforehand, and the file of every requirement then exists with exactly
/// the declared size and digest.
pub proof fn lemma_synchronised_files_are_fresh(id: Seq<char>, url: Seq<char>, w: World)
    requires
        w.wf(),
        w.descriptors.dom().contains(url),
        all_served(w, w.descriptors[url]),
        consistent(w.descriptors[url]),
    ensures
        synchronise(id, url, w).0.phase is Finished,
        all_fresh(synchronise(id, url, w).1.files, id, w.descriptors[url]),
{
    let libraries = w.descriptors[url];
    assert forall|j: int| 0 <= j < libraries.len() implies w.contents.dom().contains(
        (#[trigger] libraries[j]).url,
    ) by {
        assert(served(w, libraries[j]));
    }
    lemma_synchronise(id, url, w);
    let ready = after_prelude(w, id);
    assert forall|j: int| 0 <= j < libraries.len() implies served(
        ready,
        #[trigger] libraries[j],
    ) by {
        assert(served(w, libraries[j]));
    }
    lemma_rest_becomes_fresh(ready, id, libraries, 0);
}

/// A tree that is up to date is left alone.
///
/// Where the descriptor is published and the file of every requirement
/// exists with the declared size and digest, the synchronisation finishes
/// without fetching any content, writing any file or changing any file.
pub proof fn lemma_fresh_tree_is_left_alone(id: Seq<char>, url: Seq<char>, w: World)
    requires
        w.wf(),
        w.descriptors.dom().contains(url),
        all_fresh(w.files, id, w.descriptors[url]),
    ensures
        synchronise(id, url, w).0.phase is Finished,
        synchronise(id, url, w).1.files == w.files,
        synchronise(id, url, w).1.fetched == w.fetched,
        synchronise(id, url, w).1.written == w.written,
{
    let libraries = w.descriptors[url];
    let spent = prelude_turns(w, id);
    let left = (enough_turns(w, url) - spent) as nat;
    let m = SyncModel { libraries, ..initial(id, url) }.enter(0);
    let ready = after_prelude(w, id);
    lemma_prelude(id, url, w);
    lemma_run_split(initial(id, url), w, spent, left);
    lemma_fresh_run_is_left_alone(m, ready, left);
}

/// From the announcement of a requirement, where the files of all the
/// requirements that are left are fresh, the synchronisation finishes and
/// fetches nothing, writes nothing and changes no file.
proof fn lemma_fresh_run_is_left_alone(m: SyncModel, w: World, turns: nat)
    requires
        m.wf(),
        w.wf(),
        m.phase is AnnouncingLibrary || (m.phase is Finished && m.index == m.libraries.len()),
        forall|j: int|
            m.index <= j < m.libraries.len() ==> fresh(
                w.files,
                destination(m.id, (#[trigger] m.libraries[j]).path),
                m.libraries[j],
            ),
        turns >= 5 * (m.libraries.len() - m.index),
    ensures
        run(m, w, turns).0.phase is Finished,
        run(m, w, turns).1.files == w.files,
        run(m, w, turns).1.fetched == w.fetched,
        run(m, w, turns).1.written == w.written,
    decreases m.libraries.len() - m.index,
{
    if m.phase is AnnouncingLibrary {
        let r = m.current();
        assert(fresh(w.files, destination(m.id, r.path), r));
        lemma_library(m, w);
        lemma_run_split(m, w, 5, (turns - 5) as nat);
        lemma_fresh_run_is_left_alone(
            m.enter(m.index + 1),
            after_library(w, m.id, r),
            (turns - 5) as nat,
        );
    }
}

/// A second synchronisation writes nothing.
///
/// Where the descriptor is published, every requirement is served with
/// content of the declared size and digest, and requirements that name the
/// same path agree, a synchronisation that follows another, with nothing
/// changed in between, finishes without fetching any content, writing any
/// file or changing any file.
pub proof fn lemma_second_run_changes_nothing(id: Seq<char>, url: Seq<char>, w: World)
    requires
        w.wf(),
        w.descriptors.dom().contains(url),
        all_served(w, w.descriptors[url]),
        consistent(w.descriptors[url]),
    ensures
        synchronise(id, url, synchronise(id, url, w).1).0.phase is Finished,
        synchronise(id, url, synchronise(id, url, w).1).1.files == synchronise(id, url, w).1.files,
        synchronise(id, url, synchronise(id, url, w).1).1.fetched == synchronise(
            id,
            url,
            w,
        ).1.fetched,
        synchronise(id, url, synchronise(id, url, w).1).1.written == synchronise(
            id,
            url,
            w,
        ).1.written,
{
    let libraries = w.descriptors[url];
    let first = synchronise(id, url, w).1;
    assert forall|j: int| 0 <= j < libraries.len() implies w.contents.dom().contains(
        (#[trigger] libraries[j]).url,
    ) by {
        assert(served(w, libraries[j]));
    }
    lemma_synchronise(id, url, w);
    lemma_synchronised_files_are_fresh(id, url, w);
    let ready = after_prelude(w, id);
    lemma_libraries_keep(ready, id, libraries, 0);
    lemma_libraries_keep_wf(ready, id, libraries, 0);
    lemma_fresh_tree_is_left_alone(id, url, first);
}

/// Directories that are missing are created.
///
/// Where the descriptor and the content of every requirement are published,
/// the synchronisation finishes, whatever directories exist beforehand.
/// Afterwards the directory of the release and its directory of libraries
/// exist, the file of every requirement exists, and the containing
/// directory exists of every file that was not up to date beforehand.
pub proof fn lemma_directories_are_created(id: Seq<char>, url: Seq<char>, w: World)
    requires
        w.wf(),
        w.descriptors.dom().contains(url),
        forall|j: int|
            0 <= j < w.descriptors[url].len() ==> w.contents.dom().contains(
                (#[trigger] w.descriptors[url][j]).url,
            ),
    ensures
        synchronise(id, url, w).0.phase is Finished,
        synchronise(id, url, w).1.dirs.contains(version_dir(id)),
        synchronise(id, url, w).1.dirs.contains(libs_dir(id)),
        forall|j: int|
            0 <= j < w.descriptors[url].len() ==> synchronise(id, url, w).1.files.dom().contains(
                destination(id, (#[trigger] w.descriptors[url][j]).path),
            ),
        forall|j: int|
            0 <= j < w.descriptors[url].len() && !fresh(
                w.files,
                destination(id, (#[trigger] w.descriptors[url][j]).path),
                w.descriptors[url][j],
            ) ==> synchronise(id, url, w).1.housed.contains(
                destination(id, w.descriptors[url][j].path),
            ),
{
    let libraries = w.descriptors[url];
    let ready = after_prelude(w, id);
    lemma_synchronise(id, url, w);
    lemma_libraries_keep(ready, id, libraries, 0);
    lemma_rest_is_housed(ready, id, libraries, 0);
}

/// Dealing with the requirements from number `from` on leaves a file for
/// each of them, in a directory that exists unless the file was fresh from
/// the start.
proof fn lemma_rest_is_housed(w: World, id: Seq<char>, libraries: Seq<Requirement>, from: nat)
    ensures
        forall|j: int|
            from <= j < libraries.len() ==> after_libraries(
                w,
                id,
                libraries,
                from,
            ).files.dom().contains(destination(id, (#[trigger] libraries[j]).path)),
        forall|j: int|
            from <= j < libraries.len() && !fresh(
                w.files,
                destination(id, (#[trigger] libraries[j]).path),
                libraries[j],
            ) ==> after_libraries(w, id, libraries, from).housed.contains(
                destination(id, libraries[j].path),
            ),
    decreases libraries.len() - from,
{
    if from < libraries.len() {
        let r = libraries[from as int];
        let next = after_library(w, id, r);
        let last = after_libraries(w, id, libraries, from);
        lemma_rest_is_housed(next, id, libraries, from + 1);
        lemma_libraries_keep(next, id, libraries, from + 1);
        assert(last == after_libraries(next, id, libraries, from + 1));
        assert(next.files.dom().contains(destination(id, r.path)));
        assert forall|j: int|
            from <= j < libraries.len() && !fresh(
                w.files,
                destination(id, (#[trigger] libraries[j]).path),
                libraries[j],
            ) implies last.housed.contains(destination(id, libraries[j].path)) by {
            let other = destination(id, libraries[j].path);
            if j == from || fresh(next.files, other, libraries[j]) {
                assert(next.housed.contains(other));
            }
        }
    }
}

} // verus!
