//! The tree scanner: a breadth-first walk of a directory tree that records
//! every file it meets.
//!
//! The scanner reads no directory itself. It keeps the queue of directories
//! still to be listed and the records made so far; the caller lists each
//! directory that [`Scanner::next_directory`] hands out and reports every
//! entry back, a directory with [`Scanner::found_directory`] and anything
//! else with [`Scanner::found_file`]. A directory that cannot be listed, or a
//! file that cannot be read to its end, is reported with
//! [`Scanner::unreadable`]: that ends the scan, and no manifest comes out of
//! it.

use crate::digest::Hasher;
use crate::manifest::{record_views, recorded, FileRecord, FileRecordView, Manifest};
use std::collections::VecDeque;
use vstd::prelude::*;

verus! {

/// A scan in progress.
pub struct Scanner {
    pending: VecDeque<String>,
    records: Vec<FileRecord>,
    failure: Option<String>,
}

/// The state of a scan as plain values.
pub struct ScannerView {
    /// The directories that were found and not yet handed out for listing,
    /// oldest first.
    pub pending: Seq<Seq<char>>,
    /// The records made so far, in the order in which the files were
    /// reported.
    pub records: Seq<FileRecordView>,
    /// The path of the first directory or file that could not be read, if
    /// there was one.
    pub failure: Option<Seq<char>>,
}

/// An entry of a directory listing as plain values.
pub enum EntryView {
    /// A directory, or a link to one, at this path.
    Directory { path: Seq<char> },
    /// Anything else at this path, with the content that reading it gives.
    File { path: Seq<char>, content: Seq<u8> },
}

/// What a directory tree holds: for the path of a directory, its entries in
/// the order in which listing it gives them.
pub type TreeView = spec_fn(Seq<char>) -> Seq<EntryView>;

/// The state in which the scan of the tree under `root` starts.
pub open spec fn started(root: Seq<char>) -> ScannerView {
    ScannerView { pending: seq![root], records: Seq::<FileRecordView>::empty(), failure: None }
}

impl ScannerView {
    /// The state after the directory that has waited longest was handed
    /// out.
    pub open spec fn handed_out(self) -> ScannerView {
        ScannerView { pending: self.pending.drop_first(), ..self }
    }

    /// The state after `entry` was reported: a directory waits behind the
    /// others, a file is recorded after the others.
    pub open spec fn found(self, entry: EntryView) -> ScannerView {
        match entry {
            EntryView::Directory { path } => ScannerView {
                pending: self.pending.push(path),
                ..self
            },
            EntryView::File { path, content } => ScannerView {
                records: self.records.push(recorded(path, content)),
                ..self
            },
        }
    }

    /// The state after the directory or file at `path` was reported as
    /// unreadable: the scan has failed there, unless it had failed before.
    pub open spec fn failed(self, path: Seq<char>) -> ScannerView {
        if self.failure is None {
            ScannerView { failure: Some(path), ..self }
        } else {
            self
        }
    }

    /// Whether a manifest comes out of the scan in this state: no directory
    /// waits to be listed, and nothing was unreadable.
    pub open spec fn complete(self) -> bool {
        self.pending.len() == 0 && self.failure is None
    }

    /// The state after the entries of a listing were reported, the first of
    /// them first.
    pub open spec fn listed(self, entries: Seq<EntryView>) -> ScannerView
        decreases entries.len(),
    {
        if entries.len() == 0 {
            self
        } else {
            self.listed(entries.drop_last()).found(entries.last())
        }
    }

    /// The state after one round of a scan of `tree`: the directory that has
    /// waited longest is handed out and its entries are reported. Nothing
    /// changes where no directory waits, or where the scan has failed.
    pub open spec fn expanded(self, tree: TreeView) -> ScannerView {
        if self.pending.len() == 0 || self.failure is Some {
            self
        } else {
            self.handed_out().listed(tree(self.pending[0]))
        }
    }

    /// The state after `rounds` rounds of a scan of `tree`.
    pub open spec fn walked(self, tree: TreeView, rounds: nat) -> ScannerView
        decreases rounds,
    {
        if rounds == 0 {
            self
        } else {
            self.walked(tree, (rounds - 1) as nat).expanded(tree)
        }
    }
}

/// The directories among `entries`, in order.
pub open spec fn directories(entries: Seq<EntryView>) -> Seq<Seq<char>>
    decreases entries.len(),
{
    if entries.len() == 0 {
        Seq::empty()
    } else {
        let before = directories(entries.drop_last());
        match entries.last() {
            EntryView::Directory { path } => before.push(path),
            EntryView::File { .. } => before,
        }
    }
}

/// The records of the files among `entries`, in order.
pub open spec fn files(entries: Seq<EntryView>) -> Seq<FileRecordView>
    decreases entries.len(),
{
    if entries.len() == 0 {
        Seq::empty()
    } else {
        let before = files(entries.drop_last());
        match entries.last() {
            EntryView::Directory { .. } => before,
            EntryView::File { path, content } => before.push(recorded(path, content)),
        }
    }
}

/// The directories that `tree` holds directly under those of `level`: those
/// under the first directory of the level first, each group in listing
/// order.
pub open spec fn directories_under(tree: TreeView, level: Seq<Seq<char>>) -> Seq<Seq<char>>
    decreases level.len(),
{
    if level.len() == 0 {
        Seq::empty()
    } else {
        directories_under(tree, level.drop_last()) + directories(tree(level.last()))
    }
}

/// The records of the files that `tree` holds directly under the directories
/// of `level`: those under the first directory of the level first, each
/// group in listing order.
pub open spec fn files_under(tree: TreeView, level: Seq<Seq<char>>) -> Seq<FileRecordView>
    decreases level.len(),
{
    if level.len() == 0 {
        Seq::empty()
    } else {
        files_under(tree, level.drop_last()) + files(tree(level.last()))
    }
}

/// The texts of a queue of paths, in the same order.
pub open spec fn path_views(paths: Seq<String>) -> Seq<Seq<char>> {
    Seq::new(paths.len(), |i: int| paths[i]@)
}

impl View for Scanner {
    type V = ScannerView;

    closed spec fn view(&self) -> ScannerView {
        ScannerView {
            pending: path_views(self.pending@),
            records: record_views(self.records@),
            failure: match self.failure {
                Some(path) => Some(path@),
                None => None,
            },
        }
    }
}

impl Scanner {
    /// The invariant of a scan: every record made so far has a digest of the
    /// shape that hashing and encoding give.
    pub closed spec fn wf(&self) -> bool {
        forall|i: int| 0 <= i < self.records@.len() ==> (#[trigger] self.records@[i])@.well_formed()
    }

    /// Starts a scan of the tree under `root`: the root is the one directory
    /// waiting to be listed, and nothing is recorded.
    pub fn new(root: String) -> (scanner: Scanner)
        ensures
            scanner.wf(),
            scanner@ == started(root@),
    {
        let mut pending: VecDeque<String> = VecDeque::new();
        pending.push_back(root);
        let scanner = Scanner { pending, records: Vec::new(), failure: None };
        assert(scanner@.pending =~= seq![root@]);
        assert(scanner@.records =~= Seq::<FileRecordView>::empty());
        scanner
    }

    /// Hands out the directory to list next: the one that has waited longest.
    /// `None` when no directory waits, which ends the scan once the entries of
    /// the last directory handed out have all been reported, and `None` once
    /// the scan has failed.
    pub fn next_directory(&mut self) -> (next: Option<String>)
        requires
            old(self).wf(),
        ensures
            final(self).wf(),
            match next {
                Some(directory) => {
                    &&& old(self)@.failure is None
                    &&& old(self)@.pending.len() > 0
                    &&& directory@ == old(self)@.pending[0]
                    &&& final(self)@ == old(self)@.handed_out()
                },
                None => {
                    &&& old(self)@.pending.len() == 0 || old(self)@.failure is Some
                    &&& final(self)@ == old(self)@
                },
            },
    {
        if self.failure.is_some() {
            return None;
        }
        let next = self.pending.pop_front();
        proof {
            if next is Some {
                assert(self@.pending =~= old(self)@.pending.drop_first());
            }
        }
        next
    }

    /// Takes note of a directory found while listing: it waits behind those
    /// found before it.
    pub fn found_directory(&mut self, path: String)
        requires
            old(self).wf(),
        ensures
            final(self).wf(),
            final(self)@ == old(self)@.found(EntryView::Directory { path: path@ }),
    {
        self.pending.push_back(path);
        assert(self@.pending =~= old(self)@.pending.push(path@));
    }

    /// Records a file found while listing, whose whole content `content` has
    /// taken in: the record follows those made before it.
    pub fn found_file(&mut self, path: String, content: Hasher)
        requires
            old(self).wf(),
        ensures
            final(self).wf(),
            final(self)@ == old(self)@.found(
                EntryView::File { path: path@, content: content@ },
            ),
    {
        let record = FileRecord::of_content(path, content);
        self.records.push(record);
        assert(self@.records =~= old(self)@.records.push(recorded(path@, content@)));
    }

    /// Takes note that the directory at `path` could not be listed, or that
    /// the file at `path` could not be read to its end. The scan has failed:
    /// no further directory is handed out and no manifest comes out of it.
    /// The first failure of a scan is the one that is kept.
    pub fn unreadable(&mut self, path: String)
        requires
            old(self).wf(),
        ensures
            final(self).wf(),
            final(self)@ == old(self)@.failed(path@),
    {
        if self.failure.is_none() {
            self.failure = Some(path);
        }
    }

    /// The path at which the scan failed, if it has.
    pub fn failure(&self) -> (path: Option<&String>)
        ensures
            match path {
                Some(p) => self@.failure == Some(p@),
                None => self@.failure is None,
            },
    {
        self.failure.as_ref()
    }

    /// Ends the scan. The manifest holds the records in the order in which
    /// they were made, each with a well-formed digest. There is none while a
    /// directory still waits to be listed, and none where a directory or a
    /// file was unreadable.
    pub fn finish(self) -> (manifest: Option<Manifest>)
        requires
            self.wf(),
        ensures
            manifest is Some <==> self@.complete(),
            manifest matches Some(m) ==> {
                &&& m@ == self@.records
                &&& forall|i: int| 0 <= i < m@.len() ==> (#[trigger] m@[i]).well_formed()
            },
    {
        if self.pending.len() == 0 && self.failure.is_none() {
            Some(Manifest { records: self.records })
        } else {
            None
        }
    }
}

/// Reporting a listing sorts its entries: the directories join the queue
/// behind those already waiting, the files' records join the manifest behind
/// those already made, and both keep the order of the listing.
pub proof fn listing_appends(state: ScannerView, entries: Seq<EntryView>)
    ensures
        state.listed(entries) == (ScannerView {
            pending: state.pending + directories(entries),
            records: state.records + files(entries),
            failure: state.failure,
        }),
    decreases entries.len(),
{
    if entries.len() == 0 {
        assert(state.pending + directories(entries) =~= state.pending);
        assert(state.records + files(entries) =~= state.records);
    } else {
        listing_appends(state, entries.drop_last());
        let before = state.listed(entries.drop_last());
        let after = before.found(entries.last());
        assert(after.pending =~= state.pending + directories(entries));
        assert(after.records =~= state.records + files(entries));
    }
}

/// Where a scan of `tree` that has not failed stands after `rounds` rounds,
/// none of which found the queue empty: the first `rounds` directories of the
/// queue have been listed, the directories under them wait behind the rest of
/// the queue, and the files under them are recorded.
proof fn rounds_take_the_front(state: ScannerView, tree: TreeView, rounds: nat)
    requires
        state.failure is None,
        rounds <= state.pending.len(),
    ensures
        state.walked(tree, rounds) == (ScannerView {
            pending: state.pending.skip(rounds as int) + directories_under(
                tree,
                state.pending.take(rounds as int),
            ),
            records: state.records + files_under(tree, state.pending.take(rounds as int)),
            failure: None,
        }),
    decreases rounds,
{
    let queue = state.pending;
    if rounds == 0 {
        assert(queue.take(0) =~= Seq::<Seq<char>>::empty());
        assert(queue.skip(0) + directories_under(tree, queue.take(0)) =~= queue);
        assert(state.records + files_under(tree, queue.take(0)) =~= state.records);
    } else {
        let done = (rounds - 1) as nat;
        rounds_take_the_front(state, tree, done);
        let before = state.walked(tree, done);
        assert(before.pending.len() > 0);
        assert(before.pending[0] == queue[done as int]);
        let listing = tree(queue[done as int]);
        listing_appends(before.handed_out(), listing);
        assert(queue.take(rounds as int).drop_last() =~= queue.take(done as int));
        assert(queue.take(rounds as int).last() == queue[done as int]);
        let after = before.expanded(tree);
        assert(after.pending =~= queue.skip(rounds as int) + directories_under(
            tree,
            queue.take(rounds as int),
        ));
        assert(after.records =~= state.records + files_under(tree, queue.take(rounds as int)));
    }
}

/// The walk is breadth-first. After as many rounds as directories wait, a
/// scan in which everything could be read has listed exactly those
/// directories, in order: the queue then holds the directories directly under
/// them, and the files directly under them have been recorded behind the
/// earlier records. So the directories of one depth are all listed before any
/// of the next depth.
pub proof fn walk_is_breadth_first(state: ScannerView, tree: TreeView)
    requires
        state.failure is None,
    ensures
        state.walked(tree, state.pending.len()) == (ScannerView {
            pending: directories_under(tree, state.pending),
            records: state.records + files_under(tree, state.pending),
            failure: None,
        }),
{
    let queue = state.pending;
    rounds_take_the_front(state, tree, queue.len());
    assert(queue.take(queue.len() as int) =~= queue);
    assert(queue.skip(queue.len() as int) + directories_under(tree, queue)
        =~= directories_under(tree, queue));
}

/// The scan of an empty directory ends after one round with nothing
/// recorded and no directory left to list.
pub proof fn empty_root_gives_empty_manifest(root: Seq<char>, tree: TreeView)
    requires
        tree(root).len() == 0,
    ensures
        started(root).walked(tree, 1) == (ScannerView {
            pending: Seq::<Seq<char>>::empty(),
            records: Seq::<FileRecordView>::empty(),
            failure: None,
        }),
        started(root).walked(tree, 1).complete(),
{
    let state = started(root);
    walk_is_breadth_first(state, tree);
    assert(state.pending.drop_last() =~= Seq::<Seq<char>>::empty());
    assert(state.pending.last() == root);
    assert(directories_under(tree, state.pending) =~= Seq::<Seq<char>>::empty()) by {
        assert(directories_under(tree, state.pending.drop_last()) =~= Seq::<Seq<char>>::empty());
    }
    assert(files_under(tree, state.pending) =~= Seq::<FileRecordView>::empty()) by {
        assert(files_under(tree, state.pending.drop_last()) =~= Seq::<FileRecordView>::empty());
    }
    assert(state.records + files_under(tree, state.pending) =~= Seq::<FileRecordView>::empty());
}

/// A scan that has failed stays failed: whatever is reported afterwards, as
/// an entry or as unreadable, and however many rounds follow, the failure is
/// the same, so no manifest comes out of the scan.
pub proof fn failure_is_final(
    state: ScannerView,
    entries: Seq<EntryView>,
    path: Seq<char>,
    tree: TreeView,
    rounds: nat,
)
    requires
        state.failure is Some,
    ensures
        state.listed(entries).failure == state.failure,
        state.failed(path) == state,
        state.walked(tree, rounds) == state,
        !state.listed(entries).complete(),
    decreases rounds,
{
    listing_appends(state, entries);
    if rounds > 0 {
        failure_is_final(state, entries, path, tree, (rounds - 1) as nat);
    }
}

} // verus!
