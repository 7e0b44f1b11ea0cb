//! The filesystem as the handlers see it: a capability to open a file
//! for reading and to create one for writing, with the outcomes the
//! handlers map to status codes. The model holds files as plain entries;
//! the surrounding process adapts it to the real filesystem by producing
//! the same outcome values from real `open` and `create` calls.
use vstd::prelude::*;

use crate::byteseq::clone_bytes;
use crate::stream::ByteStream;

verus! {

/// The filesystem failures the handlers distinguish.
#[derive(Clone, Copy, PartialEq, Eq, Structural, Debug)]
pub enum FsErrorKind {
    NotFound,
    PermissionDenied,
    Other,
}

/// What opening a file for reading yields: its size and a stream of its
/// contents, or a failure.
pub enum FileOpenOutcome {
    Opened { size: u64, content: ByteStream },
    Failed(FsErrorKind),
}

/// What creating a file for writing yields.
#[derive(Clone, Copy, PartialEq, Eq, Structural, Debug)]
pub enum FileCreateOutcome {
    Created,
    Failed(FsErrorKind),
}

/// One file of the model: its full path, contents, and whether reading
/// it is permitted.
pub struct FsEntry {
    pub path: Vec<u8>,
    pub data: Vec<u8>,
    pub readable: bool,
}

pub struct FsEntryView {
    pub path: Seq<u8>,
    pub data: Seq<u8>,
    pub readable: bool,
}

impl View for FsEntry {
    type V = FsEntryView;

    open spec fn view(&self) -> FsEntryView {
        FsEntryView { path: self.path@, data: self.data@, readable: self.readable }
    }
}

impl DeepView for FsEntry {
    type V = FsEntryView;

    open spec fn deep_view(&self) -> FsEntryView {
        self.view()
    }
}

/// The first entry with the given path, scanning from `i`.
pub open spec fn find_entry_from(fs: Seq<FsEntryView>, path: Seq<u8>, i: int) -> Option<int>
    decreases fs.len() - i,
{
    if i < 0 || i >= fs.len() {
        None
    } else if fs[i].path == path {
        Some(i)
    } else {
        find_entry_from(fs, path, i + 1)
    }
}

pub open spec fn spec_find_entry(fs: Seq<FsEntryView>, path: Seq<u8>) -> Option<int> {
    find_entry_from(fs, path, 0)
}

/// A found entry lies inside the model and carries the looked-up path.
pub proof fn lemma_find_entry_in_bounds(fs: Seq<FsEntryView>, path: Seq<u8>)
    ensures
        match spec_find_entry(fs, path) {
            Option::Some(i) => 0 <= i < fs.len() && fs[i].path == path,
            Option::None => true,
        },
{
    lemma_find_entry_from_in_bounds(fs, path, 0);
}

proof fn lemma_find_entry_from_in_bounds(fs: Seq<FsEntryView>, path: Seq<u8>, j: int)
    ensures
        match find_entry_from(fs, path, j) {
            Option::Some(i) => j <= i < fs.len() && fs[i].path == path,
            Option::None => true,
        },
    decreases fs.len() - j,
{
    if 0 <= j < fs.len() && fs[j].path != path {
        lemma_find_entry_from_in_bounds(fs, path, j + 1);
    }
}

/// The found entry is the first one with the path; when none is found,
/// no entry has it.
pub proof fn lemma_find_entry_minimal(fs: Seq<FsEntryView>, path: Seq<u8>)
    ensures
        match spec_find_entry(fs, path) {
            Option::Some(i) => 0 <= i < fs.len() && fs[i].path == path && forall|j: int|
                0 <= j < i ==> (#[trigger] fs[j]).path != path,
            Option::None => forall|j: int| 0 <= j < fs.len() ==> (#[trigger] fs[j]).path != path,
        },
{
    lemma_find_entry_from_minimal(fs, path, 0);
}

proof fn lemma_find_entry_from_minimal(fs: Seq<FsEntryView>, path: Seq<u8>, start: int)
    requires
        0 <= start <= fs.len(),
        forall|j: int| 0 <= j < start ==> (#[trigger] fs[j]).path != path,
    ensures
        match find_entry_from(fs, path, start) {
            Option::Some(i) => 0 <= i < fs.len() && fs[i].path == path && forall|j: int|
                0 <= j < i ==> (#[trigger] fs[j]).path != path,
            Option::None => forall|j: int| 0 <= j < fs.len() ==> (#[trigger] fs[j]).path != path,
        },
        find_entry_from(fs, path, start) == spec_find_entry(fs, path),
    decreases fs.len() - start,
{
    if start < fs.len() && fs[start].path != path {
        lemma_find_entry_from_minimal(fs, path, start + 1);
    }
    lemma_find_entry_agrees(fs, path, 0, start);
}

proof fn lemma_find_entry_agrees(fs: Seq<FsEntryView>, path: Seq<u8>, lo: int, hi: int)
    requires
        0 <= lo <= hi <= fs.len(),
        forall|j: int| lo <= j < hi ==> (#[trigger] fs[j]).path != path,
    ensures
        find_entry_from(fs, path, lo) == find_entry_from(fs, path, hi),
    decreases hi - lo,
{
    if lo < hi {
        lemma_find_entry_agrees(fs, path, lo + 1, hi);
    }
}

/// The first entry with the path, identified by its witnesses.
pub proof fn lemma_find_entry_characterize(fs: Seq<FsEntryView>, path: Seq<u8>, i: int)
    requires
        0 <= i < fs.len(),
        fs[i].path == path,
        forall|j: int| 0 <= j < i ==> (#[trigger] fs[j]).path != path,
    ensures
        spec_find_entry(fs, path) == Some(i),
{
    lemma_find_entry_agrees(fs, path, 0, i);
}

/// An in-memory filesystem, one entry per full path.
pub struct FsModel {
    entries: Vec<FsEntry>,
}

impl View for FsModel {
    type V = Seq<FsEntryView>;

    closed spec fn view(&self) -> Seq<FsEntryView> {
        self.entries.deep_view()
    }
}

impl FsModel {
    pub fn new() -> (r: FsModel)
        ensures
            r@ == Seq::<FsEntryView>::empty(),
    {
        let r = FsModel { entries: Vec::new() };
        proof {
            assert(r@ =~= Seq::<FsEntryView>::empty());
        }
        r
    }

    /// Adds a file, as startup fixtures do; no deduplication.
    pub fn add_entry(&mut self, path: Vec<u8>, data: Vec<u8>, readable: bool)
        ensures
            final(self)@ == old(self)@.push(
                FsEntryView { path: path@, data: data@, readable },
            ),
    {
        let ghost v = FsEntryView { path: path@, data: data@, readable };
        self.entries.push(FsEntry { path, data, readable });
        proof {
            assert(self@ =~= old(self)@.push(v));
        }
    }

    /// Index of the first entry with this path.
    fn find(&self, path: &Vec<u8>) -> (r: Option<usize>)
        ensures
            r is Some <==> spec_find_entry(self@, path@) is Some,
            r is Some ==> spec_find_entry(self@, path@) == Some(r->0 as int) && r->0
                < self@.len(),
    {
        let mut i: usize = 0;
        while i < self.entries.len()
            invariant
                i <= self.entries.len(),
                self@.len() == self.entries.len(),
                forall|j: int| 0 <= j < self@.len() ==> #[trigger] self@[j] == self.entries@[j]@,
                spec_find_entry(self@, path@) == find_entry_from(self@, path@, i as int),
            decreases self.entries.len() - i,
        {
            if crate::byteseq::bytes_eq(&self.entries[i].path, path) {
                return Some(i);
            }
            i += 1;
        }
        None
    }

    /// Opens a file for reading: a missing path is `NotFound`, a
    /// read-protected one `PermissionDenied`; otherwise the size and a
    /// stream of the contents.
    pub fn open(&self, path: &Vec<u8>) -> (r: FileOpenOutcome)
        ensures
            match spec_find_entry(self@, path@) {
                Option::None => r matches FileOpenOutcome::Failed(FsErrorKind::NotFound),
                Option::Some(i) => if self@[i].readable {
                    r matches FileOpenOutcome::Opened { size, content } && size == self@[i].data.len()
                        && content@ == self@[i].data
                } else {
                    r matches FileOpenOutcome::Failed(FsErrorKind::PermissionDenied)
                },
            },
    {
        match self.find(path) {
            None => FileOpenOutcome::Failed(FsErrorKind::NotFound),
            Some(i) => {
                if !self.entries[i].readable {
                    FileOpenOutcome::Failed(FsErrorKind::PermissionDenied)
                } else {
                    let data = clone_bytes(&self.entries[i].data);
                    let size = data.len() as u64;
                    FileOpenOutcome::Opened { size, content: ByteStream::new(data) }
                }
            },
        }
    }

    /// Creates (or truncates) the file at `path` and returns its index;
    /// within the model creation always succeeds.
    pub fn create(&mut self, path: &Vec<u8>) -> (r: usize)
        ensures
            match spec_find_entry(old(self)@, path@) {
                Option::Some(i) => r == i && final(self)@ == old(self)@.update(
                    i,
                    FsEntryView { path: path@, data: Seq::empty(), readable: true },
                ),
                Option::None => r == old(self)@.len() && final(self)@ == old(self)@.push(
                    FsEntryView { path: path@, data: Seq::empty(), readable: true },
                ),
            },
    {
        let entry = FsEntry { path: clone_bytes(path), data: Vec::new(), readable: true };
        let ghost v = FsEntryView { path: path@, data: Seq::empty(), readable: true };
        match self.find(path) {
            Some(i) => {
                let _ = self.entries.remove(i);
                self.entries.insert(i, entry);
                proof {
                    assert(self@ =~= old(self)@.update(i as int, v));
                }
                i
            },
            None => {
                let r = self.entries.len();
                self.entries.push(entry);
                proof {
                    assert(self@ =~= old(self)@.push(v));
                }
                r
            },
        }
    }

    /// Stores the written bytes into entry `i`, as closing a written
    /// file does.
    pub fn store(&mut self, i: usize, data: Vec<u8>)
        requires
            i < old(self)@.len(),
        ensures
            final(self)@ == old(self)@.update(
                i as int,
                FsEntryView {
                    path: old(self)@[i as int].path,
                    data: data@,
                    readable: old(self)@[i as int].readable,
                },
            ),
    {
        let mut entry = self.entries.remove(i);
        let ghost v = FsEntryView { path: entry.path@, data: data@, readable: entry.readable };
        entry.data = data;
        self.entries.insert(i, entry);
        proof {
            assert(self@ =~= old(self)@.update(i as int, v));
        }
    }

    /// The contents of the first entry with this path, for checks from
    /// outside.
    pub fn contents(&self, path: &Vec<u8>) -> (r: Option<Vec<u8>>)
        ensures
            r is Some <==> spec_find_entry(self@, path@) is Some,
            r is Some ==> r->0@ == self@[spec_find_entry(self@, path@)->0].data,
    {
        match self.find(path) {
            None => None,
            Some(i) => Some(clone_bytes(&self.entries[i].data)),
        }
    }
}

} // verus!
