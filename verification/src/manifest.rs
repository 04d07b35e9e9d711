//! The manifest: one record per file, in the order in which a scan found
//! them.

use crate::digest::{sha256, Hasher, DIGEST_LEN};
use crate::hex::{decode_inverts_encode, encode_hex, encoded, is_lower_hex};
use vstd::prelude::*;

verus! {

/// One file as it was seen by a scan.
#[derive(Debug, Clone, PartialEq, Eq)]
pub struct FileRecord {
    /// Where the file is; the same text opens it again at verification.
    pub path: String,
    /// The SHA-256 digest of the file's content, in lowercase hexadecimal.
    pub digest: String,
}

/// A record as plain text: what contracts say of a [`FileRecord`].
pub struct FileRecordView {
    pub path: Seq<char>,
    pub digest: Seq<char>,
}

impl FileRecordView {
    /// Whether the digest has the shape that a scan writes: the 64 lowercase
    /// hexadecimal digits of a 32-byte digest.
    pub open spec fn well_formed(self) -> bool {
        self.digest.len() == 2 * DIGEST_LEN && is_lower_hex(self.digest)
    }
}

impl View for FileRecord {
    type V = FileRecordView;

    open spec fn view(&self) -> FileRecordView {
        FileRecordView { path: self.path@, digest: self.digest@ }
    }
}

/// The record of a file at `path` whose content is `content`.
pub open spec fn recorded(path: Seq<char>, content: Seq<u8>) -> FileRecordView {
    FileRecordView { path, digest: encoded(sha256(content)) }
}

impl FileRecord {
    /// Records the file at `path`, whose whole content `content` has taken
    /// in: the digest is computed and written in hexadecimal.
    pub fn of_content(path: String, content: Hasher) -> (record: FileRecord)
        ensures
            record@ == recorded(path@, content@),
            record@.well_formed(),
    {
        let digest = content.finalize();
        proof {
            decode_inverts_encode(digest@);
        }
        FileRecord { path, digest: encode_hex(digest.as_slice()) }
    }
}

/// The records of a scan, in the order of discovery.
#[derive(Debug, Clone, PartialEq, Eq)]
pub struct Manifest {
    pub records: Vec<FileRecord>,
}

/// The views of a sequence of records, in the same order.
pub open spec fn record_views(records: Seq<FileRecord>) -> Seq<FileRecordView> {
    Seq::new(records.len(), |i: int| records[i]@)
}

impl View for Manifest {
    type V = Seq<FileRecordView>;

    open spec fn view(&self) -> Seq<FileRecordView> {
        record_views(self.records@)
    }
}

impl Manifest {
    /// A manifest without records.
    pub fn new() -> (manifest: Manifest)
        ensures
            manifest@ == Seq::<FileRecordView>::empty(),
    {
        let manifest = Manifest { records: Vec::new() };
        assert(manifest@ =~= Seq::<FileRecordView>::empty());
        manifest
    }

    /// The number of records.
    pub fn len(&self) -> (n: usize)
        ensures
            n == self@.len(),
    {
        self.records.len()
    }

    /// Whether the manifest holds no record.
    pub fn is_empty(&self) -> (b: bool)
        ensures
            b == (self@.len() == 0),
    {
        self.records.len() == 0
    }

    /// Adds `record` after the records already held.
    pub fn push(&mut self, record: FileRecord)
        ensures
            final(self)@ == old(self)@.push(record@),
    {
        self.records.push(record);
        assert(self@ =~= old(self)@.push(record@));
    }
}

} // verus!
