//! The verifier: replays the digest of every file that a manifest records
//! and stops at the first record that does not hold.
//!
//! The verifier opens no file itself. [`Verifier::action`] says what to do
//! next: hash the file at a path, or stop with the verdict. The caller reads
//! the file into a [`Hasher`] and hands the outcome to [`Verifier::supply`].
//! Records are taken in manifest order, and for each one the stored digest is
//! decoded before the file is asked for, so that a manifest with a corrupt
//! digest is reported as such whatever the file holds.

use crate::digest::{sha256, Hasher};
use crate::hex::{
    decode_hex, decode_inverts_encode, decoded, decoded_bytes, encoded, DecodeHexError,
};
use crate::manifest::{FileRecordView, Manifest};
use vstd::prelude::*;
use vstd::string::*;

verus! {

/// Why a verification stopped short of success. Each kind names the path of
/// the record at which it stopped.
#[derive(Debug, Clone, PartialEq, Eq)]
pub enum VerifyError {
    /// The stored digest of the record is no hexadecimal text.
    FormatError { path: String, cause: DecodeHexError },
    /// The file of the record could not be opened or read to its end.
    IoError { path: String },
    /// The file of the record no longer has the content that was recorded.
    Mismatch { path: String },
}

/// A [`VerifyError`] as plain values.
pub enum VerifyErrorView {
    FormatError { path: Seq<char>, cause: DecodeHexError },
    IoError { path: Seq<char> },
    Mismatch { path: Seq<char> },
}

impl View for VerifyError {
    type V = VerifyErrorView;

    open spec fn view(&self) -> VerifyErrorView {
        match self {
            VerifyError::FormatError { path, cause } => VerifyErrorView::FormatError {
                path: path@,
                cause: *cause,
            },
            VerifyError::IoError { path } => VerifyErrorView::IoError { path: path@ },
            VerifyError::Mismatch { path } => VerifyErrorView::Mismatch { path: path@ },
        }
    }
}

impl VerifyErrorView {
    /// The path of the record at which the verification stopped.
    pub open spec fn path(self) -> Seq<char> {
        match self {
            VerifyErrorView::FormatError { path, .. } => path,
            VerifyErrorView::IoError { path } => path,
            VerifyErrorView::Mismatch { path } => path,
        }
    }

    /// The text that [`VerifyError::message`] gives: it names the path and
    /// says which kind of failure it was.
    pub open spec fn message_text(self) -> Seq<char> {
        match self {
            VerifyErrorView::FormatError { path, cause } => "Invalid digest for file "@ + path
                + ": "@ + cause.message_text(),
            VerifyErrorView::IoError { path } => "Unable to read file "@ + path,
            VerifyErrorView::Mismatch { path } => "File "@ + path + " does not match!"@,
        }
    }
}

impl VerifyError {
    /// The path of the record at which the verification stopped.
    pub fn path(&self) -> (path: &String)
        ensures
            path@ == self@.path(),
    {
        match self {
            VerifyError::FormatError { path, .. } => path,
            VerifyError::IoError { path } => path,
            VerifyError::Mismatch { path } => path,
        }
    }

    /// A sentence for the user that names the path and the kind of failure.
    pub fn message(&self) -> (text: String)
        ensures
            text@ == self@.message_text(),
    {
        match self {
            VerifyError::FormatError { path, cause } => {
                let reason = cause.message();
                String::from_str("Invalid digest for file ").concat(path.as_str()).concat(
                    ": ",
                ).concat(reason.as_str())
            },
            VerifyError::IoError { path } => String::from_str("Unable to read file ").concat(
                path.as_str(),
            ),
            VerifyError::Mismatch { path } => String::from_str("File ").concat(
                path.as_str(),
            ).concat(" does not match!"),
        }
    }
}

/// What came of reading the file that the verifier asked for.
pub enum FileOutcome {
    /// The file was read to its end; the hasher has taken in all of it.
    Content(Hasher),
    /// The file could not be opened, or reading it failed.
    Unreadable,
}

/// A [`FileOutcome`] as plain values: the content that was read, if any.
pub enum FileOutcomeView {
    Content(Seq<u8>),
    Unreadable,
}

impl View for FileOutcome {
    type V = FileOutcomeView;

    open spec fn view(&self) -> FileOutcomeView {
        match self {
            FileOutcome::Content(hasher) => FileOutcomeView::Content(hasher@),
            FileOutcome::Unreadable => FileOutcomeView::Unreadable,
        }
    }
}

/// What the caller of a verifier is to do next.
#[derive(Debug, PartialEq, Eq)]
pub enum VerifyAction {
    /// Read the file at this path and supply the outcome.
    Hash(String),
    /// Stop: the verification has ended with this verdict.
    Done(Result<(), VerifyError>),
}

/// A [`VerifyAction`] as plain values.
pub enum VerifyActionView {
    Hash(Seq<char>),
    Done(Result<(), VerifyErrorView>),
}

impl View for VerifyAction {
    type V = VerifyActionView;

    open spec fn view(&self) -> VerifyActionView {
        match self {
            VerifyAction::Hash(path) => VerifyActionView::Hash(path@),
            VerifyAction::Done(Ok(())) => VerifyActionView::Done(Ok(())),
            VerifyAction::Done(Err(e)) => VerifyActionView::Done(Err(e@)),
        }
    }
}

/// The state of a verification as plain values.
pub struct VerifierView {
    /// The records to verify, in order.
    pub manifest: Seq<FileRecordView>,
    /// How many records, from the first on, have been found to hold.
    pub position: nat,
    /// The failure that a supplied outcome has brought, if any.
    pub failure: Option<VerifyErrorView>,
}

/// The state in which the verification of `manifest` starts.
pub open spec fn initial(manifest: Seq<FileRecordView>) -> VerifierView {
    VerifierView { manifest, position: 0, failure: None }
}

impl VerifierView {
    /// What is to be done in this state. A failure ends the verification;
    /// so does the end of the manifest, with success, and a record whose
    /// digest is no hexadecimal text, with a format error. Otherwise the file
    /// of the first record not yet verified is to be hashed.
    pub open spec fn action(self) -> VerifyActionView {
        if let Some(e) = self.failure {
            VerifyActionView::Done(Err(e))
        } else if self.position >= self.manifest.len() {
            VerifyActionView::Done(Ok(()))
        } else {
            let record = self.manifest[self.position as int];
            match decoded(record.digest) {
                Err(cause) => VerifyActionView::Done(
                    Err(VerifyErrorView::FormatError { path: record.path, cause }),
                ),
                Ok(_) => VerifyActionView::Hash(record.path),
            }
        }
    }

    /// The state after `outcome` was supplied. Where a file was asked for,
    /// the outcome settles its record: content whose digest is the stored one
    /// lets the verification move on, other content is a mismatch, and a file
    /// that could not be read is an I/O error. Where none was asked for, the
    /// outcome changes nothing.
    pub open spec fn supplied(self, outcome: FileOutcomeView) -> VerifierView {
        if self.action() is Hash {
            let record = self.manifest[self.position as int];
            match outcome {
                FileOutcomeView::Content(content) => {
                    if sha256(content) == decoded_bytes(record.digest) {
                        VerifierView { position: self.position + 1, ..self }
                    } else {
                        VerifierView {
                            failure: Some(VerifyErrorView::Mismatch { path: record.path }),
                            ..self
                        }
                    }
                },
                FileOutcomeView::Unreadable => VerifierView {
                    failure: Some(VerifyErrorView::IoError { path: record.path }),
                    ..self
                },
            }
        } else {
            self
        }
    }
}

/// A verification in progress.
pub struct Verifier {
    manifest: Manifest,
    position: usize,
    failure: Option<VerifyError>,
}

/// Whether two byte strings are the same.
fn same_bytes(a: &[u8], b: &[u8]) -> (same: bool)
    ensures
        same == (a@ == b@),
{
    if a.len() != b.len() {
        return false;
    }
    let mut i: usize = 0;
    while i < a.len()
        invariant
            a@.len() == b@.len(),
            i <= a@.len(),
            forall|j: int| 0 <= j < i ==> a@[j] == b@[j],
        decreases a.len() - i,
    {
        if a[i] != b[i] {
            return false;
        }
        i += 1;
    }
    assert(a@ =~= b@);
    true
}

impl View for Verifier {
    type V = VerifierView;

    closed spec fn view(&self) -> VerifierView {
        VerifierView {
            manifest: self.manifest@,
            position: self.position as nat,
            failure: match self.failure {
                Some(e) => Some(e@),
                None => None,
            },
        }
    }
}

impl Verifier {
    /// Starts the verification of `manifest` at its first record.
    pub fn new(manifest: Manifest) -> (verifier: Verifier)
        ensures
            verifier@ == initial(manifest@),
    {
        Verifier { manifest, position: 0, failure: None }
    }

    /// Says what is to be done next, and changes nothing.
    pub fn action(&self) -> (action: VerifyAction)
        ensures
            action@ == self@.action(),
    {
        match &self.failure {
            Some(e) => {
                return VerifyAction::Done(Err(copy_error(e)));
            },
            None => {},
        }
        if self.position >= self.manifest.records.len() {
            return VerifyAction::Done(Ok(()));
        }
        let record = &self.manifest.records[self.position];
        match decode_hex(record.digest.as_str()) {
            Err(cause) => VerifyAction::Done(
                Err(VerifyError::FormatError { path: record.path.clone(), cause }),
            ),
            Ok(_) => VerifyAction::Hash(record.path.clone()),
        }
    }

    /// Takes the outcome of reading the file that [`Verifier::action`] asked
    /// for. An outcome that was not asked for is dropped.
    pub fn supply(&mut self, outcome: FileOutcome)
        ensures
            final(self)@ == old(self)@.supplied(outcome@),
    {
        if self.failure.is_some() || self.position >= self.manifest.records.len() {
            return ;
        }
        let record = &self.manifest.records[self.position];
        let expected = match decode_hex(record.digest.as_str()) {
            Err(_) => {
                return ;
            },
            Ok(bytes) => bytes,
        };
        match outcome {
            FileOutcome::Unreadable => {
                self.failure = Some(VerifyError::IoError { path: record.path.clone() });
            },
            FileOutcome::Content(hasher) => {
                let actual = hasher.finalize();
                if same_bytes(actual.as_slice(), expected.as_slice()) {
                    self.position = self.position + 1;
                } else {
                    self.failure = Some(VerifyError::Mismatch { path: record.path.clone() });
                }
            },
        }
    }
}

/// A copy of `error`.
fn copy_error(error: &VerifyError) -> (copy: VerifyError)
    ensures
        copy@ == error@,
{
    match error {
        VerifyError::FormatError { path, cause } => VerifyError::FormatError {
            path: path.clone(),
            cause: *cause,
        },
        VerifyError::IoError { path } => VerifyError::IoError { path: path.clone() },
        VerifyError::Mismatch { path } => VerifyError::Mismatch { path: path.clone() },
    }
}

/// The state after the outcomes of `outcomes` were supplied one after the
/// other, the first of them first.
pub open spec fn run(state: VerifierView, outcomes: Seq<FileOutcomeView>) -> VerifierView
    decreases outcomes.len(),
{
    if outcomes.len() == 0 {
        state
    } else {
        run(state, outcomes.drop_last()).supplied(outcomes.last())
    }
}

/// Whether `outcome` shows that `record` holds: the stored digest is
/// hexadecimal text, the file was read, and the digest of what was read is
/// the stored one.
pub open spec fn holds(record: FileRecordView, outcome: FileOutcomeView) -> bool {
    &&& decoded(record.digest) is Ok
    &&& outcome matches FileOutcomeView::Content(content)
    &&& sha256(content) == decoded_bytes(record.digest)
}

/// Whether the first `count` records of `manifest` hold by the first `count`
/// outcomes of `outcomes`, each record by the outcome at its own place.
pub open spec fn first_hold(
    manifest: Seq<FileRecordView>,
    outcomes: Seq<FileOutcomeView>,
    count: int,
) -> bool {
    &&& 0 <= count <= manifest.len()
    &&& count <= outcomes.len()
    &&& forall|i: int| 0 <= i < count ==> holds(#[trigger] manifest[i], outcomes[i])
}

/// A verification that has ended stays where it is: once the action is to
/// stop, no outcome changes the state, so the verdict is final.
pub proof fn verdict_is_final(state: VerifierView, outcomes: Seq<FileOutcomeView>)
    requires
        state.action() is Done,
    ensures
        run(state, outcomes) == state,
    decreases outcomes.len(),
{
    if outcomes.len() > 0 {
        verdict_is_final(state, outcomes.drop_last());
    }
}

/// Supplying outcomes in two batches is supplying them in one.
pub proof fn run_in_two(
    state: VerifierView,
    first: Seq<FileOutcomeView>,
    second: Seq<FileOutcomeView>,
)
    ensures
        run(state, first + second) == run(run(state, first), second),
    decreases second.len(),
{
    if second.len() == 0 {
        assert(first + second =~= first);
    } else {
        assert((first + second).drop_last() =~= first + second.drop_last());
        assert((first + second).last() == second.last());
        run_in_two(state, first, second.drop_last());
    }
}

/// While records hold, the verification moves on: after the outcomes of the
/// first `count` records, all of which hold, it stands at record `count`
/// without a failure.
pub proof fn holding_records_advance(
    manifest: Seq<FileRecordView>,
    outcomes: Seq<FileOutcomeView>,
    count: int,
)
    requires
        first_hold(manifest, outcomes, count),
    ensures
        run(initial(manifest), outcomes.take(count)) == (VerifierView {
            manifest,
            position: count as nat,
            failure: None,
        }),
    decreases count,
{
    if count == 0 {
        assert(outcomes.take(0).len() == 0);
    } else {
        holding_records_advance(manifest, outcomes, count - 1);
        assert(outcomes.take(count).drop_last() =~= outcomes.take(count - 1));
        assert(outcomes.take(count).last() == outcomes[count - 1]);
        assert(holds(manifest[count - 1], outcomes[count - 1]));
    }
}

/// The state in which a verification ends up is settled by the first record
/// that does not hold. After the outcomes of `outcomes`, of which the first
/// `count` show that their records hold, the verification is where the
/// record at `count` and its outcome put it; outcomes after that one change
/// nothing if the verification ended there.
proof fn settled_at(manifest: Seq<FileRecordView>, outcomes: Seq<FileOutcomeView>, count: int)
    requires
        first_hold(manifest, outcomes, count),
    ensures
        ({
            let reached = VerifierView { manifest, position: count as nat, failure: None };
            &&& reached.action() is Done ==> run(initial(manifest), outcomes) == reached
            &&& count < outcomes.len() && reached.supplied(outcomes[count]).action() is Done ==> run(
                initial(manifest),
                outcomes,
            ) == reached.supplied(outcomes[count])
        }),
{
    let reached = VerifierView { manifest, position: count as nat, failure: None };
    holding_records_advance(manifest, outcomes, count);
    let head = outcomes.take(count);
    let tail = outcomes.skip(count);
    assert(outcomes =~= head + tail);
    run_in_two(initial(manifest), head, tail);
    if reached.action() is Done {
        verdict_is_final(reached, tail);
    }
    if count < outcomes.len() && reached.supplied(outcomes[count]).action() is Done {
        let one = seq![outcomes[count]];
        let rest = outcomes.skip(count + 1);
        assert(tail =~= one + rest);
        run_in_two(reached, one, rest);
        assert(one.drop_last() =~= Seq::<FileOutcomeView>::empty());
        assert(run(reached, one) == reached.supplied(outcomes[count])) by {
            assert(run(reached, one.drop_last()) == reached);
            assert(one.last() == outcomes[count]);
        }
        verdict_is_final(reached.supplied(outcomes[count]), rest);
    }
}

/// A manifest verifies against the tree that it was made from: where every
/// record is the record of its file's present content, supplying the
/// contents in manifest order ends in success.
pub proof fn unmodified_tree_verifies(manifest: Seq<FileRecordView>, contents: Seq<Seq<u8>>)
    requires
        contents.len() == manifest.len(),
        forall|i: int|
            0 <= i < manifest.len() ==> (#[trigger] manifest[i]).digest == encoded(
                sha256(contents[i]),
            ),
    ensures
        run(
            initial(manifest),
            Seq::new(manifest.len(), |i: int| FileOutcomeView::Content(contents[i])),
        ).action() == VerifyActionView::Done(Ok(())),
{
    let outcomes = Seq::new(manifest.len(), |i: int| FileOutcomeView::Content(contents[i]));
    let count = manifest.len() as int;
    assert forall|i: int| 0 <= i < count implies holds(#[trigger] manifest[i], outcomes[i]) by {
        decode_inverts_encode(sha256(contents[i]));
    }
    settled_at(manifest, outcomes, count);
}

/// A file whose content changed is reported as a mismatch at its path: where
/// the records before `at` hold and the file of the record at `at` is read
/// with a digest other than the stored one, the verification ends with
/// `Mismatch` naming that record's path, whatever is supplied afterwards.
pub proof fn altered_file_is_reported(
    manifest: Seq<FileRecordView>,
    outcomes: Seq<FileOutcomeView>,
    at: int,
    content: Seq<u8>,
)
    requires
        first_hold(manifest, outcomes, at),
        at < manifest.len(),
        at < outcomes.len(),
        decoded(manifest[at].digest) is Ok,
        outcomes[at] == FileOutcomeView::Content(content),
        sha256(content) != decoded_bytes(manifest[at].digest),
    ensures
        run(initial(manifest), outcomes).action() == VerifyActionView::Done(
            Err(VerifyErrorView::Mismatch { path: manifest[at].path }),
        ),
{
    settled_at(manifest, outcomes, at);
}

/// A corrupt digest is a format error, never a mismatch: where the records
/// before `at` hold and the stored digest of the record at `at` does not
/// decode, the verification ends with `FormatError` naming that record's path
/// and the decoding error, whatever its file holds and whatever is supplied.
pub proof fn corrupt_digest_is_format_error(
    manifest: Seq<FileRecordView>,
    outcomes: Seq<FileOutcomeView>,
    at: int,
)
    requires
        first_hold(manifest, outcomes, at),
        at < manifest.len(),
        decoded(manifest[at].digest) is Err,
    ensures
        run(initial(manifest), outcomes).action() == VerifyActionView::Done(
            Err(
                VerifyErrorView::FormatError {
                    path: manifest[at].path,
                    cause: decoded(manifest[at].digest)->Err_0,
                },
            ),
        ),
{
    settled_at(manifest, outcomes, at);
}

/// A file that cannot be read is an I/O error: where the records before `at`
/// hold, the stored digest of the record at `at` decodes and its file is
/// unreadable, the verification ends with `IoError` naming that record's
/// path, whatever is supplied afterwards.
pub proof fn missing_file_is_io_error(
    manifest: Seq<FileRecordView>,
    outcomes: Seq<FileOutcomeView>,
    at: int,
)
    requires
        first_hold(manifest, outcomes, at),
        at < manifest.len(),
        at < outcomes.len(),
        decoded(manifest[at].digest) is Ok,
        outcomes[at] == FileOutcomeView::Unreadable,
    ensures
        run(initial(manifest), outcomes).action() == VerifyActionView::Done(
            Err(VerifyErrorView::IoError { path: manifest[at].path }),
        ),
{
    settled_at(manifest, outcomes, at);
}

} // verus!
