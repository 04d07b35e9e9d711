use vboot::digest::Hasher;
use vboot::hex::DecodeHexError;
use vboot::manifest::{FileRecord, Manifest};
use vboot::scanner::Scanner;
use vboot::verification::{FileOutcome, Verifier, VerifyAction, VerifyError};

fn hashed(content: &[u8]) -> Hasher {
    let mut hasher = Hasher::new();
    hasher.update(content);
    hasher
}

fn read(content: &[u8]) -> FileOutcome {
    FileOutcome::Content(hashed(content))
}

fn scanned() -> Manifest {
    let mut scanner = Scanner::new("root".to_string());
    assert_eq!(scanner.next_directory(), Some("root".to_string()));
    scanner.found_file("root/a.txt".to_string(), hashed(b"hello"));
    scanner.found_directory("root/sub".to_string());
    assert_eq!(scanner.next_directory(), Some("root/sub".to_string()));
    scanner.found_file("root/sub/b.txt".to_string(), hashed(b"world"));
    assert_eq!(scanner.next_directory(), None);
    scanner.finish().unwrap()
}

fn hash(path: &str) -> VerifyAction {
    VerifyAction::Hash(path.to_string())
}

#[test]
fn verify_an_empty_manifest_succeeds_at_once() {
    let verifier = Verifier::new(Manifest::new());
    assert_eq!(verifier.action(), VerifyAction::Done(Ok(())));
}

#[test]
fn verify_an_unmodified_tree_succeeds() {
    let mut verifier = Verifier::new(scanned());
    assert_eq!(verifier.action(), hash("root/a.txt"));
    verifier.supply(read(b"hello"));
    assert_eq!(verifier.action(), hash("root/sub/b.txt"));
    verifier.supply(read(b"world"));
    assert_eq!(verifier.action(), VerifyAction::Done(Ok(())));
}

#[test]
fn verify_reports_the_altered_file() {
    let mut verifier = Verifier::new(scanned());
    assert_eq!(verifier.action(), hash("root/a.txt"));
    verifier.supply(read(b"hello"));
    assert_eq!(verifier.action(), hash("root/sub/b.txt"));
    verifier.supply(read(b"World"));
    let expected = VerifyError::Mismatch { path: "root/sub/b.txt".to_string() };
    assert_eq!(verifier.action(), VerifyAction::Done(Err(expected)));
    assert_ne!(verifier.action(), VerifyAction::Done(Ok(())));
}

#[test]
fn verify_stops_at_the_first_mismatch() {
    let mut verifier = Verifier::new(scanned());
    verifier.supply(read(b"changed"));
    let expected = VerifyError::Mismatch { path: "root/a.txt".to_string() };
    assert_eq!(verifier.action(), VerifyAction::Done(Err(expected.clone())));
    verifier.supply(read(b"world"));
    verifier.supply(read(b"hello"));
    assert_eq!(verifier.action(), VerifyAction::Done(Err(expected)));
}

#[test]
fn verify_a_corrupt_digest_is_a_format_error() {
    let mut manifest = scanned();
    manifest.records[1].digest = "zz".repeat(32);
    let mut verifier = Verifier::new(manifest);
    assert_eq!(verifier.action(), hash("root/a.txt"));
    verifier.supply(read(b"hello"));
    let expected = VerifyError::FormatError {
        path: "root/sub/b.txt".to_string(),
        cause: DecodeHexError::InvalidDigit,
    };
    assert_eq!(verifier.action(), VerifyAction::Done(Err(expected.clone())));
    verifier.supply(read(b"world"));
    assert_eq!(verifier.action(), VerifyAction::Done(Err(expected)));
}

#[test]
fn verify_a_digest_of_odd_length_is_a_format_error() {
    let mut manifest = scanned();
    manifest.records[0].digest.pop();
    let mut verifier = Verifier::new(manifest);
    let expected = VerifyError::FormatError {
        path: "root/a.txt".to_string(),
        cause: DecodeHexError::OddLength,
    };
    assert_eq!(verifier.action(), VerifyAction::Done(Err(expected.clone())));
    verifier.supply(FileOutcome::Unreadable);
    assert_eq!(verifier.action(), VerifyAction::Done(Err(expected)));
}

#[test]
fn verify_a_missing_file_is_an_io_error() {
    let mut verifier = Verifier::new(scanned());
    assert_eq!(verifier.action(), hash("root/a.txt"));
    verifier.supply(FileOutcome::Unreadable);
    let expected = VerifyError::IoError { path: "root/a.txt".to_string() };
    assert_eq!(verifier.action(), VerifyAction::Done(Err(expected)));
}

#[test]
fn verify_a_missing_file_after_a_good_one() {
    let mut verifier = Verifier::new(scanned());
    verifier.supply(read(b"hello"));
    verifier.supply(FileOutcome::Unreadable);
    let expected = VerifyError::IoError { path: "root/sub/b.txt".to_string() };
    assert_eq!(verifier.action(), VerifyAction::Done(Err(expected)));
}

#[test]
fn verify_a_short_digest_is_a_mismatch() {
    let mut manifest = Manifest::new();
    manifest.push(FileRecord { path: "f".to_string(), digest: "2cf2".to_string() });
    let mut verifier = Verifier::new(manifest);
    assert_eq!(verifier.action(), hash("f"));
    verifier.supply(read(b"hello"));
    let expected = VerifyError::Mismatch { path: "f".to_string() };
    assert_eq!(verifier.action(), VerifyAction::Done(Err(expected)));
}

#[test]
fn verify_reads_a_digest_in_uppercase() {
    let mut manifest = Manifest::new();
    manifest.push(FileRecord {
        path: "f".to_string(),
        digest: "2CF24DBA5FB0A30E26E83B2AC5B9E29E1B161E5C1FA7425E73043362938B9824".to_string(),
    });
    let mut verifier = Verifier::new(manifest);
    verifier.supply(read(b"hello"));
    assert_eq!(verifier.action(), VerifyAction::Done(Ok(())));
}

#[test]
fn verify_action_changes_nothing() {
    let verifier = Verifier::new(scanned());
    assert_eq!(verifier.action(), hash("root/a.txt"));
    assert_eq!(verifier.action(), hash("root/a.txt"));
}

#[test]
fn verify_drops_outcomes_after_success() {
    let mut verifier = Verifier::new(scanned());
    verifier.supply(read(b"hello"));
    verifier.supply(read(b"world"));
    verifier.supply(FileOutcome::Unreadable);
    verifier.supply(read(b"other"));
    assert_eq!(verifier.action(), VerifyAction::Done(Ok(())));
}

#[test]
fn verify_error_names_its_path() {
    let format = VerifyError::FormatError { path: "p".to_string(), cause: DecodeHexError::OddLength };
    let io = VerifyError::IoError { path: "q".to_string() };
    let mismatch = VerifyError::Mismatch { path: "r".to_string() };
    assert_eq!(format.path(), "p");
    assert_eq!(io.path(), "q");
    assert_eq!(mismatch.path(), "r");
}

#[test]
fn verify_error_messages() {
    let format = VerifyError::FormatError {
        path: "/boot/x".to_string(),
        cause: DecodeHexError::InvalidDigit,
    };
    assert_eq!(format.message(), "Invalid digest for file /boot/x: invalid digit found in string");
    let odd = VerifyError::FormatError {
        path: "/boot/x".to_string(),
        cause: DecodeHexError::OddLength,
    };
    assert_eq!(
        odd.message(),
        "Invalid digest for file /boot/x: input string has an odd number of bytes"
    );
    let io = VerifyError::IoError { path: "/boot/y".to_string() };
    assert_eq!(io.message(), "Unable to read file /boot/y");
    let mismatch = VerifyError::Mismatch { path: "/boot/z".to_string() };
    assert_eq!(mismatch.message(), "File /boot/z does not match!");
}
