//! File-integrity checking: a manifest records the SHA-256 digest of every
//! file under a directory tree, and a later pass re-hashes the files and
//! compares them against the manifest.
//!
//! The crate holds the decisions of that process and proves them: the hex
//! codec for digests, the digest engine, the breadth-first scanner and the
//! verifier. Reading directories and files is left to the caller, which feeds
//! what it read to the state machines defined here.

pub mod config;
pub mod digest;
pub mod hex;
pub mod manifest;
pub mod scanner;
pub mod verification;
