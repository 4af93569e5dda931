//! A local encrypted vault: key hierarchy, authenticated records, deterministic
//! metadata, publication plans and verification-first reads.
//!
//! Everything here computes on plain values. Databases, sockets, files and
//! network connections belong to the programs around this library, which hand
//! over the rows they read and carry out the transactions they are given.
use crate::cde::decode_manifest;
use vstd::prelude::*;

pub mod backup;
pub mod bench;
pub mod bytes;
pub mod cde;
pub mod cli;
pub mod crypto;
pub mod daemon;
pub mod error;
pub mod format;
pub mod guarantees;
pub mod https_provider;
pub mod path_safety;
pub mod primitives;
pub mod private_file;
pub mod protocol;
pub mod provider;
pub mod reader;
pub mod storage;
pub mod text;
pub mod vault;
pub mod wire;
pub mod witness;
pub mod witness_service;
pub mod writer;

verus! {

/// Exercises the canonical Manifest decoder with untrusted bytes for fuzzing. It returns for
/// every input and discards what the decoder found.
pub fn fuzz_decode_manifest(input: &[u8]) {
    let _ = decode_manifest(input);
}

} // verus!
