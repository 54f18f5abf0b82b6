//! Fast content fingerprinting: a file is identified by a digest of its
//! leading bytes and its size, truncated and rendered as sixteen hex
//! characters. Deliberately not a full-content hash: identification, not
//! integrity.

use crate::strfmt::hex_digit_lower;
use sha2::Digest;
use vstd::bytes::{spec_u64_to_le_bytes, u64_to_le_bytes};
use vstd::prelude::*;
use vstd::slice::slice_to_vec;

verus! {

/// Errors that can occur when computing fingerprints.
#[derive(Debug, Clone)]
pub enum HashError {
    /// The file could not be opened or fully read.
    IoError(String),
}

/// The descriptive text of a fingerprint error.
pub open spec fn hash_error_text(e: HashError) -> Seq<char> {
    match e {
        HashError::IoError(m) => "Failed to open file: "@ + m@,
    }
}

impl HashError {
    /// Renders the error for logs and operators.
    pub fn message(&self) -> (r: String)
        ensures
            r@ == hash_error_text(*self),
    {
        let mut out = String::new();
        match self {
            HashError::IoError(m) => {
                out.append("Failed to open file: ");
                out.append(m.as_str());
            },
        }
        out
    }
}

/// The SHA-256 digest of a byte sequence. The algorithm itself is the
/// digest crate's business; to this library the digest is a fixed
/// function of its input alone, which is all the fingerprint relies on.
pub uninterp spec fn sha256_of(data: Seq<u8>) -> Seq<u8>;

/// Relies on sha2's Sha256 (through the Digest trait): the digest is 32
/// bytes and depends on the input bytes alone.
#[verifier::external_body]
fn sha256(data: &[u8]) -> (r: Vec<u8>)
    ensures
        r@ == sha256_of(data@),
        r@.len() == 32,
{
    sha2::Sha256::digest(data).to_vec()
}

/// Lowercase hexadecimal rendering of bytes: two digits per byte.
pub open spec fn hex_of(bytes: Seq<u8>) -> Seq<char>
    decreases bytes.len(),
{
    if bytes.len() == 0 {
        Seq::empty()
    } else {
        hex_of(bytes.drop_last()) + seq![
            hex_digit_lower(bytes.last() as int / 16),
            hex_digit_lower(bytes.last() as int % 16),
        ]
    }
}

/// A hex rendering is exactly two characters per byte.
pub proof fn lemma_hex_of_len(bytes: Seq<u8>)
    ensures
        hex_of(bytes).len() == 2 * bytes.len(),
    decreases bytes.len(),
{
    if bytes.len() > 0 {
        lemma_hex_of_len(bytes.drop_last());
    }
}

/// Relies on hex::encode: lowercase, two digits per byte, most
/// significant digit of each byte first.
#[verifier::external_body]
fn hex_lower(bytes: &Vec<u8>) -> (r: String)
    ensures
        r@ == hex_of(bytes@),
{
    hex::encode(bytes)
}

/// The fingerprint hash of a file with the given leading bytes and size:
/// the first eight digest bytes of the leading bytes followed by the
/// little-endian size, as sixteen lowercase hex characters.
pub open spec fn fingerprint_hash(head: Seq<u8>, size: u64) -> Seq<char> {
    hex_of(sha256_of(head + spec_u64_to_le_bytes(size)).take(8))
}

/// Fingerprint determinism: the fingerprint is a function of the leading
/// bytes and the size alone, so two files that agree on both collide.
pub proof fn lemma_fingerprint_deterministic(h1: Seq<u8>, s1: u64, h2: Seq<u8>, s2: u64)
    requires
        h1 == h2,
        s1 == s2,
    ensures
        fingerprint_hash(h1, s1) == fingerprint_hash(h2, s2),
{
}

/// Computes the fingerprint of a file from its leading bytes and size:
/// the embedding application reads `min(65536, size)` bytes from the
/// start of the file and hands them here, treating a short read as an
/// error rather than fingerprinting a truncated prefix.
pub fn fingerprint_bytes(head: &[u8], size: u64) -> (r: (String, u64))
    requires
        head@.len() == if size < 65536 {
            size as int
        } else {
            65536int
        },
    ensures
        r.0@ == fingerprint_hash(head@, size),
        r.0@.len() == 16,
        r.1 == size,
{
    let mut buf: Vec<u8> = slice_to_vec(head);
    let mut size_bytes = u64_to_le_bytes(size);
    buf.append(&mut size_bytes);
    proof {
        assert(buf@ =~= head@ + spec_u64_to_le_bytes(size));
    }
    let mut digest = sha256(buf.as_slice());
    digest.truncate(8);
    let hash = hex_lower(&digest);
    proof {
        assert(digest@ =~= sha256_of(head@ + spec_u64_to_le_bytes(size)).take(8));
        lemma_hex_of_len(digest@);
    }
    (hash, size)
}

} // verus!
