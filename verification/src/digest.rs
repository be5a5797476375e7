//! The content fingerprint: a SHA-256 digest rendered as uppercase
//! hexadecimal, used as the lookup key against the remote service.

use vstd::prelude::*;

use crate::hexfmt::{bytes_to_upper_hex, hex_of, lemma_hex_of_length};

verus! {

/// The SHA-256 digest of a byte sequence. The digest is a function of the
/// input bytes alone; its value is not modelled here.
pub uninterp spec fn sha256_of(bytes: Seq<u8>) -> Seq<u8>;

/// Relies on sha2::Sha256 through digest::Digest::digest: the SHA-256 digest
/// of the input, 32 bytes, depending on the input bytes alone.
#[verifier::external_body]
fn sha256_digest(bytes: &Vec<u8>) -> (r: Vec<u8>)
    ensures
        r@ == sha256_of(bytes@),
        r@.len() == 32,
{
    let out = <sha2::Sha256 as sha2::Digest>::digest(bytes.as_slice());
    out.to_vec()
}

/// The textual fingerprint of file contents: the SHA-256 digest rendered as
/// 64 uppercase hexadecimal digits.
pub open spec fn fingerprint_of(bytes: Seq<u8>) -> Seq<char> {
    hex_of(sha256_of(bytes))
}

/// Computes the fingerprint of the given file contents.
pub fn sha256_from_bytes(bytes: &Vec<u8>) -> (s: String)
    ensures
        s@ == fingerprint_of(bytes@),
        s@.len() == 64,
{
    let digest = sha256_digest(bytes);
    let s = bytes_to_upper_hex(&digest);
    proof {
        lemma_hex_of_length(digest@);
    }
    s
}

/// Fingerprints are deterministic: equal contents always yield the same
/// fingerprint, since the digest and its rendering are functions of the
/// bytes alone.
pub proof fn lemma_fingerprint_deterministic(a: Seq<u8>, b: Seq<u8>)
    requires
        a == b,
    ensures
        fingerprint_of(a) == fingerprint_of(b),
{
}

} // verus!
