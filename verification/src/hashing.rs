//! Content hashing of dependency-spec files.
//!
//! The digest is a pure function of the input bytes: identical bytes give an
//! identical hash, and the digest algorithm makes any byte change alter the
//! result with overwhelming probability.

use vstd::prelude::*;
use vstd::string::StringSliceAdditionalSpecFns;

verus! {

/// The hex digest that the hash function assigns to a byte sequence.
pub uninterp spec fn sha1_hex_of(bytes: Seq<u8>) -> Seq<char>;

/// A lowercase hexadecimal digit.
pub open spec fn is_hex_char(c: char) -> bool {
    ('0' <= c && c <= '9') || ('a' <= c && c <= 'f')
}

/// A well-formed digest string: forty lowercase hex digits.
pub open spec fn is_hash_text(s: Seq<char>) -> bool {
    s.len() == 40 && forall|i: int| 0 <= i < s.len() ==> is_hex_char(#[trigger] s[i])
}

/// Relies on sha1::Sha1 (the sha1_smol implementation): the digest is a
/// function of the input bytes alone, and its text form is forty lowercase
/// hex digits (five u32 words, each written `{:08x}`).
#[verifier::external_body]
fn sha1_hex(data: &[u8]) -> (r: String)
    ensures
        r@ == sha1_hex_of(data@),
        is_hash_text(r@),
{
    let mut m = sha1::Sha1::new();
    m.update(data);
    m.digest().to_string()
}

/// Computes the content hash of a dependency-spec file's text.
pub fn compute_file_hash(contents: &str) -> (r: String)
    ensures
        r@ == sha1_hex_of(contents.spec_bytes()),
        is_hash_text(r@),
{
    sha1_hex(contents.as_bytes())
}

/// Hashing is deterministic: the same byte sequence always yields the same
/// digest.
pub proof fn lemma_hash_deterministic(a: Seq<u8>, b: Seq<u8>)
    requires
        a == b,
    ensures
        sha1_hex_of(a) == sha1_hex_of(b),
{
}

} // verus!
