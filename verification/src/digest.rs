//! Keyed-digest primitives for request signing. The digests themselves are
//! computed by outside cryptographic crates; their results are named here and
//! everything around them (concatenation, hexadecimal rendering) is verified.

use md5::Digest;
use vstd::prelude::*;

use crate::hex::{hex_of_bytes, is_lower_hex_char, lemma_hex_of_bytes_shape, to_lower_hex};

verus! {

/// The 16-byte MD5 digest of a string's UTF-8 bytes, as the md-5 crate
/// computes it: a function of the input alone.
pub uninterp spec fn md5_of(s: Seq<char>) -> Seq<u8>;

/// The 32-byte SHA-256 digest of a string's UTF-8 bytes, as the sha2 crate
/// computes it: a function of the input alone.
pub uninterp spec fn sha256_of(s: Seq<char>) -> Seq<u8>;

/// Relies on the md-5 crate: `Md5::digest` computes the 16-byte MD5 digest
/// of the input bytes, a pure function of its argument.
#[verifier::external_body]
fn md5_digest(s: &str) -> (r: Vec<u8>)
    ensures
        r@ == md5_of(s@),
        r@.len() == 16,
{
    md5::Md5::digest(s.as_bytes()).to_vec()
}

/// Relies on the sha2 crate: `Sha256::digest` computes the 32-byte SHA-256
/// digest of the input bytes, a pure function of its argument.
#[verifier::external_body]
fn sha256_digest(s: &str) -> (r: Vec<u8>)
    ensures
        r@ == sha256_of(s@),
        r@.len() == 32,
{
    sha2::Sha256::digest(s.as_bytes()).to_vec()
}

/// The MD5 digest rendered in lowercase hexadecimal: the form the Baidu
/// signature takes on the wire.
pub open spec fn md5_hex(s: Seq<char>) -> Seq<char> {
    hex_of_bytes(md5_of(s))
}

/// The SHA-256 digest rendered in lowercase hexadecimal: the form the Youdao
/// signature takes on the wire.
pub open spec fn sha256_hex(s: Seq<char>) -> Seq<char> {
    hex_of_bytes(sha256_of(s))
}

/// MD5 of the input, rendered in lowercase hexadecimal: 32 lowercase
/// hexadecimal digits.
pub fn md5_hex_string(s: &str) -> (r: String)
    ensures
        r@ == md5_hex(s@),
        r@.len() == 32,
        forall|i: int| 0 <= i < r@.len() ==> is_lower_hex_char(#[trigger] r@[i]),
{
    let d = md5_digest(s);
    proof {
        lemma_hex_of_bytes_shape(d@);
    }
    to_lower_hex(&d)
}

/// SHA-256 of the input, rendered in lowercase hexadecimal: 64 lowercase
/// hexadecimal digits.
pub fn sha256_hex_string(s: &str) -> (r: String)
    ensures
        r@ == sha256_hex(s@),
        r@.len() == 64,
        forall|i: int| 0 <= i < r@.len() ==> is_lower_hex_char(#[trigger] r@[i]),
{
    let d = sha256_digest(s);
    proof {
        lemma_hex_of_bytes_shape(d@);
    }
    to_lower_hex(&d)
}

} // verus!
