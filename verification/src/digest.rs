//! The content digest of the stored code, as reported by `get_code_hash`.

use vstd::prelude::*;

verus! {

/// The SHA-256 digest of a byte sequence. The digest itself is computed by an
/// outside crate; the library only names the result, which depends on the
/// input bytes alone.
pub uninterp spec fn sha256_of(bytes: Seq<u8>) -> Seq<u8>;

/// Relies on sha2::Sha256 (through the `Digest` trait): the digest is a
/// function of the input bytes alone, and is always 32 bytes long.
#[verifier::external_body]
pub(crate) fn sha256(bytes: &[u8]) -> (r: Vec<u8>)
    ensures
        r@ == sha256_of(bytes@),
        r@.len() == 32,
{
    <sha2::Sha256 as sha2::Digest>::digest(bytes).to_vec()
}

} // verus!
