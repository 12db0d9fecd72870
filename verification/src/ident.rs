//! Identifiers of assets: the first four bytes of the SHA-256 digest of the file's name.

use sha2::Digest;
use vstd::prelude::*;
use vstd::string::*;

verus! {

/// The SHA-256 digest of `data`.
pub uninterp spec fn sha256_digest(data: Seq<u8>) -> Seq<u8>;

/// Calls `sha2::Sha256::digest`: the result is the SHA-256 digest of `data`, which has
/// 32 bytes.
#[verifier::external_body]
fn sha256(data: &[u8]) -> (digest: Vec<u8>)
    ensures
        digest@ == sha256_digest(data@),
        digest@.len() == 32,
{
    sha2::Sha256::digest(data).to_vec()
}

/// The number that the first four bytes of `digest` write, the first byte being the
/// most significant.
pub open spec fn id_of_digest(digest: Seq<u8>) -> int
    recommends
        digest.len() >= 4,
{
    digest[0] * 0x100_0000 + digest[1] * 0x1_0000 + digest[2] * 0x100 + digest[3]
}

/// The identifier of the asset whose file is named `filename`.
pub open spec fn meme_id(filename: Seq<char>) -> u32 {
    id_of_digest(sha256_digest(vstd::utf8::encode_utf8(filename))) as u32
}

/// Reads an identifier off a digest.
pub fn id_from_digest(digest: &[u8]) -> (id: u32)
    requires
        digest@.len() >= 4,
    ensures
        id == id_of_digest(digest@),
{
    let b0: u32 = digest[0] as u32;
    let b1: u32 = digest[1] as u32;
    let b2: u32 = digest[2] as u32;
    let b3: u32 = digest[3] as u32;
    b0 * 0x100_0000 + b1 * 0x1_0000 + b2 * 0x100 + b3
}

/// The identifier of the asset whose file is named `filename`.
pub fn compute_id(filename: &str) -> (id: u32)
    ensures
        id == meme_id(filename@),
{
    let digest = sha256(filename.as_bytes());
    id_from_digest(digest.as_slice())
}

} // verus!
