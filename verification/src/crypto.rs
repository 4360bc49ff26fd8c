use hmac::{Hmac, Mac};
use sha2::{Digest, Sha256};
use vstd::prelude::*;

verus! {

/// The SHA-256 digest of `data`.
pub uninterp spec fn sha256_digest(data: Seq<u8>) -> Seq<u8>;

/// The HMAC-SHA-256 tag of `data` under `key`.
pub uninterp spec fn hmac_sha256(key: Seq<u8>, data: Seq<u8>) -> Seq<u8>;

/// Calls `sha2::Sha256::digest`: the 32-byte SHA-256 digest of `data`.
#[verifier::external_body]
pub(crate) fn sha256(data: &[u8]) -> (digest: Vec<u8>)
    ensures
        digest@ == sha256_digest(data@),
        digest@.len() == 32,
{
    Sha256::digest(data).to_vec()
}

/// Computes HMAC-SHA-256 with `hmac::Hmac<Sha256>`: `new_from_slice(key)`
/// (which accepts a key of any length and never fails), `chain_update(data)`,
/// `finalize().into_bytes()`. The tag is 32 bytes long.
#[verifier::external_body]
pub(crate) fn hmac_sha256_tag(key: &[u8], data: &[u8]) -> (tag: Vec<u8>)
    ensures
        tag@ == hmac_sha256(key@, data@),
        tag@.len() == 32,
{
    let mac = <Hmac<Sha256> as Mac>::new_from_slice(key).expect("HMAC takes a key of any length");
    mac.chain_update(data).finalize().into_bytes().to_vec()
}

/// Checks `tag` with `hmac::Hmac<Sha256>`: `new_from_slice(key)`,
/// `chain_update(data)`, `verify_slice(tag)`. `verify_slice` succeeds exactly
/// when `tag` has the 32-byte length of the tag and equals it (compared in
/// constant time).
#[verifier::external_body]
pub(crate) fn hmac_sha256_verify(key: &[u8], data: &[u8], tag: &[u8]) -> (valid: bool)
    ensures
        valid == (tag@ == hmac_sha256(key@, data@)),
        valid ==> tag@.len() == 32,
{
    let mac = <Hmac<Sha256> as Mac>::new_from_slice(key).expect("HMAC takes a key of any length");
    mac.chain_update(data).verify_slice(tag).is_ok()
}

} // verus!
