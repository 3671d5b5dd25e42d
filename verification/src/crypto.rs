//! The hash and MAC that the authentication token uses, from the `sha2` and
//! `hmac` crates.

use vstd::prelude::*;
use hmac::{Hmac, Mac};
use sha2::{Digest, Sha256};

verus! {

/// The SHA-256 digest of a byte string, as `sha2` computes it.
pub uninterp spec fn sha256(data: Seq<u8>) -> Seq<u8>;

/// The HMAC-SHA256 tag of `data` under `key`, as `hmac` computes it.
pub uninterp spec fn hmac_sha256(key: Seq<u8>, data: Seq<u8>) -> Seq<u8>;

/// Calls `<sha2::Sha256 as Digest>::digest`. Claims: the result is the
/// digest of `data` (a function of `data` alone) and is 32 bytes long
/// (`Sha256`'s output size is `U32`).
#[verifier::external_body]
pub(crate) fn sha256_digest(data: &[u8]) -> (d: Vec<u8>)
    ensures
        d@ == sha256(data@),
        d@.len() == 32,
{
    Sha256::digest(data).to_vec()
}

/// Calls `Hmac::<Sha256>::new_from_slice`, `Mac::update` and
/// `Mac::finalize`. Claims: the result is the tag of `data` under `key` (a
/// function of the two alone) and is 32 bytes long. `new_from_slice`
/// accepts a key of any length (it pads or hashes it), so the `expect`
/// never fires.
#[verifier::external_body]
pub(crate) fn hmac_sha256_tag(key: &[u8], data: &[u8]) -> (t: Vec<u8>)
    ensures
        t@ == hmac_sha256(key@, data@),
        t@.len() == 32,
{
    let mut mac = <Hmac<Sha256> as Mac>::new_from_slice(key).expect("HMAC takes a key of any size");
    mac.update(data);
    mac.finalize().into_bytes().to_vec()
}

/// Calls `Mac::verify_slice` on an `Hmac<Sha256>` keyed with `key` that has
/// processed `data`. Claims: the answer is `true` exactly when `tag` is the
/// tag of `data` under `key` (`verify_slice` refuses a tag of another
/// length and otherwise compares all bytes).
#[verifier::external_body]
pub(crate) fn hmac_sha256_verify(key: &[u8], data: &[u8], tag: &[u8]) -> (ok: bool)
    ensures
        ok == (tag@ == hmac_sha256(key@, data@)),
{
    let mut mac = <Hmac<Sha256> as Mac>::new_from_slice(key).expect("HMAC takes a key of any size");
    mac.update(data);
    mac.verify_slice(tag).is_ok()
}

} // verus!
