//! The trusted boundary to the outside crates: URL-safe base64 decoding and
//! HMAC-SHA-256 tags. Everything else in this crate is verified against the
//! two contracts below.

use vstd::prelude::*;
use base64::Engine;
use hmac::{KeyInit, Mac};

verus! {

/// The bytes that URL-safe, unpadded base64 decoding yields for `s`, or
/// `None` when `s` is not valid base64. The result is a function of the
/// input bytes alone.
pub uninterp spec fn b64url_decoded(s: Seq<u8>) -> Option<Seq<u8>>;

/// Relies on base64's `URL_SAFE_NO_PAD` engine `decode`: it either yields
/// the decoded bytes or rejects the input, and depends on the input alone.
#[verifier::external_body]
pub(crate) fn b64url_decode(s: &[u8]) -> (r: Option<Vec<u8>>)
    ensures
        match r {
            Some(v) => b64url_decoded(s@) == Some(v@),
            None => b64url_decoded(s@) is None,
        },
{
    match base64::engine::general_purpose::URL_SAFE_NO_PAD.decode(s) {
        Ok(v) => Some(v),
        Err(_) => None,
    }
}

/// The HMAC-SHA-256 tag of `msg` under `key`: a function of the two alone.
pub uninterp spec fn hmac_sha256_tag(key: Seq<u8>, msg: Seq<u8>) -> Seq<u8>;

/// Relies on hmac's `Hmac<Sha256>`: the tag depends on key and message
/// alone, and keys of any length are accepted.
#[verifier::external_body]
pub(crate) fn hmac_sha256(key: &[u8], msg: &[u8]) -> (r: Vec<u8>)
    ensures
        r@ == hmac_sha256_tag(key@, msg@),
{
    let mut mac = <hmac::Hmac<sha2::Sha256> as KeyInit>::new_from_slice(key).expect(
        "HMAC accepts keys of any length",
    );
    Mac::update(&mut mac, msg);
    Mac::finalize(mac).into_bytes().to_vec()
}

} // verus!
