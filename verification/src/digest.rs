//! Trusted bindings of the cryptographic primitives from `ring`.
//!
//! What the bits of a digest are is not restated here: each primitive's
//! result is named by an uninterpreted function of the input bytes alone,
//! and everything downstream is stated exactly in terms of that name.

use crate::encode::{hex_lower, spec_hex_lower};
use vstd::prelude::*;
use vstd::string::StringSliceAdditionalSpecFns;

verus! {

/// The SHA-256 digest of a byte sequence.
pub uninterp spec fn sha256_of(data: Seq<u8>) -> Seq<u8>;

/// The HMAC-SHA256 tag of a message under a key.
pub uninterp spec fn hmac_sha256_of(key: Seq<u8>, msg: Seq<u8>) -> Seq<u8>;

/// Relies on `ring::digest::digest` with `ring::digest::SHA256`: the SHA-256
/// digest of the input bytes, a function of those bytes alone, 32 bytes
/// long.
#[verifier::external_body]
pub(crate) fn sha256_str(s: &str) -> (r: Vec<u8>)
    ensures
        r@ == sha256_of(s.spec_bytes()),
        r@.len() == 32,
{
    ring::digest::digest(&ring::digest::SHA256, s.as_bytes()).as_ref().to_vec()
}

/// Relies on `ring::hmac::Key::new` and `ring::hmac::sign` with
/// `ring::hmac::HMAC_SHA256`: the HMAC-SHA256 tag of the message under the
/// key, a function of the two byte strings alone, 32 bytes long.
#[verifier::external_body]
pub(crate) fn hmac_sha256_str(key: &str, msg: &str) -> (r: Vec<u8>)
    ensures
        r@ == hmac_sha256_of(key.spec_bytes(), msg.spec_bytes()),
        r@.len() == 32,
{
    let k = ring::hmac::Key::new(ring::hmac::HMAC_SHA256, key.as_bytes());
    ring::hmac::sign(&k, msg.as_bytes()).as_ref().to_vec()
}

/// The lowercase hex SHA-256 digest of a string's bytes.
pub fn sha256_hex(s: &str) -> (r: String)
    ensures
        r@ == spec_hex_lower(sha256_of(s.spec_bytes())),
{
    let d = sha256_str(s);
    hex_lower(d.as_slice())
}

/// The lowercase hex HMAC-SHA256 tag of a message under a key.
pub fn hmac_sha256_hex(key: &str, msg: &str) -> (r: String)
    ensures
        r@ == spec_hex_lower(hmac_sha256_of(key.spec_bytes(), msg.spec_bytes())),
{
    let t = hmac_sha256_str(key, msg);
    hex_lower(t.as_slice())
}

} // verus!
