//! The calls that leave this library: key generation and JSON rendering.
//! Nothing here is proved; each contract states what the called code is
//! relied upon to do.

use vstd::prelude::*;

verus! {

/// `ring`'s single-use private key for key agreement. Opaque: it can only be
/// carried and handed on.
#[verifier::external_type_specification]
#[verifier::external_body]
pub struct ExEphemeralPrivateKey(ring::agreement::EphemeralPrivateKey);

/// `ring`'s error, which deliberately carries no detail.
#[verifier::external_type_specification]
#[verifier::external_body]
pub struct ExUnspecified(ring::error::Unspecified);

/// `serde_json`'s tree of a JSON document.
#[verifier::external_type_specification]
#[verifier::external_body]
pub struct ExValue(serde_json::Value);

/// The bytes that `serde_json` prints for a value in its compact form.
pub uninterp spec fn json_encoding(value: serde_json::Value) -> Seq<u8>;

/// The public key that belongs to a private key, as the bytes that are sent
/// to the peer.
pub uninterp spec fn public_key_of(private_key: ring::agreement::EphemeralPrivateKey) -> Seq<u8>;

/// Calls `ring::agreement::EphemeralPrivateKey::generate` for X25519 with the
/// system's random source. The key is random, so nothing is claimed of it;
/// the call may fail.
#[verifier::external_body]
pub(crate) fn generate_private_key() -> (r: Result<
    ring::agreement::EphemeralPrivateKey,
    ring::error::Unspecified,
>) {
    let rng = ring::rand::SystemRandom::new();
    ring::agreement::EphemeralPrivateKey::generate(&ring::agreement::X25519, &rng)
}

/// Calls `ring::agreement::EphemeralPrivateKey::compute_public_key` and
/// copies the key's bytes out. Claimed: where the call succeeds, the bytes are
/// the public key of this private key, the same for the same key. The call
/// may fail.
#[verifier::external_body]
pub(crate) fn public_key_bytes(private_key: &ring::agreement::EphemeralPrivateKey) -> (r: Result<
    Vec<u8>,
    ring::error::Unspecified,
>)
    ensures
        r matches Ok(bytes) ==> bytes@ == public_key_of(*private_key),
{
    match private_key.compute_public_key() {
        Ok(key) => Ok(key.as_ref().to_vec()),
        Err(e) => Err(e),
    }
}

/// Calls `to_string` of `serde_json::Value` and takes the text's bytes.
/// Claimed: the result is the value's compact encoding, the same for the same
/// value.
#[verifier::external_body]
pub(crate) fn json_bytes(value: &serde_json::Value) -> (bytes: Vec<u8>)
    ensures
        bytes@ == json_encoding(*value),
{
    value.to_string().into_bytes()
}

} // verus!
