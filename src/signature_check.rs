//! The Ed25519 signature check.
use ed25519_dalek::Verifier;
use vstd::prelude::*;

verus! {

/// Whether Ed25519 verification accepts `signature` on `message` under the
/// public key `key`, all given as bytes.
pub uninterp spec fn ed25519_accepts(key: Seq<u8>, message: Seq<u8>, signature: Seq<u8>) -> bool;

/// Relies on ed25519_dalek 1.x: `PublicKey::from_bytes` and
/// `Signature::from_bytes` to turn the bytes into a key and a signature
/// (both fail on a wrong length), and `Verifier::verify` for the check.
/// The outcome depends on the three byte strings alone.
#[verifier::external_body]
fn ed25519_verify(key: &[u8], message: &[u8], signature: &[u8]) -> (r: bool)
    ensures
        r == ed25519_accepts(key@, message@, signature@),
        key@.len() != 32 ==> !r,
        signature@.len() != 64 ==> !r,
{
    match (ed25519_dalek::PublicKey::from_bytes(key), ed25519_dalek::Signature::from_bytes(signature)) {
        (Ok(k), Ok(s)) => k.verify(message, &s).is_ok(),
        _ => false,
    }
}

/// Checks `signature` on `message` under `public_key`; true when it is valid.
pub fn verify(message: &[u8], signature: &[u8], public_key: &[u8]) -> (r: bool)
    ensures
        r == ed25519_accepts(public_key@, message@, signature@),
{
    ed25519_verify(public_key, message, signature)
}

} // verus!
