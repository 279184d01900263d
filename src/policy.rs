//! Per-request authentication and the pass/reject decision.
use vstd::prelude::*;
use crate::codec::{decode_signature, signature_decoding};
use crate::message::{build_message, canonical_message, header_view};
use crate::signature_check::{ed25519_accepts, verify};

verus! {

/// Why a request failed authentication.
#[derive(Clone, Copy, Debug, PartialEq, Eq, Structural)]
pub enum RequestError {
    /// The signature header is absent, or is not hex text of 64 bytes.
    MissingOrMalformedSignatureHeader,
    /// The signature does not verify over the canonical message.
    SignatureVerificationFailed,
}

/// What to do with a request that fails authentication.
#[derive(Clone, Copy, Debug, PartialEq, Eq, Structural)]
pub enum Policy {
    /// Answer as unauthorized; the next handler is never invoked.
    Reject,
    /// Forward it anyway, marked as not authenticated.
    Annotate,
}

/// The authentication status handed to the next handler.
#[derive(Clone, Copy, Debug, PartialEq, Eq, Structural)]
pub struct AuthenticationInfo {
    pub authenticated: bool,
}

/// The final decision on a request.
#[derive(Clone, Copy, Debug, PartialEq, Eq, Structural)]
pub enum Decision {
    /// Halt with an unauthorized-class response.
    Reject,
    /// Invoke the next handler, with this status attached.
    Forward(AuthenticationInfo),
}

/// The outcome of authenticating a request whose signature header holds
/// `signature`, whose timestamp header holds `timestamp`, and whose body is
/// `body`, under the public key `key`.
pub open spec fn request_outcome(
    key: Seq<u8>,
    signature: Option<Seq<u8>>,
    timestamp: Option<Seq<u8>>,
    body: Seq<u8>,
) -> Result<(), RequestError> {
    match signature {
        None => Err(RequestError::MissingOrMalformedSignatureHeader),
        Some(text) => match signature_decoding(text) {
            Err(_) => Err(RequestError::MissingOrMalformedSignatureHeader),
            Ok(sig) => if ed25519_accepts(key, canonical_message(timestamp, body), sig) {
                Ok(())
            } else {
                Err(RequestError::SignatureVerificationFailed)
            },
        },
    }
}

/// The decision for `outcome` under `policy`.
pub open spec fn decision_of(policy: Policy, outcome: Result<(), RequestError>) -> Decision {
    match outcome {
        Ok(()) => Decision::Forward(AuthenticationInfo { authenticated: true }),
        Err(_) => match policy {
            Policy::Reject => Decision::Reject,
            Policy::Annotate => Decision::Forward(AuthenticationInfo { authenticated: false }),
        },
    }
}

/// Authenticates one request under `public_key`, from the values of its
/// signature and timestamp headers (`None` when absent) and its whole body.
pub fn authenticate(
    public_key: &[u8],
    signature: Option<&[u8]>,
    timestamp: Option<&[u8]>,
    body: &[u8],
) -> (r: Result<(), RequestError>)
    ensures
        r == request_outcome(public_key@, header_view(signature), header_view(timestamp), body@),
{
    let text = match signature {
        None => {
            return Err(RequestError::MissingOrMalformedSignatureHeader);
        },
        Some(t) => t,
    };
    let sig = match decode_signature(text) {
        Err(_) => {
            return Err(RequestError::MissingOrMalformedSignatureHeader);
        },
        Ok(s) => s,
    };
    let message = build_message(timestamp, body);
    if verify(message.as_slice(), sig.as_slice(), public_key) {
        Ok(())
    } else {
        Err(RequestError::SignatureVerificationFailed)
    }
}

/// Decides what happens to a request whose authentication gave `outcome`.
pub fn decide(policy: Policy, outcome: &Result<(), RequestError>) -> (r: Decision)
    ensures
        r == decision_of(policy, *outcome),
{
    match outcome {
        Ok(()) => Decision::Forward(AuthenticationInfo { authenticated: true }),
        Err(_) => match policy {
            Policy::Reject => Decision::Reject,
            Policy::Annotate => Decision::Forward(AuthenticationInfo { authenticated: false }),
        },
    }
}

/// A request that carries, as hex, a signature that verifies over its
/// timestamp followed by its body is valid, and forwarded as authenticated
/// under either policy.
pub proof fn lemma_signed_request_is_forwarded(
    key: Seq<u8>,
    signature_text: Seq<u8>,
    timestamp: Option<Seq<u8>>,
    body: Seq<u8>,
    policy: Policy,
)
    requires
        signature_decoding(signature_text) is Ok,
        ed25519_accepts(
            key,
            canonical_message(timestamp, body),
            signature_decoding(signature_text)->Ok_0,
        ),
    ensures
        request_outcome(key, Some(signature_text), timestamp, body) == Ok::<(), RequestError>(()),
        decision_of(policy, request_outcome(key, Some(signature_text), timestamp, body))
            == Decision::Forward(AuthenticationInfo { authenticated: true }),
{
}

/// A request without a signature header fails, as a malformed signature
/// does: it is rejected under `Reject` and forwarded unauthenticated under
/// `Annotate`.
pub proof fn lemma_missing_signature_fails(
    key: Seq<u8>,
    timestamp: Option<Seq<u8>>,
    body: Seq<u8>,
)
    ensures
        request_outcome(key, None, timestamp, body) == Err::<(), RequestError>(
            RequestError::MissingOrMalformedSignatureHeader,
        ),
        decision_of(Policy::Reject, request_outcome(key, None, timestamp, body)) == Decision::Reject,
        decision_of(Policy::Annotate, request_outcome(key, None, timestamp, body))
            == Decision::Forward(AuthenticationInfo { authenticated: false }),
{
}

/// A missing timestamp header counts as an empty one: the signed message is
/// then the body alone.
pub proof fn lemma_missing_timestamp_is_empty(
    key: Seq<u8>,
    signature: Option<Seq<u8>>,
    body: Seq<u8>,
)
    ensures
        canonical_message(None, body) == body,
        request_outcome(key, signature, None, body) == request_outcome(
            key,
            signature,
            Some(Seq::<u8>::empty()),
            body,
        ),
{
    assert(canonical_message(None, body) =~= body);
    assert(canonical_message(Some(Seq::<u8>::empty()), body) =~= body);
}

/// A signature header that does not decode leads to the same decision as a
/// signature that fails verification, under either policy.
pub proof fn lemma_undecodable_signature_is_invalid(
    key: Seq<u8>,
    signature_text: Seq<u8>,
    timestamp: Option<Seq<u8>>,
    body: Seq<u8>,
    policy: Policy,
)
    requires
        signature_decoding(signature_text) is Err,
    ensures
        request_outcome(key, Some(signature_text), timestamp, body) is Err,
        decision_of(policy, request_outcome(key, Some(signature_text), timestamp, body))
            == decision_of(
            policy,
            Err::<(), RequestError>(RequestError::SignatureVerificationFailed),
        ),
{
}

} // verus!
