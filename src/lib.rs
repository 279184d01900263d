//! Request authentication by detached Ed25519 signatures carried in headers.
//!
//! The library holds the verification engine: decoding of key and signature
//! text, the canonical signed message, body capture with replay, the
//! signature check, the pass/reject decision, and the configuration builder.
//! Hooking it into an HTTP framework is left to the caller.
pub mod codec;
pub mod message;
pub mod body;
pub mod signature_check;
pub mod policy;
pub mod config;

pub use body::{capture, BodyCapture};
pub use codec::{decode_public_key, decode_signature, DecodeError};
pub use config::{
    AuthenticatorBuilder, ConfigError, Ed25519Authenticator, Ed25519AuthenticatorMiddleware,
    MiddlewareData,
};
pub use message::build_message;
pub use policy::{authenticate, decide, AuthenticationInfo, Decision, Policy, RequestError};
pub use signature_check::verify;
