//! Configuration: the builder, the validated settings, and the types that
//! carry them into a request pipeline.
use std::rc::Rc;
use vstd::prelude::*;
use vstd::utf8::encode_utf8;
use crate::codec::{decode_public_key, public_key_decoding, DecodeError};
use crate::message::header_view;
use crate::policy::{authenticate, decide, decision_of, request_outcome, Decision, Policy, RequestError};

verus! {

/// Why a configuration could not be built.
#[derive(Clone, Copy, Debug, PartialEq, Eq, Structural)]
pub enum ConfigError {
    /// No public key was given.
    MissingKey,
    /// The public key text is not hex for exactly 32 bytes.
    InvalidKeyEncoding(DecodeError),
}

/// Collects the settings of an authenticator; `build` validates them.
pub struct AuthenticatorBuilder {
    public_key: Option<String>,
    signature_header: Option<String>,
    timestamp_header: Option<String>,
    reject: bool,
}

/// The view of an optional string.
pub open spec fn opt_text(s: Option<String>) -> Option<Seq<char>> {
    match s {
        Some(t) => Some(t@),
        None => None,
    }
}

/// `name`, or `default` when no name was set.
pub open spec fn name_or(name: Option<Seq<char>>, default: Seq<char>) -> Seq<char> {
    match name {
        Some(n) => n,
        None => default,
    }
}

/// Outcome of validating the public key setting `key`.
pub open spec fn key_check(key: Option<Seq<char>>) -> Result<Seq<u8>, ConfigError> {
    match key {
        None => Err(ConfigError::MissingKey),
        Some(text) => match public_key_decoding(encode_utf8(text)) {
            Ok(bytes) => Ok(bytes),
            Err(e) => Err(ConfigError::InvalidKeyEncoding(e)),
        },
    }
}

impl AuthenticatorBuilder {
    /// The public key text, if set.
    pub closed spec fn public_key_setting(&self) -> Option<Seq<char>> {
        opt_text(self.public_key)
    }

    /// The signature header name, if set.
    pub closed spec fn signature_header_setting(&self) -> Option<Seq<char>> {
        opt_text(self.signature_header)
    }

    /// The timestamp header name, if set.
    pub closed spec fn timestamp_header_setting(&self) -> Option<Seq<char>> {
        opt_text(self.timestamp_header)
    }

    /// Whether failed requests are to be rejected.
    pub closed spec fn reject_setting(&self) -> bool {
        self.reject
    }

    /// A builder with nothing set, and requests not rejected.
    pub fn new() -> (r: AuthenticatorBuilder)
        ensures
            r.public_key_setting() is None,
            r.signature_header_setting() is None,
            r.timestamp_header_setting() is None,
            !r.reject_setting(),
    {
        AuthenticatorBuilder {
            public_key: None,
            signature_header: None,
            timestamp_header: None,
            reject: false,
        }
    }

    /// Sets the hex text of the public key that signatures are checked with.
    pub fn public_key(self, public_key: &str) -> (r: AuthenticatorBuilder)
        ensures
            r.public_key_setting() == Some(public_key@),
            r.signature_header_setting() == self.signature_header_setting(),
            r.timestamp_header_setting() == self.timestamp_header_setting(),
            r.reject_setting() == self.reject_setting(),
    {
        AuthenticatorBuilder { public_key: Some(public_key.to_owned()), ..self }
    }

    /// Sets the name of the header that carries the signature.
    pub fn signature_header(self, header: &str) -> (r: AuthenticatorBuilder)
        ensures
            r.public_key_setting() == self.public_key_setting(),
            r.signature_header_setting() == Some(header@),
            r.timestamp_header_setting() == self.timestamp_header_setting(),
            r.reject_setting() == self.reject_setting(),
    {
        AuthenticatorBuilder { signature_header: Some(header.to_owned()), ..self }
    }

    /// Sets the name of the header that carries the timestamp.
    pub fn timestamp_header(self, header: &str) -> (r: AuthenticatorBuilder)
        ensures
            r.public_key_setting() == self.public_key_setting(),
            r.signature_header_setting() == self.signature_header_setting(),
            r.timestamp_header_setting() == Some(header@),
            r.reject_setting() == self.reject_setting(),
    {
        AuthenticatorBuilder { timestamp_header: Some(header.to_owned()), ..self }
    }

    /// Makes requests that fail authentication be rejected.
    pub fn reject(self) -> (r: AuthenticatorBuilder)
        ensures
            r.public_key_setting() == self.public_key_setting(),
            r.signature_header_setting() == self.signature_header_setting(),
            r.timestamp_header_setting() == self.timestamp_header_setting(),
            r.reject_setting(),
    {
        AuthenticatorBuilder { reject: true, ..self }
    }

    /// Validates the settings into an authenticator. Fails without a public
    /// key, or when the key text is not hex for exactly 32 bytes.
    pub fn build(self) -> (r: Result<Ed25519Authenticator, ConfigError>)
        ensures
            r is Ok <==> key_check(self.public_key_setting()) is Ok,
            r matches Err(e) ==> key_check(self.public_key_setting()) == Err::<Seq<u8>, ConfigError>(e),
            r matches Ok(a) ==> {
                &&& a.data_spec().wf()
                &&& a.data_spec().public_key_text() == self.public_key_setting()->Some_0
                &&& a.data_spec().signature_header_name() == name_or(
                    self.signature_header_setting(),
                    "X-Signature-Ed25519"@,
                )
                &&& a.data_spec().timestamp_header_name() == name_or(
                    self.timestamp_header_setting(),
                    "X-Signature-Timestamp"@,
                )
                &&& a.data_spec().rejects() == self.reject_setting()
            },
    {
        match MiddlewareData::from_builder(self) {
            Ok(data) => Ok(Ed25519Authenticator::from(data)),
            Err(e) => Err(e),
        }
    }
}

/// Validated settings, shared read-only by every request.
#[derive(Clone, Debug)]
pub struct MiddlewareData {
    public_key: String,
    key: Vec<u8>,
    signature_header: String,
    timestamp_header: String,
    reject: bool,
}

impl MiddlewareData {
    /// The hex text of the public key.
    pub closed spec fn public_key_text(&self) -> Seq<char> {
        self.public_key@
    }

    /// The decoded public key.
    pub closed spec fn key(&self) -> Seq<u8> {
        self.key@
    }

    /// The name of the signature header.
    pub closed spec fn signature_header_name(&self) -> Seq<char> {
        self.signature_header@
    }

    /// The name of the timestamp header.
    pub closed spec fn timestamp_header_name(&self) -> Seq<char> {
        self.timestamp_header@
    }

    /// Whether failed requests are rejected.
    pub closed spec fn rejects(&self) -> bool {
        self.reject
    }

    /// The decoded key is what the key text stands for.
    pub open spec fn wf(&self) -> bool {
        public_key_decoding(encode_utf8(self.public_key_text())) == Ok::<Seq<u8>, DecodeError>(
            self.key(),
        )
    }

    /// The policy that `rejects` selects.
    pub open spec fn policy_spec(&self) -> Policy {
        if self.rejects() {
            Policy::Reject
        } else {
            Policy::Annotate
        }
    }

    /// Settings with the default header names, requests not rejected.
    /// Fails when the key text is not hex for exactly 32 bytes.
    pub fn new(public_key: &str) -> (r: Result<MiddlewareData, ConfigError>)
        ensures
            r is Ok <==> key_check(Some(public_key@)) is Ok,
            r matches Err(e) ==> key_check(Some(public_key@)) == Err::<Seq<u8>, ConfigError>(e),
            r matches Ok(d) ==> {
                &&& d.wf()
                &&& d.public_key_text() == public_key@
                &&& d.signature_header_name() == "X-Signature-Ed25519"@
                &&& d.timestamp_header_name() == "X-Signature-Timestamp"@
                &&& !d.rejects()
            },
    {
        match decode_public_key(public_key) {
            Err(e) => Err(ConfigError::InvalidKeyEncoding(e)),
            Ok(key) => Ok(
                MiddlewareData {
                    public_key: public_key.to_owned(),
                    key,
                    signature_header: "X-Signature-Ed25519".to_owned(),
                    timestamp_header: "X-Signature-Timestamp".to_owned(),
                    reject: false,
                },
            ),
        }
    }

    /// Validates the settings of `builder`, filling in the default header
    /// names where none was set.
    pub fn from_builder(builder: AuthenticatorBuilder) -> (r: Result<MiddlewareData, ConfigError>)
        ensures
            r is Ok <==> key_check(builder.public_key_setting()) is Ok,
            r matches Err(e) ==> key_check(builder.public_key_setting()) == Err::<
                Seq<u8>,
                ConfigError,
            >(e),
            r matches Ok(d) ==> {
                &&& d.wf()
                &&& d.public_key_text() == builder.public_key_setting()->Some_0
                &&& d.signature_header_name() == name_or(
                    builder.signature_header_setting(),
                    "X-Signature-Ed25519"@,
                )
                &&& d.timestamp_header_name() == name_or(
                    builder.timestamp_header_setting(),
                    "X-Signature-Timestamp"@,
                )
                &&& d.rejects() == builder.reject_setting()
            },
    {
        let AuthenticatorBuilder { public_key, signature_header, timestamp_header, reject } =
            builder;
        let public_key = match public_key {
            None => {
                return Err(ConfigError::MissingKey);
            },
            Some(k) => k,
        };
        let key = match decode_public_key(public_key.as_str()) {
            Err(e) => {
                return Err(ConfigError::InvalidKeyEncoding(e));
            },
            Ok(k) => k,
        };
        let signature_header = match signature_header {
            Some(h) => h,
            None => "X-Signature-Ed25519".to_owned(),
        };
        let timestamp_header = match timestamp_header {
            Some(h) => h,
            None => "X-Signature-Timestamp".to_owned(),
        };
        Ok(MiddlewareData { public_key, key, signature_header, timestamp_header, reject })
    }

    /// The hex text of the public key.
    pub fn public_key_hex(&self) -> (r: &str)
        ensures
            r@ == self.public_key_text(),
    {
        self.public_key.as_str()
    }

    /// The name of the header that carries the signature.
    pub fn signature_header(&self) -> (r: &str)
        ensures
            r@ == self.signature_header_name(),
    {
        self.signature_header.as_str()
    }

    /// The name of the header that carries the timestamp.
    pub fn timestamp_header(&self) -> (r: &str)
        ensures
            r@ == self.timestamp_header_name(),
    {
        self.timestamp_header.as_str()
    }

    /// The policy for requests that fail authentication.
    pub fn policy(&self) -> (r: Policy)
        ensures
            r == self.policy_spec(),
    {
        if self.reject {
            Policy::Reject
        } else {
            Policy::Annotate
        }
    }

    /// Authenticates one request against the configured key, from the values
    /// of its signature and timestamp headers (`None` when absent) and its
    /// whole body.
    pub fn authenticate(&self, signature: Option<&[u8]>, timestamp: Option<&[u8]>, body: &[u8]) -> (r:
        Result<(), RequestError>)
        ensures
            r == request_outcome(self.key(), header_view(signature), header_view(timestamp), body@),
    {
        authenticate(self.key.as_slice(), signature, timestamp, body)
    }

    /// Decides what becomes of a request whose authentication gave `outcome`.
    pub fn decide(&self, outcome: &Result<(), RequestError>) -> (r: Decision)
        ensures
            r == decision_of(self.policy_spec(), *outcome),
    {
        decide(self.policy(), outcome)
    }
}

/// Builds the middleware of each worker; made by `AuthenticatorBuilder`.
pub struct Ed25519Authenticator {
    data: MiddlewareData,
}

impl Ed25519Authenticator {
    /// The settings it hands to each middleware.
    pub closed spec fn data_spec(&self) -> MiddlewareData {
        self.data
    }

    /// The settings it hands to each middleware.
    pub fn data(&self) -> (r: &MiddlewareData)
        ensures
            *r == self.data_spec(),
    {
        &self.data
    }
}

impl From<MiddlewareData> for Ed25519Authenticator {
    fn from(data: MiddlewareData) -> (r: Ed25519Authenticator) {
        Ed25519Authenticator { data }
    }
}

impl vstd::std_specs::convert::FromSpecImpl<MiddlewareData> for Ed25519Authenticator {
    open spec fn obeys_from_spec() -> bool {
        true
    }

    closed spec fn from_spec(data: MiddlewareData) -> Ed25519Authenticator {
        Ed25519Authenticator { data }
    }
}

/// The middleware of one worker: the next service, and the shared settings.
pub struct Ed25519AuthenticatorMiddleware<S> {
    service: Rc<S>,
    data: Rc<MiddlewareData>,
}

impl<S> Ed25519AuthenticatorMiddleware<S> {
    /// The settings it checks requests with.
    pub closed spec fn data_spec(&self) -> MiddlewareData {
        *self.data
    }

    /// The next service in the pipeline.
    pub closed spec fn service_spec(&self) -> Rc<S> {
        self.service
    }

    /// Wraps `service`, checking requests with `data`.
    pub fn new(service: Rc<S>, data: Rc<MiddlewareData>) -> (r: Ed25519AuthenticatorMiddleware<S>)
        ensures
            r.service_spec() == service,
            r.data_spec() == *data,
    {
        Ed25519AuthenticatorMiddleware { service, data }
    }

    /// The next service in the pipeline.
    pub fn service(&self) -> (r: &Rc<S>)
        ensures
            *r == self.service_spec(),
    {
        &self.service
    }

    /// The settings it checks requests with.
    pub fn data(&self) -> (r: &Rc<MiddlewareData>)
        ensures
            **r == self.data_spec(),
    {
        &self.data
    }
}

} // verus!
