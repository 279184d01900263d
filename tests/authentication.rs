use actix_middleware_ed25519_authentication::{
    authenticate, build_message, capture, decide, decode_public_key, decode_signature, verify,
    AuthenticationInfo, AuthenticatorBuilder, BodyCapture, ConfigError, Decision, DecodeError,
    Ed25519AuthenticatorMiddleware, MiddlewareData, Policy, RequestError,
};
use ed25519_dalek::{Keypair, PublicKey, SecretKey, Signer};
use std::rc::Rc;

fn keypair(seed: u8) -> Keypair {
    let secret = SecretKey::from_bytes(&[seed; 32]).unwrap();
    let public: PublicKey = (&secret).into();
    Keypair { secret, public }
}

fn public_hex(pair: &Keypair) -> String {
    hex::encode(pair.public.to_bytes())
}

fn sign_hex(pair: &Keypair, message: &[u8]) -> String {
    hex::encode(pair.sign(message).to_bytes())
}

fn signed(pair: &Keypair, timestamp: &[u8], body: &[u8]) -> String {
    let mut message = timestamp.to_vec();
    message.extend_from_slice(body);
    sign_hex(pair, &message)
}

#[test]
fn scenario_signed_request_forwarded_and_tampered_rejected() {
    let pair = keypair(0xab);
    let data_reject = AuthenticatorBuilder::new()
        .public_key(&public_hex(&pair))
        .reject()
        .build()
        .unwrap();
    let data_reject = data_reject.data();
    let data_annotate = MiddlewareData::new(&public_hex(&pair)).unwrap();
    let timestamp = b"1700000000";
    let body = br#"{"x":1}"#;
    let sig = sign_hex(&pair, br#"1700000000{"x":1}"#);

    let ok = data_reject.authenticate(Some(sig.as_bytes()), Some(timestamp), body);
    assert_eq!(ok, Ok(()));
    assert_eq!(
        data_reject.decide(&ok),
        Decision::Forward(AuthenticationInfo { authenticated: true })
    );

    let tampered = br#"{"x":2}"#;
    let bad = data_reject.authenticate(Some(sig.as_bytes()), Some(timestamp), tampered);
    assert_eq!(bad, Err(RequestError::SignatureVerificationFailed));
    assert_eq!(data_reject.decide(&bad), Decision::Reject);
    let bad2 = data_annotate.authenticate(Some(sig.as_bytes()), Some(timestamp), tampered);
    assert_eq!(
        data_annotate.decide(&bad2),
        Decision::Forward(AuthenticationInfo { authenticated: false })
    );
}

#[test]
fn valid_signatures_verify_for_several_keys_and_bodies() {
    let cases: [(u8, &[u8], &[u8]); 4] = [
        (1, b"1", b"hello"),
        (7, b"1699999999", b""),
        (42, b"", b"{\"a\":[1,2,3]}"),
        (200, b"abc", &[0u8, 255, 10, 13]),
    ];
    for (seed, ts, body) in cases {
        let pair = keypair(seed);
        let key = decode_public_key(&public_hex(&pair)).unwrap();
        let sig = signed(&pair, ts, body);
        let r = authenticate(&key, Some(sig.as_bytes()), Some(ts), body);
        assert_eq!(r, Ok(()));
        assert_eq!(
            decide(Policy::Reject, &r),
            Decision::Forward(AuthenticationInfo { authenticated: true })
        );
    }
}

#[test]
fn flipping_any_byte_of_body_or_timestamp_invalidates() {
    let pair = keypair(9);
    let key = decode_public_key(&public_hex(&pair)).unwrap();
    let ts = b"1700000000".to_vec();
    let body = b"payload bytes".to_vec();
    let sig = signed(&pair, &ts, &body);
    for i in 0..body.len() {
        let mut b = body.clone();
        b[i] ^= 0x01;
        let r = authenticate(&key, Some(sig.as_bytes()), Some(&ts), &b);
        assert_eq!(r, Err(RequestError::SignatureVerificationFailed));
    }
    for i in 0..ts.len() {
        let mut t = ts.clone();
        t[i] ^= 0x80;
        let r = authenticate(&key, Some(sig.as_bytes()), Some(&t), &body);
        assert_eq!(r, Err(RequestError::SignatureVerificationFailed));
    }
}

#[test]
fn missing_signature_header_fails_without_panic() {
    let pair = keypair(3);
    let key = decode_public_key(&public_hex(&pair)).unwrap();
    let r = authenticate(&key, None, Some(b"1"), b"body");
    assert_eq!(r, Err(RequestError::MissingOrMalformedSignatureHeader));
    assert_eq!(decide(Policy::Reject, &r), Decision::Reject);
    assert_eq!(
        decide(Policy::Annotate, &r),
        Decision::Forward(AuthenticationInfo { authenticated: false })
    );
}

#[test]
fn missing_timestamp_header_signs_body_alone() {
    let pair = keypair(4);
    let key = decode_public_key(&public_hex(&pair)).unwrap();
    let sig = sign_hex(&pair, b"the body");
    assert_eq!(authenticate(&key, Some(sig.as_bytes()), None, b"the body"), Ok(()));
    assert_eq!(
        authenticate(&key, Some(sig.as_bytes()), Some(b""), b"the body"),
        Ok(())
    );
    assert_eq!(
        authenticate(&key, Some(sig.as_bytes()), Some(b"1"), b"the body"),
        Err(RequestError::SignatureVerificationFailed)
    );
}

#[test]
fn canonical_message_is_timestamp_then_body() {
    assert_eq!(
        build_message(Some(b"1700000000"), br#"{"x":1}"#),
        br#"1700000000{"x":1}"#.to_vec()
    );
    assert_eq!(build_message(None, b"abc"), b"abc".to_vec());
    assert_eq!(build_message(Some(b"ts"), b""), b"ts".to_vec());
    assert_eq!(build_message(None, b""), Vec::<u8>::new());
}

#[test]
fn body_replay_matches_capture_across_chunkings() {
    let whole: Vec<u8> = (0..=255u8).cycle().take(1000).collect();
    let one = vec![whole.clone()];
    let many: Vec<Vec<u8>> = whole.chunks(7).map(|c| c.to_vec()).collect();
    let with_empty = vec![Vec::new(), whole[..500].to_vec(), Vec::new(), whole[500..].to_vec()];
    for chunks in [one, many, with_empty] {
        let (raw, replay) = capture(&chunks);
        assert_eq!(raw, whole);
        assert_eq!(replay, whole);
    }
    let (raw, replay) = capture(&Vec::new());
    assert!(raw.is_empty());
    assert!(replay.is_empty());
}

#[test]
fn body_capture_accumulates_in_order() {
    let mut body = BodyCapture::new();
    assert_eq!(body.bytes(), b"");
    body.push_chunk(b"ab");
    body.push_chunk(b"");
    body.push_chunk(b"cde");
    assert_eq!(body.bytes(), b"abcde");
    let (raw, replay) = body.finish();
    assert_eq!(raw, b"abcde".to_vec());
    assert_eq!(replay, b"abcde".to_vec());
}

#[test]
fn captured_body_verifies_as_signed() {
    let pair = keypair(11);
    let key = decode_public_key(&public_hex(&pair)).unwrap();
    let sig = signed(&pair, b"77", b"chunked body");
    let chunks = vec![b"chu".to_vec(), b"nked ".to_vec(), b"body".to_vec()];
    let (raw, replay) = capture(&chunks);
    assert_eq!(authenticate(&key, Some(sig.as_bytes()), Some(b"77"), &raw), Ok(()));
    assert_eq!(replay, b"chunked body".to_vec());
}

#[test]
fn malformed_signature_hex_counts_as_invalid() {
    assert_eq!(decode_signature(b"zz"), Err(DecodeError::InvalidHex));
    let pair = keypair(5);
    let key = decode_public_key(&public_hex(&pair)).unwrap();
    let r = authenticate(&key, Some(b"zz"), Some(b"1"), b"b");
    assert_eq!(r, Err(RequestError::MissingOrMalformedSignatureHeader));
    let invalid: Result<(), RequestError> = Err(RequestError::SignatureVerificationFailed);
    for policy in [Policy::Reject, Policy::Annotate] {
        assert_eq!(decide(policy, &r), decide(policy, &invalid));
    }
}

#[test]
fn signature_decoding_checks_length_and_digits() {
    assert_eq!(decode_signature(b"abc"), Err(DecodeError::InvalidHex));
    assert_eq!(decode_signature(b""), Err(DecodeError::WrongSignatureLength));
    let short = "00".repeat(63);
    assert_eq!(decode_signature(short.as_bytes()), Err(DecodeError::WrongSignatureLength));
    let long = "00".repeat(65);
    assert_eq!(decode_signature(long.as_bytes()), Err(DecodeError::WrongSignatureLength));
    let text = "0fA1".repeat(32);
    let sig = decode_signature(text.as_bytes()).unwrap();
    assert_eq!(sig.len(), 64);
    assert_eq!(sig[0], 0x0f);
    assert_eq!(sig[1], 0xa1);
    let pair = keypair(6);
    let key = decode_public_key(&public_hex(&pair)).unwrap();
    let r = authenticate(&key, Some(short.as_bytes()), None, b"x");
    assert_eq!(r, Err(RequestError::MissingOrMalformedSignatureHeader));
}

#[test]
fn public_key_decoding_is_case_insensitive_and_strict() {
    let lower = decode_public_key(&"ab".repeat(32)).unwrap();
    let upper = decode_public_key(&"AB".repeat(32)).unwrap();
    assert_eq!(lower, vec![0xab; 32]);
    assert_eq!(upper, lower);
    assert_eq!(decode_public_key(&"ab".repeat(31)), Err(DecodeError::WrongKeyLength));
    assert_eq!(decode_public_key(&"ab".repeat(33)), Err(DecodeError::WrongKeyLength));
    assert_eq!(decode_public_key("a"), Err(DecodeError::InvalidHex));
    assert_eq!(decode_public_key(&"gg".repeat(32)), Err(DecodeError::InvalidHex));
    assert_eq!(decode_public_key("é1"), Err(DecodeError::InvalidHex));
}

#[test]
fn verify_checks_signature_key_and_message() {
    let pair = keypair(8);
    let key = pair.public.to_bytes();
    let sig = pair.sign(b"msg").to_bytes();
    assert!(verify(b"msg", &sig, &key));
    assert!(!verify(b"msh", &sig, &key));
    assert!(!verify(b"msg", &sig[..63], &key));
    assert!(!verify(b"msg", &sig, &key[..31]));
    let other = keypair(10).public.to_bytes();
    assert!(!verify(b"msg", &sig, &other));
}

#[test]
fn build_without_public_key_fails() {
    let r = AuthenticatorBuilder::new().reject().build();
    assert!(matches!(r, Err(ConfigError::MissingKey)));
    let r = AuthenticatorBuilder::new().signature_header("X-Sig").build();
    assert!(matches!(r, Err(ConfigError::MissingKey)));
}

#[test]
fn build_with_bad_public_key_fails() {
    let r = AuthenticatorBuilder::new().public_key("not hex").build();
    assert!(matches!(r, Err(ConfigError::InvalidKeyEncoding(DecodeError::InvalidHex))));
    let r = AuthenticatorBuilder::new().public_key(&"ab".repeat(16)).build();
    assert!(matches!(r, Err(ConfigError::InvalidKeyEncoding(DecodeError::WrongKeyLength))));
    assert!(matches!(
        MiddlewareData::new("xyz"),
        Err(ConfigError::InvalidKeyEncoding(DecodeError::InvalidHex))
    ));
}

#[test]
fn builder_defaults_and_overrides() {
    let key = "ab".repeat(32);
    let a = AuthenticatorBuilder::new().public_key(&key).build().unwrap();
    assert_eq!(a.data().signature_header(), "X-Signature-Ed25519");
    assert_eq!(a.data().timestamp_header(), "X-Signature-Timestamp");
    assert_eq!(a.data().policy(), Policy::Annotate);
    assert_eq!(a.data().public_key_hex(), key);
    let b = AuthenticatorBuilder::new()
        .signature_header("X-Sig")
        .timestamp_header("X-Time")
        .reject()
        .public_key(&key)
        .build()
        .unwrap();
    assert_eq!(b.data().signature_header(), "X-Sig");
    assert_eq!(b.data().timestamp_header(), "X-Time");
    assert_eq!(b.data().policy(), Policy::Reject);
}

#[test]
fn middleware_data_new_uses_defaults() {
    let key = "01".repeat(32);
    let d = MiddlewareData::new(&key).unwrap();
    assert_eq!(d.signature_header(), "X-Signature-Ed25519");
    assert_eq!(d.timestamp_header(), "X-Signature-Timestamp");
    assert_eq!(d.policy(), Policy::Annotate);
    assert_eq!(d.public_key_hex(), key);
}

#[test]
fn middleware_keeps_service_and_settings() {
    let d = MiddlewareData::new(&"01".repeat(32)).unwrap();
    let m = Ed25519AuthenticatorMiddleware::new(Rc::new(5u32), Rc::new(d));
    assert_eq!(**m.service(), 5);
    assert_eq!(m.data().signature_header(), "X-Signature-Ed25519");
}

#[test]
fn decision_table() {
    let ok: Result<(), RequestError> = Ok(());
    let missing: Result<(), RequestError> = Err(RequestError::MissingOrMalformedSignatureHeader);
    let failed: Result<(), RequestError> = Err(RequestError::SignatureVerificationFailed);
    let yes = Decision::Forward(AuthenticationInfo { authenticated: true });
    let no = Decision::Forward(AuthenticationInfo { authenticated: false });
    assert_eq!(decide(Policy::Reject, &ok), yes);
    assert_eq!(decide(Policy::Annotate, &ok), yes);
    assert_eq!(decide(Policy::Reject, &missing), Decision::Reject);
    assert_eq!(decide(Policy::Reject, &failed), Decision::Reject);
    assert_eq!(decide(Policy::Annotate, &missing), no);
    assert_eq!(decide(Policy::Annotate, &failed), no);
}
