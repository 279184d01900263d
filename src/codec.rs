//! Hex decoding of the public key and of the signature header.
use vstd::prelude::*;
use vstd::string::StringSliceAdditionalSpecFns;

verus! {

#[verifier::external_type_specification]
#[verifier::external_body]
pub struct ExFromHexError(hex::FromHexError);

/// Why key or signature text could not be decoded.
#[derive(Clone, Copy, Debug, PartialEq, Eq, Structural)]
pub enum DecodeError {
    /// A character is not a hex digit, or the text has odd length.
    InvalidHex,
    /// The key text decodes to some length other than 32 bytes.
    WrongKeyLength,
    /// The signature text decodes to some length other than 64 bytes.
    WrongSignatureLength,
}

/// Length in bytes of an Ed25519 public key.
pub const PUBLIC_KEY_LENGTH: usize = 32;

/// Length in bytes of an Ed25519 signature.
pub const SIGNATURE_LENGTH: usize = 64;

/// `c` is an ASCII hex digit, in either case.
pub open spec fn is_hex_digit(c: u8) -> bool {
    (0x30 <= c && c <= 0x39) || (0x41 <= c && c <= 0x46) || (0x61 <= c && c <= 0x66)
}

/// Value of the hex digit `c`.
pub open spec fn hex_digit_value(c: u8) -> int {
    if c <= 0x39 {
        c - 0x30
    } else if c <= 0x46 {
        c - 0x41 + 10
    } else {
        c - 0x61 + 10
    }
}

/// `t` is well-formed hex text: even length, hex digits only.
pub open spec fn is_hex_text(t: Seq<u8>) -> bool {
    &&& t.len() % 2 == 0
    &&& forall|i: int| 0 <= i < t.len() ==> is_hex_digit(#[trigger] t[i])
}

/// The bytes that hex text `t` stands for, high digit first in each pair.
pub open spec fn hex_bytes(t: Seq<u8>) -> Seq<u8> {
    Seq::new(
        t.len() / 2,
        |i: int| (16 * hex_digit_value(t[2 * i]) + hex_digit_value(t[2 * i + 1])) as u8,
    )
}

/// Decoding of hex text that must stand for exactly `n` bytes.
pub open spec fn decode_fixed(t: Seq<u8>, n: nat, wrong_length: DecodeError) -> Result<
    Seq<u8>,
    DecodeError,
> {
    if !is_hex_text(t) {
        Err(DecodeError::InvalidHex)
    } else if hex_bytes(t).len() != n {
        Err(wrong_length)
    } else {
        Ok(hex_bytes(t))
    }
}

/// What the public key text `t` (its bytes) decodes to.
pub open spec fn public_key_decoding(t: Seq<u8>) -> Result<Seq<u8>, DecodeError> {
    decode_fixed(t, PUBLIC_KEY_LENGTH as nat, DecodeError::WrongKeyLength)
}

/// What the signature header value `t` decodes to.
pub open spec fn signature_decoding(t: Seq<u8>) -> Result<Seq<u8>, DecodeError> {
    decode_fixed(t, SIGNATURE_LENGTH as nat, DecodeError::WrongSignatureLength)
}

/// Relies on hex::decode: it accepts text of even length made of hex digits
/// of either case, and gives one byte per pair of digits, high digit first;
/// on any other text it returns an error.
#[verifier::external_body]
fn hex_decode(text: &[u8]) -> (r: Result<Vec<u8>, hex::FromHexError>)
    ensures
        r is Ok <==> is_hex_text(text@),
        r matches Ok(v) ==> v@ == hex_bytes(text@),
{
    hex::decode(text)
}

/// Decodes hex text into exactly `n` bytes.
fn decode_exact(text: &[u8], n: usize, wrong_length: DecodeError) -> (r: Result<
    Vec<u8>,
    DecodeError,
>)
    ensures
        r matches Ok(v) ==> decode_fixed(text@, n as nat, wrong_length) == Ok::<Seq<u8>, DecodeError>(v@),
        r matches Err(e) ==> decode_fixed(text@, n as nat, wrong_length) == Err::<Seq<u8>, DecodeError>(e),
{
    match hex_decode(text) {
        Err(_) => Err(DecodeError::InvalidHex),
        Ok(v) => {
            if v.len() != n {
                Err(wrong_length)
            } else {
                Ok(v)
            }
        },
    }
}

/// Decodes the hex text of a public key into its 32 bytes.
pub fn decode_public_key(text: &str) -> (r: Result<Vec<u8>, DecodeError>)
    ensures
        r matches Ok(v) ==> public_key_decoding(text.spec_bytes()) == Ok::<Seq<u8>, DecodeError>(v@),
        r matches Err(e) ==> public_key_decoding(text.spec_bytes()) == Err::<Seq<u8>, DecodeError>(e),
{
    decode_exact(text.as_bytes(), PUBLIC_KEY_LENGTH, DecodeError::WrongKeyLength)
}

/// Decodes the hex text of a signature header value into its 64 bytes.
pub fn decode_signature(header_value: &[u8]) -> (r: Result<Vec<u8>, DecodeError>)
    ensures
        r matches Ok(v) ==> signature_decoding(header_value@) == Ok::<Seq<u8>, DecodeError>(v@),
        r matches Err(e) ==> signature_decoding(header_value@) == Err::<Seq<u8>, DecodeError>(e),
{
    decode_exact(header_value, SIGNATURE_LENGTH, DecodeError::WrongSignatureLength)
}

} // verus!
