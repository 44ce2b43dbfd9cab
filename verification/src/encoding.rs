//! Conversions between bytes and the text and wire forms that registry
//! clients exchange: base64, key identifiers, and the two encodings of an
//! ECDSA P-256 signature.

use vstd::prelude::*;
use crate::text::{is_public_key_text, is_sha256_text};

verus! {

/// The text that the standard base64 engine of `base64` encodes bytes to.
pub uninterp spec fn base64_text(bytes: Seq<u8>) -> Seq<char>;

/// The bytes that the standard base64 engine of `base64` decodes a text
/// to, if it decodes it.
pub uninterp spec fn base64_bytes(text: Seq<char>) -> Option<Seq<u8>>;

/// The identifier that `PublicKey::fingerprint` of `warg-crypto` gives the
/// key that is read from a text.
pub uninterp spec fn key_fingerprint(key: Seq<char>) -> Seq<char>;

/// The DER encoding that `p256` gives the signature that it reads from its
/// fixed-width encoding, if it reads one.
pub uninterp spec fn der_signature(fixed: Seq<u8>) -> Option<Seq<u8>>;

/// The fixed-width encoding that `p256` gives the signature that it reads
/// from its DER encoding, if it reads one.
pub uninterp spec fn fixed_signature(der: Seq<u8>) -> Option<Seq<u8>>;

/// `Engine::encode` of the standard engine of `base64`. What it writes,
/// `Engine::decode` reads back as the same bytes.
#[verifier::external_body]
fn base64_encode(content: &Vec<u8>) -> (text: String)
    ensures
        text@ == base64_text(content@),
        base64_bytes(text@) == Some(content@),
{
    base64::Engine::encode(&base64::engine::general_purpose::STANDARD, content)
}

/// `Engine::decode` of the standard engine of `base64`.
#[verifier::external_body]
fn base64_decode(encoded: &str) -> (r: Option<Vec<u8>>)
    ensures
        match r {
            Some(bytes) => base64_bytes(encoded@) == Some(bytes@),
            None => base64_bytes(encoded@) is None,
        },
{
    base64::Engine::decode(&base64::engine::general_purpose::STANDARD, encoded).ok()
}

/// `PublicKey::fingerprint` of `warg-crypto`, shown as text: a hash
/// identifier with a 32-byte digest.
#[verifier::external_body]
fn fingerprint(public_key: &str) -> (id: String)
    requires
        is_public_key_text(public_key@),
    ensures
        id@ == key_fingerprint(public_key@),
        is_sha256_text(id@),
{
    public_key.parse::<warg_crypto::signing::PublicKey>().unwrap().fingerprint().to_string()
}

/// `Signature::from_slice` and `to_der` of `p256`. The fixed-width encoding
/// has 64 bytes, and `from_der` reads the DER encoding back as the same
/// signature.
#[verifier::external_body]
fn fixed_to_der(src: &Vec<u8>) -> (r: Option<Vec<u8>>)
    ensures
        match r {
            Some(der) => der_signature(src@) == Some(der@) && fixed_signature(der@) == Some(src@),
            None => der_signature(src@) is None,
        },
        r is Some ==> src@.len() == 64,
{
    let signature = p256::ecdsa::Signature::from_slice(src).ok();
    signature.map(|signature| signature.to_der().as_bytes().to_vec())
}

/// `Signature::from_der` and `to_vec` of `p256`. The fixed-width encoding
/// has 64 bytes, and `from_slice` reads it back as the same signature.
#[verifier::external_body]
fn der_to_fixed(src: &Vec<u8>) -> (r: Option<Vec<u8>>)
    ensures
        match r {
            Some(fixed) => fixed_signature(src@) == Some(fixed@) && der_signature(fixed@) is Some,
            None => fixed_signature(src@) is None,
        },
        r matches Some(fixed) ==> fixed@.len() == 64,
{
    let signature = p256::ecdsa::Signature::from_der(src).ok();
    signature.map(|signature| signature.to_vec())
}

/// Encodes bytes as base64 text, which `decode_base64` reads back as the
/// same bytes.
pub fn encode_base64(content: Vec<u8>) -> (text: String)
    ensures
        text@ == base64_text(content@),
        base64_bytes(text@) == Some(content@),
{
    base64_encode(&content)
}

/// Decodes base64 text; fails exactly where the text is not base64.
pub fn decode_base64(encoded: String) -> (r: Result<Vec<u8>, ()>)
    ensures
        match base64_bytes(encoded@) {
            Some(bytes) => r matches Ok(decoded) && decoded@ == bytes,
            None => r is Err,
        },
{
    match base64_decode(encoded.as_str()) {
        Some(bytes) => Ok(bytes),
        None => Err(()),
    }
}

/// The identifier of a public key; fails exactly where the text is not one
/// of a public key.
pub fn key_id(public_key: String) -> (r: Result<String, ()>)
    ensures
        r is Ok <==> is_public_key_text(public_key@),
        r matches Ok(id) ==> id@ == key_fingerprint(public_key@) && is_sha256_text(id@),
{
    match crate::text::canonical_public_key(public_key.as_str()) {
        Some(_) => Ok(fingerprint(public_key.as_str())),
        None => Err(()),
    }
}

/// The DER encoding of a signature given in its fixed-width encoding; fails
/// exactly where the bytes are no such encoding. `signature_from_der_to_fixed_width`
/// turns the result back into the bytes given.
pub fn signature_from_fixed_width_to_der(src: Vec<u8>) -> (r: Result<Vec<u8>, ()>)
    ensures
        match der_signature(src@) {
            Some(der) => r matches Ok(encoded) && encoded@ == der && fixed_signature(der) == Some(
                src@,
            ),
            None => r is Err,
        },
        src@.len() != 64 ==> r is Err,
{
    match fixed_to_der(&src) {
        Some(der) => Ok(der),
        None => Err(()),
    }
}

/// The fixed-width encoding of a signature given in its DER encoding; fails
/// exactly where the bytes are no such encoding. The result has 64 bytes.
pub fn signature_from_der_to_fixed_width(src: Vec<u8>) -> (r: Result<Vec<u8>, ()>)
    ensures
        match fixed_signature(src@) {
            Some(fixed) => r matches Ok(encoded) && encoded@ == fixed && fixed.len() == 64
                && der_signature(fixed) is Some,
            None => r is Err,
        },
{
    match der_to_fixed(&src) {
        Some(fixed) => Ok(fixed),
        None => Err(()),
    }
}

} // verus!
