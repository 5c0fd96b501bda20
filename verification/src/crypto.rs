//! Trusted boundary to the cryptographic primitives: RSA-SHA256 signing and
//! verification, base64, AES-256-GCM, and UTF-8 decoding.
//!
//! Each result that is a pure function of its arguments is given an
//! uninterpreted name; the verified protocol code is specified over those
//! names.

use vstd::prelude::*;
use base64::Engine;
use rsa::pkcs8::{DecodePrivateKey, DecodePublicKey};
use rsa::signature::{RandomizedSigner, SignatureEncoding, Verifier};
use aes_gcm::aead::{Aead, KeyInit, Payload};
use aes_gcm::{Aes256Gcm, Nonce};

verus! {

/// The base64 PKCS#1 v1.5 SHA-256 signature of a message under a PKCS#8
/// private key, `None` when the key text cannot be used for signing.
pub uninterp spec fn rsa_sha256_sig_b64(key_pem: Seq<char>, message: Seq<char>) -> Option<
    Seq<char>,
>;

/// Whether a base64 signature is a valid PKCS#1 v1.5 SHA-256 signature of a
/// message under a PEM public key.
pub uninterp spec fn rsa_sha256_verify_ok(
    pubkey_pem: Seq<char>,
    message: Seq<char>,
    signature_b64: Seq<char>,
) -> bool;

/// The bytes that standard base64 text decodes to, `None` when the text is
/// not valid base64.
pub uninterp spec fn b64_decoded(text: Seq<char>) -> Option<Seq<u8>>;

/// The AES-256-GCM plaintext of a ciphertext under a key, nonce and
/// associated data, `None` when the authentication tag does not match.
pub uninterp spec fn aes256gcm_plaintext(
    key: Seq<u8>,
    nonce: Seq<u8>,
    aad: Seq<u8>,
    ciphertext: Seq<u8>,
) -> Option<Seq<u8>>;

/// The character sequence that a byte sequence decodes to as UTF-8, `None`
/// when the bytes are not valid UTF-8.
pub uninterp spec fn utf8_decoded(bytes: Seq<u8>) -> Option<Seq<char>>;

/// Relies on `rsa::RsaPrivateKey::from_pkcs8_pem`, `rsa::pkcs1v15::SigningKey`
/// with SHA-256 (whose signing the crate documents as deterministic: the rng
/// only blinds), and base64 standard encoding. Fails exactly when the key
/// text does not parse as a PKCS#8 private key or cannot sign the digest,
/// which depends on the key text alone.
#[verifier::external_body]
pub(crate) fn rsa_sign_b64(key_pem: &str, message: &str) -> (r: Result<String, ()>)
    ensures
        r is Ok <==> rsa_sha256_sig_b64(key_pem@, message@) is Some,
        r matches Ok(s) ==> Some(s@) == rsa_sha256_sig_b64(key_pem@, message@),
{
    let key = match rsa::RsaPrivateKey::from_pkcs8_pem(key_pem) {
        Ok(k) => k,
        Err(_) => return Err(()),
    };
    let signing_key = rsa::pkcs1v15::SigningKey::<rsa::sha2::Sha256>::new(key);
    let signature = match signing_key.try_sign_with_rng(&mut rand::rngs::OsRng, message.as_bytes())
    {
        Ok(s) => s,
        Err(_) => return Err(()),
    };
    Ok(base64::engine::general_purpose::STANDARD.encode(signature.to_bytes()))
}

/// Relies on `rsa::RsaPublicKey::from_public_key_pem`, base64 standard
/// decoding, and `rsa::pkcs1v15::VerifyingKey` with SHA-256: true exactly for
/// a valid signature; false also when the key or the base64 text do not
/// parse. Deterministic in its arguments.
#[verifier::external_body]
pub(crate) fn rsa_verify_b64(pubkey_pem: &str, message: &str, signature_b64: &str) -> (r: bool)
    ensures
        r == rsa_sha256_verify_ok(pubkey_pem@, message@, signature_b64@),
{
    let key = match rsa::RsaPublicKey::from_public_key_pem(pubkey_pem) {
        Ok(k) => k,
        Err(_) => return false,
    };
    let sig_bytes = match base64::engine::general_purpose::STANDARD.decode(signature_b64) {
        Ok(b) => b,
        Err(_) => return false,
    };
    let sig = match rsa::pkcs1v15::Signature::try_from(sig_bytes.as_slice()) {
        Ok(s) => s,
        Err(_) => return false,
    };
    let verifying_key = rsa::pkcs1v15::VerifyingKey::<rsa::sha2::Sha256>::new(key);
    verifying_key.verify(message.as_bytes(), &sig).is_ok()
}

/// Relies on base64's standard engine `decode`.
#[verifier::external_body]
pub(crate) fn b64_decode(text: &str) -> (r: Result<Vec<u8>, ()>)
    ensures
        r is Ok <==> b64_decoded(text@) is Some,
        r matches Ok(v) ==> Some(v@) == b64_decoded(text@),
{
    base64::engine::general_purpose::STANDARD.decode(text).map_err(|_| ())
}

/// Relies on `aes_gcm::Aes256Gcm`: `KeyInit::new_from_slice` and
/// `Aead::decrypt` with a `Payload` carrying the associated data. The nonce
/// must be exactly 12 bytes, since `Nonce::from_slice` panics otherwise.
#[verifier::external_body]
pub(crate) fn aes256gcm_decrypt(key: &[u8], nonce: &[u8], aad: &[u8], ciphertext: &[u8]) -> (r:
    Result<Vec<u8>, ()>)
    requires
        key@.len() == 32,
        nonce@.len() == 12,
    ensures
        r is Ok <==> aes256gcm_plaintext(key@, nonce@, aad@, ciphertext@) is Some,
        r matches Ok(v) ==> Some(v@) == aes256gcm_plaintext(key@, nonce@, aad@, ciphertext@),
{
    let cipher = match Aes256Gcm::new_from_slice(key) {
        Ok(c) => c,
        Err(_) => return Err(()),
    };
    cipher.decrypt(Nonce::from_slice(nonce), Payload { msg: ciphertext, aad }).map_err(|_| ())
}

/// Relies on std's `String::from_utf8`.
#[verifier::external_body]
pub(crate) fn utf8_to_string(bytes: Vec<u8>) -> (r: Result<String, ()>)
    ensures
        r is Ok <==> utf8_decoded(bytes@) is Some,
        r matches Ok(s) ==> Some(s@) == utf8_decoded(bytes@),
{
    String::from_utf8(bytes).map_err(|_| ())
}

} // verus!
