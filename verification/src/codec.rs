//! Decryption of asynchronous gateway notifications: base64, then
//! AES-256-GCM with the associated data authenticated, then UTF-8.

use vstd::prelude::*;
use vstd::string::StringSliceAdditionalSpecFns;
use crate::crypto::{aes256gcm_decrypt, aes256gcm_plaintext, b64_decode, b64_decoded,
    utf8_decoded, utf8_to_string};
use crate::errors::{DomainError, DomainResult};

verus! {

/// What decrypting a notification resource yields: the base64 ciphertext is
/// decoded, authenticated and decrypted under the 32-byte key, the 12-byte
/// nonce and the associated data, and the plaintext read as UTF-8. `None` at
/// the first step that fails.
pub open spec fn spec_decrypted_notification(
    ciphertext_b64: Seq<char>,
    aad: Seq<u8>,
    nonce: Seq<u8>,
    key: Seq<u8>,
) -> Option<Seq<char>> {
    if key.len() == 32 && nonce.len() == 12 {
        match b64_decoded(ciphertext_b64) {
            Some(ciphertext) => match aes256gcm_plaintext(key, nonce, aad, ciphertext) {
                Some(plaintext) => utf8_decoded(plaintext),
                None => None,
            },
            None => None,
        }
    } else {
        None
    }
}

/// Decrypts one notification resource. Every failure — a key that is not 32
/// bytes, a nonce that is not 12 bytes, malformed base64, an authentication
/// tag that does not match the ciphertext and associated data, or a
/// non-UTF-8 plaintext — is a non-retryable crypto error.
pub fn decrypt_notification(
    ciphertext_b64: &str,
    associated_data: &str,
    nonce: &str,
    api_v3_key: &str,
) -> (r: DomainResult<String>)
    ensures
        r is Ok <==> spec_decrypted_notification(
            ciphertext_b64@,
            associated_data.spec_bytes(),
            nonce.spec_bytes(),
            api_v3_key.spec_bytes(),
        ) is Some,
        r matches Ok(s) ==> Some(s@) == spec_decrypted_notification(
            ciphertext_b64@,
            associated_data.spec_bytes(),
            nonce.spec_bytes(),
            api_v3_key.spec_bytes(),
        ),
        r matches Err(e) ==> e is CryptoError,
{
    let key_bytes = api_v3_key.as_bytes();
    if key_bytes.len() != 32 {
        return Err(DomainError::CryptoError(String::from_str("API v3 key must be 32 bytes")));
    }
    let nonce_bytes = nonce.as_bytes();
    if nonce_bytes.len() != 12 {
        return Err(DomainError::CryptoError(String::from_str("nonce must be 12 bytes")));
    }
    let ciphertext = match b64_decode(ciphertext_b64) {
        Ok(c) => c,
        Err(_) => {
            return Err(DomainError::CryptoError(String::from_str("base64 decode error")));
        },
    };
    let plaintext = match aes256gcm_decrypt(
        key_bytes,
        nonce_bytes,
        associated_data.as_bytes(),
        ciphertext.as_slice(),
    ) {
        Ok(p) => p,
        Err(_) => {
            return Err(DomainError::CryptoError(String::from_str("decrypt error")));
        },
    };
    match utf8_to_string(plaintext) {
        Ok(s) => Ok(s),
        Err(_) => Err(DomainError::CryptoError(String::from_str("UTF8 decode error"))),
    }
}

} // verus!
