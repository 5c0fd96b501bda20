//! Error taxonomy of the payment core.
//!
//! Client-caused errors (validation, unknown order, illegal transition) are
//! distinguished from server-caused ones (storage, gateway, crypto) so the
//! boundary can map them to the right status class.

use vstd::prelude::*;

verus! {

/// The error taxonomy shared by the whole payment core.
#[derive(Debug, Clone)]
pub enum DomainError {
    /// Input shape or bounds were wrong.
    ValidationError(String),
    /// No order exists for the given identifier.
    OrderNotFound(String),
    /// A lifecycle transition was attempted from a state that does not allow it.
    InvalidState { expected: String, actual: String },
    /// The amount was not strictly positive.
    InvalidAmount(String),
    /// A gateway response or notification failed signature validation.
    SignatureVerificationFailed,
    /// The gateway returned a non-success or malformed answer.
    WeChatPayError(String),
    /// The persistence layer failed.
    DatabaseError(String),
    /// Encoding or decoding of an exchanged document failed.
    SerializationError(String),
    /// The transport to the gateway failed.
    HttpError(String),
    /// Key loading, signing, or AEAD decryption failed.
    CryptoError(String),
    /// The process configuration is unusable.
    ConfigurationError(String),
    /// An unclassified internal failure, including corrupt persisted rows.
    InternalError(String),
}

/// Result alias used by every fallible operation of the core.
pub type DomainResult<T> = Result<T, DomainError>;

} // verus!
