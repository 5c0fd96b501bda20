//! Core of a merchant payment service: the payment order lifecycle state
//! machine, the gateway signing protocol (canonical messages, RSA-SHA256
//! request signatures, authorization headers, client payment parameters,
//! response verification), the AEAD notification codec, and the
//! orchestrator that coordinates them over abstract persistence and
//! gateway ports.

mod clock;
pub mod codec;
pub mod config;
pub mod crypto;
pub mod dto;
pub mod errors;
pub mod events;
mod ids;
pub mod json;
pub mod money;
pub mod order;
pub mod payment_service;
pub mod ports;
pub mod protocol;
pub mod row;
pub mod signer;
pub mod state;
pub mod text;
