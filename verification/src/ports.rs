//! The two capability ports the orchestrator depends on: persistence and
//! the payment gateway. They are abstract so adapters and test doubles can
//! be substituted without touching orchestration logic.

use vstd::prelude::*;
use crate::dto::{MiniProgramPayParams, OrderQueryResponse, WeChatPayRequest, WeChatPayResponse};
use crate::errors::DomainResult;
use crate::order::PaymentOrder;

verus! {

/// Persistence of payment orders. The storage layer must enforce the
/// uniqueness of the merchant order number and make `update` conditional, so
/// a lost race surfaces as a conflict instead of clobbering a terminal
/// state.
pub trait PaymentRepositoryPort {
    /// Persists a fresh order.
    fn save(&mut self, order: &PaymentOrder) -> DomainResult<()>;

    /// Looks an order up by its internal id.
    fn find_by_id(&mut self, id: &str) -> DomainResult<Option<PaymentOrder>>;

    /// Looks an order up by its merchant order number.
    fn find_by_out_order_no(&mut self, out_order_no: &str) -> DomainResult<Option<PaymentOrder>>;

    /// Looks an order up by its gateway transaction id.
    fn find_by_transaction_id(&mut self, transaction_id: &str) -> DomainResult<
        Option<PaymentOrder>,
    >;

    /// Persists the mutable fields of an existing order.
    fn update(&mut self, order: &PaymentOrder) -> DomainResult<()>;

    /// Removes an order.
    fn delete(&mut self, id: &str) -> DomainResult<()>;
}

/// The payment gateway, reached over signed calls.
pub trait WeChatPayPort {
    /// Creates the remote order and returns the prepay token.
    fn create_mini_program_order(&mut self, request: WeChatPayRequest) -> DomainResult<
        WeChatPayResponse,
    >;

    /// Produces the signed client-side payment parameters for a prepay token.
    fn generate_mini_pay_params(&mut self, prepay_id: &str) -> DomainResult<MiniProgramPayParams>;

    /// Actively queries the gateway for the current trade state.
    fn query_order(&mut self, out_order_no: &str) -> DomainResult<OrderQueryResponse>;

    /// Closes the remote order.
    fn close_order(&mut self, out_order_no: &str) -> DomainResult<()>;

    /// Validates a notification signature against the platform certificate.
    fn verify_notification(&mut self, timestamp: &str, nonce: &str, body: &str, signature: &str)
        -> DomainResult<bool>;

    /// Decrypts a notification resource.
    fn decrypt_notification(&mut self, ciphertext: &str, associated_data: &str, nonce: &str)
        -> DomainResult<String>;
}

} // verus!
