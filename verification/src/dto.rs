//! Plain data carried across the library's boundary: requests, responses,
//! gateway exchange records and notifications.

use vstd::prelude::*;
use crate::money::Money;
use crate::state::PaymentMethod;

verus! {

/// A create-payment request as received from the boundary.
#[derive(Debug, Clone)]
pub struct CreatePaymentRequest {
    /// Merchant order number.
    pub out_order_no: String,
    /// Amount to collect.
    pub amount: Money,
    /// Requested payment flow.
    pub payment_method: PaymentMethod,
    /// Item description.
    pub description: String,
    /// Payer identity, required by the mini-program flow.
    pub openid: Option<String>,
    /// Network address of the paying client.
    pub client_ip: String,
    /// Opaque merchant blob.
    pub attach: Option<String>,
}

/// The response returned for create and query operations.
#[derive(Debug, Clone)]
pub struct PaymentResponse {
    /// Internal order id.
    pub order_id: String,
    /// Merchant order number.
    pub out_order_no: String,
    /// Amount in minor units.
    pub amount: i64,
    /// Gateway prepay token, empty when none was stored.
    pub prepay_id: String,
    /// Client-side payment parameters, present only on creation.
    pub pay_params: Option<MiniProgramPayParams>,
    /// Canonical token of the order state.
    pub state: String,
}

/// An error reply for the boundary.
#[derive(Debug, Clone)]
pub struct ErrorResponse {
    pub error: String,
    pub message: String,
}

impl ErrorResponse {
    /// Pairs an error code with its message.
    pub fn new(error: String, message: String) -> (r: ErrorResponse)
        ensures
            r.error == error,
            r.message == message,
    {
        ErrorResponse { error, message }
    }
}

/// What the gateway needs to create a remote order.
#[derive(Debug, Clone)]
pub struct WeChatPayRequest {
    pub out_order_no: String,
    pub description: String,
    pub amount_cents: i64,
    pub openid: Option<String>,
    pub client_ip: String,
    pub attach: Option<String>,
}

/// What the gateway answers to a remote order creation.
#[derive(Debug, Clone)]
pub struct WeChatPayResponse {
    /// Short-lived token to exchange for payment parameters.
    pub prepay_id: String,
}

/// The parameters a mini-program client presents to the gateway SDK.
#[derive(Debug, Clone)]
pub struct MiniProgramPayParams {
    pub time_stamp: String,
    pub nonce_str: String,
    pub package: String,
    pub sign_type: String,
    pub pay_sign: String,
}

/// The gateway's answer to an active order query.
#[derive(Debug, Clone)]
pub struct OrderQueryResponse {
    /// Gateway-reported trade state token.
    pub trade_state: String,
    /// Gateway transaction id, when one exists.
    pub transaction_id: Option<String>,
    /// Human-readable description of the trade state.
    pub trade_state_desc: Option<String>,
}

/// An asynchronous notification envelope, before decryption.
#[derive(Debug, Clone)]
pub struct PaymentNotification {
    pub id: String,
    pub event_type: String,
    pub resource: NotificationResource,
    pub create_time: String,
}

/// The encrypted resource block of a notification.
#[derive(Debug, Clone)]
pub struct NotificationResource {
    pub algorithm: String,
    pub ciphertext: String,
    pub nonce: String,
    pub associated_data: String,
}

} // verus!
