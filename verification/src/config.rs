//! The merchant's gateway configuration: immutable after process start and
//! shared by every signing call site.

use vstd::prelude::*;

verus! {

/// Merchant credentials and endpoints for the gateway.
#[derive(Debug, Clone)]
pub struct WeChatPayConfig {
    /// Merchant id.
    pub mchid: String,
    /// Serial number of the merchant certificate.
    pub serial_no: String,
    /// Path the private key was loaded from, informational only.
    pub private_key_path: String,
    /// PKCS#8 PEM private key used for request signing.
    pub private_key: String,
    /// 32-byte key used to decrypt asynchronous notifications.
    pub api_v3_key: String,
    /// Application id.
    pub appid: String,
    /// Base URL of the gateway API.
    pub base_url: String,
}

} // verus!
