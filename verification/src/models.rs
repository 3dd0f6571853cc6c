//! Request and response bodies of the HTTP API. Amounts are in msats unless a
//! field's name says sats; times are UNIX seconds.

use vstd::prelude::*;

verus! {

// -- Requests --

/// Body of `POST /pay`.
pub struct PayRequest {
    pub invoice: String,
    pub amount: Option<u64>,
}

/// Body of `POST /invoice`.
pub struct CreateInvoiceRequest {
    pub amount_sats: u64,
    pub description: Option<String>,
    pub description_hash: Option<String>,
    pub expiry: Option<u64>,
}

/// Query of `GET /transactions`.
pub struct TransactionQuery {
    pub limit: Option<u64>,
    pub offset: Option<u64>,
    pub transaction_type: Option<String>,
    pub unpaid: Option<bool>,
}

// -- Responses --

/// Body of every error answer.
pub struct ErrorResponse {
    pub error: String,
}

/// Body of `GET /balance`.
pub struct BalanceResponse {
    pub balance_msats: u64,
    pub balance_sats: u64,
}

/// Body of `POST /pay`'s answer.
pub struct PayResponse {
    pub preimage: String,
    pub fees_paid: Option<u64>,
}

/// Body of `POST /invoice`'s answer.
pub struct CreateInvoiceResponse {
    pub invoice: String,
    pub payment_hash: Option<String>,
    pub expires_at: Option<u64>,
}

/// Body of `GET /info`.
pub struct InfoResponse {
    pub alias: Option<String>,
    pub color: Option<String>,
    pub pubkey: Option<String>,
    pub network: Option<String>,
    pub block_height: Option<u32>,
    pub block_hash: Option<String>,
    pub methods: Vec<String>,
    pub notifications: Vec<String>,
}

/// One transaction, as `GET /invoice/{payment_hash}` and `GET /transactions` show it.
pub struct InvoiceResponse {
    pub transaction_type: Option<String>,
    pub state: Option<String>,
    pub invoice: Option<String>,
    pub description: Option<String>,
    pub preimage: Option<String>,
    pub payment_hash: String,
    pub amount: u64,
    pub fees_paid: u64,
    pub created_at: Option<u64>,
    pub expires_at: Option<u64>,
    pub settled_at: Option<u64>,
    pub metadata: Option<serde_json::Value>,
}

/// Body of `GET /transactions`.
pub struct TransactionsResponse {
    pub transactions: Vec<InvoiceResponse>,
}

// -- Notifications --

/// A wallet notification as `GET /events` and the webhook deliver it.
pub struct EventNotification {
    pub notification_type: String,
    pub transaction_type: Option<String>,
    pub state: Option<String>,
    pub invoice: Option<String>,
    pub description: Option<String>,
    pub preimage: Option<String>,
    pub payment_hash: Option<String>,
    pub amount: Option<u64>,
    pub fees_paid: Option<u64>,
    pub created_at: Option<u64>,
    pub expires_at: Option<u64>,
    pub settled_at: Option<u64>,
    pub settle_deadline: Option<u32>,
    pub metadata: Option<serde_json::Value>,
}

/// One server-sent event: its name and its data line.
pub struct SseEvent {
    pub event: String,
    pub data: String,
}

} // verus!
