//! The wallet protocol: what is asked, and what is answered.
//!
//! A request holds what a handler reads of it. Amounts are in millisatoshis
//! unless the name says sats; times are seconds since the epoch.

use vstd::prelude::*;

verus! {

// ── transactions ─────────────────────────────────────────────────────

#[derive(Debug, Clone, Copy, PartialEq, Eq, Structural)]
pub enum TransactionType {
    Incoming,
    Outgoing,
}

#[derive(Debug, Clone, Copy, PartialEq, Eq, Structural)]
pub enum TransactionState {
    Pending,
    Settled,
    Accepted,
    Expired,
    Failed,
}

/// A payment, in either direction and any state.
#[derive(Debug, PartialEq)]
pub struct Transaction {
    pub transaction_type: TransactionType,
    pub state: Option<TransactionState>,
    pub invoice: Option<String>,
    pub description: Option<String>,
    pub description_hash: Option<String>,
    pub preimage: Option<String>,
    pub payment_hash: String,
    pub amount: u64,
    pub fees_paid: u64,
    pub created_at: u64,
    pub expires_at: Option<u64>,
    pub settled_at: Option<u64>,
    pub metadata: Option<serde_json::Value>,
}

// ── core ─────────────────────────────────────────────────────────────

/// A payment method that the node puts into a URI.
#[derive(Debug, PartialEq, Eq)]
pub struct Bip321Capability {
    pub method: String,
    pub address_types: Option<Vec<String>>,
}

#[derive(Debug, PartialEq, Eq)]
pub struct GetInfoResponse {
    pub alias: Option<String>,
    pub color: Option<String>,
    pub pubkey: Option<String>,
    pub network: Option<String>,
    pub block_height: Option<u64>,
    pub block_hash: Option<String>,
    pub methods: Vec<String>,
    pub notifications: Option<Vec<String>>,
    pub extensions: Option<Vec<String>>,
    pub bip321_methods: Option<Vec<Bip321Capability>>,
}

#[derive(Debug, Clone, Copy, PartialEq, Eq)]
pub struct GetBalanceResponse {
    pub balance: u64,
    pub lightning_balance: Option<u64>,
    pub onchain_balance_sats: Option<u64>,
}

#[derive(Debug, PartialEq, Eq)]
pub struct PayInvoiceRequest {
    pub invoice: String,
    pub amount: Option<u64>,
}

#[derive(Debug, PartialEq, Eq)]
pub struct PayInvoiceResponse {
    pub preimage: String,
    pub fees_paid: Option<u64>,
}

#[derive(Debug, PartialEq)]
pub struct MakeInvoiceRequest {
    pub amount: u64,
    pub description: Option<String>,
    pub description_hash: Option<String>,
    pub expiry: Option<u64>,
    pub metadata: Option<serde_json::Value>,
}

#[derive(Debug, PartialEq, Eq)]
pub struct LookupInvoiceRequest {
    pub payment_hash: Option<String>,
    pub invoice: Option<String>,
}

// ── on-chain ─────────────────────────────────────────────────────────

#[derive(Debug, PartialEq, Eq)]
pub struct PayOnchainRequest {
    pub address: String,
    pub amount_sats: u64,
    pub feerate: Option<u64>,
}

#[derive(Debug, PartialEq, Eq)]
pub struct PayOnchainResponse {
    pub txid: String,
    pub fee_sats: Option<u64>,
}

#[derive(Debug, PartialEq, Eq)]
pub struct MakeNewAddressRequest {
    pub address_type: Option<String>,
}

#[derive(Debug, PartialEq, Eq)]
pub struct MakeNewAddressResponse {
    pub address: String,
    pub address_type: String,
}

#[derive(Debug, PartialEq, Eq)]
pub struct AddressTransaction {
    pub txid: String,
    pub amount_sats: u64,
    pub confirmations: u64,
    pub timestamp: u64,
}

#[derive(Debug, PartialEq, Eq)]
pub struct LookupAddressResponse {
    pub address: String,
    pub address_type: String,
    pub total_received_sats: u64,
    pub transactions: Vec<AddressTransaction>,
}

#[derive(Debug, PartialEq, Eq)]
pub struct AddressRecord {
    pub address: String,
    pub address_type: String,
    pub total_received_sats: u64,
    pub created_at: u64,
}

#[derive(Debug, PartialEq, Eq)]
pub struct ListAddressesResponse {
    pub addresses: Vec<AddressRecord>,
}

// ── hold invoices ────────────────────────────────────────────────────

#[derive(Debug, PartialEq, Eq)]
pub struct MakeHoldInvoiceRequest {
    pub amount: u64,
    pub description: Option<String>,
    pub description_hash: Option<String>,
    pub expiry: Option<u64>,
    pub payment_hash: String,
}

#[derive(Debug, PartialEq)]
pub struct MakeHoldInvoiceResponse {
    pub kind: String,
    pub invoice: Option<String>,
    pub payment_hash: String,
    pub amount: u64,
    pub created_at: u64,
    pub expires_at: Option<u64>,
    pub description: Option<String>,
    pub description_hash: Option<String>,
    pub metadata: Option<serde_json::Value>,
}

#[derive(Debug, PartialEq, Eq)]
pub struct SettleHoldInvoiceRequest {
    pub preimage: String,
}

#[derive(Debug, Clone, Copy, PartialEq, Eq)]
pub struct SettleHoldInvoiceResponse {}

#[derive(Debug, PartialEq, Eq)]
pub struct CancelHoldInvoiceRequest {
    pub payment_hash: String,
}

#[derive(Debug, Clone, Copy, PartialEq, Eq)]
pub struct CancelHoldInvoiceResponse {}

// ── keysend, history, lookup ─────────────────────────────────────────

#[derive(Debug, PartialEq, Eq)]
pub struct PayKeysendRequest {
    pub amount: u64,
    pub pubkey: String,
}

#[derive(Debug, PartialEq, Eq)]
pub struct PayKeysendResponse {
    pub preimage: String,
    pub fees_paid: Option<u64>,
}

#[derive(Debug, Clone, Copy, PartialEq, Eq)]
pub struct ListTransactionsRequest {
    pub from: Option<u64>,
    pub until: Option<u64>,
    pub limit: Option<u64>,
    pub offset: Option<u64>,
    pub unpaid: Option<bool>,
    pub transaction_type: Option<TransactionType>,
}

#[derive(Debug, PartialEq)]
pub struct ListTransactionsResponse {
    pub transactions: Vec<Transaction>,
    pub total_count: Option<u64>,
}

#[derive(Debug, PartialEq)]
pub struct LookupPaymentRequest {
    pub transaction_id: Option<String>,
    pub payment_hash: Option<String>,
    pub invoice: Option<String>,
    pub payment_type: Option<String>,
    pub lookup: Option<serde_json::Value>,
}

#[derive(Debug, Clone, Copy, PartialEq, Eq, Structural)]
pub enum PaymentState {
    Pending,
    Settled,
    Accepted,
    Expired,
    Failed,
}

#[derive(Debug, PartialEq)]
pub struct LookupPaymentResponse {
    pub transaction_id: String,
    pub payment_direction: TransactionType,
    pub state: PaymentState,
    pub payment_type: String,
    pub amount: u64,
    pub fees_paid: Option<u64>,
    pub created_at: u64,
    pub updated_at: Option<u64>,
    pub expires_at: Option<u64>,
    pub settled_at: Option<u64>,
    pub failure_reason: Option<String>,
    pub metadata: Option<serde_json::Value>,
    pub details: serde_json::Value,
}

// ── invoices ─────────────────────────────────────────────────────────

#[derive(Debug, Clone, Copy, PartialEq, Eq, Structural)]
pub enum InvoiceState {
    Pending,
    Settled,
    Expired,
}

#[derive(Debug, Clone, Copy, PartialEq, Eq)]
pub struct ListInvoicesRequest {
    pub from: Option<u64>,
    pub until: Option<u64>,
    pub limit: Option<u64>,
    pub offset: Option<u64>,
    pub state: Option<InvoiceState>,
}

#[derive(Debug, PartialEq, Eq)]
pub struct InvoiceRecord {
    pub invoice: String,
    pub description: Option<String>,
    pub payment_hash: String,
    pub amount: u64,
    pub preimage: Option<String>,
    pub settled_at: Option<u64>,
    pub state: InvoiceState,
    pub created_at: u64,
    pub expires_at: u64,
}

#[derive(Debug, PartialEq, Eq)]
pub struct ListInvoicesResponse {
    pub invoices: Vec<InvoiceRecord>,
}

// ── offers ───────────────────────────────────────────────────────────

#[derive(Debug, PartialEq, Eq)]
pub struct MakeOfferRequest {
    pub amount: Option<u64>,
    pub description: Option<String>,
    pub issuer: Option<String>,
    pub single_use: Option<bool>,
    pub expires_at: Option<u64>,
}

#[derive(Debug, PartialEq, Eq)]
pub struct MakeOfferResponse {
    pub offer_id: String,
    pub offer: String,
    pub amount: Option<u64>,
    pub description: Option<String>,
    pub issuer: Option<String>,
    pub single_use: bool,
    pub created_at: u64,
    pub expires_at: Option<u64>,
}

#[derive(Debug, PartialEq, Eq)]
pub struct PayOfferRequest {
    pub offer: String,
    pub amount: Option<u64>,
    pub payer_note: Option<String>,
}

#[derive(Debug, PartialEq, Eq)]
pub struct PayOfferResponse {
    pub transaction_id: String,
    pub preimage: String,
    pub fees_paid: Option<u64>,
}

#[derive(Debug, Clone, Copy, PartialEq, Eq)]
pub struct ListOffersRequest {
    pub active_only: Option<bool>,
}

#[derive(Debug, PartialEq, Eq)]
pub struct OfferRecord {
    pub offer_id: String,
    pub offer: String,
    pub description: Option<String>,
    pub issuer: Option<String>,
    pub amount: Option<u64>,
    pub active: bool,
    pub single_use: bool,
    pub num_payments_received: u64,
    pub total_received: u64,
    pub created_at: u64,
    pub expires_at: Option<u64>,
}

#[derive(Debug, PartialEq, Eq)]
pub struct ListOffersResponse {
    pub offers: Vec<OfferRecord>,
}

#[derive(Debug, PartialEq, Eq)]
pub struct DisableOfferRequest {
    pub offer_id: String,
}

#[derive(Debug, Clone, Copy, PartialEq, Eq)]
pub struct DisableOfferResponse {}

// ── routes ───────────────────────────────────────────────────────────

#[derive(Debug, PartialEq, Eq)]
pub struct QuotePaymentRequest {
    pub invoice: String,
    pub amount: Option<u64>,
}

#[derive(Debug, Clone, Copy, PartialEq, Eq)]
pub struct QuotePaymentResponse {
    pub amount: u64,
    pub fee_msat: u64,
    pub cltv_expiry_delta: u32,
    pub route_found: bool,
}

// ── payment URIs ─────────────────────────────────────────────────────

#[derive(Debug, PartialEq, Eq)]
pub struct PayRequest {
    /// A BIP 321 URI.
    pub payment: String,
    pub amount: Option<u64>,
    pub payer_note: Option<String>,
    /// A fee budget. This node cannot cap a route, so it takes no notice.
    pub max_fee: Option<u64>,
}

#[derive(Debug, PartialEq, Eq)]
pub struct PayResponse {
    pub transaction_id: String,
    pub state: String,
    pub instruction_type: String,
    pub amount: u64,
    pub fees_paid: u64,
    pub payment_hash: Option<String>,
    pub preimage: Option<String>,
    pub payer_proof: Option<String>,
    pub txid: Option<String>,
    pub failure_reason: Option<String>,
    pub created_at: u64,
    pub settled_at: Option<u64>,
}

/// A payment method that the caller wants in the URI.
#[derive(Debug, PartialEq, Eq)]
pub struct Bip321Method {
    pub method: String,
    pub expiry: Option<u64>,
    pub address_type: Option<String>,
}

#[derive(Debug, PartialEq, Eq)]
pub struct ReceiveRequest {
    pub amount: Option<u64>,
    pub label: Option<String>,
    pub description: Option<String>,
    pub methods: Option<Vec<Bip321Method>>,
}

#[derive(Debug, PartialEq, Eq)]
pub struct ReceiveResponse {
    pub bip321: String,
    pub transaction_id: Option<String>,
}

// ── notifications ────────────────────────────────────────────────────

/// A payment that waits for the wallet to settle or cancel it.
#[derive(Debug, PartialEq)]
pub struct HoldInvoiceAccepted {
    pub kind: String,
    pub state: Option<String>,
    pub invoice: String,
    pub payment_hash: String,
    pub amount: u64,
    pub created_at: u64,
    pub expires_at: u64,
    /// Past it neither settling nor cancelling is safe.
    pub settle_deadline: Option<u64>,
    pub description: Option<String>,
    pub description_hash: Option<String>,
    pub metadata: Option<serde_json::Value>,
}

}
