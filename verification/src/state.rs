//! What the node remembers that the Lightning node underneath does not:
//! addresses, offers and forwarding history.

use vstd::prelude::*;

verus! {

/// An on-chain payment to one of the node's addresses.
#[derive(Debug, PartialEq, Eq)]
pub struct AddressPayment {
    pub txid: String,
    pub amount_sats: u64,
    pub timestamp: u64,
}

/// An address that the node watches, and what was paid to it.
#[derive(Debug, PartialEq, Eq)]
pub struct WatchedAddress {
    pub address: String,
    pub transactions: Vec<AddressPayment>,
}

/// An offer that the node issued.
#[derive(Debug, PartialEq, Eq)]
pub struct StoredOffer {
    pub offer_id: [u8; 32],
    pub offer: String,
    pub description: String,
    pub amount_msat: u64,
    pub active: bool,
    pub num_payments_received: u64,
    pub total_received_msat: u64,
}

/// An offer to remember.
#[derive(Debug, PartialEq, Eq)]
pub struct NewOffer {
    pub offer: String,
    pub description: String,
    pub amount_msat: u64,
    pub offer_id: [u8; 32],
}

/// A payment that the node passed on.
#[derive(Debug, PartialEq, Eq)]
pub struct ForwardingEntry {
    pub incoming_channel_id: String,
    pub outgoing_channel_id: String,
    pub incoming_amount: u64,
    pub outgoing_amount: u64,
    pub fee_earned: u64,
    pub settled_at: u64,
}

}
