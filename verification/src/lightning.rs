//! What the Lightning node hands to the handlers, as plain values.

use vstd::prelude::*;

use crate::digits::{hex_payment_hash, hex_text};

verus! {

/// How a payment is made, with what identifies and proves it.
#[allow(inconsistent_fields)]
#[derive(Debug, Clone, Copy, PartialEq, Eq)]
pub enum PaymentKind {
    Onchain,
    Bolt11 { hash: [u8; 32], preimage: Option<[u8; 32]> },
    Bolt11Jit { hash: [u8; 32], preimage: Option<[u8; 32]> },
    Bolt12Offer { hash: Option<[u8; 32]>, preimage: Option<[u8; 32]> },
    Bolt12Refund { hash: Option<[u8; 32]>, preimage: Option<[u8; 32]> },
    Spontaneous { hash: [u8; 32], preimage: Option<[u8; 32]> },
}

impl PaymentKind {
    /// The payment's hash. An on-chain payment has none.
    pub open spec fn hash(self) -> Option<Seq<u8>> {
        match self {
            PaymentKind::Onchain => None,
            PaymentKind::Bolt11 { hash, .. } => Some(hash@),
            PaymentKind::Bolt11Jit { hash, .. } => Some(hash@),
            PaymentKind::Bolt12Offer { hash, .. } => hash.deep_view(),
            PaymentKind::Bolt12Refund { hash, .. } => hash.deep_view(),
            PaymentKind::Spontaneous { hash, .. } => Some(hash@),
        }
    }

    /// The preimage, where the node knows it.
    pub open spec fn preimage(self) -> Option<Seq<u8>> {
        match self {
            PaymentKind::Onchain => None,
            PaymentKind::Bolt11 { preimage, .. } => preimage.deep_view(),
            PaymentKind::Bolt11Jit { preimage, .. } => preimage.deep_view(),
            PaymentKind::Bolt12Offer { preimage, .. } => preimage.deep_view(),
            PaymentKind::Bolt12Refund { preimage, .. } => preimage.deep_view(),
            PaymentKind::Spontaneous { preimage, .. } => preimage.deep_view(),
        }
    }
}

/// Some bytes in hex, where there are any.
pub open spec fn hex_option(bytes: Option<Seq<u8>>) -> Option<Seq<char>> {
    match bytes {
        Some(b) => Some(hex_text(b)),
        None => None,
    }
}

fn hex_of(bytes: &Option<[u8; 32]>) -> (text: Option<String>)
    ensures
        text.deep_view() == hex_option(bytes.deep_view()),
{
    match bytes {
        Some(b) => {
            assert(b@ =~= b.deep_view());
            Some(hex_payment_hash(b))
        },
        None => None,
    }
}

/// The payment's hash in hex.
pub fn payment_hash_from_kind(kind: &PaymentKind) -> (hash: Option<String>)
    ensures
        hash.deep_view() == hex_option(kind.hash()),
{
    match kind {
        PaymentKind::Bolt11 { hash, .. } => Some(hex_payment_hash(hash)),
        PaymentKind::Bolt11Jit { hash, .. } => Some(hex_payment_hash(hash)),
        PaymentKind::Spontaneous { hash, .. } => Some(hex_payment_hash(hash)),
        PaymentKind::Bolt12Offer { hash, .. } => hex_of(hash),
        PaymentKind::Bolt12Refund { hash, .. } => hex_of(hash),
        PaymentKind::Onchain => None,
    }
}

/// The payment's preimage in hex.
pub fn preimage_from_kind(kind: &PaymentKind) -> (preimage: Option<String>)
    ensures
        preimage.deep_view() == hex_option(kind.preimage()),
{
    match kind {
        PaymentKind::Bolt11 { preimage, .. } => hex_of(preimage),
        PaymentKind::Bolt11Jit { preimage, .. } => hex_of(preimage),
        PaymentKind::Spontaneous { preimage, .. } => hex_of(preimage),
        PaymentKind::Bolt12Offer { preimage, .. } => hex_of(preimage),
        PaymentKind::Bolt12Refund { preimage, .. } => hex_of(preimage),
        PaymentKind::Onchain => None,
    }
}

#[derive(Debug, Clone, Copy, PartialEq, Eq, Structural)]
pub enum PaymentDirection {
    Inbound,
    Outbound,
}

#[derive(Debug, Clone, Copy, PartialEq, Eq, Structural)]
pub enum PaymentStatus {
    Pending,
    Succeeded,
    Failed,
}

/// A payment in the node's record.
#[derive(Debug, Clone, Copy, PartialEq, Eq)]
pub struct PaymentDetails {
    pub kind: PaymentKind,
    pub direction: PaymentDirection,
    pub status: PaymentStatus,
    pub amount_msat: Option<u64>,
    pub fee_paid_msat: Option<u64>,
    /// Seconds since the epoch.
    pub latest_update_timestamp: u64,
}

/// What the node holds. The total covers both sides.
#[derive(Debug, Clone, Copy, PartialEq, Eq)]
pub struct BalanceInfo {
    pub total_msat: u64,
    pub lightning_msat: u64,
    pub onchain_msat: u64,
}

/// A payment that went through.
#[derive(Debug, PartialEq, Eq)]
pub struct PaymentSent {
    pub preimage: String,
    pub fees_paid_msat: Option<u64>,
}

/// An invoice that the node issued.
#[derive(Debug, PartialEq, Eq)]
pub struct InvoiceInfo {
    pub invoice: String,
    pub payment_hash: Option<String>,
    pub amount_msat: Option<u64>,
    pub expires_at: Option<u64>,
}

#[derive(Debug, PartialEq, Eq)]
pub struct ChannelInfo {
    pub id: String,
    pub short_channel_id: Option<String>,
    pub peer_pubkey: String,
    /// The node's own word for the channel's state.
    pub state: String,
    pub is_private: bool,
    pub capacity: u64,
    pub local_balance: u64,
    pub remote_balance: u64,
    pub funding_txid: Option<String>,
}

#[derive(Debug, PartialEq, Eq)]
pub struct PeerInfo {
    pub pubkey: String,
    pub address: String,
    pub connected: bool,
    pub alias: Option<String>,
    pub num_channels: usize,
}

#[derive(Debug, PartialEq, Eq)]
pub struct ChannelFeeInfo {
    pub id: String,
    pub short_channel_id: Option<String>,
    pub peer_pubkey: String,
    pub base_fee: u32,
    pub fee_rate: u32,
    pub min_htlc: u64,
    pub max_htlc: Option<u64>,
}

#[derive(Debug, PartialEq, Eq)]
pub struct HopInfo {
    pub pubkey: String,
    pub short_channel_id: String,
    pub fee: u64,
}

#[derive(Debug, PartialEq, Eq)]
pub struct RouteInfo {
    pub total_fee: u64,
    pub total_time_lock: u32,
    pub hops: Vec<HopInfo>,
}

#[derive(Debug, PartialEq, Eq)]
pub struct NetworkNodeInfo {
    pub pubkey: String,
    pub alias: String,
    pub color: String,
    pub num_channels: usize,
    pub total_capacity: u64,
    pub addresses: Vec<String>,
    pub last_update: u32,
}

#[derive(Debug, Clone, Copy, PartialEq, Eq)]
pub struct NetworkStats {
    pub num_nodes: usize,
    pub num_channels: usize,
    pub total_capacity: u64,
    pub avg_channel_size: u64,
    pub max_channel_size: u64,
}

#[derive(Debug, Clone, Copy, PartialEq, Eq)]
pub struct NetworkChannelPolicy {
    pub base_fee: u32,
    pub fee_rate: u32,
    pub min_htlc: u64,
    pub max_htlc: u64,
    pub time_lock_delta: u16,
    pub disabled: bool,
    pub last_update: u32,
}

#[derive(Debug, PartialEq, Eq)]
pub struct NetworkChannelInfo {
    pub short_channel_id: String,
    pub capacity: u64,
    pub node1_pubkey: String,
    pub node2_pubkey: String,
    pub node1_policy: Option<NetworkChannelPolicy>,
    pub node2_policy: Option<NetworkChannelPolicy>,
}

}
