//! The control protocol: what is asked of the node, and what is answered.
//!
//! A request holds what a handler reads of it. Amounts are in millisatoshis
//! unless the name says sats; times are seconds since the epoch.

use vstd::prelude::*;

verus! {

// ── channels ─────────────────────────────────────────────────────────

#[derive(Debug, PartialEq, Eq)]
pub enum ChannelState {
    Active,
    Inactive,
    PendingOpen,
    PendingClose,
    ForceClosing,
    /// A state that the protocol has no name for, in the node's own word.
    Unknown(String),
}

#[derive(Debug, PartialEq, Eq)]
pub struct Channel {
    pub id: String,
    pub short_channel_id: Option<String>,
    pub peer_pubkey: String,
    pub state: Option<ChannelState>,
    pub is_private: bool,
    pub capacity: Option<u64>,
    pub local_balance: Option<u64>,
    pub remote_balance: Option<u64>,
    pub funding_txid: Option<String>,
}

#[derive(Debug, PartialEq, Eq)]
pub struct ListChannelsResponse {
    pub channels: Vec<Channel>,
}

#[derive(Debug, PartialEq, Eq)]
pub struct OpenChannelRequest {
    pub pubkey: String,
    pub host: Option<String>,
    pub amount_sats: u64,
    pub push_amount: Option<u64>,
}

/// The node has begun. That the channel is open comes as a notification.
#[derive(Debug, Clone, Copy, PartialEq, Eq)]
pub struct OpenChannelResponse {}

#[derive(Debug, PartialEq, Eq)]
pub struct CloseChannelRequest {
    pub id: String,
    pub force: Option<bool>,
}

#[derive(Debug, Clone, Copy, PartialEq, Eq)]
pub struct CloseChannelResponse {}

// ── peers ────────────────────────────────────────────────────────────

#[derive(Debug, PartialEq, Eq)]
pub struct Peer {
    pub pubkey: String,
    pub address: Option<String>,
    pub connected: bool,
    pub alias: Option<String>,
    pub num_channels: Option<u64>,
}

#[derive(Debug, PartialEq, Eq)]
pub struct ListPeersResponse {
    pub peers: Vec<Peer>,
}

#[derive(Debug, PartialEq, Eq)]
pub struct ConnectPeerRequest {
    pub pubkey: String,
    pub host: Option<String>,
}

#[derive(Debug, Clone, Copy, PartialEq, Eq)]
pub struct ConnectPeerResponse {}

#[derive(Debug, PartialEq, Eq)]
pub struct DisconnectPeerRequest {
    pub pubkey: String,
}

#[derive(Debug, Clone, Copy, PartialEq, Eq)]
pub struct DisconnectPeerResponse {}

// ── fees ─────────────────────────────────────────────────────────────

#[derive(Debug, PartialEq, Eq)]
pub struct GetChannelFeesRequest {
    pub id: Option<String>,
}

#[derive(Debug, PartialEq, Eq)]
pub struct ChannelFees {
    pub id: String,
    pub short_channel_id: Option<String>,
    pub peer_pubkey: Option<String>,
    pub base_fee: u64,
    pub fee_rate: u64,
    pub min_htlc: Option<u64>,
    pub max_htlc: Option<u64>,
}

#[derive(Debug, PartialEq, Eq)]
pub struct GetChannelFeesResponse {
    pub fees: Vec<ChannelFees>,
}

#[derive(Debug, PartialEq, Eq)]
pub struct SetChannelFeesRequest {
    pub id: Option<String>,
    pub base_fee: Option<u64>,
    pub fee_rate: Option<u64>,
    pub min_htlc: Option<u64>,
    pub max_htlc: Option<u64>,
}

#[derive(Debug, Clone, Copy, PartialEq, Eq)]
pub struct SetChannelFeesResponse {}

// ── routes and history ───────────────────────────────────────────────

#[derive(Debug, PartialEq, Eq)]
pub struct QueryRoutesRequest {
    pub destination: String,
    pub amount: u64,
    pub max_routes: Option<u64>,
}

#[derive(Debug, PartialEq, Eq)]
pub struct Hop {
    pub pubkey: String,
    pub short_channel_id: Option<String>,
    pub fee: u64,
}

#[derive(Debug, PartialEq, Eq)]
pub struct Route {
    pub total_fee: u64,
    pub total_time_lock: u64,
    pub hops: Vec<Hop>,
}

#[derive(Debug, PartialEq, Eq)]
pub struct QueryRoutesResponse {
    pub routes: Vec<Route>,
}

#[derive(Debug, Clone, Copy, PartialEq, Eq)]
pub struct GetForwardingHistoryRequest {
    pub from: Option<u64>,
    pub until: Option<u64>,
    pub limit: Option<u64>,
    pub offset: Option<u64>,
}

#[derive(Debug, PartialEq, Eq)]
pub struct ForwardingEvent {
    pub incoming_channel_id: String,
    pub outgoing_channel_id: String,
    pub incoming_amount: u64,
    pub outgoing_amount: u64,
    pub fee_earned: u64,
    pub settled_at: u64,
}

#[derive(Debug, PartialEq, Eq)]
pub struct GetForwardingHistoryResponse {
    pub forwards: Vec<ForwardingEvent>,
}

// ── the graph ────────────────────────────────────────────────────────

#[derive(Debug, Clone, Copy, PartialEq, Eq)]
pub struct ListNetworkNodesRequest {
    pub limit: Option<u64>,
    pub offset: Option<u64>,
}

#[derive(Debug, PartialEq, Eq)]
pub struct NetworkNode {
    pub pubkey: String,
    pub alias: Option<String>,
    pub color: Option<String>,
    pub num_channels: Option<u64>,
    pub total_capacity: Option<u64>,
    pub addresses: Option<Vec<String>>,
    pub last_update: Option<u64>,
}

#[derive(Debug, PartialEq, Eq)]
pub struct ListNetworkNodesResponse {
    pub nodes: Vec<NetworkNode>,
}

#[derive(Debug, Clone, Copy, PartialEq, Eq)]
pub struct GetNetworkStatsResponse {
    pub num_nodes: u64,
    pub num_channels: u64,
    pub total_capacity: u64,
    pub avg_channel_size: Option<u64>,
    pub max_channel_size: Option<u64>,
}

#[derive(Debug, Clone, Copy, PartialEq, Eq)]
pub struct ChannelPolicy {
    pub base_fee: Option<u64>,
    pub fee_rate: Option<u64>,
    pub min_htlc: Option<u64>,
    pub max_htlc: Option<u64>,
    pub time_lock_delta: Option<u64>,
    pub disabled: bool,
    pub last_update: Option<u64>,
}

#[derive(Debug, PartialEq, Eq)]
pub struct GetNetworkChannelResponse {
    pub short_channel_id: String,
    pub capacity: u64,
    pub node1_pubkey: String,
    pub node2_pubkey: String,
    pub node1_policy: Option<ChannelPolicy>,
    pub node2_policy: Option<ChannelPolicy>,
}

// ── notifications ────────────────────────────────────────────────────

#[derive(Debug, PartialEq, Eq)]
pub enum CloseType {
    Cooperative,
    ForceLocal,
    ForceRemote,
    Breach,
    Unknown(String),
}

#[derive(Debug, PartialEq, Eq)]
pub struct ChannelOpened {
    pub channel: Channel,
}

#[derive(Debug, PartialEq, Eq)]
pub struct ChannelClosed {
    pub id: String,
    pub short_channel_id: Option<String>,
    pub peer_pubkey: Option<String>,
    pub capacity: Option<u64>,
    pub closing_txid: Option<String>,
    pub close_type: CloseType,
}

}
