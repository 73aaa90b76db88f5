//! Node control: fourteen methods over a Lightning node.
//!
//! The counterpart to the wallet, and split the same way: what the node is
//! asked, and what its word is turned into.

use vstd::prelude::*;

use crate::error::{failure, ldk_err, ErrorCode, NncError};
use crate::lightning::{
    ChannelFeeInfo, ChannelInfo, HopInfo, NetworkChannelInfo, NetworkChannelPolicy, NetworkNodeInfo,
    NetworkStats, PeerInfo, RouteInfo,
};
use crate::nnc::{
    Channel, ChannelFees, ChannelPolicy, ChannelState, CloseChannelRequest, CloseChannelResponse,
    ConnectPeerRequest, ConnectPeerResponse, DisconnectPeerRequest, DisconnectPeerResponse,
    ForwardingEvent, GetChannelFeesRequest, GetChannelFeesResponse, GetForwardingHistoryRequest,
    GetForwardingHistoryResponse, GetNetworkChannelResponse, GetNetworkStatsResponse, Hop,
    ListChannelsResponse, ListNetworkNodesRequest, ListNetworkNodesResponse, ListPeersResponse,
    NetworkNode, OpenChannelRequest, OpenChannelResponse, Peer, QueryRoutesRequest,
    QueryRoutesResponse, Route, SetChannelFeesRequest, SetChannelFeesResponse,
};
use crate::state::ForwardingEntry;
use crate::wallet::route::FindRoutesCall;

verus! {

/// The control side of the node, with what it announces through.
pub struct Control<N> {
    notifier: Option<N>,
}

/// A channel for the node to open.
#[derive(Debug, PartialEq, Eq)]
pub struct OpenChannelCall {
    pub pubkey: String,
    pub host: String,
    pub amount_sats: u64,
    pub push_amount: Option<u64>,
}

/// A channel for the node to close.
#[derive(Debug, PartialEq, Eq)]
pub struct CloseChannelCall {
    pub id: String,
    pub force: bool,
}

/// A peer for the node to connect to.
#[derive(Debug, PartialEq, Eq)]
pub struct ConnectPeerCall {
    pub pubkey: String,
    pub host: String,
}

/// Fees for the node to set on a channel.
#[derive(Debug, PartialEq, Eq)]
pub struct SetChannelFeesCall {
    pub id: String,
    pub base_fee: Option<u32>,
    pub fee_rate: Option<u32>,
}

/// A part of the forwarding history.
#[derive(Debug, Clone, Copy, PartialEq, Eq)]
pub struct HistoryQuery {
    pub from: Option<u64>,
    pub until: Option<u64>,
    pub limit: u64,
    pub offset: u64,
}

/// A part of the node list.
#[derive(Debug, Clone, Copy, PartialEq, Eq)]
pub struct NodesQuery {
    pub limit: u64,
    pub offset: u64,
}

/// The methods that the control side serves.
pub open spec fn control_methods() -> Seq<Seq<char>> {
    seq![
        "list_channels"@,
        "open_channel"@,
        "close_channel"@,
        "list_peers"@,
        "connect_peer"@,
        "disconnect_peer"@,
        "get_channel_fees"@,
        "set_channel_fees"@,
        "query_routes"@,
        "get_forwarding_history"@,
        "list_network_nodes"@,
        "get_network_node"@,
        "get_network_stats"@,
        "get_network_channel"@,
    ]
}

/// Whether `s` is the state that the node calls `word`.
pub open spec fn is_channel_state(s: ChannelState, word: Seq<char>) -> bool {
    if word == "active"@ {
        s is Active
    } else if word == "inactive"@ {
        s is Inactive
    } else if word == "pending_open"@ {
        s is PendingOpen
    } else if word == "pending_close"@ {
        s is PendingClose
    } else if word == "force_closing"@ {
        s is ForceClosing
    } else {
        s matches ChannelState::Unknown(other) && other@ == word
    }
}

/// Whether `c` is what is answered of the channel `i`.
pub open spec fn is_channel(c: Channel, i: ChannelInfo) -> bool {
    &&& c.id == i.id
    &&& c.short_channel_id == i.short_channel_id
    &&& c.peer_pubkey == i.peer_pubkey
    &&& c.state is Some && is_channel_state(c.state->0, i.state@)
    &&& c.is_private == i.is_private
    &&& c.capacity == Some(i.capacity)
    &&& c.local_balance == Some(i.local_balance)
    &&& c.remote_balance == Some(i.remote_balance)
    &&& c.funding_txid == i.funding_txid
}

/// Whether `p` is what is answered of the peer `i`.
pub open spec fn is_peer(p: Peer, i: PeerInfo) -> bool {
    &&& p.pubkey == i.pubkey
    &&& p.address == Some(i.address)
    &&& p.connected == i.connected
    &&& p.alias == i.alias
    &&& p.num_channels == Some(i.num_channels as u64)
}

/// Whether `f` is what is answered of the fees `i`.
pub open spec fn is_fees(f: ChannelFees, i: ChannelFeeInfo) -> bool {
    &&& f.id == i.id
    &&& f.short_channel_id == i.short_channel_id
    &&& f.peer_pubkey == Some(i.peer_pubkey)
    &&& f.base_fee == i.base_fee
    &&& f.fee_rate == i.fee_rate
    &&& f.min_htlc == Some(i.min_htlc)
    &&& f.max_htlc == i.max_htlc
}

/// Whether `h` is what is answered of the hop `i`.
pub open spec fn is_hop(h: Hop, i: HopInfo) -> bool {
    &&& h.pubkey == i.pubkey
    &&& h.short_channel_id == Some(i.short_channel_id)
    &&& h.fee == i.fee
}

/// Whether `r` is what is answered of the route `i`.
pub open spec fn is_route(r: Route, i: RouteInfo) -> bool {
    &&& r.total_fee == i.total_fee
    &&& r.total_time_lock == i.total_time_lock
    &&& r.hops@.len() == i.hops@.len()
    &&& forall|n: int| 0 <= n < i.hops@.len() ==> is_hop(#[trigger] r.hops@[n], i.hops@[n])
}

/// Whether `f` is what is answered of the forwarded payment `e`.
pub open spec fn is_forward(f: ForwardingEvent, e: ForwardingEntry) -> bool {
    &&& f.incoming_channel_id == e.incoming_channel_id
    &&& f.outgoing_channel_id == e.outgoing_channel_id
    &&& f.incoming_amount == e.incoming_amount
    &&& f.outgoing_amount == e.outgoing_amount
    &&& f.fee_earned == e.fee_earned
    &&& f.settled_at == e.settled_at
}

/// Whether `n` is what is answered of the network's node `i`.
pub open spec fn is_network_node(n: NetworkNode, i: NetworkNodeInfo) -> bool {
    &&& n.pubkey == i.pubkey
    &&& n.alias == Some(i.alias)
    &&& n.color == Some(i.color)
    &&& n.num_channels == Some(i.num_channels as u64)
    &&& n.total_capacity == Some(i.total_capacity)
    &&& n.addresses is Some && n.addresses->0@ == i.addresses@
    &&& n.last_update == Some(i.last_update as u64)
}

/// What is answered of a channel policy.
pub open spec fn policy_of(p: NetworkChannelPolicy) -> ChannelPolicy {
    ChannelPolicy {
        base_fee: Some(p.base_fee as u64),
        fee_rate: Some(p.fee_rate as u64),
        min_htlc: Some(p.min_htlc),
        max_htlc: Some(p.max_htlc),
        time_lock_delta: Some(p.time_lock_delta as u64),
        disabled: p.disabled,
        last_update: Some(p.last_update as u64),
    }
}

/// What is answered of a channel policy, where the graph has one.
pub open spec fn policy_option(p: Option<NetworkChannelPolicy>) -> Option<ChannelPolicy> {
    match p {
        Some(p) => Some(policy_of(p)),
        None => None,
    }
}

/// Whether the node can be told a fee.
pub open spec fn can_be_set(fee: Option<u64>) -> bool {
    fee is Some ==> fee->0 <= u32::MAX
}

/// Whether `set` is the fee `wanted`, both of them absent or of one value.
pub open spec fn is_fee(set: Option<u32>, wanted: Option<u64>) -> bool {
    match (set, wanted) {
        (Some(s), Some(w)) => s == w,
        (None, None) => true,
        _ => false,
    }
}

fn narrow(fee: Option<u64>) -> (narrowed: Result<Option<u32>, ()>)
    ensures
        match narrowed {
            Ok(n) => can_be_set(fee) && is_fee(n, fee),
            Err(_) => !can_be_set(fee),
        },
{
    match fee {
        Some(f) => if f <= u32::MAX as u64 {
            Ok(Some(f as u32))
        } else {
            Err(())
        },
        None => Ok(None),
    }
}

fn state_named(word: &String) -> (state: ChannelState)
    ensures
        is_channel_state(state, word@),
{
    if word.eq(&"active".to_string()) {
        ChannelState::Active
    } else if word.eq(&"inactive".to_string()) {
        ChannelState::Inactive
    } else if word.eq(&"pending_open".to_string()) {
        ChannelState::PendingOpen
    } else if word.eq(&"pending_close".to_string()) {
        ChannelState::PendingClose
    } else if word.eq(&"force_closing".to_string()) {
        ChannelState::ForceClosing
    } else {
        ChannelState::Unknown(word.clone())
    }
}

pub fn to_policy(p: &NetworkChannelPolicy) -> (policy: ChannelPolicy)
    ensures
        policy == policy_of(*p),
{
    ChannelPolicy {
        base_fee: Some(p.base_fee as u64),
        fee_rate: Some(p.fee_rate as u64),
        min_htlc: Some(p.min_htlc),
        max_htlc: Some(p.max_htlc),
        time_lock_delta: Some(p.time_lock_delta as u64),
        disabled: p.disabled,
        last_update: Some(p.last_update as u64),
    }
}

fn to_policy_option(p: &Option<NetworkChannelPolicy>) -> (policy: Option<ChannelPolicy>)
    ensures
        policy == policy_option(*p),
{
    match p {
        Some(p) => Some(to_policy(p)),
        None => None,
    }
}

pub fn to_network_node(n: NetworkNodeInfo) -> (node: NetworkNode)
    ensures
        is_network_node(node, n),
{
    NetworkNode {
        pubkey: n.pubkey,
        alias: Some(n.alias),
        color: Some(n.color),
        num_channels: Some(n.num_channels as u64),
        total_capacity: Some(n.total_capacity),
        addresses: Some(n.addresses),
        last_update: Some(n.last_update as u64),
    }
}

fn to_route(route: &RouteInfo) -> (r: Route)
    ensures
        is_route(r, *route),
{
    let mut hops: Vec<Hop> = Vec::new();
    for i in 0..route.hops.len()
        invariant
            hops@.len() == i,
            forall|j: int| 0 <= j < i ==> is_hop(#[trigger] hops@[j], route.hops@[j]),
    {
        let h = &route.hops[i];
        hops.push(
            Hop {
                pubkey: h.pubkey.clone(),
                short_channel_id: Some(h.short_channel_id.clone()),
                fee: h.fee,
            },
        );
    }
    Route { total_fee: route.total_fee, total_time_lock: route.total_time_lock as u64, hops }
}

impl<N: Clone> Control<N> {
    pub fn notifier(&self) -> (notifier: Option<N>)
        ensures
            match notifier {
                Some(n) => self.announces_through() is Some && cloned(
                    self.announces_through()->0,
                    n,
                ),
                None => self.announces_through() is None,
            },
    {
        self.notifier.clone()
    }
}

impl<N> Control<N> {
    /// What the control side announces through, once it has been given it.
    pub closed spec fn announces_through(self) -> Option<N> {
        self.notifier
    }

    pub fn new() -> (control: Self)
        ensures
            control.announces_through() is None,
    {
        Control { notifier: None }
    }

    /// Given after construction, because the notifier needs the service and
    /// the service needs the handler.
    pub fn with_notifier(self, notifier: N) -> (control: Self)
        ensures
            control.announces_through() == Some(notifier),
    {
        Control { notifier: Some(notifier) }
    }

    /// What the control side serves, for discovery.
    pub fn methods(&self) -> (names: Vec<String>)
        ensures
            names.deep_view() == control_methods(),
    {
        let names = vec![
            "list_channels".to_string(),
            "open_channel".to_string(),
            "close_channel".to_string(),
            "list_peers".to_string(),
            "connect_peer".to_string(),
            "disconnect_peer".to_string(),
            "get_channel_fees".to_string(),
            "set_channel_fees".to_string(),
            "query_routes".to_string(),
            "get_forwarding_history".to_string(),
            "list_network_nodes".to_string(),
            "get_network_node".to_string(),
            "get_network_stats".to_string(),
            "get_network_channel".to_string(),
        ];
        assert(names.deep_view() =~= control_methods());
        names
    }

    // ── channels ─────────────────────────────────────────────────────

    /// The node's channels, in its order.
    pub fn list_channels(&self, channels: &Vec<ChannelInfo>) -> (answer: ListChannelsResponse)
        ensures
            answer.channels@.len() == channels@.len(),
            forall|i: int|
                0 <= i < channels@.len() ==> is_channel(#[trigger] answer.channels@[i], channels@[i]),
    {
        let mut out: Vec<Channel> = Vec::new();
        for i in 0..channels.len()
            invariant
                out@.len() == i,
                forall|j: int| 0 <= j < i ==> is_channel(#[trigger] out@[j], channels@[j]),
        {
            let c = &channels[i];
            out.push(
                Channel {
                    id: c.id.clone(),
                    short_channel_id: c.short_channel_id.clone(),
                    peer_pubkey: c.peer_pubkey.clone(),
                    state: Some(state_named(&c.state)),
                    is_private: c.is_private,
                    capacity: Some(c.capacity),
                    local_balance: Some(c.local_balance),
                    remote_balance: Some(c.remote_balance),
                    funding_txid: c.funding_txid.clone(),
                },
            );
        }
        ListChannelsResponse { channels: out }
    }

    /// Which channel the node is asked to open. It has to be told where the
    /// peer is.
    pub fn open_channel(&self, r: OpenChannelRequest) -> (call: Result<OpenChannelCall, NncError>)
        ensures
            match call {
                Ok(c) => {
                    &&& c.pubkey == r.pubkey
                    &&& r.host == Some(c.host)
                    &&& c.amount_sats == r.amount_sats
                    &&& c.push_amount == r.push_amount
                },
                Err(e) => r.host is None && e.says(
                    ErrorCode::BadRequest,
                    "host is required to open a channel"@,
                ),
            },
    {
        match r.host {
            Some(host) => Ok(
                OpenChannelCall {
                    pubkey: r.pubkey,
                    host,
                    amount_sats: r.amount_sats,
                    push_amount: r.push_amount,
                },
            ),
            None => Err(
                NncError::new(ErrorCode::BadRequest, "host is required to open a channel"),
            ),
        }
    }

    /// What came of asking. A channel opens later: this acknowledges that the
    /// node has begun, and no more.
    pub fn open_channel_reply(&self, begun: Result<(), String>) -> (answer: Result<
        OpenChannelResponse,
        NncError,
    >)
        ensures
            match begun {
                Ok(_) => answer is Ok,
                Err(e) => answer matches Err(error) && error.says(
                    ErrorCode::ChannelFailed,
                    failure("open_channel"@, e@),
                ),
            },
    {
        match begun {
            Ok(_) => Ok(OpenChannelResponse {  }),
            Err(e) => Err(ldk_err("open_channel", ErrorCode::ChannelFailed, e.as_str())),
        }
    }

    /// Which channel the node is asked to close; by force only where the
    /// caller says so.
    pub fn close_channel(&self, r: CloseChannelRequest) -> (call: CloseChannelCall)
        ensures
            call.id == r.id,
            call.force == (r.force == Some(true)),
    {
        CloseChannelCall { id: r.id, force: r.force.unwrap_or(false) }
    }

    /// What came of asking for the close.
    pub fn close_channel_reply(&self, closed: Result<(), String>) -> (answer: Result<
        CloseChannelResponse,
        NncError,
    >)
        ensures
            match closed {
                Ok(_) => answer is Ok,
                Err(e) => answer matches Err(error) && error.says(
                    ErrorCode::ChannelFailed,
                    failure("close_channel"@, e@),
                ),
            },
    {
        match closed {
            Ok(_) => Ok(CloseChannelResponse {  }),
            Err(e) => Err(ldk_err("close_channel", ErrorCode::ChannelFailed, e.as_str())),
        }
    }

    // ── peers ────────────────────────────────────────────────────────

    /// The node's peers, in its order.
    pub fn list_peers(&self, peers: &Vec<PeerInfo>) -> (answer: ListPeersResponse)
        ensures
            answer.peers@.len() == peers@.len(),
            forall|i: int|
                0 <= i < peers@.len() ==> is_peer(#[trigger] answer.peers@[i], peers@[i]),
    {
        let mut out: Vec<Peer> = Vec::new();
        for i in 0..peers.len()
            invariant
                out@.len() == i,
                forall|j: int| 0 <= j < i ==> is_peer(#[trigger] out@[j], peers@[j]),
        {
            let p = &peers[i];
            out.push(
                Peer {
                    pubkey: p.pubkey.clone(),
                    address: Some(p.address.clone()),
                    connected: p.connected,
                    alias: p.alias.clone(),
                    num_channels: Some(p.num_channels as u64),
                },
            );
        }
        ListPeersResponse { peers: out }
    }

    /// Which peer the node is asked to connect to. It has to be told where the
    /// peer is.
    pub fn connect_peer(&self, r: ConnectPeerRequest) -> (call: Result<ConnectPeerCall, NncError>)
        ensures
            match call {
                Ok(c) => c.pubkey == r.pubkey && r.host == Some(c.host),
                Err(e) => r.host is None && e.says(
                    ErrorCode::BadRequest,
                    "host is required to connect"@,
                ),
            },
    {
        match r.host {
            Some(host) => Ok(ConnectPeerCall { pubkey: r.pubkey, host }),
            None => Err(NncError::new(ErrorCode::BadRequest, "host is required to connect")),
        }
    }

    /// What came of connecting.
    pub fn connect_peer_reply(&self, connected: Result<(), String>) -> (answer: Result<
        ConnectPeerResponse,
        NncError,
    >)
        ensures
            match connected {
                Ok(_) => answer is Ok,
                Err(e) => answer matches Err(error) && error.says(
                    ErrorCode::ConnectionFailed,
                    failure("connect_peer"@, e@),
                ),
            },
    {
        match connected {
            Ok(_) => Ok(ConnectPeerResponse {  }),
            Err(e) => Err(ldk_err("connect_peer", ErrorCode::ConnectionFailed, e.as_str())),
        }
    }

    /// The peer that the node is asked to disconnect from.
    pub fn disconnect_peer(&self, r: DisconnectPeerRequest) -> (pubkey: String)
        ensures
            pubkey == r.pubkey,
    {
        r.pubkey
    }

    /// What came of disconnecting.
    pub fn disconnect_peer_reply(&self, disconnected: Result<(), String>) -> (answer: Result<
        DisconnectPeerResponse,
        NncError,
    >)
        ensures
            match disconnected {
                Ok(_) => answer is Ok,
                Err(e) => answer matches Err(error) && error.says(
                    ErrorCode::ConnectionFailed,
                    failure("disconnect_peer"@, e@),
                ),
            },
    {
        match disconnected {
            Ok(_) => Ok(DisconnectPeerResponse {  }),
            Err(e) => Err(ldk_err("disconnect_peer", ErrorCode::ConnectionFailed, e.as_str())),
        }
    }

    // ── fees ─────────────────────────────────────────────────────────

    /// The channel whose fees the node is asked for, or none for all of them.
    pub fn get_channel_fees(&self, r: GetChannelFeesRequest) -> (id: Option<String>)
        ensures
            id == r.id,
    {
        r.id
    }

    /// The fees that the node charges, in its order.
    pub fn get_channel_fees_reply(&self, fees: &Vec<ChannelFeeInfo>) -> (answer:
        GetChannelFeesResponse)
        ensures
            answer.fees@.len() == fees@.len(),
            forall|i: int| 0 <= i < fees@.len() ==> is_fees(#[trigger] answer.fees@[i], fees@[i]),
    {
        let mut out: Vec<ChannelFees> = Vec::new();
        for i in 0..fees.len()
            invariant
                out@.len() == i,
                forall|j: int| 0 <= j < i ==> is_fees(#[trigger] out@[j], fees@[j]),
        {
            let f = &fees[i];
            out.push(
                ChannelFees {
                    id: f.id.clone(),
                    short_channel_id: f.short_channel_id.clone(),
                    peer_pubkey: Some(f.peer_pubkey.clone()),
                    base_fee: f.base_fee as u64,
                    fee_rate: f.fee_rate as u64,
                    min_htlc: Some(f.min_htlc),
                    max_htlc: f.max_htlc,
                },
            );
        }
        GetChannelFeesResponse { fees: out }
    }

    /// Which fees the node is asked to set. It sets fees per channel and no
    /// bounds: a request without a channel, with a bound, or with a fee that is
    /// more than the node can be told, is refused whole rather than honoured in
    /// part.
    pub fn set_channel_fees(&self, r: SetChannelFeesRequest) -> (call: Result<
        SetChannelFeesCall,
        NncError,
    >)
        ensures
            match call {
                Ok(c) => {
                    &&& r.id == Some(c.id)
                    &&& r.min_htlc is None && r.max_htlc is None
                    &&& is_fee(c.base_fee, r.base_fee)
                    &&& is_fee(c.fee_rate, r.fee_rate)
                },
                Err(e) => if r.id is None {
                    e.says(
                        ErrorCode::BadRequest,
                        "this node sets fees per channel, so id is required"@,
                    )
                } else if r.min_htlc is Some || r.max_htlc is Some {
                    e.says(ErrorCode::BadRequest, "this node cannot set min_htlc or max_htlc"@)
                } else {
                    &&& !can_be_set(r.base_fee) || !can_be_set(r.fee_rate)
                    &&& e.says(ErrorCode::BadRequest, "this node cannot set a fee that high"@)
                },
            },
    {
        let id = match r.id {
            Some(id) => id,
            None => {
                return Err(
                    NncError::new(
                        ErrorCode::BadRequest,
                        "this node sets fees per channel, so id is required",
                    ),
                );
            },
        };
        if r.min_htlc.is_some() || r.max_htlc.is_some() {
            return Err(
                NncError::new(ErrorCode::BadRequest, "this node cannot set min_htlc or max_htlc"),
            );
        }
        match (narrow(r.base_fee), narrow(r.fee_rate)) {
            (Ok(base_fee), Ok(fee_rate)) => Ok(SetChannelFeesCall { id, base_fee, fee_rate }),
            _ => Err(NncError::new(ErrorCode::BadRequest, "this node cannot set a fee that high")),
        }
    }

    /// What came of setting fees.
    pub fn set_channel_fees_reply(&self, set: Result<(), String>) -> (answer: Result<
        SetChannelFeesResponse,
        NncError,
    >)
        ensures
            match set {
                Ok(_) => answer is Ok,
                Err(e) => answer matches Err(error) && error.says(
                    ErrorCode::ChannelFailed,
                    failure("set_channel_fees"@, e@),
                ),
            },
    {
        match set {
            Ok(_) => Ok(SetChannelFeesResponse {  }),
            Err(e) => Err(ldk_err("set_channel_fees", ErrorCode::ChannelFailed, e.as_str())),
        }
    }

    // ── routes and history ───────────────────────────────────────────

    /// Which routes the node is asked for: one, unless the caller wants more.
    pub fn query_routes(&self, r: QueryRoutesRequest) -> (call: FindRoutesCall)
        ensures
            call.destination == r.destination,
            call.amount_msat == r.amount,
            call.max_routes == (match r.max_routes {
                Some(max) if max > 1 => max,
                _ => 1,
            }),
    {
        let wanted: u64 = r.max_routes.unwrap_or(1);
        FindRoutesCall {
            destination: r.destination,
            amount_msat: r.amount,
            max_routes: if wanted > 1 {
                wanted
            } else {
                1
            },
        }
    }

    /// The routes that the node found, in its order, hop by hop.
    pub fn query_routes_reply(&self, routes: &Vec<RouteInfo>) -> (answer: QueryRoutesResponse)
        ensures
            answer.routes@.len() == routes@.len(),
            forall|i: int|
                0 <= i < routes@.len() ==> is_route(#[trigger] answer.routes@[i], routes@[i]),
    {
        let mut out: Vec<Route> = Vec::new();
        for i in 0..routes.len()
            invariant
                out@.len() == i,
                forall|j: int| 0 <= j < i ==> is_route(#[trigger] out@[j], routes@[j]),
        {
            out.push(to_route(&routes[i]));
        }
        QueryRoutesResponse { routes: out }
    }

    /// Which part of the history is wanted: from the start, and a hundred
    /// entries, unless the caller says otherwise.
    pub fn get_forwarding_history(&self, r: GetForwardingHistoryRequest) -> (query: HistoryQuery)
        ensures
            query.from == r.from,
            query.until == r.until,
            query.limit == r.limit.unwrap_or(100),
            query.offset == r.offset.unwrap_or(0),
    {
        HistoryQuery {
            from: r.from,
            until: r.until,
            limit: r.limit.unwrap_or(100),
            offset: r.offset.unwrap_or(0),
        }
    }

    /// The payments that the node passed on, in the order it remembers them.
    pub fn get_forwarding_history_reply(&self, history: &Vec<ForwardingEntry>) -> (answer:
        GetForwardingHistoryResponse)
        ensures
            answer.forwards@.len() == history@.len(),
            forall|i: int|
                0 <= i < history@.len() ==> is_forward(#[trigger] answer.forwards@[i], history@[i]),
    {
        let mut out: Vec<ForwardingEvent> = Vec::new();
        for i in 0..history.len()
            invariant
                out@.len() == i,
                forall|j: int| 0 <= j < i ==> is_forward(#[trigger] out@[j], history@[j]),
        {
            let f = &history[i];
            out.push(
                ForwardingEvent {
                    incoming_channel_id: f.incoming_channel_id.clone(),
                    outgoing_channel_id: f.outgoing_channel_id.clone(),
                    incoming_amount: f.incoming_amount,
                    outgoing_amount: f.outgoing_amount,
                    fee_earned: f.fee_earned,
                    settled_at: f.settled_at,
                },
            );
        }
        GetForwardingHistoryResponse { forwards: out }
    }

    // ── the graph ────────────────────────────────────────────────────

    /// Which part of the node list is wanted: from the start, and a hundred
    /// nodes, unless the caller says otherwise.
    pub fn list_network_nodes(&self, r: ListNetworkNodesRequest) -> (query: NodesQuery)
        ensures
            query.limit == r.limit.unwrap_or(100),
            query.offset == r.offset.unwrap_or(0),
    {
        NodesQuery { limit: r.limit.unwrap_or(100), offset: r.offset.unwrap_or(0) }
    }

    /// The nodes of the graph, in its order.
    pub fn list_network_nodes_reply(&self, nodes: Vec<NetworkNodeInfo>) -> (answer:
        ListNetworkNodesResponse)
        ensures
            answer.nodes@.len() == nodes@.len(),
            forall|i: int|
                0 <= i < nodes@.len() ==> is_network_node(#[trigger] answer.nodes@[i], nodes@[i]),
    {
        let mut out: Vec<NetworkNode> = Vec::new();
        for n in it: nodes
            invariant
                it.seq() == nodes@,
                out@.len() == it.index(),
                forall|j: int| 0 <= j < it.index() ==> is_network_node(#[trigger] out@[j], nodes@[j]),
        {
            out.push(to_network_node(n));
        }
        ListNetworkNodesResponse { nodes: out }
    }

    /// A node of the graph, if the graph could be read and has it.
    pub fn get_network_node(&self, found: Result<Option<NetworkNodeInfo>, String>) -> (answer:
        Result<NetworkNode, NncError>)
        ensures
            match found {
                Ok(Some(n)) => answer matches Ok(a) && is_network_node(a, n),
                Ok(None) => answer matches Err(error) && error.says(
                    ErrorCode::NotFound,
                    "no such node in the graph"@,
                ),
                Err(e) => answer matches Err(error) && error.says(
                    ErrorCode::Internal,
                    failure("get_network_node"@, e@),
                ),
            },
    {
        match found {
            Ok(Some(n)) => Ok(to_network_node(n)),
            Ok(None) => Err(NncError::new(ErrorCode::NotFound, "no such node in the graph")),
            Err(e) => Err(ldk_err("get_network_node", ErrorCode::Internal, e.as_str())),
        }
    }

    /// The graph in numbers.
    pub fn get_network_stats(&self, s: NetworkStats) -> (answer: GetNetworkStatsResponse)
        ensures
            answer.num_nodes == s.num_nodes,
            answer.num_channels == s.num_channels,
            answer.total_capacity == s.total_capacity,
            answer.avg_channel_size == Some(s.avg_channel_size),
            answer.max_channel_size == Some(s.max_channel_size),
    {
        GetNetworkStatsResponse {
            num_nodes: s.num_nodes as u64,
            num_channels: s.num_channels as u64,
            total_capacity: s.total_capacity,
            avg_channel_size: Some(s.avg_channel_size),
            max_channel_size: Some(s.max_channel_size),
        }
    }

    /// A channel of the graph, if the graph could be read and has it.
    pub fn get_network_channel(&self, found: Result<Option<NetworkChannelInfo>, String>) -> (
    answer: Result<GetNetworkChannelResponse, NncError>)
        ensures
            match found {
                Ok(Some(c)) => {
                    &&& answer matches Ok(a)
                    &&& a.short_channel_id == c.short_channel_id
                    &&& a.capacity == c.capacity
                    &&& a.node1_pubkey == c.node1_pubkey
                    &&& a.node2_pubkey == c.node2_pubkey
                    &&& a.node1_policy == policy_option(c.node1_policy)
                    &&& a.node2_policy == policy_option(c.node2_policy)
                },
                Ok(None) => answer matches Err(error) && error.says(
                    ErrorCode::NotFound,
                    "no such channel in the graph"@,
                ),
                Err(e) => answer matches Err(error) && error.says(
                    ErrorCode::Internal,
                    failure("get_network_channel"@, e@),
                ),
            },
    {
        match found {
            Ok(Some(c)) => Ok(
                GetNetworkChannelResponse {
                    node1_policy: to_policy_option(&c.node1_policy),
                    node2_policy: to_policy_option(&c.node2_policy),
                    short_channel_id: c.short_channel_id,
                    capacity: c.capacity,
                    node1_pubkey: c.node1_pubkey,
                    node2_pubkey: c.node2_pubkey,
                },
            ),
            Ok(None) => Err(NncError::new(ErrorCode::NotFound, "no such channel in the graph")),
            Err(e) => Err(ldk_err("get_network_channel", ErrorCode::Internal, e.as_str())),
        }
    }
}

}
