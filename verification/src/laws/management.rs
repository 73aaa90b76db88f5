//! What managing the node comes to: channels, peers, fees, routes, history and the
//! network's graph. Each law speaks of what a handler is given and of what it gives.

use vstd::prelude::*;

use crate::control::{
    to_network_node, to_policy, CloseChannelCall, ConnectPeerCall, Control, HistoryQuery,
    NodesQuery, OpenChannelCall, SetChannelFeesCall,
};
use crate::error::{ErrorCode, NncError};
use crate::laws::{is_failure, lemma_failures};
use crate::lightning::{
    ChannelFeeInfo, ChannelInfo, NetworkChannelInfo, NetworkChannelPolicy, NetworkNodeInfo,
    NetworkStats, PeerInfo, RouteInfo,
};
use crate::nnc::{
    Channel, ChannelPolicy, ChannelState, CloseChannelRequest, CloseChannelResponse,
    ConnectPeerRequest, ConnectPeerResponse, DisconnectPeerRequest, DisconnectPeerResponse,
    GetChannelFeesRequest, GetChannelFeesResponse, GetForwardingHistoryRequest,
    GetForwardingHistoryResponse, GetNetworkChannelResponse, GetNetworkStatsResponse,
    ListChannelsResponse, ListNetworkNodesRequest, ListNetworkNodesResponse, ListPeersResponse,
    NetworkNode, OpenChannelRequest, OpenChannelResponse, QueryRoutesRequest, QueryRoutesResponse,
    SetChannelFeesRequest, SetChannelFeesResponse,
};
use crate::state::ForwardingEntry;
use crate::wallet::route::FindRoutesCall;

verus! {

/// The control side announces through nothing until it is given something to announce
/// through, and then through that.
pub proof fn law_control_announces_through_what_it_is_given<N: Clone>(
    empty: Control<N>,
    before: Option<N>,
    n: N,
    full: Control<N>,
    after: Option<N>,
)
    requires
        call_ensures(Control::<N>::new, (), empty),
        call_ensures(Control::<N>::notifier, (&empty,), before),
        call_ensures(Control::<N>::with_notifier, (empty, n), full),
        call_ensures(Control::<N>::notifier, (&full,), after),
    ensures
        before is None,
        after is Some && cloned(n, after->0),
{
}

// ── channels ─────────────────────────────────────────────────────────

/// Whether a channel is answered as the node lists it.
pub open spec fn channel_tells_of(c: Channel, i: ChannelInfo) -> bool {
    &&& c.id@ == i.id@
    &&& c.short_channel_id.deep_view() == i.short_channel_id.deep_view()
    &&& c.peer_pubkey@ == i.peer_pubkey@
    &&& c.is_private == i.is_private
    &&& c.capacity == Some(i.capacity)
    &&& c.local_balance == Some(i.local_balance)
    &&& c.remote_balance == Some(i.remote_balance)
    &&& c.funding_txid.deep_view() == i.funding_txid.deep_view()
}

/// Whether a channel is in the state that the node's word for it names. A word that
/// names none is passed on.
pub open spec fn is_in_state(c: Channel, word: Seq<char>) -> bool {
    &&& c.state is Some
    &&& c.state->0 is Active <==> word == "active"@
    &&& c.state->0 is Inactive <==> word == "inactive"@
    &&& c.state->0 is PendingOpen <==> word == "pending_open"@
    &&& c.state->0 is PendingClose <==> word == "pending_close"@
    &&& c.state->0 is ForceClosing <==> word == "force_closing"@
    &&& c.state->0 matches ChannelState::Unknown(other) ==> other@ == word
}

/// A list of channels answers every channel as the node lists it, in the node's order:
/// its ids, its peer, its funds on either side, and its state.
pub proof fn law_channels_are_answered_as_listed<N>(
    c: &Control<N>,
    channels: &Vec<ChannelInfo>,
    answer: ListChannelsResponse,
)
    requires
        call_ensures(Control::<N>::list_channels, (c, channels), answer),
    ensures
        answer.channels@.len() == channels@.len(),
        forall|i: int|
            0 <= i < channels@.len() ==> channel_tells_of(
                #[trigger] answer.channels@[i],
                channels@[i],
            ) && is_in_state(answer.channels@[i], channels@[i].state@),
{
    reveal_strlit("active");
    reveal_strlit("inactive");
    reveal_strlit("pending_open");
    reveal_strlit("pending_close");
    reveal_strlit("force_closing");
    assert("active"@.len() == 6 && "inactive"@.len() == 8 && "pending_open"@.len() == 12);
    assert("pending_close"@.len() == 13 && "force_closing"@.len() == 13);
    assert("pending_close"@[0] != "force_closing"@[0]);
    assert forall|i: int| 0 <= i < channels@.len() implies channel_tells_of(
        #[trigger] answer.channels@[i],
        channels@[i],
    ) && is_in_state(answer.channels@[i], channels@[i].state@) by {}
}

/// A channel is opened to the peer that the request names, where it says the peer is,
/// with the funds that it names; and not without being told where.
pub proof fn law_channel_is_opened_as_asked<N>(
    c: &Control<N>,
    r: OpenChannelRequest,
    call: Result<OpenChannelCall, NncError>,
    e: String,
    begun: Result<OpenChannelResponse, NncError>,
    failed: Result<OpenChannelResponse, NncError>,
)
    requires
        call_ensures(Control::<N>::open_channel, (c, r), call),
        call_ensures(Control::<N>::open_channel_reply, (c, Ok::<(), String>(())), begun),
        call_ensures(Control::<N>::open_channel_reply, (c, Err::<(), String>(e)), failed),
    ensures
        call is Ok <==> r.host is Some,
        call matches Ok(o) ==> {
            &&& o.pubkey@ == r.pubkey@
            &&& o.host@ == r.host->0@
            &&& o.amount_sats == r.amount_sats
            &&& o.push_amount == r.push_amount
        },
        call matches Err(x) ==> x.code == ErrorCode::BadRequest && x.message@
            == "host is required to open a channel"@,
        begun is Ok,
        failed matches Err(x) && is_failure(x, ErrorCode::ChannelFailed, "open_channel"@, e@),
{
    lemma_failures();
}

/// The channel that the request names is closed, by force if and only if the request
/// says so.
pub proof fn law_channel_is_closed_as_asked<N>(
    c: &Control<N>,
    r: CloseChannelRequest,
    call: CloseChannelCall,
    e: String,
    closed: Result<CloseChannelResponse, NncError>,
    failed: Result<CloseChannelResponse, NncError>,
)
    requires
        call_ensures(Control::<N>::close_channel, (c, r), call),
        call_ensures(Control::<N>::close_channel_reply, (c, Ok::<(), String>(())), closed),
        call_ensures(Control::<N>::close_channel_reply, (c, Err::<(), String>(e)), failed),
    ensures
        call.id@ == r.id@,
        call.force <==> r.force == Some(true),
        closed is Ok,
        failed matches Err(x) && is_failure(x, ErrorCode::ChannelFailed, "close_channel"@, e@),
{
    lemma_failures();
}

// ── peers ────────────────────────────────────────────────────────────

/// A list of peers answers every peer as the node lists it, in the node's order.
pub proof fn law_peers_are_answered_as_listed<N>(
    c: &Control<N>,
    peers: &Vec<PeerInfo>,
    answer: ListPeersResponse,
)
    requires
        call_ensures(Control::<N>::list_peers, (c, peers), answer),
    ensures
        answer.peers@.len() == peers@.len(),
        forall|i: int|
            0 <= i < peers@.len() ==> {
                &&& (#[trigger] answer.peers@[i]).pubkey@ == peers@[i].pubkey@
                &&& answer.peers@[i].address.deep_view() == Some(peers@[i].address@)
                &&& answer.peers@[i].connected == peers@[i].connected
                &&& answer.peers@[i].alias.deep_view() == peers@[i].alias.deep_view()
                &&& answer.peers@[i].num_channels is Some && answer.peers@[i].num_channels->0
                    == peers@[i].num_channels
            },
{
}

/// The peer that the request names is connected to, where the request says it is, or
/// disconnected from.
pub proof fn law_peer_is_met_and_left_as_asked<N>(
    c: &Control<N>,
    r: ConnectPeerRequest,
    call: Result<ConnectPeerCall, NncError>,
    d: DisconnectPeerRequest,
    pubkey: String,
)
    requires
        call_ensures(Control::<N>::connect_peer, (c, r), call),
        call_ensures(Control::<N>::disconnect_peer, (c, d), pubkey),
    ensures
        call is Ok <==> r.host is Some,
        call matches Ok(p) ==> p.pubkey@ == r.pubkey@ && p.host@ == r.host->0@,
        call matches Err(x) ==> x.code == ErrorCode::BadRequest && x.message@
            == "host is required to connect"@,
        pubkey@ == d.pubkey@,
{
}

/// What came of meeting or leaving a peer is what the node says came of it.
pub proof fn law_peer_answers_are_the_nodes<N>(
    c: &Control<N>,
    e: String,
    met: Result<ConnectPeerResponse, NncError>,
    unmet: Result<ConnectPeerResponse, NncError>,
    left: Result<DisconnectPeerResponse, NncError>,
    not_left: Result<DisconnectPeerResponse, NncError>,
)
    requires
        call_ensures(Control::<N>::connect_peer_reply, (c, Ok::<(), String>(())), met),
        call_ensures(Control::<N>::connect_peer_reply, (c, Err::<(), String>(e)), unmet),
        call_ensures(Control::<N>::disconnect_peer_reply, (c, Ok::<(), String>(())), left),
        call_ensures(Control::<N>::disconnect_peer_reply, (c, Err::<(), String>(e)), not_left),
    ensures
        met is Ok && left is Ok,
        unmet matches Err(x) && is_failure(x, ErrorCode::ConnectionFailed, "connect_peer"@, e@),
        not_left matches Err(x) && is_failure(
            x,
            ErrorCode::ConnectionFailed,
            "disconnect_peer"@,
            e@,
        ),
{
    lemma_failures();
}

// ── fees ─────────────────────────────────────────────────────────────

/// Fees are asked for of the channel that the request names, or of all, and every fee
/// is answered as the node charges it, in the node's order.
pub proof fn law_fees_are_answered_as_charged<N>(
    c: &Control<N>,
    r: GetChannelFeesRequest,
    id: Option<String>,
    fees: &Vec<ChannelFeeInfo>,
    answer: GetChannelFeesResponse,
)
    requires
        call_ensures(Control::<N>::get_channel_fees, (c, r), id),
        call_ensures(Control::<N>::get_channel_fees_reply, (c, fees), answer),
    ensures
        id.deep_view() == r.id.deep_view(),
        answer.fees@.len() == fees@.len(),
        forall|i: int|
            0 <= i < fees@.len() ==> {
                &&& (#[trigger] answer.fees@[i]).id@ == fees@[i].id@
                &&& answer.fees@[i].short_channel_id.deep_view()
                    == fees@[i].short_channel_id.deep_view()
                &&& answer.fees@[i].peer_pubkey.deep_view() == Some(fees@[i].peer_pubkey@)
                &&& answer.fees@[i].base_fee == fees@[i].base_fee
                &&& answer.fees@[i].fee_rate == fees@[i].fee_rate
                &&& answer.fees@[i].min_htlc == Some(fees@[i].min_htlc)
                &&& answer.fees@[i].max_htlc == fees@[i].max_htlc
            },
{
}

/// Fees are set whole or not at all: on the channel that the request names, each fee
/// to what the request names or not touched. A request without a channel, with a
/// bound, or with a fee that the node cannot be told, is refused.
pub proof fn law_fees_are_set_whole_or_not_at_all<N>(
    c: &Control<N>,
    r: SetChannelFeesRequest,
    call: Result<SetChannelFeesCall, NncError>,
)
    requires
        call_ensures(Control::<N>::set_channel_fees, (c, r), call),
    ensures
        call is Ok <==> r.id is Some && r.min_htlc is None && r.max_htlc is None && (
        r.base_fee is Some ==> r.base_fee->0 <= u32::MAX) && (r.fee_rate is Some ==> r.fee_rate->0
            <= u32::MAX),
        call matches Ok(s) ==> {
            &&& s.id@ == r.id->0@
            &&& s.base_fee is Some <==> r.base_fee is Some
            &&& s.base_fee is Some ==> s.base_fee->0 == r.base_fee->0
            &&& s.fee_rate is Some <==> r.fee_rate is Some
            &&& s.fee_rate is Some ==> s.fee_rate->0 == r.fee_rate->0
        },
        call matches Err(e) ==> e.code == ErrorCode::BadRequest && e.message@ == (
        if r.id is None {
            "this node sets fees per channel, so id is required"@
        } else if r.min_htlc is Some || r.max_htlc is Some {
            "this node cannot set min_htlc or max_htlc"@
        } else {
            "this node cannot set a fee that high"@
        }),
{
}

/// What came of setting fees is what the node says came of it.
pub proof fn law_fee_answer_is_the_nodes<N>(
    c: &Control<N>,
    e: String,
    set: Result<SetChannelFeesResponse, NncError>,
    unset: Result<SetChannelFeesResponse, NncError>,
)
    requires
        call_ensures(Control::<N>::set_channel_fees_reply, (c, Ok::<(), String>(())), set),
        call_ensures(Control::<N>::set_channel_fees_reply, (c, Err::<(), String>(e)), unset),
    ensures
        set is Ok,
        unset matches Err(x) && is_failure(x, ErrorCode::ChannelFailed, "set_channel_fees"@, e@),
{
    lemma_failures();
}

// ── routes and history ───────────────────────────────────────────────

/// Routes are asked for to where the request names, for what it names, and as many as
/// it wants, but at least one.
pub proof fn law_routes_are_asked_for_as_wanted<N>(
    c: &Control<N>,
    r: QueryRoutesRequest,
    call: FindRoutesCall,
)
    requires
        call_ensures(Control::<N>::query_routes, (c, r), call),
    ensures
        call.destination@ == r.destination@,
        call.amount_msat == r.amount,
        call.max_routes >= 1,
        r.max_routes is Some && r.max_routes->0 >= 1 ==> call.max_routes == r.max_routes->0,
        r.max_routes is None || r.max_routes->0 == 0 ==> call.max_routes == 1,
{
}

/// Every route is answered as the node found it, in the node's order, hop by hop.
pub proof fn law_routes_are_answered_as_found<N>(
    c: &Control<N>,
    routes: &Vec<RouteInfo>,
    answer: QueryRoutesResponse,
)
    requires
        call_ensures(Control::<N>::query_routes_reply, (c, routes), answer),
    ensures
        answer.routes@.len() == routes@.len(),
        forall|i: int|
            0 <= i < routes@.len() ==> {
                &&& (#[trigger] answer.routes@[i]).total_fee == routes@[i].total_fee
                &&& answer.routes@[i].total_time_lock == routes@[i].total_time_lock
                &&& answer.routes@[i].hops@.len() == routes@[i].hops@.len()
            },
        forall|i: int, n: int|
            0 <= i < routes@.len() && 0 <= n < routes@[i].hops@.len() ==> {
                &&& (#[trigger] answer.routes@[i].hops@[n]).pubkey@ == routes@[i].hops@[n].pubkey@
                &&& answer.routes@[i].hops@[n].short_channel_id.deep_view() == Some(
                    routes@[i].hops@[n].short_channel_id@,
                )
                &&& answer.routes@[i].hops@[n].fee == routes@[i].hops@[n].fee
            },
{
    assert forall|i: int, n: int| 0 <= i < routes@.len() && 0 <= n < routes@[i].hops@.len() implies {
        &&& (#[trigger] answer.routes@[i].hops@[n]).pubkey@ == routes@[i].hops@[n].pubkey@
        &&& answer.routes@[i].hops@[n].short_channel_id.deep_view() == Some(
            routes@[i].hops@[n].short_channel_id@,
        )
        &&& answer.routes@[i].hops@[n].fee == routes@[i].hops@[n].fee
    } by {
        assert(answer.routes@[i].total_fee == routes@[i].total_fee);
    }
}

/// The history, and the node list, are asked for within the caller's bounds, or else
/// from the start, a hundred entries.
pub proof fn law_history_and_nodes_are_asked_for_as_wanted<N>(
    c: &Control<N>,
    r: GetForwardingHistoryRequest,
    history: HistoryQuery,
    n: ListNetworkNodesRequest,
    nodes: NodesQuery,
)
    requires
        call_ensures(Control::<N>::get_forwarding_history, (c, r), history),
        call_ensures(Control::<N>::list_network_nodes, (c, n), nodes),
    ensures
        history.from == r.from && history.until == r.until,
        r.limit is Some ==> history.limit == r.limit->0,
        r.limit is None ==> history.limit == 100,
        r.offset is Some ==> history.offset == r.offset->0,
        r.offset is None ==> history.offset == 0,
        n.limit is Some ==> nodes.limit == n.limit->0,
        n.limit is None ==> nodes.limit == 100,
        n.offset is Some ==> nodes.offset == n.offset->0,
        n.offset is None ==> nodes.offset == 0,
{
}

/// Every payment that was passed on is answered as it was recorded, in the order
/// recorded.
pub proof fn law_history_is_answered_as_recorded<N>(
    c: &Control<N>,
    history: &Vec<ForwardingEntry>,
    answer: GetForwardingHistoryResponse,
)
    requires
        call_ensures(Control::<N>::get_forwarding_history_reply, (c, history), answer),
    ensures
        answer.forwards@.len() == history@.len(),
        forall|i: int|
            0 <= i < history@.len() ==> {
                &&& (#[trigger] answer.forwards@[i]).incoming_channel_id@
                    == history@[i].incoming_channel_id@
                &&& answer.forwards@[i].outgoing_channel_id@ == history@[i].outgoing_channel_id@
                &&& answer.forwards@[i].incoming_amount == history@[i].incoming_amount
                &&& answer.forwards@[i].outgoing_amount == history@[i].outgoing_amount
                &&& answer.forwards@[i].fee_earned == history@[i].fee_earned
                &&& answer.forwards@[i].settled_at == history@[i].settled_at
            },
{
}

// ── the graph ────────────────────────────────────────────────────────

/// Whether a node is answered as the graph has it.
pub open spec fn node_tells_of(n: NetworkNode, i: NetworkNodeInfo) -> bool {
    &&& n.pubkey@ == i.pubkey@
    &&& n.alias.deep_view() == Some(i.alias@)
    &&& n.color.deep_view() == Some(i.color@)
    &&& n.num_channels is Some && n.num_channels->0 == i.num_channels
    &&& n.total_capacity == Some(i.total_capacity)
    &&& n.addresses is Some && n.addresses->0@ == i.addresses@
    &&& n.last_update is Some && n.last_update->0 == i.last_update
}

/// A node of the graph is answered as the graph has it, alone or in a list, where the
/// graph's order is kept. One that the graph does not have is not found.
pub proof fn law_nodes_are_answered_as_the_graph_has_them<N>(
    c: &Control<N>,
    nodes: Vec<NetworkNodeInfo>,
    list: ListNetworkNodesResponse,
    n: NetworkNodeInfo,
    made: NetworkNode,
    e: String,
    found: Result<NetworkNode, NncError>,
    missing: Result<NetworkNode, NncError>,
    failed: Result<NetworkNode, NncError>,
)
    requires
        call_ensures(Control::<N>::list_network_nodes_reply, (c, nodes), list),
        call_ensures(to_network_node, (n,), made),
        call_ensures(
            Control::<N>::get_network_node,
            (c, Ok::<Option<NetworkNodeInfo>, String>(Some(n))),
            found,
        ),
        call_ensures(
            Control::<N>::get_network_node,
            (c, Ok::<Option<NetworkNodeInfo>, String>(None)),
            missing,
        ),
        call_ensures(
            Control::<N>::get_network_node,
            (c, Err::<Option<NetworkNodeInfo>, String>(e)),
            failed,
        ),
    ensures
        list.nodes@.len() == nodes@.len(),
        forall|i: int|
            0 <= i < nodes@.len() ==> node_tells_of(#[trigger] list.nodes@[i], nodes@[i]),
        node_tells_of(made, n),
        found matches Ok(a) && node_tells_of(a, n),
        missing matches Err(x) && x.code == ErrorCode::NotFound && x.message@
            == "no such node in the graph"@,
        failed matches Err(x) && is_failure(x, ErrorCode::Internal, "get_network_node"@, e@),
{
    lemma_failures();
}

/// The graph's numbers are answered as they are.
pub proof fn law_numbers_are_the_graphs<N>(
    c: &Control<N>,
    s: NetworkStats,
    answer: GetNetworkStatsResponse,
)
    requires
        call_ensures(Control::<N>::get_network_stats, (c, s), answer),
    ensures
        answer.num_nodes == s.num_nodes,
        answer.num_channels == s.num_channels,
        answer.total_capacity == s.total_capacity,
        answer.avg_channel_size == Some(s.avg_channel_size),
        answer.max_channel_size == Some(s.max_channel_size),
{
}

/// Whether a policy is answered as the graph has it.
pub open spec fn policy_tells_of(p: ChannelPolicy, i: NetworkChannelPolicy) -> bool {
    &&& p.base_fee is Some && p.base_fee->0 == i.base_fee
    &&& p.fee_rate is Some && p.fee_rate->0 == i.fee_rate
    &&& p.min_htlc == Some(i.min_htlc)
    &&& p.max_htlc == Some(i.max_htlc)
    &&& p.time_lock_delta is Some && p.time_lock_delta->0 == i.time_lock_delta
    &&& p.disabled == i.disabled
    &&& p.last_update is Some && p.last_update->0 == i.last_update
}

/// A channel of the graph is answered as the graph has it, with each side's policy, if
/// the graph has one. A channel that the graph does not have is not found.
pub proof fn law_graph_channel_is_answered_as_the_graph_has_it<N>(
    c: &Control<N>,
    i: NetworkChannelInfo,
    e: String,
    found: Result<GetNetworkChannelResponse, NncError>,
    missing: Result<GetNetworkChannelResponse, NncError>,
    failed: Result<GetNetworkChannelResponse, NncError>,
)
    requires
        call_ensures(
            Control::<N>::get_network_channel,
            (c, Ok::<Option<NetworkChannelInfo>, String>(Some(i))),
            found,
        ),
        call_ensures(
            Control::<N>::get_network_channel,
            (c, Ok::<Option<NetworkChannelInfo>, String>(None)),
            missing,
        ),
        call_ensures(
            Control::<N>::get_network_channel,
            (c, Err::<Option<NetworkChannelInfo>, String>(e)),
            failed,
        ),
    ensures
        found matches Ok(a) && {
            &&& a.short_channel_id@ == i.short_channel_id@
            &&& a.capacity == i.capacity
            &&& a.node1_pubkey@ == i.node1_pubkey@
            &&& a.node2_pubkey@ == i.node2_pubkey@
            &&& a.node1_policy is Some <==> i.node1_policy is Some
            &&& a.node1_policy is Some ==> policy_tells_of(a.node1_policy->0, i.node1_policy->0)
            &&& a.node2_policy is Some <==> i.node2_policy is Some
            &&& a.node2_policy is Some ==> policy_tells_of(a.node2_policy->0, i.node2_policy->0)
        },
        missing matches Err(x) && x.code == ErrorCode::NotFound && x.message@
            == "no such channel in the graph"@,
        failed matches Err(x) && is_failure(x, ErrorCode::Internal, "get_network_channel"@, e@),
{
    lemma_failures();
}

/// A policy is answered as the graph has it.
pub proof fn law_policy_is_answered_as_the_graph_has_it(
    p: &NetworkChannelPolicy,
    policy: ChannelPolicy,
)
    requires
        call_ensures(to_policy, (p,), policy),
    ensures
        policy_tells_of(policy, *p),
{
}

}
