//! The control side's handlers, on given requests and given words of the node.

use dln_node::control::Control;
use dln_node::error::ErrorCode;
use dln_node::lightning::{
    ChannelFeeInfo, ChannelInfo, HopInfo, NetworkChannelInfo, NetworkChannelPolicy,
    NetworkNodeInfo, NetworkStats, PeerInfo, RouteInfo,
};
use dln_node::nnc::{
    ChannelState, CloseChannelRequest, ConnectPeerRequest, DisconnectPeerRequest,
    GetChannelFeesRequest, GetForwardingHistoryRequest, ListNetworkNodesRequest,
    OpenChannelRequest, QueryRoutesRequest, SetChannelFeesRequest,
};
use dln_node::state::ForwardingEntry;

fn control() -> Control<String> {
    Control::new()
}

fn channel(state: &str) -> ChannelInfo {
    ChannelInfo {
        id: "c".to_string(),
        short_channel_id: Some("1x2x3".to_string()),
        peer_pubkey: "02".to_string(),
        state: state.to_string(),
        is_private: true,
        capacity: 10,
        local_balance: 6,
        remote_balance: 4,
        funding_txid: None,
    }
}

fn peer(connected: bool) -> PeerInfo {
    PeerInfo {
        pubkey: "peer".to_string(),
        address: "127.0.0.1:9735".to_string(),
        connected,
        alias: None,
        num_channels: 2,
    }
}

#[test]
fn connect_list_and_disconnect_a_peer() {
    let c = control();
    let call = c
        .connect_peer(ConnectPeerRequest {
            pubkey: "peer".to_string(),
            host: Some("127.0.0.1:9735".to_string()),
        })
        .expect("a host was given");
    assert_eq!((call.pubkey.as_str(), call.host.as_str()), ("peer", "127.0.0.1:9735"));
    assert!(c.connect_peer_reply(Ok(())).is_ok());

    let peers = c.list_peers(&vec![peer(true)]);
    assert!(
        peers.peers.iter().any(|p| p.pubkey == "peer" && p.connected),
        "the peer we just connected to should be listed as connected: {:?}",
        peers.peers
    );
    assert_eq!(peers.peers[0].num_channels, Some(2));
    assert_eq!(peers.peers[0].address.as_deref(), Some("127.0.0.1:9735"));

    assert_eq!(c.disconnect_peer(DisconnectPeerRequest { pubkey: "peer".into() }), "peer");
    assert!(c.disconnect_peer_reply(Ok(())).is_ok());
    let peers = c.list_peers(&vec![peer(false)]);
    assert!(
        !peers.peers.iter().any(|p| p.pubkey == "peer" && p.connected),
        "and not as connected afterwards: {:?}",
        peers.peers
    );
}

#[test]
fn a_host_is_required() {
    let c = control();
    let e = c
        .connect_peer(ConnectPeerRequest { pubkey: "p".into(), host: None })
        .expect_err("nowhere to connect to");
    assert_eq!((e.code, e.message.as_str()), (ErrorCode::BadRequest, "host is required to connect"));
    let open = |host: Option<&str>| {
        c.open_channel(OpenChannelRequest {
            pubkey: "p".into(),
            host: host.map(|h| h.to_string()),
            amount_sats: 20_000,
            push_amount: Some(1),
        })
    };
    let e = open(None).expect_err("nowhere to connect to");
    assert_eq!(e.code, ErrorCode::BadRequest);
    assert_eq!(e.message, "host is required to open a channel");
    let call = open(Some("h")).expect("a host");
    assert_eq!((call.host.as_str(), call.amount_sats, call.push_amount), ("h", 20_000, Some(1)));
}

#[test]
fn the_node_s_refusals_carry_their_codes() {
    let c = control();
    let no = || Err::<(), String>("no".to_string());
    for (error, code, message) in [
        (c.open_channel_reply(no()).err(), ErrorCode::ChannelFailed, "open_channel: no"),
        (c.close_channel_reply(no()).err(), ErrorCode::ChannelFailed, "close_channel: no"),
        (c.set_channel_fees_reply(no()).err(), ErrorCode::ChannelFailed, "set_channel_fees: no"),
        (c.connect_peer_reply(no()).err(), ErrorCode::ConnectionFailed, "connect_peer: no"),
        (c.disconnect_peer_reply(no()).err(), ErrorCode::ConnectionFailed, "disconnect_peer: no"),
    ] {
        let e = error.expect("refused");
        assert_eq!((e.code, e.message.as_str()), (code, message));
    }
    assert!(c.open_channel_reply(Ok(())).is_ok());
    assert!(c.close_channel_reply(Ok(())).is_ok());
    assert!(c.set_channel_fees_reply(Ok(())).is_ok());
}

#[test]
fn channels_are_listed_by_state() {
    let words =
        ["active", "inactive", "pending_open", "pending_close", "force_closing", "odd", ""];
    let listed = control().list_channels(&words.iter().map(|w| channel(w)).collect());
    let states: Vec<ChannelState> =
        listed.channels.into_iter().map(|c| c.state.expect("a state")).collect();
    assert_eq!(
        states,
        [
            ChannelState::Active,
            ChannelState::Inactive,
            ChannelState::PendingOpen,
            ChannelState::PendingClose,
            ChannelState::ForceClosing,
            ChannelState::Unknown("odd".to_string()),
            ChannelState::Unknown(String::new()),
        ]
    );
    let listed = control().list_channels(&vec![channel("active")]);
    let c = &listed.channels[0];
    assert_eq!((c.capacity, c.local_balance, c.remote_balance), (Some(10), Some(6), Some(4)));
    assert_eq!(c.short_channel_id.as_deref(), Some("1x2x3"));
    assert!(c.is_private && c.funding_txid.is_none());
}

#[test]
fn a_channel_is_closed_by_force_only_on_request() {
    let c = control();
    for (force, forced) in [(None, false), (Some(false), false), (Some(true), true)] {
        let call = c.close_channel(CloseChannelRequest { id: "c".into(), force });
        assert_eq!((call.id.as_str(), call.force), ("c", forced));
    }
}

fn fees(id: Option<&str>, min_htlc: Option<u64>, max_htlc: Option<u64>) -> SetChannelFeesRequest {
    SetChannelFeesRequest {
        id: id.map(|i| i.to_string()),
        base_fee: Some(1_000),
        fee_rate: None,
        min_htlc,
        max_htlc,
    }
}

#[test]
fn fees_are_set_whole_or_not_at_all() {
    let c = control();
    let e = c.set_channel_fees(fees(None, Some(1), None)).expect_err("no channel");
    assert_eq!(e.code, ErrorCode::BadRequest);
    assert_eq!(e.message, "this node sets fees per channel, so id is required");
    for bounds in [(Some(1), None), (None, Some(1)), (Some(1), Some(1))] {
        let e = c.set_channel_fees(fees(Some("c"), bounds.0, bounds.1)).expect_err("a bound");
        assert_eq!(e.code, ErrorCode::BadRequest);
        assert_eq!(e.message, "this node cannot set min_htlc or max_htlc");
    }
    let call = c.set_channel_fees(fees(Some("c"), None, None)).expect("fees");
    assert_eq!(call.id, "c");
    assert_eq!((call.base_fee, call.fee_rate), (Some(1_000), None));
    let most = u64::from(u32::MAX);
    let both = |base_fee: u64, fee_rate: u64| SetChannelFeesRequest {
        base_fee: Some(base_fee),
        fee_rate: Some(fee_rate),
        ..fees(Some("1"), None, None)
    };
    let call = c.set_channel_fees(both(most, most)).expect("the most that fits");
    assert_eq!((call.base_fee, call.fee_rate), (Some(u32::MAX), Some(u32::MAX)));
    for request in [both(4_294_967_296, 100), both(100, 4_294_967_296), both(u64::MAX, u64::MAX)] {
        let e = c.set_channel_fees(request).expect_err("not in part");
        assert_eq!(e.code, ErrorCode::BadRequest);
        assert_eq!(e.message, "this node cannot set a fee that high");
    }
}

#[test]
fn fees_are_answered_as_the_node_charges_them() {
    let c = control();
    assert_eq!(c.get_channel_fees(GetChannelFeesRequest { id: Some("c".into()) }), Some("c".into()));
    let a = c.get_channel_fees_reply(&vec![ChannelFeeInfo {
        id: "c".to_string(),
        short_channel_id: None,
        peer_pubkey: "02".to_string(),
        base_fee: 1,
        fee_rate: 2,
        min_htlc: 3,
        max_htlc: Some(4),
    }]);
    let f = &a.fees[0];
    assert_eq!((f.base_fee, f.fee_rate, f.min_htlc, f.max_htlc), (1, 2, Some(3), Some(4)));
    assert_eq!(f.peer_pubkey.as_deref(), Some("02"));
}

#[test]
fn at_least_one_route_is_asked_for() {
    let c = control();
    for (wanted, max) in [(None, 1), (Some(0), 1), (Some(1), 1), (Some(5), 5)] {
        let call = c.query_routes(QueryRoutesRequest {
            destination: "d".into(),
            amount: 9,
            max_routes: wanted,
        });
        assert_eq!((call.destination.as_str(), call.amount_msat, call.max_routes), ("d", 9, max));
    }
}

#[test]
fn routes_are_answered_hop_by_hop() {
    let hop = |n: u64| HopInfo {
        pubkey: format!("p{n}"),
        short_channel_id: format!("s{n}"),
        fee: n,
    };
    let routes =
        vec![RouteInfo { total_fee: 3, total_time_lock: 40, hops: vec![hop(1), hop(2)] }];
    let a = control().query_routes_reply(&routes);
    assert_eq!((a.routes[0].total_fee, a.routes[0].total_time_lock), (3, 40));
    assert_eq!(a.routes[0].hops.len(), 2);
    assert_eq!(a.routes[0].hops[1].pubkey, "p2");
    assert_eq!(a.routes[0].hops[1].short_channel_id.as_deref(), Some("s2"));
    let quote = dln_node::wallet::Wallet::new(None).quote_payment_reply(9, &routes);
    assert_eq!(quote.fee_msat, a.routes[0].total_fee);
}

#[test]
fn a_part_of_a_list_is_a_hundred_from_the_start() {
    let c = control();
    let none =
        GetForwardingHistoryRequest { from: None, until: None, limit: None, offset: None };
    let q = c.get_forwarding_history(none);
    assert_eq!((q.from, q.until, q.limit, q.offset), (None, None, 100, 0));
    let some = GetForwardingHistoryRequest {
        from: Some(1),
        until: Some(2),
        limit: Some(3),
        offset: Some(4),
    };
    let q = c.get_forwarding_history(some);
    assert_eq!((q.from, q.until, q.limit, q.offset), (Some(1), Some(2), 3, 4));
    let q = c.list_network_nodes(ListNetworkNodesRequest { limit: None, offset: None });
    assert_eq!((q.limit, q.offset), (100, 0));
    let q = c.list_network_nodes(ListNetworkNodesRequest { limit: Some(5), offset: Some(6) });
    assert_eq!((q.limit, q.offset), (5, 6));
}

#[test]
fn the_history_answers_what_was_recorded() {
    let a = control().get_forwarding_history_reply(&vec![ForwardingEntry {
        incoming_channel_id: "in".to_string(),
        outgoing_channel_id: "out".to_string(),
        incoming_amount: 11,
        outgoing_amount: 10,
        fee_earned: 1,
        settled_at: 5,
    }]);
    let f = &a.forwards[0];
    assert_eq!((f.incoming_channel_id.as_str(), f.outgoing_channel_id.as_str()), ("in", "out"));
    assert_eq!((f.incoming_amount, f.outgoing_amount, f.fee_earned), (11, 10, 1));
    assert_eq!(f.settled_at, 5);
}

fn node(pubkey: &str) -> NetworkNodeInfo {
    NetworkNodeInfo {
        pubkey: pubkey.to_string(),
        alias: "a".to_string(),
        color: "c".to_string(),
        num_channels: 3,
        total_capacity: 4,
        addresses: vec!["h:1".to_string(), "h:2".to_string()],
        last_update: 5,
    }
}

#[test]
fn nodes_of_the_graph_are_answered() {
    let c = control();
    let a = c.list_network_nodes_reply(vec![node("x"), node("y")]);
    assert_eq!(a.nodes.len(), 2);
    assert_eq!(a.nodes[1].pubkey, "y");
    assert_eq!(a.nodes[1].addresses, Some(vec!["h:1".to_string(), "h:2".to_string()]));
    let n = c.get_network_node(Ok(Some(node("x")))).expect("found");
    assert_eq!((n.num_channels, n.total_capacity, n.last_update), (Some(3), Some(4), Some(5)));
    assert_eq!((n.alias.as_deref(), n.color.as_deref()), (Some("a"), Some("c")));
    let e = c.get_network_node(Ok(None)).expect_err("unknown");
    assert_eq!((e.code, e.message.as_str()), (ErrorCode::NotFound, "no such node in the graph"));
    let e = c.get_network_node(Err("x".into())).expect_err("broken");
    assert_eq!((e.code, e.message.as_str()), (ErrorCode::Internal, "get_network_node: x"));
}

#[test]
fn channels_of_the_graph_are_answered() {
    let c = control();
    let policy = NetworkChannelPolicy {
        base_fee: 1,
        fee_rate: 2,
        min_htlc: 3,
        max_htlc: 4,
        time_lock_delta: 5,
        disabled: true,
        last_update: 6,
    };
    let a = c
        .get_network_channel(Ok(Some(NetworkChannelInfo {
            short_channel_id: "s".to_string(),
            capacity: 7,
            node1_pubkey: "n1".to_string(),
            node2_pubkey: "n2".to_string(),
            node1_policy: Some(policy),
            node2_policy: None,
        })))
        .expect("found");
    let p = a.node1_policy.expect("a policy");
    assert_eq!((p.base_fee, p.fee_rate, p.min_htlc), (Some(1), Some(2), Some(3)));
    assert_eq!((p.max_htlc, p.time_lock_delta, p.last_update), (Some(4), Some(5), Some(6)));
    assert!(p.disabled && a.node2_policy.is_none());
    assert_eq!((a.node1_pubkey.as_str(), a.node2_pubkey.as_str(), a.capacity), ("n1", "n2", 7));
    let e = c.get_network_channel(Ok(None)).expect_err("unknown");
    assert_eq!((e.code, e.message.as_str()), (ErrorCode::NotFound, "no such channel in the graph"));
    let e = c.get_network_channel(Err("x".into())).expect_err("broken");
    assert_eq!((e.code, e.message.as_str()), (ErrorCode::Internal, "get_network_channel: x"));
}

#[test]
fn the_graph_in_numbers() {
    let s = control().get_network_stats(NetworkStats {
        num_nodes: 1,
        num_channels: 2,
        total_capacity: 3,
        avg_channel_size: 4,
        max_channel_size: 5,
    });
    assert_eq!((s.num_nodes, s.num_channels, s.total_capacity), (1, 2, 3));
    assert_eq!((s.avg_channel_size, s.max_channel_size), (Some(4), Some(5)));
}

#[test]
fn a_notifier_is_given_after_construction() {
    let c = control();
    assert_eq!(c.notifier(), None);
    let c = c.with_notifier("n".to_string());
    assert_eq!(c.notifier(), Some("n".to_string()));
}

#[test]
fn the_control_side_advertises_each_method_once() {
    let mut names = control().methods();
    assert_eq!(names.len(), 14);
    for absent in ["get_pending_htlcs", "sign_message", "subscribe_notifications"] {
        assert!(!names.contains(&absent.to_string()));
    }
    names.sort();
    names.dedup();
    assert_eq!(names.len(), 14);
}
