//! Events of the node, and the hex that they carry.

use dln_node::clock::{now, seconds};
use dln_node::digits::{decode_hex, hex_payment_hash};
use dln_node::events::{
    channel_opened, close_type, handle, hex_hash, next_action, warning, Action, AnnounceFailure,
    ClosureReason, Event, Notification, Progress, Reaction, WalletNotification,
};
use dln_node::lightning::{
    payment_hash_from_kind, preimage_from_kind, ChannelInfo, PaymentKind,
};
use dln_node::nnc::{ChannelState, CloseType};
use dln_node::nwc::{TransactionState, TransactionType};

#[test]
fn a_received_payment_is_announced() {
    let event = Event::PaymentReceived { payment_hash: [0x0a; 32], amount_msat: 9_000 };
    match handle(event, 50) {
        Reaction::AnnounceWallet(WalletNotification::PaymentReceived(t)) => {
            assert_eq!(t.transaction_type, TransactionType::Incoming);
            assert_eq!(t.state, Some(TransactionState::Settled));
            assert_eq!(t.payment_hash, "0a".repeat(32));
            assert_eq!((t.amount, t.fees_paid), (9_000, 0));
            assert_eq!((t.created_at, t.settled_at), (50, Some(50)));
            assert!(t.preimage.is_none());
        }
        other => panic!("{other:?}"),
    }
}

#[test]
fn a_sent_payment_is_announced_with_its_fee() {
    for (fee_paid_msat, fees_paid) in [(Some(3), 3), (None, 0)] {
        match handle(Event::PaymentSuccessful { payment_hash: [1; 32], fee_paid_msat }, 50) {
            Reaction::AnnounceWallet(WalletNotification::PaymentSent(t)) => {
                assert_eq!(t.transaction_type, TransactionType::Outgoing);
                assert_eq!((t.amount, t.fees_paid), (0, fees_paid));
            }
            other => panic!("{other:?}"),
        }
    }
}

#[test]
fn a_claimable_payment_carries_its_deadline() {
    let event = Event::PaymentClaimable {
        payment_hash: [2; 32],
        claimable_amount_msat: 7,
        claim_deadline: Some(800_000),
    };
    match handle(event, 50) {
        Reaction::AnnounceWallet(WalletNotification::HoldInvoiceAccepted(h)) => {
            assert_eq!((h.kind.as_str(), h.state.as_deref()), ("incoming", Some("accepted")));
            assert_eq!(h.settle_deadline, Some(800_000));
            assert_eq!(h.payment_hash, "02".repeat(32));
            assert_eq!((h.amount, h.created_at, h.expires_at), (7, 50, 0));
            assert_eq!(h.invoice, "");
        }
        other => panic!("{other:?}"),
    }
}

fn channel(id: &str, capacity: u64) -> ChannelInfo {
    ChannelInfo {
        id: id.to_string(),
        short_channel_id: Some("1x1x1".to_string()),
        peer_pubkey: "other".to_string(),
        state: "active".to_string(),
        is_private: true,
        capacity,
        local_balance: 1,
        remote_balance: 2,
        funding_txid: Some("f".to_string()),
    }
}

#[test]
fn a_ready_channel_is_prepared_and_then_announced() {
    let ready = |node: Option<&str>| {
        let event = Event::ChannelReady {
            channel_id: [0xcd; 32],
            user_channel_id: 1 << 100,
            counterparty_node_id: node.map(|n| n.to_string()),
        };
        match handle(event, 50) {
            Reaction::PrepareChannel(ready) => ready,
            other => panic!("{other:?}"),
        }
    };
    let r = ready(Some("02"));
    assert_eq!((r.user_channel_id, r.peer_pubkey.as_str()), (1 << 100, "02"));
    assert_eq!(r.id, "cd".repeat(32));
    let listed = vec![channel("x", 1), channel(&"cd".repeat(32), 5), channel(&"cd".repeat(32), 6)];
    let Notification::ChannelOpened(o) = channel_opened(r, &listed) else {
        panic!("not opened");
    };
    assert_eq!(o.channel.id, "cd".repeat(32));
    assert_eq!(o.channel.peer_pubkey, "02", "the event's word on the peer");
    assert_eq!(o.channel.state, Some(ChannelState::Active));
    assert_eq!(o.channel.capacity, Some(5), "the first of that id");
    assert_eq!(o.channel.funding_txid.as_deref(), Some("f"));
    assert!(o.channel.is_private);

    let Notification::ChannelOpened(o) = channel_opened(ready(None), &vec![channel("x", 1)])
    else {
        panic!("not opened");
    };
    assert_eq!(o.channel.peer_pubkey, "");
    assert!(o.channel.capacity.is_none() && o.channel.local_balance.is_none());
    assert!(o.channel.short_channel_id.is_none() && !o.channel.is_private);
}

#[test]
fn a_closed_channel_is_announced_with_how() {
    let event = Event::ChannelClosed {
        channel_id: [3; 32],
        counterparty_node_id: Some("02".to_string()),
        reason: Some(ClosureReason::CounterpartyForceClosed),
    };
    match handle(event, 50) {
        Reaction::AnnounceControl(Notification::ChannelClosed(c)) => {
            assert_eq!(c.id, "03".repeat(32));
            assert_eq!(c.peer_pubkey.as_deref(), Some("02"));
            assert_eq!(c.close_type, CloseType::ForceRemote);
            assert!(c.capacity.is_none() && c.closing_txid.is_none());
        }
        other => panic!("{other:?}"),
    }
}

#[test]
fn a_close_is_told_by_its_reason() {
    assert_eq!(close_type(Some(ClosureReason::HolderForceClosed)), CloseType::ForceLocal);
    for reason in [
        ClosureReason::LegacyCooperativeClosure,
        ClosureReason::CounterpartyInitiatedCooperativeClosure,
        ClosureReason::LocallyInitiatedCooperativeClosure,
    ] {
        assert_eq!(close_type(Some(reason)), CloseType::Cooperative);
    }
    for reason in [
        None,
        Some(ClosureReason::CommitmentTxConfirmed),
        Some(ClosureReason::FundingTimedOut),
        Some(ClosureReason::DisconnectedPeer),
        Some(ClosureReason::HTLCsTimedOut),
    ] {
        assert_eq!(close_type(reason), CloseType::Unknown("unknown".to_string()));
    }
}

#[test]
fn a_forward_is_recorded_and_balances() {
    let forward = |fee: Option<u64>, out: Option<u64>| {
        let event = Event::PaymentForwarded {
            prev_channel_id: [0x11; 32],
            next_channel_id: [0x22; 32],
            total_fee_earned_msat: fee,
            outbound_amount_forwarded_msat: out,
        };
        match handle(event, 50) {
            Reaction::RecordForward(f) => f,
            other => panic!("{other:?}"),
        }
    };
    let f = forward(Some(3), Some(100));
    assert_eq!(f.incoming_channel_id, "11".repeat(32));
    assert_eq!(f.outgoing_channel_id, "22".repeat(32));
    assert_eq!((f.incoming_amount, f.outgoing_amount, f.fee_earned), (103, 100, 3));
    assert_eq!(f.settled_at, 50);
    let f = forward(None, None);
    assert_eq!((f.incoming_amount, f.outgoing_amount, f.fee_earned), (0, 0, 0));
    let f = forward(Some(2), Some(u64::MAX));
    assert_eq!(f.incoming_amount, u64::MAX, "cut short, not wrapped");
}

#[test]
fn of_anything_else_nobody_is_told() {
    assert_eq!(handle(Event::Other, 50), Reaction::Nothing);
}

/// What is done about an event, but for what is announced.
fn run(event: Event, outcome: &dyn Fn() -> Result<(), AnnounceFailure>) -> Vec<String> {
    let mut done = Vec::new();
    let mut progress = Progress::Heard { event, now: 50 };
    loop {
        let action = next_action(progress);
        progress = match action {
            Action::AnnounceWallet(_) => {
                done.push("wallet".to_string());
                Progress::Announced(outcome())
            }
            Action::AnnounceControl(_) => {
                done.push("control".to_string());
                Progress::Announced(outcome())
            }
            Action::PrepareChannel(ready) => {
                done.push(format!("{} {}", ready.user_channel_id, ready.id));
                Progress::Prepared { ready, channels: vec![channel("x", 1)] }
            }
            Action::RecordForward(f) => {
                done.push(format!("{f:?}"));
                Progress::Recorded
            }
            Action::MarkHandled => {
                done.push("handled".to_string());
                return done;
            }
        };
    }
}

#[test]
fn a_failed_announcement_changes_nothing_else() {
    let events: [(&dyn Fn() -> Event, usize); 5] = [
        (&|| Event::PaymentReceived { payment_hash: [1; 32], amount_msat: 9 }, 2),
        (
            &|| Event::ChannelReady {
                channel_id: [0xcd; 32],
                user_channel_id: 7,
                counterparty_node_id: None,
            },
            3,
        ),
        (
            &|| Event::ChannelClosed {
                channel_id: [0xcd; 32],
                counterparty_node_id: None,
                reason: None,
            },
            2,
        ),
        (
            &|| Event::PaymentForwarded {
                prev_channel_id: [1; 32],
                next_channel_id: [2; 32],
                total_fee_earned_msat: Some(1),
                outbound_amount_forwarded_msat: Some(2),
            },
            2,
        ),
        (&|| Event::Other, 1),
    ];
    for (event, actions) in events {
        let good = run(event(), &|| Ok(()));
        assert_eq!(good.len(), actions);
        assert_eq!(good.last().map(|a| a.as_str()), Some("handled"));
        let unbuilt = || Err(AnnounceFailure::Unbuilt("x".to_string()));
        assert_eq!(run(event(), &unbuilt), good);
        let undelivered = || Err(AnnounceFailure::Undelivered("x".to_string()));
        assert_eq!(run(event(), &undelivered), good);
    }
}

#[test]
fn a_failed_announcement_is_told_of() {
    assert_eq!(
        warning(&AnnounceFailure::Unbuilt("x".to_string())),
        "could not build notification: x"
    );
    assert_eq!(warning(&AnnounceFailure::Undelivered("y".to_string())), "could not announce: y");
}

#[test]
fn bytes_are_written_in_lower_case_hex() {
    assert_eq!(hex_payment_hash(&[0x00, 0x0f, 0xa0, 0xff, 0x9c]), "000fa0ff9c");
    assert_eq!(hex_payment_hash(&[]), "");
    assert_eq!(hex_hash(&[0xde, 0xad]), "dead");
}

#[test]
fn thirty_two_bytes_read_back() {
    let bytes: Vec<u8> = (100u8..132).collect();
    assert_eq!(decode_hex(&hex_payment_hash(&bytes)), Some(bytes.clone()));
    assert_eq!(decode_hex(&hex_payment_hash(&bytes).to_uppercase()), Some(bytes));
}

#[test]
fn anything_but_sixty_four_digits_is_not_decoded() {
    assert_eq!(decode_hex(""), None);
    assert_eq!(decode_hex(&"ab".repeat(31)), None);
    assert_eq!(decode_hex(&"ab".repeat(33)), None);
    assert_eq!(decode_hex(&"xy".repeat(32)), None);
    assert_eq!(decode_hex(&"é".repeat(32)), None);
    assert_eq!(decode_hex(&"-a".repeat(32)), None);
    assert_eq!(decode_hex(&"a+".repeat(32)), None);
    assert_eq!(decode_hex(&"+f".repeat(32)), None, "a plus sign is no digit");
    assert_eq!(decode_hex(&format!("{}+a", "ab".repeat(31))), None);
}

#[test]
fn a_kind_has_its_hash_and_preimage() {
    let (h, p) = ([0xaa; 32], [0xbb; 32]);
    let (ht, pt) = ("aa".repeat(32), "bb".repeat(32));
    for kind in [
        PaymentKind::Bolt11 { hash: h, preimage: Some(p) },
        PaymentKind::Bolt11Jit { hash: h, preimage: Some(p) },
        PaymentKind::Spontaneous { hash: h, preimage: Some(p) },
        PaymentKind::Bolt12Offer { hash: Some(h), preimage: Some(p) },
        PaymentKind::Bolt12Refund { hash: Some(h), preimage: Some(p) },
    ] {
        assert_eq!(payment_hash_from_kind(&kind), Some(ht.clone()));
        assert_eq!(preimage_from_kind(&kind), Some(pt.clone()));
    }
    for kind in [
        PaymentKind::Onchain,
        PaymentKind::Bolt12Offer { hash: None, preimage: None },
        PaymentKind::Bolt12Refund { hash: None, preimage: None },
    ] {
        assert_eq!(payment_hash_from_kind(&kind), None);
        assert_eq!(preimage_from_kind(&kind), None);
    }
    assert_eq!(preimage_from_kind(&PaymentKind::Bolt11 { hash: h, preimage: None }), None);
}

#[test]
fn the_clock_stands_after_the_epoch() {
    assert!(now() > 1_600_000_000);
    assert_eq!(seconds(Some(5)), 5);
    assert_eq!(seconds(None), 0);
}
