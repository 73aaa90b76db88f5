//! Events of the node, as notifications.
//!
//! The outbound half. Everything here follows from work that the node did
//! rather than from a request.

use vstd::prelude::*;

use crate::digits::{hex_payment_hash, hex_text};
use crate::error::{failure, failure_message};
use crate::foreign::channel_id_text;
use crate::lightning::ChannelInfo;
use crate::nnc::{Channel, ChannelClosed, ChannelOpened, ChannelState, CloseType};
use crate::nwc::{HoldInvoiceAccepted, Transaction, TransactionState, TransactionType};
use crate::state::ForwardingEntry;

verus! {

/// Why a channel closed, as the node says it.
#[derive(Debug, Clone, Copy, PartialEq, Eq, Structural)]
pub enum ClosureReason {
    CounterpartyForceClosed,
    HolderForceClosed,
    LegacyCooperativeClosure,
    CounterpartyInitiatedCooperativeClosure,
    LocallyInitiatedCooperativeClosure,
    CommitmentTxConfirmed,
    FundingTimedOut,
    ProcessingError,
    DisconnectedPeer,
    OutdatedChannelManager,
    CounterpartyCoopClosedUnfundedChannel,
    LocallyCoopClosedUnfundedChannel,
    FundingBatchClosure,
    HTLCsTimedOut,
    PeerFeerateTooLow,
}

/// Something that happened to the node, with what is passed on of it.
#[derive(Debug, PartialEq, Eq)]
pub enum Event {
    PaymentReceived { payment_hash: [u8; 32], amount_msat: u64 },
    PaymentSuccessful { payment_hash: [u8; 32], fee_paid_msat: Option<u64> },
    PaymentClaimable {
        payment_hash: [u8; 32],
        claimable_amount_msat: u64,
        claim_deadline: Option<u32>,
    },
    ChannelReady {
        channel_id: [u8; 32],
        user_channel_id: u128,
        counterparty_node_id: Option<String>,
    },
    ChannelClosed {
        channel_id: [u8; 32],
        counterparty_node_id: Option<String>,
        reason: Option<ClosureReason>,
    },
    PaymentForwarded {
        prev_channel_id: [u8; 32],
        next_channel_id: [u8; 32],
        total_fee_earned_msat: Option<u64>,
        outbound_amount_forwarded_msat: Option<u64>,
    },
    /// Anything else, of which nobody is told.
    Other,
}

/// What wallets are told.
#[derive(Debug, PartialEq)]
pub enum WalletNotification {
    PaymentReceived(Transaction),
    PaymentSent(Transaction),
    HoldInvoiceAccepted(HoldInvoiceAccepted),
}

/// What controllers are told.
#[derive(Debug, PartialEq, Eq)]
pub enum Notification {
    ChannelOpened(ChannelOpened),
    ChannelClosed(ChannelClosed),
}

/// A channel that is ready. The signer hears of it before anything else; then
/// the node's channels are read, and then controllers are told.
#[derive(Debug, PartialEq, Eq)]
pub struct ReadyChannel {
    pub user_channel_id: u128,
    pub id: String,
    pub peer_pubkey: String,
}

/// What the node does about an event.
#[derive(Debug, PartialEq)]
pub enum Reaction {
    AnnounceWallet(WalletNotification),
    AnnounceControl(Notification),
    PrepareChannel(ReadyChannel),
    RecordForward(ForwardingEntry),
    Nothing,
}

// ── what is said ─────────────────────────────────────────────────────

/// Whether `t` is a payment of that hash, settled at `now`.
pub open spec fn is_payment(
    t: Transaction,
    direction: TransactionType,
    hash: Seq<char>,
    amount: u64,
    fees_paid: u64,
    now: u64,
) -> bool {
    &&& t.transaction_type == direction
    &&& t.state == Some(TransactionState::Settled)
    &&& t.invoice is None
    &&& t.description is None
    &&& t.description_hash is None
    &&& t.preimage is None
    &&& t.payment_hash@ == hash
    &&& t.amount == amount
    &&& t.fees_paid == fees_paid
    &&& t.created_at == now
    &&& t.expires_at is None
    &&& t.settled_at == Some(now)
    &&& t.metadata is None
}

/// Whether `h` says that a payment of that hash waits until `deadline`.
pub open spec fn is_accepted(
    h: HoldInvoiceAccepted,
    hash: Seq<char>,
    amount: u64,
    deadline: Option<u32>,
    now: u64,
) -> bool {
    &&& h.kind@ == "incoming"@
    &&& h.state.deep_view() == Some("accepted"@)
    &&& h.invoice@ == Seq::<char>::empty()
    &&& h.payment_hash@ == hash
    &&& h.amount == amount
    &&& h.created_at == now
    &&& h.expires_at == 0
    &&& h.settle_deadline == (match deadline {
        Some(d) => Some(d as u64),
        None => None,
    })
    &&& h.description is None
    &&& h.description_hash is None
    &&& h.metadata is None
}

/// The first channel of that id.
pub open spec fn channel_with_id(channels: Seq<ChannelInfo>, id: Seq<char>) -> Option<ChannelInfo>
    decreases channels.len(),
{
    if channels.len() == 0 {
        None
    } else if channels[0].id@ == id {
        Some(channels[0])
    } else {
        channel_with_id(channels.drop_first(), id)
    }
}

/// Whether `c` is the ready channel `ready`, with what the node's list says of
/// it, where it is listed.
pub open spec fn is_opened(c: Channel, ready: ReadyChannel, listed: Option<ChannelInfo>) -> bool {
    &&& c.id == ready.id
    &&& c.peer_pubkey == ready.peer_pubkey
    &&& c.state == Some(ChannelState::Active)
    &&& match listed {
        Some(i) => {
            &&& c.short_channel_id == i.short_channel_id
            &&& c.is_private == i.is_private
            &&& c.capacity == Some(i.capacity)
            &&& c.local_balance == Some(i.local_balance)
            &&& c.remote_balance == Some(i.remote_balance)
            &&& c.funding_txid == i.funding_txid
        },
        None => {
            &&& c.short_channel_id is None
            &&& !c.is_private
            &&& c.capacity is None
            &&& c.local_balance is None
            &&& c.remote_balance is None
            &&& c.funding_txid is None
        },
    }
}

/// Whether `c` is how a channel that closed for `reason` closed.
pub open spec fn is_close_type(c: CloseType, reason: Option<ClosureReason>) -> bool {
    match reason {
        Some(ClosureReason::CounterpartyForceClosed) => c is ForceRemote,
        Some(ClosureReason::HolderForceClosed) => c is ForceLocal,
        Some(ClosureReason::LegacyCooperativeClosure)
        | Some(ClosureReason::CounterpartyInitiatedCooperativeClosure)
        | Some(ClosureReason::LocallyInitiatedCooperativeClosure) => c is Cooperative,
        _ => c matches CloseType::Unknown(word) && word@ == "unknown"@,
    }
}

/// The sum, or as much of it as can be held.
pub open spec fn capped_sum(a: u64, b: u64) -> u64 {
    if a + b <= u64::MAX {
        (a + b) as u64
    } else {
        u64::MAX
    }
}

/// Whether `f` records that a payment was passed on at `now`.
pub open spec fn is_forwarded(
    f: ForwardingEntry,
    from: Seq<u8>,
    to: Seq<u8>,
    fee: u64,
    outgoing: u64,
    now: u64,
) -> bool {
    &&& f.incoming_channel_id@ == hex_text(from)
    &&& f.outgoing_channel_id@ == hex_text(to)
    &&& f.incoming_amount == capped_sum(outgoing, fee)
    &&& f.outgoing_amount == outgoing
    &&& f.fee_earned == fee
    &&& f.settled_at == now
}

/// Whether `reaction` is what the node does about `event` at `now`.
pub open spec fn is_reaction(reaction: Reaction, event: Event, now: u64) -> bool {
    match event {
        Event::PaymentReceived { payment_hash, amount_msat } => {
            &&& reaction matches Reaction::AnnounceWallet(WalletNotification::PaymentReceived(t))
            &&& is_payment(
                t,
                TransactionType::Incoming,
                hex_text(payment_hash@),
                amount_msat,
                0,
                now,
            )
        },
        Event::PaymentSuccessful { payment_hash, fee_paid_msat } => {
            &&& reaction matches Reaction::AnnounceWallet(WalletNotification::PaymentSent(t))
            &&& is_payment(
                t,
                TransactionType::Outgoing,
                hex_text(payment_hash@),
                0,
                fee_paid_msat.unwrap_or(0),
                now,
            )
        },
        Event::PaymentClaimable { payment_hash, claimable_amount_msat, claim_deadline } => {
            &&& reaction matches Reaction::AnnounceWallet(
                WalletNotification::HoldInvoiceAccepted(h),
            )
            &&& is_accepted(h, hex_text(payment_hash@), claimable_amount_msat, claim_deadline, now)
        },
        Event::ChannelReady { channel_id, user_channel_id, counterparty_node_id } => {
            &&& reaction matches Reaction::PrepareChannel(ready)
            &&& ready.user_channel_id == user_channel_id
            &&& ready.id@ == hex_text(channel_id@)
            &&& ready.peer_pubkey@ == (match counterparty_node_id {
                Some(node) => node@,
                None => Seq::empty(),
            })
        },
        Event::ChannelClosed { channel_id, counterparty_node_id, reason } => {
            &&& reaction matches Reaction::AnnounceControl(Notification::ChannelClosed(c))
            &&& c.id@ == hex_text(channel_id@)
            &&& c.short_channel_id is None
            &&& c.peer_pubkey == counterparty_node_id
            &&& c.capacity is None
            &&& c.closing_txid is None
            &&& is_close_type(c.close_type, reason)
        },
        Event::PaymentForwarded {
            prev_channel_id,
            next_channel_id,
            total_fee_earned_msat,
            outbound_amount_forwarded_msat,
        } => {
            &&& reaction matches Reaction::RecordForward(f)
            &&& is_forwarded(
                f,
                prev_channel_id@,
                next_channel_id@,
                total_fee_earned_msat.unwrap_or(0),
                outbound_amount_forwarded_msat.unwrap_or(0),
                now,
            )
        },
        Event::Other => reaction is Nothing,
    }
}

// ── saying it ────────────────────────────────────────────────────────

/// Hex for a payment hash.
pub fn hex_hash(bytes: &[u8]) -> (text: String)
    ensures
        text@ == hex_text(bytes@),
{
    hex_payment_hash(bytes)
}

/// A payment, as a transaction settled at `now`.
pub fn payment(direction: TransactionType, hash: String, amount: u64, now: u64) -> (t: Transaction)
    ensures
        is_payment(t, direction, hash@, amount, 0, now),
{
    Transaction {
        transaction_type: direction,
        state: Some(TransactionState::Settled),
        invoice: None,
        description: None,
        description_hash: None,
        preimage: None,
        payment_hash: hash,
        amount,
        fees_paid: 0,
        created_at: now,
        expires_at: None,
        settled_at: Some(now),
        metadata: None,
    }
}

/// How a channel closed.
///
/// A close by the other side follows from no command at all, which is why
/// controllers are told of closes in the first place.
pub fn close_type(reason: Option<ClosureReason>) -> (c: CloseType)
    ensures
        is_close_type(c, reason),
{
    match reason {
        Some(ClosureReason::CounterpartyForceClosed) => CloseType::ForceRemote,
        Some(ClosureReason::HolderForceClosed) => CloseType::ForceLocal,
        Some(ClosureReason::LegacyCooperativeClosure)
        | Some(ClosureReason::CounterpartyInitiatedCooperativeClosure)
        | Some(ClosureReason::LocallyInitiatedCooperativeClosure) => CloseType::Cooperative,
        _ => CloseType::Unknown("unknown".to_string()),
    }
}

/// What the node does about one event that it hears of at `now`.
pub fn handle(event: Event, now: u64) -> (reaction: Reaction)
    ensures
        is_reaction(reaction, event, now),
{
    match event {
        Event::PaymentReceived { payment_hash, amount_msat } => {
            let t = payment(
                TransactionType::Incoming,
                hex_hash(&payment_hash),
                amount_msat,
                now,
            );
            Reaction::AnnounceWallet(WalletNotification::PaymentReceived(t))
        },
        Event::PaymentSuccessful { payment_hash, fee_paid_msat } => {
            let mut t = payment(TransactionType::Outgoing, hex_hash(&payment_hash), 0, now);
            t.fees_paid = fee_paid_msat.unwrap_or(0);
            Reaction::AnnounceWallet(WalletNotification::PaymentSent(t))
        },
        Event::PaymentClaimable { payment_hash, claimable_amount_msat, claim_deadline } => {
            let settle_deadline: Option<u64> = match claim_deadline {
                Some(d) => Some(d as u64),
                None => None,
            };
            let h = HoldInvoiceAccepted {
                kind: "incoming".to_string(),
                state: Some("accepted".to_string()),
                invoice: String::new(),
                payment_hash: hex_hash(&payment_hash),
                amount: claimable_amount_msat,
                created_at: now,
                expires_at: 0,
                settle_deadline,
                description: None,
                description_hash: None,
                metadata: None,
            };
            Reaction::AnnounceWallet(WalletNotification::HoldInvoiceAccepted(h))
        },
        Event::ChannelReady { channel_id, user_channel_id, counterparty_node_id } => {
            Reaction::PrepareChannel(
                ReadyChannel {
                    user_channel_id,
                    id: channel_id_text(channel_id),
                    peer_pubkey: match counterparty_node_id {
                        Some(node) => node,
                        None => String::new(),
                    },
                },
            )
        },
        Event::ChannelClosed { channel_id, counterparty_node_id, reason } => {
            let c = ChannelClosed {
                id: channel_id_text(channel_id),
                short_channel_id: None,
                peer_pubkey: counterparty_node_id,
                capacity: None,
                closing_txid: None,
                close_type: close_type(reason),
            };
            Reaction::AnnounceControl(Notification::ChannelClosed(c))
        },
        Event::PaymentForwarded {
            prev_channel_id,
            next_channel_id,
            total_fee_earned_msat,
            outbound_amount_forwarded_msat,
        } => {
            let fee: u64 = total_fee_earned_msat.unwrap_or(0);
            let outgoing: u64 = outbound_amount_forwarded_msat.unwrap_or(0);
            Reaction::RecordForward(
                ForwardingEntry {
                    incoming_channel_id: channel_id_text(prev_channel_id),
                    outgoing_channel_id: channel_id_text(next_channel_id),
                    incoming_amount: outgoing.saturating_add(fee),
                    outgoing_amount: outgoing,
                    fee_earned: fee,
                    settled_at: now,
                },
            )
        },
        Event::Other => Reaction::Nothing,
    }
}

/// What controllers are told of a channel that is ready, given the node's
/// channels.
pub fn channel_opened(ready: ReadyChannel, channels: &Vec<ChannelInfo>) -> (n: Notification)
    ensures
        is_channel_opened(n, ready, channels@),
{
    let mut found: Option<usize> = None;
    let mut i: usize = 0;
    assert(channels@.skip(0) =~= channels@);
    while i < channels.len()
        invariant_except_break
            found is None,
            i <= channels@.len(),
            channel_with_id(channels@, ready.id@) == channel_with_id(
                channels@.skip(i as int),
                ready.id@,
            ),
        ensures
            match found {
                Some(at) => at < channels@.len() && channel_with_id(channels@, ready.id@) == Some(
                    channels@[at as int],
                ),
                None => channel_with_id(channels@, ready.id@) is None,
            },
        decreases channels@.len() - i,
    {
        assert(channels@.skip(i as int).drop_first() =~= channels@.skip(i + 1));
        if channels[i].id.eq(&ready.id) {
            found = Some(i);
            break;
        }
        i = i + 1;
    }
    let channel = match found {
        Some(at) => {
            let c = &channels[at];
            Channel {
                id: ready.id,
                short_channel_id: c.short_channel_id.clone(),
                peer_pubkey: ready.peer_pubkey,
                state: Some(ChannelState::Active),
                is_private: c.is_private,
                capacity: Some(c.capacity),
                local_balance: Some(c.local_balance),
                remote_balance: Some(c.remote_balance),
                funding_txid: c.funding_txid.clone(),
            }
        },
        None => Channel {
            id: ready.id,
            short_channel_id: None,
            peer_pubkey: ready.peer_pubkey,
            state: Some(ChannelState::Active),
            is_private: false,
            capacity: None,
            local_balance: None,
            remote_balance: None,
            funding_txid: None,
        },
    };
    Notification::ChannelOpened(ChannelOpened { channel })
}

// ── one event, from hearing of it to being done with it ──────────────

/// Why an announcement did not go out.
#[derive(Debug, PartialEq, Eq)]
pub enum AnnounceFailure {
    Unbuilt(String),
    Undelivered(String),
}

/// How far an event has come.
#[derive(Debug, PartialEq, Eq)]
pub enum Progress {
    /// The node has heard of it.
    Heard { event: Event, now: u64 },
    /// The signer has heard of a ready channel, and the channels have been read.
    Prepared { ready: ReadyChannel, channels: Vec<ChannelInfo> },
    /// An announcement has been tried, once.
    Announced(Result<(), AnnounceFailure>),
    /// A forwarded payment has been recorded.
    Recorded,
}

/// What is done next about an event.
#[derive(Debug, PartialEq)]
pub enum Action {
    AnnounceWallet(WalletNotification),
    AnnounceControl(Notification),
    PrepareChannel(ReadyChannel),
    RecordForward(ForwardingEntry),
    /// Nothing more: the node is told that the event has been handled.
    MarkHandled,
}

/// The reaction that an action is.
pub open spec fn reaction_of(action: Action) -> Reaction {
    match action {
        Action::AnnounceWallet(n) => Reaction::AnnounceWallet(n),
        Action::AnnounceControl(n) => Reaction::AnnounceControl(n),
        Action::PrepareChannel(ready) => Reaction::PrepareChannel(ready),
        Action::RecordForward(f) => Reaction::RecordForward(f),
        Action::MarkHandled => Reaction::Nothing,
    }
}

/// Whether `n` tells controllers of a channel that is ready.
pub open spec fn is_channel_opened(
    n: Notification,
    ready: ReadyChannel,
    channels: Seq<ChannelInfo>,
) -> bool {
    n matches Notification::ChannelOpened(o) && is_opened(
        o.channel,
        ready,
        channel_with_id(channels, ready.id@),
    )
}

/// Whether `action` is what is done next. Once an announcement has been tried the
/// event is done with, whatever came of it: it has happened, and a node that
/// stopped for one unreachable controller would fall behind the chain.
pub open spec fn is_action(action: Action, progress: Progress) -> bool {
    match progress {
        Progress::Heard { event, now } => is_reaction(reaction_of(action), event, now),
        Progress::Prepared { ready, channels } => {
            &&& action matches Action::AnnounceControl(n)
            &&& is_channel_opened(n, ready, channels@)
        },
        Progress::Announced(_) => action is MarkHandled,
        Progress::Recorded => action is MarkHandled,
    }
}

/// What is done next about an event.
pub fn next_action(progress: Progress) -> (action: Action)
    ensures
        is_action(action, progress),
{
    match progress {
        Progress::Heard { event, now } => match handle(event, now) {
            Reaction::AnnounceWallet(n) => Action::AnnounceWallet(n),
            Reaction::AnnounceControl(n) => Action::AnnounceControl(n),
            Reaction::PrepareChannel(ready) => Action::PrepareChannel(ready),
            Reaction::RecordForward(f) => Action::RecordForward(f),
            Reaction::Nothing => Action::MarkHandled,
        },
        Progress::Prepared { ready, channels } => {
            Action::AnnounceControl(channel_opened(ready, &channels))
        },
        Progress::Announced(_) => Action::MarkHandled,
        Progress::Recorded => Action::MarkHandled,
    }
}

/// What is logged of an announcement that did not go out.
pub open spec fn warning_for(f: AnnounceFailure) -> Seq<char> {
    match f {
        AnnounceFailure::Unbuilt(e) => failure("could not build notification"@, e@),
        AnnounceFailure::Undelivered(e) => failure("could not announce"@, e@),
    }
}

/// What is logged of an announcement that did not go out.
pub fn warning(f: &AnnounceFailure) -> (text: String)
    ensures
        text@ == warning_for(*f),
{
    match f {
        AnnounceFailure::Unbuilt(e) => failure_message("could not build notification", e.as_str()),
        AnnounceFailure::Undelivered(e) => failure_message("could not announce", e.as_str()),
    }
}

/// How far an event has come once an action is done, given the node's channels and
/// what comes of any announcement.
pub open spec fn progress_after(
    action: Action,
    channels: Vec<ChannelInfo>,
    outcome: Result<(), AnnounceFailure>,
) -> Progress {
    match action {
        Action::AnnounceWallet(_) => Progress::Announced(outcome),
        Action::AnnounceControl(_) => Progress::Announced(outcome),
        Action::PrepareChannel(ready) => Progress::Prepared { ready, channels },
        Action::RecordForward(_) => Progress::Recorded,
        Action::MarkHandled => Progress::Recorded,
    }
}

/// Whether `actions` is all that is done about an event, in order.
pub open spec fn is_run(
    actions: Seq<Action>,
    event: Event,
    now: u64,
    channels: Vec<ChannelInfo>,
    outcome: Result<(), AnnounceFailure>,
) -> bool {
    &&& actions.len() > 0
    &&& is_action(actions[0], Progress::Heard { event, now })
    &&& forall|i: int|
        #![trigger actions[i]]
        0 <= i < actions.len() - 1 ==> !(actions[i] is MarkHandled) && is_action(
            actions[i + 1],
            progress_after(actions[i], channels, outcome),
        )
    &&& actions.last() is MarkHandled
}

}
