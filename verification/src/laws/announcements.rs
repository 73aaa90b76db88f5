//! What is announced and recorded of what happens to the node, in terms of what
//! happened.

use vstd::prelude::*;

use crate::digits::bytes_of_hex;
use crate::events::{
    channel_opened, channel_with_id, close_type, handle, next_action, payment, warning, Action,
    AnnounceFailure, ClosureReason, Event, Notification, Progress, Reaction, ReadyChannel,
    WalletNotification,
};
use crate::laws::{law_found_channel_has_the_id, law_hex_reads_back, lemma_failures, or_zero};
use crate::lightning::ChannelInfo;
use crate::nnc::{ChannelState, CloseType};
use crate::nwc::{Transaction, TransactionState, TransactionType};

verus! {

/// The hash of the payment that an event is about, where it is about one.
pub open spec fn hash_of_event(event: Event) -> Option<Seq<u8>> {
    match event {
        Event::PaymentReceived { payment_hash, .. } => Some(payment_hash@),
        Event::PaymentSuccessful { payment_hash, .. } => Some(payment_hash@),
        Event::PaymentClaimable { payment_hash, .. } => Some(payment_hash@),
        _ => None,
    }
}

/// The hash under which a payment is announced.
pub open spec fn announced_hash(reaction: Reaction) -> Option<Seq<char>> {
    match reaction {
        Reaction::AnnounceWallet(WalletNotification::PaymentReceived(t)) => Some(t.payment_hash@),
        Reaction::AnnounceWallet(WalletNotification::PaymentSent(t)) => Some(t.payment_hash@),
        Reaction::AnnounceWallet(WalletNotification::HoldInvoiceAccepted(h)) => Some(
            h.payment_hash@,
        ),
        _ => None,
    }
}

/// Whatever is announced of a payment carries the hash of that payment, and wallets
/// are told of every event that is about one, and of no other.
pub proof fn law_payment_is_announced_under_its_hash(event: Event, now: u64, reaction: Reaction)
    requires
        call_ensures(handle, (event, now), reaction),
    ensures
        reaction is AnnounceWallet <==> hash_of_event(event) is Some,
        announced_hash(reaction) is Some <==> hash_of_event(event) is Some,
        hash_of_event(event) is Some ==> bytes_of_hex(announced_hash(reaction)->0)
            == hash_of_event(event),
{
    if let Some(hash) = hash_of_event(event) {
        law_hex_reads_back(hash);
    }
}

/// Two payments of different hashes are announced under different hashes.
pub proof fn law_payments_are_told_apart(
    a: Event,
    b: Event,
    now: u64,
    of_a: Reaction,
    of_b: Reaction,
)
    requires
        hash_of_event(a) is Some && hash_of_event(b) is Some,
        hash_of_event(a) != hash_of_event(b),
        call_ensures(handle, (a, now), of_a),
        call_ensures(handle, (b, now), of_b),
    ensures
        announced_hash(of_a) != announced_hash(of_b),
{
    law_payment_is_announced_under_its_hash(a, now, of_a);
    law_payment_is_announced_under_its_hash(b, now, of_b);
}

/// A payment that came in is announced as received, for the amount that came in; one
/// that went out, as sent, at the fee that it cost. Both are settled now, and neither
/// shows a preimage.
pub proof fn law_settled_payment_is_announced_as_it_went(
    payment_hash: [u8; 32],
    amount_msat: u64,
    fee_paid_msat: Option<u64>,
    now: u64,
    received: Reaction,
    sent: Reaction,
)
    requires
        call_ensures(handle, (Event::PaymentReceived { payment_hash, amount_msat }, now), received),
        call_ensures(handle, (Event::PaymentSuccessful { payment_hash, fee_paid_msat }, now), sent),
    ensures
        received matches Reaction::AnnounceWallet(WalletNotification::PaymentReceived(t)) && {
            &&& t.transaction_type == TransactionType::Incoming
            &&& t.amount == amount_msat
            &&& t.fees_paid == 0
            &&& bytes_of_hex(t.payment_hash@) == Some(payment_hash@)
            &&& is_settled_at(t, now)
        },
        sent matches Reaction::AnnounceWallet(WalletNotification::PaymentSent(t)) && {
            &&& t.transaction_type == TransactionType::Outgoing
            &&& t.amount == 0
            &&& t.fees_paid == or_zero(fee_paid_msat)
            &&& bytes_of_hex(t.payment_hash@) == Some(payment_hash@)
            &&& is_settled_at(t, now)
        },
{
    law_hex_reads_back(payment_hash@);
}

/// Whether a payment is announced as settled at that time, and with nothing that the
/// node does not know of it.
pub open spec fn is_settled_at(t: Transaction, now: u64) -> bool {
    &&& t.state == Some(TransactionState::Settled)
    &&& t.created_at == now && t.settled_at == Some(now)
    &&& t.preimage is None && t.invoice is None && t.description is None
    &&& t.description_hash is None && t.expires_at is None && t.metadata is None
}

/// A payment is put together from what is given of it.
pub proof fn law_payment_is_put_together_as_given(
    direction: TransactionType,
    hash: String,
    amount: u64,
    now: u64,
    t: Transaction,
)
    requires
        call_ensures(payment, (direction, hash, amount, now), t),
    ensures
        t.transaction_type == direction,
        t.payment_hash@ == hash@,
        t.amount == amount,
        t.fees_paid == 0,
        is_settled_at(t, now),
{
}

/// A payment that can be claimed is announced as accepted, for the amount that can be
/// claimed, with the deadline for claiming it, if there is one.
pub proof fn law_claimable_payment_is_announced_with_its_deadline(
    payment_hash: [u8; 32],
    claimable_amount_msat: u64,
    claim_deadline: Option<u32>,
    now: u64,
    reaction: Reaction,
)
    requires
        call_ensures(
            handle,
            (Event::PaymentClaimable { payment_hash, claimable_amount_msat, claim_deadline }, now),
            reaction,
        ),
    ensures
        reaction matches Reaction::AnnounceWallet(WalletNotification::HoldInvoiceAccepted(h)) && {
            &&& bytes_of_hex(h.payment_hash@) == Some(payment_hash@)
            &&& h.amount == claimable_amount_msat
            &&& h.settle_deadline is Some <==> claim_deadline is Some
            &&& claim_deadline is Some ==> h.settle_deadline->0 == claim_deadline->0
            &&& h.created_at == now && h.expires_at == 0
            &&& h.kind@ == "incoming"@ && h.state.deep_view() == Some("accepted"@)
            &&& h.invoice@.len() == 0
            &&& h.description is None && h.description_hash is None && h.metadata is None
        },
{
    law_hex_reads_back(payment_hash@);
}

/// A channel that is ready is made known to the signer under the id that the node
/// knows it by, and goes by its own id and its peer.
pub proof fn law_ready_channel_is_the_one_that_is_ready(
    channel_id: [u8; 32],
    user_channel_id: u128,
    counterparty_node_id: Option<String>,
    now: u64,
    reaction: Reaction,
)
    requires
        call_ensures(
            handle,
            (Event::ChannelReady { channel_id, user_channel_id, counterparty_node_id }, now),
            reaction,
        ),
    ensures
        reaction matches Reaction::PrepareChannel(ready) && {
            &&& ready.user_channel_id == user_channel_id
            &&& bytes_of_hex(ready.id@) == Some(channel_id@)
            &&& counterparty_node_id is Some ==> ready.peer_pubkey@ == counterparty_node_id->0@
            &&& counterparty_node_id is None ==> ready.peer_pubkey@.len() == 0
        },
{
    law_hex_reads_back(channel_id@);
}

/// Whether a channel is announced as an active one, under its id and with its peer, and
/// with what the first listed channel of that id says of it, or with nothing more where
/// none of that id is listed.
pub open spec fn opens(n: Notification, ready: ReadyChannel, channels: Seq<ChannelInfo>) -> bool {
    &&& n matches Notification::ChannelOpened(o)
    &&& o.channel.id@ == ready.id@
    &&& o.channel.peer_pubkey@ == ready.peer_pubkey@
    &&& o.channel.state == Some(ChannelState::Active)
    &&& forall|i: int|
        0 <= i < channels.len() && (#[trigger] channels[i]).id@ == ready.id@ && (forall|j: int|
            0 <= j < i ==> (#[trigger] channels[j]).id@ != ready.id@) ==> {
            &&& o.channel.capacity == Some(channels[i].capacity)
            &&& o.channel.local_balance == Some(channels[i].local_balance)
            &&& o.channel.remote_balance == Some(channels[i].remote_balance)
            &&& o.channel.short_channel_id == channels[i].short_channel_id
            &&& o.channel.funding_txid == channels[i].funding_txid
            &&& o.channel.is_private == channels[i].is_private
        }
    &&& (forall|j: int| 0 <= j < channels.len() ==> (#[trigger] channels[j]).id@ != ready.id@)
        ==> {
        &&& o.channel.capacity is None && o.channel.local_balance is None
        &&& o.channel.remote_balance is None && o.channel.short_channel_id is None
        &&& o.channel.funding_txid is None && !o.channel.is_private
    }
}

/// A ready channel is announced as an active one, under its id and with its peer.
/// Where the node lists a channel of that id, the announcement says of it what the
/// first of them says; where it lists none, it says nothing more.
pub proof fn law_ready_channel_is_announced_as_listed(
    ready: ReadyChannel,
    channels: &Vec<ChannelInfo>,
    n: Notification,
)
    requires
        call_ensures(channel_opened, (ready, channels), n),
    ensures
        opens(n, ready, channels@),
{
    lemma_found(channels@, ready.id@);
}

/// The channel found for an id is the first of that id.
proof fn lemma_found(channels: Seq<ChannelInfo>, id: Seq<char>)
    ensures
        forall|i: int|
            0 <= i < channels.len() && (#[trigger] channels[i]).id@ == id && (forall|j: int|
                0 <= j < i ==> (#[trigger] channels[j]).id@ != id) ==> channel_with_id(channels, id)
                == Some(channels[i]),
        (forall|j: int| 0 <= j < channels.len() ==> (#[trigger] channels[j]).id@ != id)
            ==> channel_with_id(channels, id) is None,
{
    law_found_channel_has_the_id(channels, id);
    if let Some(c) = channel_with_id(channels, id) {
        let k = choose|k: int| 0 <= k < channels.len() && channels[k] == c;
        assert(channels[k].id@ == id);
    }
    assert forall|i: int|
        0 <= i < channels.len() && (#[trigger] channels[i]).id@ == id && (forall|j: int|
            0 <= j < i ==> (#[trigger] channels[j]).id@ != id) implies channel_with_id(channels, id)
        == Some(channels[i]) by {
        lemma_first_is_found(channels, id, i);
    }
}

proof fn lemma_first_is_found(channels: Seq<ChannelInfo>, id: Seq<char>, i: int)
    requires
        0 <= i < channels.len(),
        channels[i].id@ == id,
        forall|j: int| 0 <= j < i ==> (#[trigger] channels[j]).id@ != id,
    ensures
        channel_with_id(channels, id) == Some(channels[i]),
    decreases i,
{
    if i > 0 {
        let rest = channels.drop_first();
        assert(channels[0].id@ != id);
        assert forall|j: int| 0 <= j < i - 1 implies (#[trigger] rest[j]).id@ != id by {
            assert(channels[j + 1].id@ != id);
        }
        lemma_first_is_found(rest, id, i - 1);
    }
}

/// A channel that closed is announced under its id and with its peer, as closed by
/// both sides, by this side, by the other, or in a way that has no name.
pub proof fn law_closed_channel_is_announced_as_it_closed(
    channel_id: [u8; 32],
    counterparty_node_id: Option<String>,
    reason: Option<ClosureReason>,
    now: u64,
    reaction: Reaction,
)
    requires
        call_ensures(
            handle,
            (Event::ChannelClosed { channel_id, counterparty_node_id, reason }, now),
            reaction,
        ),
    ensures
        reaction matches Reaction::AnnounceControl(Notification::ChannelClosed(c)) && {
            &&& bytes_of_hex(c.id@) == Some(channel_id@)
            &&& c.peer_pubkey.deep_view() == counterparty_node_id.deep_view()
            &&& closes_as(c.close_type, reason)
            &&& c.short_channel_id is None && c.capacity is None && c.closing_txid is None
        },
{
    law_hex_reads_back(channel_id@);
}

/// Whether a close is called what the node's reason for it makes it.
pub open spec fn closes_as(c: CloseType, reason: Option<ClosureReason>) -> bool {
    &&& c is ForceRemote <==> reason == Some(ClosureReason::CounterpartyForceClosed)
    &&& c is ForceLocal <==> reason == Some(ClosureReason::HolderForceClosed)
    &&& c is Cooperative <==> reason == Some(ClosureReason::LegacyCooperativeClosure) || reason
        == Some(ClosureReason::CounterpartyInitiatedCooperativeClosure) || reason == Some(
        ClosureReason::LocallyInitiatedCooperativeClosure,
    )
    &&& !(c is Breach)
    &&& c matches CloseType::Unknown(word) ==> word@ == "unknown"@
}

/// A close is called what the node's reason for it makes it.
pub proof fn law_close_is_called_by_its_reason(reason: Option<ClosureReason>, c: CloseType)
    requires
        call_ensures(close_type, (reason,), c),
    ensures
        closes_as(c, reason),
{
}

/// A payment that was passed on is recorded between the channels that it came and went
/// through, with what went out and what was earned; what came in is the two together,
/// or as much as can be held. Nobody is told of it.
pub proof fn law_forward_is_recorded_as_it_passed(
    prev_channel_id: [u8; 32],
    next_channel_id: [u8; 32],
    total_fee_earned_msat: Option<u64>,
    outbound_amount_forwarded_msat: Option<u64>,
    now: u64,
    reaction: Reaction,
)
    requires
        call_ensures(
            handle,
            (
                Event::PaymentForwarded {
                    prev_channel_id,
                    next_channel_id,
                    total_fee_earned_msat,
                    outbound_amount_forwarded_msat,
                },
                now,
            ),
            reaction,
        ),
    ensures
        reaction matches Reaction::RecordForward(f) && {
            &&& bytes_of_hex(f.incoming_channel_id@) == Some(prev_channel_id@)
            &&& bytes_of_hex(f.outgoing_channel_id@) == Some(next_channel_id@)
            &&& f.outgoing_amount == or_zero(outbound_amount_forwarded_msat)
            &&& f.fee_earned == or_zero(total_fee_earned_msat)
            &&& f.outgoing_amount + f.fee_earned <= u64::MAX ==> f.incoming_amount
                == f.outgoing_amount + f.fee_earned
            &&& f.outgoing_amount + f.fee_earned > u64::MAX ==> f.incoming_amount == u64::MAX
            &&& f.settled_at == now
        },
{
    law_hex_reads_back(prev_channel_id@);
    law_hex_reads_back(next_channel_id@);
}

/// Of an event that is about neither a payment nor a channel, nobody is told and
/// nothing is recorded.
pub proof fn law_nothing_is_done_about_anything_else(now: u64, reaction: Reaction)
    requires
        call_ensures(handle, (Event::Other, now), reaction),
    ensures
        reaction is Nothing,
{
}

/// Whether a payment is announced as it went, and settled now.
pub open spec fn went(
    t: Transaction,
    direction: TransactionType,
    hash: Seq<u8>,
    amount: u64,
    fee: u64,
    now: u64,
) -> bool {
    &&& t.transaction_type == direction
    &&& bytes_of_hex(t.payment_hash@) == Some(hash)
    &&& t.amount == amount
    &&& t.fees_paid == fee
    &&& is_settled_at(t, now)
}

/// What is done first about an event follows from the event: wallets are told of a
/// payment as it went, the signer of a channel that is ready, controllers of one that
/// closed; a payment that was passed on is recorded; and nothing is done about anything
/// else.
pub proof fn law_first_action_follows_from_the_event(event: Event, now: u64, action: Action)
    requires
        call_ensures(next_action, (Progress::Heard { event, now },), action),
    ensures
        match event {
            Event::PaymentReceived { payment_hash, amount_msat } => {
                &&& action matches Action::AnnounceWallet(WalletNotification::PaymentReceived(t))
                &&& went(t, TransactionType::Incoming, payment_hash@, amount_msat, 0, now)
            },
            Event::PaymentSuccessful { payment_hash, fee_paid_msat } => {
                &&& action matches Action::AnnounceWallet(WalletNotification::PaymentSent(t))
                &&& went(
                    t,
                    TransactionType::Outgoing,
                    payment_hash@,
                    0,
                    or_zero(fee_paid_msat),
                    now,
                )
            },
            Event::PaymentClaimable { payment_hash, claimable_amount_msat, claim_deadline } => {
                &&& action matches Action::AnnounceWallet(
                    WalletNotification::HoldInvoiceAccepted(h),
                )
                &&& bytes_of_hex(h.payment_hash@) == Some(payment_hash@)
                &&& h.amount == claimable_amount_msat
                &&& h.created_at == now
                &&& h.settle_deadline is Some <==> claim_deadline is Some
                &&& claim_deadline is Some ==> h.settle_deadline->0 == claim_deadline->0
            },
            Event::ChannelReady { channel_id, user_channel_id, counterparty_node_id } => {
                &&& action matches Action::PrepareChannel(ready)
                &&& ready.user_channel_id == user_channel_id
                &&& bytes_of_hex(ready.id@) == Some(channel_id@)
                &&& counterparty_node_id is Some ==> ready.peer_pubkey@
                    == counterparty_node_id->0@
            },
            Event::ChannelClosed { channel_id, counterparty_node_id, reason } => {
                &&& action matches Action::AnnounceControl(Notification::ChannelClosed(c))
                &&& bytes_of_hex(c.id@) == Some(channel_id@)
                &&& c.peer_pubkey.deep_view() == counterparty_node_id.deep_view()
                &&& closes_as(c.close_type, reason)
            },
            Event::PaymentForwarded {
                prev_channel_id,
                next_channel_id,
                total_fee_earned_msat,
                outbound_amount_forwarded_msat,
            } => {
                &&& action matches Action::RecordForward(f)
                &&& bytes_of_hex(f.incoming_channel_id@) == Some(prev_channel_id@)
                &&& bytes_of_hex(f.outgoing_channel_id@) == Some(next_channel_id@)
                &&& f.outgoing_amount == or_zero(outbound_amount_forwarded_msat)
                &&& f.fee_earned == or_zero(total_fee_earned_msat)
                &&& f.outgoing_amount + f.fee_earned <= u64::MAX ==> f.incoming_amount
                    == f.outgoing_amount + f.fee_earned
                &&& f.settled_at == now
            },
            Event::Other => action is MarkHandled,
        },
{
    match event {
        Event::PaymentReceived { payment_hash, .. } => law_hex_reads_back(payment_hash@),
        Event::PaymentSuccessful { payment_hash, .. } => law_hex_reads_back(payment_hash@),
        Event::PaymentClaimable { payment_hash, .. } => law_hex_reads_back(payment_hash@),
        Event::ChannelReady { channel_id, .. } => law_hex_reads_back(channel_id@),
        Event::ChannelClosed { channel_id, .. } => law_hex_reads_back(channel_id@),
        Event::PaymentForwarded { prev_channel_id, next_channel_id, .. } => {
            law_hex_reads_back(prev_channel_id@);
            law_hex_reads_back(next_channel_id@);
        },
        Event::Other => {},
    }
}

/// Once the signer has heard of a ready channel, controllers are told of that channel as
/// it is listed; and once that, or any announcement, has been tried, whatever came of it,
/// or a payment recorded, nothing more is done.
pub proof fn law_an_event_is_done_with(
    ready: ReadyChannel,
    channels: Vec<ChannelInfo>,
    outcome: Result<(), AnnounceFailure>,
    told: Action,
    tried: Action,
    recorded: Action,
)
    requires
        call_ensures(next_action, (Progress::Prepared { ready, channels },), told),
        call_ensures(next_action, (Progress::Announced(outcome),), tried),
        call_ensures(next_action, (Progress::Recorded,), recorded),
    ensures
        told matches Action::AnnounceControl(n) && opens(n, ready, channels@),
        tried is MarkHandled,
        recorded is MarkHandled,
{
    lemma_found(channels@, ready.id@);
}

/// What is logged of a failed announcement says what failed, and how.
pub proof fn law_failed_announcement_is_told_of(
    e: String,
    unbuilt: String,
    undelivered: String,
)
    requires
        call_ensures(warning, (&AnnounceFailure::Unbuilt(e),), unbuilt),
        call_ensures(warning, (&AnnounceFailure::Undelivered(e),), undelivered),
    ensures
        unbuilt@ == "could not build notification"@ + seq![':', ' '] + e@,
        undelivered@ == "could not announce"@ + seq![':', ' '] + e@,
{
    lemma_failures();
}

}
