//! What paying, issuing and holding come to: each law speaks of what a handler is
//! given and of what it gives, whatever it does in between.

use vstd::prelude::*;

use crate::digits::{bytes_of_hex, bytes_of_preimage};
use crate::error::{ErrorCode, NncError};
use crate::foreign::{sha256_digest, trimmed};
use crate::laws::{is_failure, law_hex_reads_back, lemma_failures, or_zero};
use crate::lightning::{BalanceInfo, InvoiceInfo, PaymentSent};
use crate::nwc::{
    Bip321Capability, CancelHoldInvoiceRequest, CancelHoldInvoiceResponse, GetInfoResponse, MakeHoldInvoiceRequest,
    MakeHoldInvoiceResponse, MakeInvoiceRequest, PayInvoiceRequest, PayInvoiceResponse,
    PayKeysendRequest, PayKeysendResponse, PayOfferRequest, PayOfferResponse, PayOnchainRequest,
    PayOnchainResponse, PayResponse, SettleHoldInvoiceRequest, SettleHoldInvoiceResponse,
    Transaction, TransactionState, TransactionType,
};
use crate::wallet::account::{capability, BalanceEvent, BalanceStep, NodeIdentity};
use crate::wallet::invoices::{
    MakeHoldInvoiceCall, MakeInvoiceCall, PayInvoiceCall, PayKeysendCall,
};
use crate::wallet::offers::PayOfferCall;
use crate::wallet::onchain::PayOnchainCall;
use crate::wallet::pay::{paid, payment_hash_of};
use crate::wallet::Wallet;

verus! {

// ── identity and balance ─────────────────────────────────────────────

/// The balance is the node's total. Where the total covers both sides and no more,
/// it is what is on Lightning and what is on chain together; each side is given
/// beside it, the chain's in whole sats.
pub proof fn law_balance_is_the_total(w: &Wallet, b: BalanceInfo, step: BalanceStep)
    requires
        call_ensures(Wallet::get_balance, (w, BalanceEvent::Read(Ok(b))), step),
    ensures
        step matches BalanceStep::Answer(Ok(a)) && {
            &&& a.balance == b.total_msat
            &&& b.total_msat == b.lightning_msat + b.onchain_msat ==> a.balance == b.lightning_msat
                + b.onchain_msat
            &&& a.lightning_balance == Some(b.lightning_msat)
            &&& a.onchain_balance_sats is Some
            &&& a.onchain_balance_sats->0 * 1_000 <= b.onchain_msat
                < a.onchain_balance_sats->0 * 1_000 + 1_000
        },
{
}

/// More on Lightning is as much more in all, and the same on chain.
pub proof fn law_balance_follows_lightning(
    w: &Wallet,
    b: BalanceInfo,
    c: BalanceInfo,
    before: BalanceStep,
    after: BalanceStep,
)
    requires
        b.total_msat == b.lightning_msat + b.onchain_msat,
        c.total_msat == c.lightning_msat + c.onchain_msat,
        b.onchain_msat == c.onchain_msat,
        call_ensures(Wallet::get_balance, (w, BalanceEvent::Read(Ok(b))), before),
        call_ensures(Wallet::get_balance, (w, BalanceEvent::Read(Ok(c))), after),
    ensures
        before matches BalanceStep::Answer(Ok(x)) && (after matches BalanceStep::Answer(Ok(y)) && {
            &&& y.balance - x.balance == c.lightning_msat - b.lightning_msat
            &&& y.onchain_balance_sats == x.onchain_balance_sats
        }),
{
}

/// The wallets are synced before a balance is read, and a failure of either ends
/// the request, with the node's reason.
pub proof fn law_balance_is_read_after_a_sync(
    w: &Wallet,
    e: String,
    first: BalanceStep,
    second: BalanceStep,
    unsynced: BalanceStep,
    unread: BalanceStep,
)
    requires
        call_ensures(Wallet::get_balance, (w, BalanceEvent::Asked), first),
        call_ensures(Wallet::get_balance, (w, BalanceEvent::Synced(Ok(()))), second),
        call_ensures(Wallet::get_balance, (w, BalanceEvent::Synced(Err(e))), unsynced),
        call_ensures(Wallet::get_balance, (w, BalanceEvent::Read(Err(e))), unread),
    ensures
        first is SyncWallets,
        second is ReadBalance,
        unsynced matches BalanceStep::Answer(Err(x)) && is_failure(
            x,
            ErrorCode::Internal,
            "sync"@,
            e@,
        ),
        unread matches BalanceStep::Answer(Err(x)) && is_failure(
            x,
            ErrorCode::Internal,
            "balance"@,
            e@,
        ),
{
    lemma_failures();
}

/// The wallet gives itself out for the node it stands on, at the height that the
/// node has reached, under its own name if it has one; and names what it serves, sends
/// and can be paid by.
pub proof fn law_info_is_of_the_node(
    w: &Wallet,
    node: NodeIdentity,
    info: GetInfoResponse,
    methods: Vec<String>,
    notifications: Vec<String>,
    capabilities: Vec<Bip321Capability>,
)
    requires
        call_ensures(Wallet::get_info, (w, node), info),
        call_ensures(Wallet::methods, (w,), methods),
        call_ensures(Wallet::notifications, (w,), notifications),
        call_ensures(Wallet::capabilities, (), capabilities),
    ensures
        info.methods.deep_view() == methods.deep_view(),
        info.notifications.deep_view() == Some(notifications.deep_view()),
        info.bip321_methods is Some,
        info.bip321_methods->0@.len() == capabilities@.len(),
        forall|i: int|
            0 <= i < capabilities@.len() ==> (#[trigger] info.bip321_methods->0@[i]).method@
                == capabilities@[i].method@ && info.bip321_methods->0@[i].address_types.deep_view()
                == capabilities@[i].address_types.deep_view(),
        info.pubkey.deep_view() == Some(node.node_id@),
        info.network.deep_view() == Some(node.network@),
        info.block_height is Some && info.block_height->0 == node.best_block_height,
        w.alias is Some ==> info.alias.deep_view() == Some(w.alias->0@),
        w.alias is None ==> info.alias.deep_view() == Some("dln-node"@),
        info.color is None && info.block_hash is None && info.extensions is None,
{
    let told = info.bip321_methods->0@.map_values(|c: Bip321Capability| capability(c));
    let served = capabilities@.map_values(|c: Bip321Capability| capability(c));
    assert(told == served);
    assert(told.len() == info.bip321_methods->0@.len() && served.len() == capabilities@.len());
    assert forall|i: int| 0 <= i < capabilities@.len() implies (
    #[trigger] info.bip321_methods->0@[i]).method@ == capabilities@[i].method@
        && info.bip321_methods->0@[i].address_types.deep_view()
        == capabilities@[i].address_types.deep_view() by {
        assert(told[i] == capability(info.bip321_methods->0@[i]));
        assert(served[i] == capability(capabilities@[i]));
    }
}

// ── what identifies a payment ────────────────────────────────────────

/// The hash of a preimage is 32 bytes in hex, the digest of what the preimage
/// spells. A text that is not 64 hex digits has none.
pub proof fn law_hash_is_of_the_preimage(preimage: &str, hash: Option<String>)
    requires
        call_ensures(payment_hash_of, (preimage,), hash),
    ensures
        bytes_of_preimage(preimage@) is Some <==> hash is Some,
        hash is Some ==> bytes_of_hex(hash->0@) == Some(
            sha256_digest(bytes_of_preimage(preimage@)->0),
        ),
{
    if let Some(bytes) = bytes_of_preimage(preimage@) {
        law_hex_reads_back(sha256_digest(bytes));
    }
}

/// Whatever a payment is settled by, what was asked to be reported of it is
/// reported as it stands; it is identified by the hash of its preimage, or else
/// by its transaction; and it is settled when it is made.
pub proof fn law_payment_is_reported_as_made(
    kind: &str,
    amount: u64,
    preimage: Option<String>,
    txid: Option<String>,
    fees_paid: u64,
    now: u64,
    a: PayResponse,
)
    requires
        call_ensures(paid, (kind, amount, preimage, txid, fees_paid, now), a),
    ensures
        a.instruction_type@ == kind@,
        a.amount == amount,
        a.fees_paid == fees_paid,
        a.preimage.deep_view() == preimage.deep_view(),
        a.txid.deep_view() == txid.deep_view(),
        a.created_at == now && a.settled_at == Some(now),
        a.state@ == "settled"@,
        a.payer_proof is None && a.failure_reason is None,
        a.payment_hash is Some <==> preimage is Some && bytes_of_preimage(preimage->0@) is Some,
        a.payment_hash is Some ==> a.transaction_id@ == a.payment_hash->0@ && bytes_of_hex(
            a.transaction_id@,
        ) == Some(sha256_digest(bytes_of_preimage(preimage->0@)->0)),
        a.payment_hash is None && txid is Some ==> a.transaction_id@ == txid->0@,
        a.payment_hash is None && txid is None ==> a.transaction_id@.len() == 0,
{
    if preimage is Some && bytes_of_preimage(preimage->0@) is Some {
        law_hex_reads_back(sha256_digest(bytes_of_preimage(preimage->0@)->0));
    }
}

// ── what was paid ────────────────────────────────────────────────────

/// The fee that the node says it paid is the fee that is answered, by whatever
/// method the payment was asked for, and none is answered only where the node
/// names none. So is the preimage. The methods that answer an id agree on it.
pub proof fn law_fees_are_reported(
    w: &Wallet,
    amount: Option<u64>,
    p: PaymentSent,
    now: u64,
    by_invoice: Result<PayResponse, NncError>,
    by_offer: Result<PayResponse, NncError>,
    invoice: Result<PayInvoiceResponse, NncError>,
    offer: Result<PayOfferResponse, NncError>,
    keysend: Result<PayKeysendResponse, NncError>,
)
    requires
        call_ensures(
            Wallet::pay_bolt11_reply,
            (w, amount, Ok::<PaymentSent, String>(p), now),
            by_invoice,
        ),
        call_ensures(
            Wallet::pay_bolt12_reply,
            (w, amount, Ok::<PaymentSent, String>(p), now),
            by_offer,
        ),
        call_ensures(Wallet::pay_invoice_reply, (w, Ok::<PaymentSent, String>(p)), invoice),
        call_ensures(Wallet::pay_offer_reply, (w, Ok::<PaymentSent, String>(p)), offer),
        call_ensures(Wallet::pay_keysend_reply, (w, Ok::<PaymentSent, String>(p)), keysend),
    ensures
        by_invoice is Ok && by_offer is Ok && invoice is Ok && offer is Ok && keysend is Ok,
        invoice->Ok_0.fees_paid == p.fees_paid_msat,
        offer->Ok_0.fees_paid == p.fees_paid_msat,
        keysend->Ok_0.fees_paid == p.fees_paid_msat,
        p.fees_paid_msat is Some ==> by_invoice->Ok_0.fees_paid == p.fees_paid_msat->0
            && by_offer->Ok_0.fees_paid == p.fees_paid_msat->0,
        p.fees_paid_msat is None ==> by_invoice->Ok_0.fees_paid == 0 && by_offer->Ok_0.fees_paid
            == 0,
        invoice->Ok_0.preimage@ == p.preimage@,
        offer->Ok_0.preimage@ == p.preimage@,
        keysend->Ok_0.preimage@ == p.preimage@,
        by_invoice->Ok_0.preimage.deep_view() == Some(p.preimage@),
        by_offer->Ok_0.preimage.deep_view() == Some(p.preimage@),
        by_invoice->Ok_0.transaction_id@ == by_offer->Ok_0.transaction_id@,
        by_invoice->Ok_0.transaction_id@ == offer->Ok_0.transaction_id@,
{
}

/// A payment by URI over Lightning is answered with the amount that was paid, the
/// hash of its preimage for its id, and no transaction, as settled now.
pub proof fn law_lightning_payment_by_uri(
    w: &Wallet,
    amount: Option<u64>,
    p: PaymentSent,
    now: u64,
    by_invoice: Result<PayResponse, NncError>,
    by_offer: Result<PayResponse, NncError>,
)
    requires
        call_ensures(
            Wallet::pay_bolt11_reply,
            (w, amount, Ok::<PaymentSent, String>(p), now),
            by_invoice,
        ),
        call_ensures(
            Wallet::pay_bolt12_reply,
            (w, amount, Ok::<PaymentSent, String>(p), now),
            by_offer,
        ),
    ensures
        by_invoice is Ok && by_invoice->Ok_0.instruction_type@ == "bolt11"@,
        by_offer is Ok && by_offer->Ok_0.instruction_type@ == "bolt12"@,
        forall|a: PayResponse|
            a == by_invoice->Ok_0 || a == by_offer->Ok_0 ==> {
                &&& #[trigger] a.amount == or_zero(amount)
                &&& a.fees_paid == or_zero(p.fees_paid_msat)
                &&& a.created_at == now && a.settled_at == Some(now)
                &&& a.state@ == "settled"@
                &&& a.txid is None && a.payer_proof is None && a.failure_reason is None
                &&& bytes_of_preimage(p.preimage@) is Some ==> bytes_of_hex(a.transaction_id@)
                    == Some(sha256_digest(bytes_of_preimage(p.preimage@)->0))
                    && a.payment_hash.deep_view() == Some(a.transaction_id@)
                &&& bytes_of_preimage(p.preimage@) is None ==> a.transaction_id@.len() == 0
                    && a.payment_hash is None
            },
{
    if let Some(bytes) = bytes_of_preimage(p.preimage@) {
        law_hex_reads_back(sha256_digest(bytes));
    }
}

/// A payment by URI on chain is answered with its transaction for its id, and with
/// the sats that were sent, in millisatoshis. It has no hash and no preimage.
pub proof fn law_onchain_payment_by_uri(
    w: &Wallet,
    amount_sat: u64,
    txid: String,
    now: u64,
    answer: Result<PayResponse, NncError>,
)
    requires
        amount_sat * 1_000 <= u64::MAX,
        call_ensures(
            Wallet::pay_onchain_uri_reply,
            (w, amount_sat, Ok::<String, String>(txid), now),
            answer,
        ),
    ensures
        answer matches Ok(a) && {
            &&& a.transaction_id@ == txid@
            &&& a.txid.deep_view() == Some(txid@)
            &&& a.instruction_type@ == "onchain"@
            &&& a.amount == amount_sat * 1_000
            &&& a.fees_paid == 0
            &&& a.created_at == now && a.settled_at == Some(now)
            &&& a.state@ == "settled"@
            &&& a.payment_hash is None && a.preimage is None && a.payer_proof is None
            &&& a.failure_reason is None
        },
{
}

/// A payment that failed is answered as failed, with the method and the node's
/// reason.
pub proof fn law_failed_payment_says_why(
    w: &Wallet,
    amount: Option<u64>,
    amount_sat: u64,
    e: String,
    now: u64,
    by_invoice: Result<PayResponse, NncError>,
    by_offer: Result<PayResponse, NncError>,
    by_address: Result<PayResponse, NncError>,
    invoice: Result<PayInvoiceResponse, NncError>,
    offer: Result<PayOfferResponse, NncError>,
    keysend: Result<PayKeysendResponse, NncError>,
    onchain: Result<PayOnchainResponse, NncError>,
)
    requires
        amount_sat * 1_000 <= u64::MAX,
        call_ensures(
            Wallet::pay_bolt11_reply,
            (w, amount, Err::<PaymentSent, String>(e), now),
            by_invoice,
        ),
        call_ensures(
            Wallet::pay_bolt12_reply,
            (w, amount, Err::<PaymentSent, String>(e), now),
            by_offer,
        ),
        call_ensures(
            Wallet::pay_onchain_uri_reply,
            (w, amount_sat, Err::<String, String>(e), now),
            by_address,
        ),
        call_ensures(Wallet::pay_invoice_reply, (w, Err::<PaymentSent, String>(e)), invoice),
        call_ensures(Wallet::pay_offer_reply, (w, Err::<PaymentSent, String>(e)), offer),
        call_ensures(Wallet::pay_keysend_reply, (w, Err::<PaymentSent, String>(e)), keysend),
        call_ensures(Wallet::pay_onchain_reply, (w, Err::<String, String>(e)), onchain),
    ensures
        by_invoice matches Err(x) && is_failure(x, ErrorCode::PaymentFailed, "pay/bolt11"@, e@),
        by_offer matches Err(x) && is_failure(x, ErrorCode::PaymentFailed, "pay/bolt12"@, e@),
        by_address matches Err(x) && is_failure(x, ErrorCode::PaymentFailed, "pay/onchain"@, e@),
        invoice matches Err(x) && is_failure(x, ErrorCode::PaymentFailed, "pay_invoice"@, e@),
        offer matches Err(x) && is_failure(x, ErrorCode::PaymentFailed, "pay_offer"@, e@),
        keysend matches Err(x) && is_failure(x, ErrorCode::PaymentFailed, "pay_keysend"@, e@),
        onchain matches Err(x) && is_failure(x, ErrorCode::PaymentFailed, "pay_onchain"@, e@),
{
    lemma_failures();
}

// ── what the node is asked to pay ────────────────────────────────────

/// The node is asked to pay the invoice that the request names, without the white
/// space around it, for the amount that the request names. It is not asked to pay
/// nothing, nor for no invoice.
pub proof fn law_invoice_is_paid_as_asked(
    w: &Wallet,
    r: &PayInvoiceRequest,
    call: Result<PayInvoiceCall, NncError>,
)
    requires
        call_ensures(Wallet::pay_invoice, (w, r), call),
    ensures
        call is Ok <==> r.amount != Some(0u64) && trimmed(r.invoice@).len() > 0,
        call matches Ok(c) ==> c.invoice@ == trimmed(r.invoice@) && c.amount_msat == r.amount,
        call matches Err(e) ==> e.code == ErrorCode::BadRequest && e.message@ == (if r.amount
            == Some(0u64) {
            "amount must be greater than 0"@
        } else {
            "invoice is required"@
        }),
{
}

/// What is pushed to a peer is what the request names, and never nothing.
pub proof fn law_keysend_goes_as_asked(
    w: &Wallet,
    r: PayKeysendRequest,
    call: Result<PayKeysendCall, NncError>,
)
    requires
        call_ensures(Wallet::pay_keysend, (w, r), call),
    ensures
        call is Ok <==> r.amount > 0,
        call matches Ok(c) ==> c.pubkey@ == r.pubkey@ && c.amount_msat == r.amount,
        call matches Err(e) ==> e.code == ErrorCode::BadRequest && e.message@
            == "amount must be greater than 0"@,
{
}

/// An offer is paid, and a transaction sent, for what the request names.
pub proof fn law_offer_and_address_are_paid_as_asked(
    w: &Wallet,
    r: PayOfferRequest,
    offer: PayOfferCall,
    o: PayOnchainRequest,
    onchain: PayOnchainCall,
    txid: String,
    sent: Result<PayOnchainResponse, NncError>,
)
    requires
        call_ensures(Wallet::pay_offer, (w, r), offer),
        call_ensures(Wallet::pay_onchain, (w, o), onchain),
        call_ensures(Wallet::pay_onchain_reply, (w, Ok::<String, String>(txid)), sent),
    ensures
        offer.offer@ == r.offer@,
        offer.amount_msat == r.amount,
        offer.payer_note.deep_view() == r.payer_note.deep_view(),
        onchain.address@ == o.address@,
        onchain.amount_sats == o.amount_sats,
        onchain.feerate == o.feerate,
        sent matches Ok(a) && a.txid@ == txid@ && a.fee_sats is None,
{
}

// ── invoices that the node issues ────────────────────────────────────

/// The node is asked for the invoice that the request describes, unless that
/// commits to a description hash, which no invoice of the node would bind.
pub proof fn law_invoice_is_issued_as_asked(
    w: &Wallet,
    r: &MakeInvoiceRequest,
    call: Result<MakeInvoiceCall, NncError>,
)
    requires
        call_ensures(Wallet::make_invoice, (w, r), call),
    ensures
        call is Ok <==> r.description_hash is None,
        call matches Ok(c) ==> {
            &&& c.amount_msat == r.amount
            &&& c.description.deep_view() == r.description.deep_view()
            &&& c.description_hash is None
            &&& c.expiry == r.expiry
        },
        call matches Err(e) ==> e.code == ErrorCode::BadRequest && e.message@
            == "this node does not support description_hash"@,
{
}

/// An invoice that the node issued is answered as it was issued: incoming, open,
/// paid by nobody, and for the amount that the node put into it, or else for the
/// amount asked.
pub proof fn law_issued_invoice_is_answered_as_made(
    w: &Wallet,
    r: MakeInvoiceRequest,
    m: InvoiceInfo,
    now: u64,
    answer: Result<Transaction, NncError>,
)
    requires
        call_ensures(
            Wallet::make_invoice_reply,
            (w, r, Ok::<InvoiceInfo, String>(m), now),
            answer,
        ),
    ensures
        answer matches Ok(t) && {
            &&& t.transaction_type == TransactionType::Incoming
            &&& t.state == Some(TransactionState::Pending)
            &&& t.invoice.deep_view() == Some(m.invoice@)
            &&& t.description.deep_view() == r.description.deep_view()
            &&& t.description_hash.deep_view() == r.description_hash.deep_view()
            &&& m.payment_hash is Some ==> t.payment_hash@ == m.payment_hash->0@
            &&& m.payment_hash is None ==> t.payment_hash@.len() == 0
            &&& m.amount_msat is Some ==> t.amount == m.amount_msat->0
            &&& m.amount_msat is None ==> t.amount == r.amount
            &&& t.created_at == now
            &&& t.expires_at == m.expires_at
            &&& t.metadata == r.metadata
            &&& t.preimage is None && t.settled_at is None && t.fees_paid == 0
        },
{
}

/// A hold invoice is asked for and answered under the hash that the caller chose,
/// for the amount that the node put into it, or else for the amount asked.
pub proof fn law_hold_invoice_keeps_its_hash(
    w: &Wallet,
    r: MakeHoldInvoiceRequest,
    m: InvoiceInfo,
    now: u64,
    call: MakeHoldInvoiceCall,
    answer: Result<MakeHoldInvoiceResponse, NncError>,
)
    requires
        call_ensures(Wallet::make_hold_invoice, (w, &r), call),
        call_ensures(
            Wallet::make_hold_invoice_reply,
            (w, r, Ok::<InvoiceInfo, String>(m), now),
            answer,
        ),
    ensures
        call.payment_hash@ == r.payment_hash@,
        call.amount_msat == r.amount,
        call.description.deep_view() == r.description.deep_view(),
        call.expiry == r.expiry,
        answer matches Ok(a) && {
            &&& a.payment_hash@ == call.payment_hash@
            &&& a.kind@ == "incoming"@
            &&& a.invoice.deep_view() == Some(m.invoice@)
            &&& m.amount_msat is Some ==> a.amount == m.amount_msat->0
            &&& m.amount_msat is None ==> a.amount == r.amount
            &&& a.created_at == now
            &&& a.expires_at == m.expires_at
            &&& a.description.deep_view() == r.description.deep_view()
            &&& a.description_hash.deep_view() == r.description_hash.deep_view()
            &&& a.metadata is None
        },
{
}

/// A held payment is settled by the preimage, and cancelled by the hash, that the
/// request names; and the answer is the node's.
pub proof fn law_held_payment_is_let_go_as_asked(
    w: &Wallet,
    s: SettleHoldInvoiceRequest,
    preimage: String,
    c: CancelHoldInvoiceRequest,
    hash: String,
    e: String,
    settled: Result<SettleHoldInvoiceResponse, NncError>,
    unsettled: Result<SettleHoldInvoiceResponse, NncError>,
    cancelled: Result<CancelHoldInvoiceResponse, NncError>,
    uncancelled: Result<CancelHoldInvoiceResponse, NncError>,
)
    requires
        call_ensures(Wallet::settle_hold_invoice, (w, s), preimage),
        call_ensures(Wallet::cancel_hold_invoice, (w, c), hash),
        call_ensures(Wallet::settle_hold_invoice_reply, (w, Ok::<(), String>(())), settled),
        call_ensures(Wallet::settle_hold_invoice_reply, (w, Err::<(), String>(e)), unsettled),
        call_ensures(Wallet::cancel_hold_invoice_reply, (w, Ok::<(), String>(())), cancelled),
        call_ensures(Wallet::cancel_hold_invoice_reply, (w, Err::<(), String>(e)), uncancelled),
    ensures
        preimage@ == s.preimage@,
        hash@ == c.payment_hash@,
        settled is Ok && cancelled is Ok,
        unsettled matches Err(x) && is_failure(
            x,
            ErrorCode::Internal,
            "settle_hold_invoice"@,
            e@,
        ),
        uncancelled matches Err(x) && is_failure(
            x,
            ErrorCode::Internal,
            "cancel_hold_invoice"@,
            e@,
        ),
{
    lemma_failures();
}

/// An invoice that the node could not issue is answered with the node's reason.
pub proof fn law_unissued_invoice_says_why(
    w: &Wallet,
    r: MakeInvoiceRequest,
    h: MakeHoldInvoiceRequest,
    e: String,
    now: u64,
    invoice: Result<Transaction, NncError>,
    hold: Result<MakeHoldInvoiceResponse, NncError>,
)
    requires
        call_ensures(
            Wallet::make_invoice_reply,
            (w, r, Err::<InvoiceInfo, String>(e), now),
            invoice,
        ),
        call_ensures(
            Wallet::make_hold_invoice_reply,
            (w, h, Err::<InvoiceInfo, String>(e), now),
            hold,
        ),
    ensures
        invoice matches Err(x) && is_failure(x, ErrorCode::Internal, "make_invoice"@, e@),
        hold matches Err(x) && is_failure(x, ErrorCode::Internal, "make_hold_invoice"@, e@),
{
    lemma_failures();
}

}
