//! What is listed and looked up: payments, invoices, offers and addresses. Each
//! law speaks of what a handler is given and of what it gives.

use vstd::prelude::*;

use crate::digits::{bytes_of_hex, hex_text};
use crate::error::{ErrorCode, NncError};
use crate::foreign::{invoice_terms_of, json_names, json_texts, offer_id_of};
use crate::laws::{is_failure, law_hex_reads_back, lemma_failures, or_zero};
use crate::lightning::{
    payment_hash_from_kind, preimage_from_kind, PaymentDetails, PaymentDirection, PaymentKind,
    PaymentStatus, RouteInfo,
};
use crate::lists::{are_places, lemma_filter_places};
use crate::nwc::{
    DisableOfferRequest, InvoiceRecord, InvoiceState, ListAddressesResponse, ListInvoicesRequest,
    ListInvoicesResponse, ListOffersRequest, ListOffersResponse, ListTransactionsRequest,
    ListTransactionsResponse, LookupAddressResponse, LookupInvoiceRequest, LookupPaymentRequest,
    LookupPaymentResponse, MakeNewAddressRequest, MakeOfferRequest, OfferRecord, PaymentState,
    QuotePaymentRequest, QuotePaymentResponse, Transaction, TransactionState, TransactionType,
};
use crate::state::{AddressPayment, StoredOffer, WatchedAddress};
use crate::wallet::offers::{shown, DisabledOffer, IssuedOffer, MakeOfferCall};
use crate::wallet::onchain::{total_sats, NewAddress};
use crate::wallet::route::FindRoutesCall;
use crate::wallet::transactions::{
    in_state, to_invoice, to_transaction, PaymentQuery, PaymentSelector,
};
use crate::wallet::Wallet;

verus! {

// ── a payment, as it is recorded ─────────────────────────────────────

/// The hash that the node recorded of a payment.
pub open spec fn recorded_hash(kind: PaymentKind) -> Option<Seq<u8>> {
    match kind {
        PaymentKind::Onchain => None,
        PaymentKind::Bolt11 { hash, .. } => Some(hash@),
        PaymentKind::Bolt11Jit { hash, .. } => Some(hash@),
        PaymentKind::Spontaneous { hash, .. } => Some(hash@),
        PaymentKind::Bolt12Offer { hash: Some(hash), .. } => Some(hash@),
        PaymentKind::Bolt12Refund { hash: Some(hash), .. } => Some(hash@),
        _ => None,
    }
}

/// The preimage that the node recorded of a payment.
pub open spec fn recorded_preimage(kind: PaymentKind) -> Option<Seq<u8>> {
    match kind {
        PaymentKind::Bolt11 { preimage: Some(preimage), .. } => Some(preimage@),
        PaymentKind::Bolt11Jit { preimage: Some(preimage), .. } => Some(preimage@),
        PaymentKind::Spontaneous { preimage: Some(preimage), .. } => Some(preimage@),
        PaymentKind::Bolt12Offer { preimage: Some(preimage), .. } => Some(preimage@),
        PaymentKind::Bolt12Refund { preimage: Some(preimage), .. } => Some(preimage@),
        _ => None,
    }
}

/// Whether a text spells those bytes in hex, or is empty where there are none.
pub open spec fn spells(text: Seq<char>, bytes: Option<Seq<u8>>) -> bool {
    match bytes {
        Some(bytes) => bytes_of_hex(text) == Some(bytes),
        None => text.len() == 0,
    }
}

/// Whether there is a text if and only if there are bytes, and it spells them.
pub open spec fn spells_option(text: Option<Seq<char>>, bytes: Option<Seq<u8>>) -> bool {
    match (text, bytes) {
        (Some(text), Some(bytes)) => bytes_of_hex(text) == Some(bytes),
        (None, None) => true,
        _ => false,
    }
}

/// What a record holds of hash and preimage is what was put into it.
proof fn lemma_recorded(kind: PaymentKind)
    ensures
        kind.hash() == recorded_hash(kind),
        kind.preimage() == recorded_preimage(kind),
        recorded_hash(kind) is Some ==> bytes_of_hex(
            hex_text(recorded_hash(kind)->0),
        ) == recorded_hash(kind),
        recorded_preimage(kind) is Some ==> bytes_of_hex(
            hex_text(recorded_preimage(kind)->0),
        ) == recorded_preimage(kind),
{
    match kind {
        PaymentKind::Bolt12Offer { hash: Some(hash), .. } => {
            assert(hash@ =~= hash.deep_view());
        },
        PaymentKind::Bolt12Refund { hash: Some(hash), .. } => {
            assert(hash@ =~= hash.deep_view());
        },
        _ => {},
    }
    match kind {
        PaymentKind::Bolt11 { preimage: Some(p), .. } => {
            assert(p@ =~= p.deep_view());
        },
        PaymentKind::Bolt11Jit { preimage: Some(p), .. } => {
            assert(p@ =~= p.deep_view());
        },
        PaymentKind::Spontaneous { preimage: Some(p), .. } => {
            assert(p@ =~= p.deep_view());
        },
        PaymentKind::Bolt12Offer { preimage: Some(p), .. } => {
            assert(p@ =~= p.deep_view());
        },
        PaymentKind::Bolt12Refund { preimage: Some(p), .. } => {
            assert(p@ =~= p.deep_view());
        },
        _ => {},
    }
    if recorded_hash(kind) is Some {
        law_hex_reads_back(recorded_hash(kind)->0);
    }
    if recorded_preimage(kind) is Some {
        law_hex_reads_back(recorded_preimage(kind)->0);
    }
}

/// A payment's hash and preimage are read off its record, whatever its kind.
pub proof fn law_hash_and_preimage_are_as_recorded(
    kind: &PaymentKind,
    hash: Option<String>,
    preimage: Option<String>,
)
    requires
        call_ensures(payment_hash_from_kind, (kind,), hash),
        call_ensures(preimage_from_kind, (kind,), preimage),
    ensures
        spells_option(hash.deep_view(), recorded_hash(*kind)),
        spells_option(preimage.deep_view(), recorded_preimage(*kind)),
{
    lemma_recorded(*kind);
}

/// Whether a transaction says of a payment what its record says.
pub open spec fn tells_of(t: Transaction, p: PaymentDetails) -> bool {
    &&& t.transaction_type == TransactionType::Outgoing <==> p.direction
        == PaymentDirection::Outbound
    &&& t.state == Some(TransactionState::Settled) <==> p.status == PaymentStatus::Succeeded
    &&& t.state == Some(TransactionState::Failed) <==> p.status == PaymentStatus::Failed
    &&& t.state == Some(TransactionState::Pending) <==> p.status == PaymentStatus::Pending
    &&& spells(t.payment_hash@, recorded_hash(p.kind))
    &&& spells_option(t.preimage.deep_view(), recorded_preimage(p.kind))
    &&& t.amount == or_zero(p.amount_msat)
    &&& t.fees_paid == or_zero(p.fee_paid_msat)
    &&& t.created_at == p.latest_update_timestamp
    &&& p.status == PaymentStatus::Succeeded ==> t.settled_at == Some(p.latest_update_timestamp)
    &&& p.status != PaymentStatus::Succeeded ==> t.settled_at is None
    &&& t.invoice is None && t.description is None && t.description_hash is None
    &&& t.expires_at is None && t.metadata is None
}

/// A transaction says of a payment what its record says: which way it went, how it
/// stands, what it is known by, and what it moved and cost.
pub proof fn law_transaction_tells_of_the_record(p: &PaymentDetails, t: Transaction)
    requires
        call_ensures(to_transaction, (p,), t),
    ensures
        tells_of(t, *p),
{
    lemma_recorded(p.kind);
}

/// A list tells of each record that the node found, in the node's order, and
/// counts them.
pub proof fn law_list_tells_of_every_record(
    w: &Wallet,
    found: &Vec<PaymentDetails>,
    answer: ListTransactionsResponse,
)
    requires
        call_ensures(Wallet::list_transactions_reply, (w, found), answer),
    ensures
        answer.transactions@.len() == found@.len(),
        answer.total_count == Some(found@.len() as u64),
        forall|i: int|
            0 <= i < found@.len() ==> tells_of(#[trigger] answer.transactions@[i], found@[i]),
{
    assert forall|i: int| 0 <= i < found@.len() implies tells_of(
        #[trigger] answer.transactions@[i],
        found@[i],
    ) by {
        lemma_recorded(found@[i].kind);
    }
}

/// A payment is answered alike by a list and by either lookup, and as its record
/// has it: which way it went, how it stands, its hash, its amount, its fee and its
/// times.
pub proof fn law_lookups_agree_with_the_list(
    w: &Wallet,
    found: &Vec<PaymentDetails>,
    i: int,
    list: ListTransactionsResponse,
    by_invoice: Result<Transaction, NncError>,
    lookup: Result<LookupPaymentResponse, NncError>,
)
    requires
        0 <= i < found@.len(),
        call_ensures(Wallet::list_transactions_reply, (w, found), list),
        call_ensures(
            Wallet::lookup_invoice_reply,
            (w, Ok::<PaymentDetails, String>(found@[i])),
            by_invoice,
        ),
        call_ensures(
            Wallet::lookup_payment_reply,
            (w, Ok::<PaymentDetails, String>(found@[i])),
            lookup,
        ),
    ensures
        by_invoice matches Ok(t) && tells_of(t, found@[i]),
        lookup matches Ok(a) && {
            let t = list.transactions@[i];
            &&& a.payment_direction == t.transaction_type
            &&& a.payment_direction == TransactionType::Outgoing <==> found@[i].direction
                == PaymentDirection::Outbound
            &&& a.state == PaymentState::Settled <==> found@[i].status == PaymentStatus::Succeeded
            &&& a.state == PaymentState::Failed <==> found@[i].status == PaymentStatus::Failed
            &&& a.state == PaymentState::Pending <==> found@[i].status == PaymentStatus::Pending
            &&& a.transaction_id@ == t.payment_hash@
            &&& spells(a.transaction_id@, recorded_hash(found@[i].kind))
            &&& a.amount == t.amount && a.amount == or_zero(found@[i].amount_msat)
            &&& a.fees_paid == Some(t.fees_paid) && a.fees_paid == Some(
                or_zero(found@[i].fee_paid_msat),
            )
            &&& a.created_at == t.created_at && a.created_at == found@[i].latest_update_timestamp
            &&& a.settled_at == t.settled_at
            &&& a.settled_at is Some <==> found@[i].status == PaymentStatus::Succeeded
            &&& a.payment_type@ == "bolt11"@
            &&& a.updated_at is None && a.expires_at is None && a.failure_reason is None
            &&& a.metadata is None
        },
{
    lemma_recorded(found@[i].kind);
    assert(tells_of(list.transactions@[i], found@[i]));
}

/// The details of a looked-up payment are its hash and, where the node knows it, its
/// preimage; the invoice and its description are there and null.
pub proof fn law_lookup_details(
    w: &Wallet,
    p: PaymentDetails,
    answer: Result<LookupPaymentResponse, NncError>,
)
    requires
        call_ensures(Wallet::lookup_payment_reply, (w, Ok::<PaymentDetails, String>(p)), answer),
    ensures
        answer matches Ok(a) && {
            let texts = json_texts(a.details);
            &&& json_names(a.details).contains("payment_hash"@)
            &&& json_names(a.details).contains("preimage"@)
            &&& json_names(a.details).contains("invoice"@)
            &&& json_names(a.details).contains("description"@)
            &&& texts.contains_key("payment_hash"@) && texts["payment_hash"@] == Some(
                a.transaction_id@,
            )
            &&& texts.contains_key("preimage"@) && spells_option(
                texts["preimage"@],
                recorded_preimage(p.kind),
            )
            &&& texts.contains_key("invoice"@) && texts["invoice"@] is None
            &&& texts.contains_key("description"@) && texts["description"@] is None
        },
{
    lemma_recorded(p.kind);
    reveal_strlit("payment_hash");
    reveal_strlit("invoice");
    reveal_strlit("preimage");
    reveal_strlit("description");
    assert("preimage"@[1] != "payment_hash"@[1]);
    assert("invoice"@[0] != "payment_hash"@[0]);
    assert("description"@.len() == 11 && "payment_hash"@.len() == 12 && "preimage"@.len() == 8
        && "invoice"@.len() == 7);
}

/// A lookup that found nothing is answered as not found, with the node's reason.
pub proof fn law_failed_lookup_says_why(
    w: &Wallet,
    e: String,
    by_invoice: Result<Transaction, NncError>,
    lookup: Result<LookupPaymentResponse, NncError>,
)
    requires
        call_ensures(
            Wallet::lookup_invoice_reply,
            (w, Err::<PaymentDetails, String>(e)),
            by_invoice,
        ),
        call_ensures(
            Wallet::lookup_payment_reply,
            (w, Err::<PaymentDetails, String>(e)),
            lookup,
        ),
    ensures
        by_invoice matches Err(x) && is_failure(x, ErrorCode::NotFound, "lookup_invoice"@, e@),
        lookup matches Err(x) && is_failure(x, ErrorCode::NotFound, "lookup_payment"@, e@),
{
    lemma_failures();
}

// ── what the node is asked for ───────────────────────────────────────

/// A history is asked for within the caller's bounds, in the caller's direction or
/// else in both; a list of invoices likewise, but incoming and with the unpaid.
pub proof fn law_history_is_asked_for_as_wanted(
    w: &Wallet,
    r: ListTransactionsRequest,
    i: &ListInvoicesRequest,
    history: PaymentQuery,
    invoices: PaymentQuery,
)
    requires
        call_ensures(Wallet::list_transactions, (w, r), history),
        call_ensures(Wallet::list_invoices, (w, i), invoices),
    ensures
        history.from == r.from && history.until == r.until,
        history.limit == r.limit && history.offset == r.offset,
        history.unpaid == r.unpaid,
        history.direction is None <==> r.transaction_type is None,
        history.direction == Some(PaymentDirection::Inbound) <==> r.transaction_type == Some(
            TransactionType::Incoming,
        ),
        invoices.from == i.from && invoices.until == i.until,
        invoices.limit == i.limit && invoices.offset == i.offset,
        invoices.unpaid == Some(true),
        invoices.direction == Some(PaymentDirection::Inbound),
{
}

/// An invoice is looked up by the hash given, or else by the invoice given, and not
/// without either.
pub proof fn law_invoice_is_looked_up_by_what_is_given(
    w: &Wallet,
    r: LookupInvoiceRequest,
    selector: Result<PaymentSelector, NncError>,
)
    requires
        call_ensures(Wallet::lookup_invoice, (w, r), selector),
    ensures
        match selector {
            Ok(PaymentSelector::Hash(h)) => r.payment_hash.deep_view() == Some(h@),
            Ok(PaymentSelector::Bolt11(i)) => r.payment_hash is None && r.invoice.deep_view()
                == Some(i@),
            Err(e) => {
                &&& r.payment_hash is None && r.invoice is None
                &&& e.code == ErrorCode::BadRequest
                &&& e.message@ == "one of payment_hash or invoice is required"@
            },
        },
{
}

/// A payment is looked up by the one selector that is given whole: its id, its hash
/// or invoice, or what stands beside its type. With more than one, or with none, it
/// is not looked up at all.
pub proof fn law_payment_is_looked_up_by_the_one_selector(
    w: &Wallet,
    r: LookupPaymentRequest,
    selector: Result<PaymentSelector, NncError>,
)
    requires
        call_ensures(Wallet::lookup_payment, (w, r), selector),
    ensures
        ({
            let by_id = r.transaction_id is Some;
            let by_fields = r.payment_hash is Some || r.invoice is Some;
            let by_type = r.payment_type is Some && r.lookup is Some;
            let named = by_type && json_texts(r.lookup->0).contains_key("payment_hash"@)
                && json_texts(r.lookup->0)["payment_hash"@] is Some;
            if by_id && !by_fields && !by_type {
                selector matches Ok(PaymentSelector::Hash(h)) && h@ == r.transaction_id->0@
            } else if by_fields && !by_id && !by_type {
                if r.payment_hash is Some {
                    selector matches Ok(PaymentSelector::Hash(h)) && h@ == r.payment_hash->0@
                } else {
                    selector matches Ok(PaymentSelector::Bolt11(i)) && i@ == r.invoice->0@
                }
            } else if named && !by_id && !by_fields {
                selector matches Ok(PaymentSelector::Hash(h)) && Some(h@) == json_texts(
                    r.lookup->0,
                )["payment_hash"@]
            } else {
                selector matches Err(e) && e.code == ErrorCode::BadRequest && e.message@ == (
                if by_type && !by_id && !by_fields {
                    "no usable selector"@
                } else {
                    "exactly one of transaction_id, the bolt11 fields, or payment_type with lookup"@
                })
            }
        }),
{
}

// ── invoices ─────────────────────────────────────────────────────────

/// Whether an invoice says of a payment what its record says. What proves the
/// payment is shown once it is settled.
pub open spec fn invoice_tells_of(i: InvoiceRecord, p: PaymentDetails) -> bool {
    &&& i.state == InvoiceState::Settled <==> p.status == PaymentStatus::Succeeded
    &&& i.state == InvoiceState::Pending <==> p.status != PaymentStatus::Succeeded
    &&& spells(i.payment_hash@, recorded_hash(p.kind))
    &&& i.amount == or_zero(p.amount_msat)
    &&& i.created_at == p.latest_update_timestamp
    &&& p.status == PaymentStatus::Succeeded ==> spells_option(
        i.preimage.deep_view(),
        recorded_preimage(p.kind),
    ) && i.settled_at == Some(p.latest_update_timestamp)
    &&& p.status != PaymentStatus::Succeeded ==> i.preimage is None && i.settled_at is None
    &&& i.invoice@.len() == 0 && i.description is None && i.expires_at == 0
}

/// Whether a record is wanted in a list of invoices.
pub open spec fn is_wanted(p: PaymentDetails, state: Option<InvoiceState>) -> bool {
    ||| state is None
    ||| state == Some(InvoiceState::Settled) && p.status == PaymentStatus::Succeeded
    ||| state == Some(InvoiceState::Pending) && p.status != PaymentStatus::Succeeded
}

/// A list of invoices tells of every record that is wanted and of no other, in the
/// node's order, whenever it is asked for.
pub proof fn law_invoice_list_tells_of_the_wanted(
    w: &Wallet,
    r: &ListInvoicesRequest,
    found: &Vec<PaymentDetails>,
    now: u64,
    answer: ListInvoicesResponse,
) -> (at: Seq<int>)
    requires
        call_ensures(Wallet::list_invoices_reply, (w, r, found, now), answer),
    ensures
        are_places(at, found@, |p: PaymentDetails| is_wanted(p, r.state)),
        at.len() == answer.invoices@.len(),
        forall|k: int|
            0 <= k < at.len() ==> invoice_tells_of(#[trigger] answer.invoices@[k], found@[at[k]]),
        forall|k: int|
            0 <= k < at.len() && r.state is Some ==> (#[trigger] answer.invoices@[k]).state
                == r.state->0,
{
    let at = lemma_filter_places(found@, in_state(r.state));
    assert forall|n: int| 0 <= n < found@.len() && is_wanted(
        #[trigger] found@[n],
        r.state,
    ) implies at.contains(n) by {
        assert(in_state(r.state)(found@[n]));
    }
    assert forall|k: int| 0 <= k < at.len() implies invoice_tells_of(
        #[trigger] answer.invoices@[k],
        found@[at[k]],
    ) by {
        assert(found@.filter(in_state(r.state))[k] == found@[at[k]]);
        lemma_recorded(found@[at[k]].kind);
    }
    assert forall|k: int| 0 <= k < at.len() && r.state is Some implies (
    #[trigger] answer.invoices@[k]).state == r.state->0 by {
        assert(found@.filter(in_state(r.state))[k] == found@[at[k]]);
    }
    assert(are_places(at, found@, |p: PaymentDetails| is_wanted(p, r.state))) by {
        assert forall|k: int| 0 <= k < at.len() implies 0 <= #[trigger] at[k] < found@.len()
            && is_wanted(found@[at[k]], r.state) by {
            assert(in_state(r.state)(found@[at[k]]));
        }
    }
    at
}

/// An invoice says of a transaction what the transaction says. It is settled if the
/// transaction is; past its time once its time has gone by; and else open.
pub proof fn law_invoice_is_the_transaction(t: Transaction, now: u64, i: InvoiceRecord)
    requires
        call_ensures(to_invoice, (t, now), i),
    ensures
        i.state == InvoiceState::Settled <==> t.state == Some(TransactionState::Settled),
        i.state == InvoiceState::Expired <==> t.state != Some(TransactionState::Settled)
            && t.expires_at is Some && t.expires_at->0 < now,
        t.invoice is Some ==> i.invoice@ == t.invoice->0@,
        t.invoice is None ==> i.invoice@.len() == 0,
        i.description.deep_view() == t.description.deep_view(),
        i.payment_hash@ == t.payment_hash@,
        i.amount == t.amount,
        i.created_at == t.created_at,
        i.expires_at == or_zero(t.expires_at),
        i.state == InvoiceState::Settled ==> i.preimage.deep_view() == t.preimage.deep_view()
            && i.settled_at == t.settled_at,
        i.state != InvoiceState::Settled ==> i.preimage is None && i.settled_at is None,
{
}

// ── offers ───────────────────────────────────────────────────────────

/// The node is asked for the offer that the request describes, which lapses when
/// the request says, as far as the node can be told. An offer for an amount has to
/// say what it is for.
pub proof fn law_offer_is_issued_as_asked(
    w: &Wallet,
    r: &MakeOfferRequest,
    now: u64,
    call: Result<MakeOfferCall, NncError>,
)
    requires
        call_ensures(Wallet::make_offer, (w, r, now), call),
    ensures
        call is Err <==> r.amount is Some && r.description is None,
        call matches Ok(c) ==> {
            &&& c.amount_msat == or_zero(r.amount)
            &&& r.description is Some ==> c.description@ == r.description->0@
            &&& r.description is None ==> c.description@ == "offer"@
            &&& c.expiry is Some ==> r.expires_at is Some && (r.expires_at->0 > now ==> now
                + c.expiry->0 == r.expires_at->0) && (r.expires_at->0 <= now ==> c.expiry->0 == 0)
            &&& c.expiry is None ==> r.expires_at is None || r.expires_at->0 - now > u32::MAX
        },
        call matches Err(e) ==> e.code == ErrorCode::BadRequest && e.message@
            == "an amount-bearing offer requires a description"@,
{
}

/// An offer is handed out and remembered as the node issued it: the same offer under
/// the same id, which is its own, for the amount and with the words of the request.
pub proof fn law_offer_is_handed_out_as_issued(
    w: &Wallet,
    r: MakeOfferRequest,
    offer: String,
    now: u64,
    answer: Result<IssuedOffer, NncError>,
)
    requires
        call_ensures(Wallet::make_offer_reply, (w, r, Ok::<String, String>(offer), now), answer),
    ensures
        answer matches Ok(o) && {
            &&& o.answer.offer@ == offer@ && o.remember.offer@ == offer@
            &&& bytes_of_hex(o.answer.offer_id@) == Some(o.remember.offer_id@)
            &&& offer_id_of(offer@) is Some ==> o.remember.offer_id@ == offer_id_of(offer@)->0
            &&& offer_id_of(offer@) is None ==> forall|i: int|
                0 <= i < 32 ==> #[trigger] o.remember.offer_id@[i] == 0
            &&& o.answer.amount == r.amount && o.remember.amount_msat == or_zero(r.amount)
            &&& o.answer.description.deep_view() == r.description.deep_view()
            &&& r.description is Some ==> o.remember.description@ == r.description->0@
            &&& r.description is None ==> o.remember.description@ == "offer"@
            &&& o.answer.issuer.deep_view() == r.issuer.deep_view()
            &&& o.answer.single_use <==> r.single_use == Some(true)
            &&& o.answer.created_at == now
            &&& o.answer.expires_at == r.expires_at
        },
{
    law_hex_reads_back(answer->Ok_0.remember.offer_id@);
}

/// An offer that the node could not issue is answered with the node's reason.
pub proof fn law_unissued_offer_says_why(
    w: &Wallet,
    r: MakeOfferRequest,
    e: String,
    now: u64,
    answer: Result<IssuedOffer, NncError>,
)
    requires
        call_ensures(Wallet::make_offer_reply, (w, r, Err::<String, String>(e), now), answer),
    ensures
        answer matches Err(x) && is_failure(x, ErrorCode::Internal, "make_offer"@, e@),
{
    lemma_failures();
}

/// Whether a list says of an offer what is remembered of it.
pub open spec fn offer_tells_of(r: OfferRecord, o: StoredOffer) -> bool {
    &&& bytes_of_hex(r.offer_id@) == Some(o.offer_id@)
    &&& r.offer@ == o.offer@
    &&& r.description.deep_view() == Some(o.description@)
    &&& r.amount == Some(o.amount_msat)
    &&& r.active == o.active
    &&& r.num_payments_received == o.num_payments_received
    &&& r.total_received == o.total_received_msat
    &&& r.issuer is None && !r.single_use && r.created_at == 0 && r.expires_at is None
}

/// A list of offers tells of every offer that is remembered, or of every active one
/// where the caller wants those, and of no other, in the order remembered.
pub proof fn law_offer_list_tells_of_the_wanted(
    w: &Wallet,
    r: &ListOffersRequest,
    stored: &Vec<StoredOffer>,
    answer: ListOffersResponse,
) -> (at: Seq<int>)
    requires
        call_ensures(Wallet::list_offers, (w, r, stored), answer),
    ensures
        are_places(at, stored@, |o: StoredOffer| o.active || r.active_only != Some(true)),
        at.len() == answer.offers@.len(),
        forall|k: int|
            0 <= k < at.len() ==> offer_tells_of(#[trigger] answer.offers@[k], stored@[at[k]]),
{
    let at = lemma_filter_places(stored@, shown(*r));
    assert forall|n: int| 0 <= n < stored@.len() && ((#[trigger] stored@[n]).active
        || r.active_only != Some(true)) implies at.contains(n) by {
        assert(shown(*r)(stored@[n]));
    }
    assert forall|k: int| 0 <= k < at.len() implies offer_tells_of(
        #[trigger] answer.offers@[k],
        stored@[at[k]],
    ) by {
        assert(stored@.filter(shown(*r))[k] == stored@[at[k]]);
        law_hex_reads_back(stored@[at[k]].offer_id@);
    }
    assert(are_places(at, stored@, |o: StoredOffer| o.active || r.active_only != Some(true))) by {
        assert forall|k: int| 0 <= k < at.len() implies 0 <= #[trigger] at[k] < stored@.len() && (
        stored@[at[k]].active || r.active_only != Some(true)) by {
            assert(shown(*r)(stored@[at[k]]));
        }
    }
    at
}

/// An offer is disabled by the 32 bytes that its id spells in hex, and what was found
/// under them is what is disabled.
pub proof fn law_offer_is_disabled_by_its_id(
    w: &Wallet,
    r: &DisableOfferRequest,
    id: Result<[u8; 32], NncError>,
    found: Option<String>,
    answer: Result<DisabledOffer, NncError>,
)
    requires
        call_ensures(Wallet::disable_offer, (w, r), id),
        call_ensures(Wallet::disable_offer_reply, (w, found), answer),
    ensures
        id is Ok <==> bytes_of_hex(r.offer_id@) is Some && bytes_of_hex(r.offer_id@)->0.len() == 32,
        id matches Ok(id) ==> bytes_of_hex(r.offer_id@) == Some(id@),
        id matches Err(e) ==> e.code == ErrorCode::BadRequest && e.message@
            == "offer_id must be 32 bytes, hex"@,
        found is Some ==> (answer matches Ok(d) && d.disable@ == found->0@),
        found is None ==> (answer matches Err(e) && e.code == ErrorCode::NotFound && e.message@
            == "no such offer"@),
{
    if let Ok(id) = id {
        assert(id@.len() == 32);
    }
}

// ── addresses ────────────────────────────────────────────────────────

/// An address is asked for where the caller wants a taproot address or does not say,
/// and the one that the node made is both watched and handed out.
pub proof fn law_new_address_is_watched_and_handed_out(
    w: &Wallet,
    r: &MakeNewAddressRequest,
    asked: Result<(), NncError>,
    address: String,
    e: String,
    answer: Result<NewAddress, NncError>,
    failed: Result<NewAddress, NncError>,
)
    requires
        call_ensures(Wallet::make_new_address, (w, r), asked),
        call_ensures(Wallet::make_new_address_reply, (w, Ok::<String, String>(address)), answer),
        call_ensures(Wallet::make_new_address_reply, (w, Err::<String, String>(e)), failed),
    ensures
        asked is Ok <==> r.address_type is None || r.address_type->0@ == "p2tr"@,
        asked matches Err(x) ==> x.code == ErrorCode::BadRequest && x.message@
            == "this node generates p2tr, not "@ + r.address_type->0@,
        answer matches Ok(a) && {
            &&& a.register@ == address@
            &&& a.answer.address@ == address@
            &&& a.answer.address_type@ == "p2tr"@
        },
        failed matches Err(x) && is_failure(x, ErrorCode::Internal, "make_new_address"@, e@),
{
    lemma_failures();
}

/// A lookup tells of every payment to an address, in the order remembered, and calls
/// none of them confirmed. An address that is not watched is not found.
pub proof fn law_address_tells_of_every_payment(
    w: &Wallet,
    a: WatchedAddress,
    answer: Result<LookupAddressResponse, NncError>,
    unwatched: Result<LookupAddressResponse, NncError>,
)
    requires
        total_sats(a.transactions@) <= u64::MAX,
        call_ensures(Wallet::lookup_address, (w, Some(a)), answer),
        call_ensures(Wallet::lookup_address, (w, None::<WatchedAddress>), unwatched),
    ensures
        answer matches Ok(l) && {
            &&& l.address@ == a.address@
            &&& l.address_type@ == "p2tr"@
            &&& l.transactions@.len() == a.transactions@.len()
            &&& forall|i: int|
                0 <= i < a.transactions@.len() ==> {
                    &&& (#[trigger] l.transactions@[i]).txid@ == a.transactions@[i].txid@
                    &&& l.transactions@[i].amount_sats == a.transactions@[i].amount_sats
                    &&& l.transactions@[i].timestamp == a.transactions@[i].timestamp
                    &&& l.transactions@[i].confirmations == 0
                }
        },
        unwatched matches Err(e) && e.code == ErrorCode::NotFound && e.message@
            == "this node does not watch that address"@,
{
}

/// What an address has received is nothing before the first payment to it, and with
/// each payment more by as much as was paid.
pub proof fn law_every_payment_counts(
    w: &Wallet,
    before: WatchedAddress,
    after: WatchedAddress,
    p: AddressPayment,
    had: Result<LookupAddressResponse, NncError>,
    has: Result<LookupAddressResponse, NncError>,
)
    requires
        after.transactions@ == before.transactions@.push(p),
        total_sats(after.transactions@) <= u64::MAX,
        total_sats(before.transactions@) <= u64::MAX,
        call_ensures(Wallet::lookup_address, (w, Some(before)), had),
        call_ensures(Wallet::lookup_address, (w, Some(after)), has),
    ensures
        had is Ok && has is Ok,
        has->Ok_0.total_received_sats == had->Ok_0.total_received_sats + p.amount_sats,
        before.transactions@.len() == 0 ==> had->Ok_0.total_received_sats == 0,
{
    assert(after.transactions@.drop_last() =~= before.transactions@);
}

/// A list of addresses tells of every address that is watched, in the order
/// remembered, with the same total as a lookup, and since its first payment.
pub proof fn law_address_list_agrees_with_lookups(
    w: &Wallet,
    watched: &Vec<WatchedAddress>,
    i: int,
    list: ListAddressesResponse,
    found: Result<LookupAddressResponse, NncError>,
)
    requires
        forall|j: int|
            0 <= j < watched@.len() ==> total_sats((#[trigger] watched@[j]).transactions@)
                <= u64::MAX,
        0 <= i < watched@.len(),
        call_ensures(Wallet::list_addresses, (w, watched), list),
        call_ensures(Wallet::lookup_address, (w, Some(watched@[i])), found),
    ensures
        list.addresses@.len() == watched@.len(),
        found is Ok,
        list.addresses@[i].address@ == watched@[i].address@,
        list.addresses@[i].address@ == found->Ok_0.address@,
        list.addresses@[i].address_type@ == found->Ok_0.address_type@,
        list.addresses@[i].total_received_sats == found->Ok_0.total_received_sats,
        watched@[i].transactions@.len() == 0 ==> list.addresses@[i].created_at == 0,
        forall|j: int|
            0 <= j < watched@[i].transactions@.len() ==> list.addresses@[i].created_at <= (
            #[trigger] watched@[i].transactions@[j]).timestamp,
        watched@[i].transactions@.len() > 0 ==> exists|j: int|
            0 <= j < watched@[i].transactions@.len() && (
            #[trigger] watched@[i].transactions@[j]).timestamp == list.addresses@[i].created_at,
{
    assert(list.addresses@[i].address == watched@[i].address);
}

// ── quotes ───────────────────────────────────────────────────────────

/// A quote is asked for one route to the invoice's payee, for the caller's amount or
/// else for the invoice's.
pub proof fn law_quote_is_for_the_invoice(
    w: &Wallet,
    r: &QuotePaymentRequest,
    call: Result<FindRoutesCall, NncError>,
)
    requires
        call_ensures(Wallet::quote_payment, (w, r), call),
    ensures
        call is Ok <==> invoice_terms_of(r.invoice@) is Ok && (r.amount is Some
            || invoice_terms_of(r.invoice@)->Ok_0.amount_msat is Some),
        call matches Ok(c) ==> {
            &&& c.destination@ == invoice_terms_of(r.invoice@)->Ok_0.payee
            &&& r.amount is Some ==> c.amount_msat == r.amount->0
            &&& r.amount is None ==> Some(c.amount_msat) == invoice_terms_of(
                r.invoice@,
            )->Ok_0.amount_msat
            &&& c.max_routes == 1
        },
        call matches Err(e) ==> match invoice_terms_of(r.invoice@) {
            Ok(_) => e.code == ErrorCode::BadRequest && e.message@ == "the invoice has no amount"@,
            Err(why) => is_failure(e, ErrorCode::BadRequest, "invoice"@, why),
        },
{
    lemma_failures();
}

/// A quote is answered for the amount asked, with the price of the first route; where
/// there is no route, that is the answer.
pub proof fn law_quote_is_the_price_of_the_first_route(
    w: &Wallet,
    amount: u64,
    routes: &Vec<RouteInfo>,
    q: QuotePaymentResponse,
)
    requires
        call_ensures(Wallet::quote_payment_reply, (w, amount, routes), q),
    ensures
        q.amount == amount,
        q.route_found <==> routes@.len() > 0,
        routes@.len() > 0 ==> q.fee_msat == routes@[0].total_fee && q.cltv_expiry_delta
            == routes@[0].total_time_lock,
        routes@.len() == 0 ==> q.fee_msat == 0 && q.cltv_expiry_delta == 0,
{
}

}
