//! What holds of the library as a whole.
//!
//! Each law relates what several handlers answer, or speaks of everything that
//! one of them can answer. Those in this file are stated over the predicates that
//! the handlers' own contracts use; those in the modules under it, over the calls
//! themselves: over what goes into a handler and what comes out.

pub mod announcements;
pub mod management;
pub mod payments;
pub mod records;
pub mod texts;
pub mod uris;

use vstd::prelude::*;

use crate::control::{control_methods, is_channel, is_forward, is_route};
use crate::digits::{bytes_of_hex, bytes_of_preimage, digit_value, hex_digit, hex_text};
use crate::error::{failure, ErrorCode, NncError};
use crate::events::{
    channel_with_id, is_action, is_forwarded, is_opened, is_payment, is_run, progress_after, Action,
    AnnounceFailure, Event, ReadyChannel,
};
use crate::foreign::{is_plain_address, sha256_digest};
use crate::lightning::{BalanceInfo, ChannelInfo, PaymentDetails, PaymentStatus, RouteInfo};
use crate::lists::{lemma_filter_everything, lemma_filter_keeps, lemma_filter_splits};
use crate::nnc::{Channel, ForwardingEvent, Route};
use crate::nwc::{
    AddressRecord, InvoiceRecord, InvoiceState, ListOffersRequest, LookupAddressResponse,
    LookupPaymentRequest, LookupPaymentResponse, MakeOfferRequest, OfferRecord, PayOfferResponse,
    PayRequest, PayResponse, Transaction, TransactionType,
};
use crate::state::{ForwardingEntry, StoredOffer, WatchedAddress};
use crate::uri::{carried_by, reads_back, UriView};
use crate::wallet::account::balance_of;
use crate::wallet::offers::{
    is_disabled, is_issued_offer, is_offer_paid, is_offer_record, offer_with_id, shown,
    with_disabled, DisabledOffer, IssuedOffer,
};
use crate::wallet::onchain::{is_address_lookup, is_address_record};
use crate::wallet::pay::{hash_of_preimage, is_payment_for, is_payment_of, is_settled, PayCall};
use crate::wallet::receive::{
    asks, next_asking, MethodView, Outcome, ReceivingView,
};
use crate::wallet::route::quote_of;
use crate::wallet::transactions::{
    hash_text, in_state, is_invoice_of, is_invoice_of_record, is_lookup_of, is_transaction_of,
    record_state, selector_forms, selects, wanted_hash, PaymentSelector,
};
use crate::wallet::{wallet_methods, wallet_notifications};

verus! {

/// What was said, or nothing.
pub open spec fn or_zero(said: Option<u64>) -> u64 {
    if said is Some {
        said->0
    } else {
        0
    }
}

/// Whether an error gives that code, and says what failed and how.
pub open spec fn is_failure(e: NncError, code: ErrorCode, what: Seq<char>, how: Seq<char>) -> bool {
    e.code == code && e.message@ == what + seq![':', ' '] + how
}

/// What failed comes first, and how it failed after a colon.
pub proof fn lemma_failures()
    ensures
        forall|what: Seq<char>, how: Seq<char>|
            #[trigger] failure(what, how) == what + seq![':', ' '] + how,
{
    reveal_strlit(": ");
    assert(": "@ =~= seq![':', ' ']);
}

// ── hex ──────────────────────────────────────────────────────────────

proof fn lemma_digit_reads_back(n: int)
    requires
        0 <= n < 16,
    ensures
        digit_value(hex_digit(n)) == Some(n),
{
}

proof fn lemma_hex_digits(bytes: Seq<u8>, i: int)
    requires
        0 <= i < bytes.len(),
    ensures
        digit_value(hex_text(bytes)[2 * i]) == Some(bytes[i] as int / 16),
        digit_value(hex_text(bytes)[2 * i + 1]) == Some(bytes[i] as int % 16),
{
    let b = bytes[i] as int;
    assert((2 * i) / 2 == i && (2 * i) % 2 == 0);
    assert((2 * i + 1) / 2 == i && (2 * i + 1) % 2 == 1);
    lemma_digit_reads_back(b / 16);
    lemma_digit_reads_back(b % 16);
}

/// Bytes written in hex read back as they were.
pub proof fn law_hex_reads_back(bytes: Seq<u8>)
    ensures
        bytes_of_hex(hex_text(bytes)) == Some(bytes),
{
    let text = hex_text(bytes);
    assert forall|i: int| 0 <= i < text.len() implies digit_value(#[trigger] text[i]) is Some by {
        lemma_hex_digits(bytes, i / 2);
        assert(i == 2 * (i / 2) || i == 2 * (i / 2) + 1);
    }
    let read = bytes_of_hex(text)->0;
    assert forall|i: int| 0 <= i < bytes.len() implies #[trigger] read[i] == bytes[i] by {
        lemma_hex_digits(bytes, i);
    }
    assert(read =~= bytes);
}

/// Different bytes are written differently.
pub proof fn law_hex_is_injective(a: Seq<u8>, b: Seq<u8>)
    requires
        hex_text(a) == hex_text(b),
    ensures
        a == b,
{
    law_hex_reads_back(a);
    law_hex_reads_back(b);
}

/// A preimage that the node wrote in hex is decoded as it was.
pub proof fn law_preimage_reads_back(bytes: Seq<u8>)
    requires
        bytes.len() == 32,
    ensures
        bytes_of_preimage(hex_text(bytes)) == Some(bytes),
{
    law_hex_reads_back(bytes);
}

/// Nothing is decoded but 64 hex digits, and what is decoded is 32 bytes.
pub proof fn law_only_hex_is_decoded(text: Seq<char>)
    ensures
        bytes_of_preimage(text) is Some <==> text.len() == 64 && (forall|i: int|
            0 <= i < text.len() ==> digit_value(#[trigger] text[i]) is Some),
        bytes_of_preimage(text) is Some ==> bytes_of_preimage(text)->0.len() == 32,
{
}

// ── offers ───────────────────────────────────────────────────────────

/// The id under which an offer is listed is the id by which it is disabled.
pub proof fn law_listed_offer_can_be_disabled(listed: OfferRecord, stored: StoredOffer)
    requires
        is_offer_record(listed, stored),
    ensures
        bytes_of_hex(listed.offer_id@) == Some(stored.offer_id@),
        stored.offer_id@.len() == 32,
{
    law_hex_reads_back(stored.offer_id@);
}

/// The id under which an offer is handed out is the id under which it is
/// remembered, and by which it is disabled.
pub proof fn law_issued_offer_can_be_disabled(
    o: IssuedOffer,
    r: MakeOfferRequest,
    offer: Seq<char>,
    id: Option<Seq<u8>>,
    now: u64,
)
    requires
        is_issued_offer(o, r, offer, id, now),
    ensures
        bytes_of_hex(o.answer.offer_id@) == Some(o.remember.offer_id@),
        o.remember.offer_id@.len() == 32,
{
    law_hex_reads_back(o.remember.offer_id@);
}

/// An offer is listed as it was handed out, once it is stored as it was to be
/// remembered.
pub proof fn law_offer_is_listed_as_issued(
    o: IssuedOffer,
    r: MakeOfferRequest,
    offer: Seq<char>,
    id: Option<Seq<u8>>,
    now: u64,
    stored: StoredOffer,
    listed: OfferRecord,
)
    requires
        is_issued_offer(o, r, offer, id, now),
        stored.offer@ == o.remember.offer@,
        stored.description@ == o.remember.description@,
        stored.amount_msat == o.remember.amount_msat,
        stored.offer_id == o.remember.offer_id,
        is_offer_record(listed, stored),
    ensures
        listed.offer_id@ == o.answer.offer_id@,
        listed.offer@ == o.answer.offer@,
        r.amount is Some ==> listed.amount == o.answer.amount,
        r.description is Some ==> listed.description.deep_view() == o.answer.description.deep_view(),
{
}

/// A list of active offers shows no other, and any other list shows them all.
pub proof fn law_offers_listed(r: ListOffersRequest, stored: Seq<StoredOffer>)
    ensures
        r.active_only == Some(true) ==> forall|i: int|
            0 <= i < stored.filter(shown(r)).len() ==> (#[trigger] stored.filter(shown(r))[i]).active,
        r.active_only != Some(true) ==> stored.filter(shown(r)) == stored,
{
    lemma_filter_keeps(stored, shown(r));
    if r.active_only != Some(true) {
        lemma_filter_everything(stored, shown(r));
    }
}

/// Disabling an offer a second time succeeds as the first time did, names the
/// same offer, and leaves what is remembered as the first left it. A disabled
/// offer is still found by its id, and no list of active offers shows it. An id
/// that nothing is remembered under is answered with an error, and nothing is
/// disabled.
pub proof fn law_disabling_twice_is_harmless(
    stored: Seq<StoredOffer>,
    id: Seq<u8>,
    first: Result<DisabledOffer, NncError>,
    second: Result<DisabledOffer, NncError>,
)
    requires
        is_disabled(first, offer_with_id(stored, id)),
        first matches Ok(d) ==> is_disabled(
            second,
            offer_with_id(with_disabled(stored, d.disable@), id),
        ),
    ensures
        match first {
            Ok(d) => {
                let after = with_disabled(stored, d.disable@);
                &&& second matches Ok(e)
                &&& e.disable@ == d.disable@
                &&& with_disabled(after, e.disable@) == after
                &&& forall|i: int|
                    0 <= i < after.len() && (#[trigger] after[i]).offer@ == d.disable@
                        ==> !after[i].active
            },
            Err(_) => forall|i: int|
                0 <= i < stored.len() ==> (#[trigger] stored[i]).offer_id@ != id,
        },
{
    lemma_offer_with_id(stored, id);
    if let Ok(d) = first {
        let after = with_disabled(stored, d.disable@);
        lemma_disabling_hides_no_id(stored, d.disable@, id);
        assert(with_disabled(after, d.disable@) =~= after);
    }
}

proof fn lemma_offer_with_id(stored: Seq<StoredOffer>, id: Seq<u8>)
    ensures
        offer_with_id(stored, id) is None ==> forall|i: int|
            0 <= i < stored.len() ==> (#[trigger] stored[i]).offer_id@ != id,
    decreases stored.len(),
{
    if stored.len() > 0 {
        let rest = stored.drop_first();
        lemma_offer_with_id(rest, id);
        if offer_with_id(stored, id) is None {
            assert forall|i: int| 0 <= i < stored.len() implies (#[trigger] stored[i]).offer_id@
                != id by {
                if i > 0 {
                    assert(rest[i - 1] == stored[i]);
                }
            }
        }
    }
}

proof fn lemma_disabling_hides_no_id(stored: Seq<StoredOffer>, offer: Seq<char>, id: Seq<u8>)
    ensures
        offer_with_id(with_disabled(stored, offer), id) == offer_with_id(stored, id),
    decreases stored.len(),
{
    if stored.len() > 0 {
        lemma_disabling_hides_no_id(stored.drop_first(), offer, id);
        assert(with_disabled(stored, offer).drop_first() =~= with_disabled(
            stored.drop_first(),
            offer,
        ));
    }
}

// ── what identifies a payment ────────────────────────────────────────

/// A payment is looked up under the hash that a list shows it under, and the
/// lookup calls it by that hash.
pub proof fn law_lookup_finds_what_is_listed(
    listed: Transaction,
    p: PaymentDetails,
    r: LookupPaymentRequest,
    selector: PaymentSelector,
    found: LookupPaymentResponse,
)
    requires
        is_transaction_of(listed, p),
        r.transaction_id is Some && r.transaction_id->0@ == listed.payment_hash@,
        selects(selector, wanted_hash(r), r.invoice.deep_view()),
        is_lookup_of(found, p),
    ensures
        selector matches PaymentSelector::Hash(h) && h@ == hash_text(p.kind),
        found.transaction_id@ == listed.payment_hash@,
        found.amount == listed.amount,
        found.settled_at == listed.settled_at,
{
}

/// A lookup goes by the one selector form that the request gives, whatever is
/// left over of another: by the transaction id, or by the hash or else the
/// invoice.
pub proof fn law_lookup_goes_by_the_form_given(r: LookupPaymentRequest, selector: PaymentSelector)
    requires
        selector_forms(r) == 1,
        selects(selector, wanted_hash(r), r.invoice.deep_view()),
    ensures
        r.transaction_id is Some ==> (selector matches PaymentSelector::Hash(h) && h@
            == r.transaction_id->0@),
        r.payment_hash is Some ==> (selector matches PaymentSelector::Hash(h) && h@
            == r.payment_hash->0@),
        r.invoice is Some && r.payment_hash is None ==> (selector matches PaymentSelector::Bolt11(
            i,
        ) && i@ == r.invoice->0@),
{
}

/// The id of a payment just made is the hash that its record goes by, where
/// the record's hash is that of the preimage.
pub proof fn law_paid_id_is_the_recorded_hash(
    paid: PayResponse,
    instruction_type: Seq<char>,
    amount: u64,
    preimage: Seq<u8>,
    txid: Option<Seq<char>>,
    fees_paid: u64,
    now: u64,
    record: PaymentDetails,
)
    requires
        is_settled(
            paid,
            instruction_type,
            amount,
            Some(hex_text(preimage)),
            txid,
            fees_paid,
            now,
        ),
        preimage.len() == 32,
        record.kind.hash() == Some(sha256_digest(preimage)),
    ensures
        paid.transaction_id@ == hash_text(record.kind),
        paid.payment_hash.deep_view() == Some(hash_text(record.kind)),
{
    law_preimage_reads_back(preimage);
}

/// So is the id of an offer just paid.
pub proof fn law_paid_offer_id_is_the_recorded_hash(
    paid: PayOfferResponse,
    preimage: Seq<u8>,
    fees_paid: Option<u64>,
    record: PaymentDetails,
)
    requires
        is_offer_paid(paid, hex_text(preimage), fees_paid),
        preimage.len() == 32,
        record.kind.hash() == Some(sha256_digest(preimage)),
    ensures
        paid.transaction_id@ == hash_text(record.kind),
{
    law_preimage_reads_back(preimage);
}

/// An identifier tells nothing of a preimage but its hash: two preimages of one
/// hash give one identifier.
pub proof fn law_id_tells_only_the_hash(
    a: PayResponse,
    b: PayResponse,
    instruction_type: Seq<char>,
    amount: u64,
    preimage_a: Seq<char>,
    preimage_b: Seq<char>,
    txid: Option<Seq<char>>,
    fees_paid: u64,
    now: u64,
)
    requires
        is_settled(a, instruction_type, amount, Some(preimage_a), txid, fees_paid, now),
        is_settled(b, instruction_type, amount, Some(preimage_b), txid, fees_paid, now),
        hash_of_preimage(preimage_a) == hash_of_preimage(preimage_b),
    ensures
        a.transaction_id@ == b.transaction_id@,
        a.payment_hash.deep_view() == b.payment_hash.deep_view(),
{
}

// ── money ────────────────────────────────────────────────────────────

/// What is on chain is never overstated, and understated by less than a sat;
/// and where everything is on chain, it is the balance in sats.
pub proof fn law_sats_are_rounded_down(b: BalanceInfo)
    ensures
        balance_of(b).onchain_balance_sats is Some,
        balance_of(b).onchain_balance_sats->0 * 1_000 <= b.onchain_msat,
        b.onchain_msat < balance_of(b).onchain_balance_sats->0 * 1_000 + 1_000,
        b.total_msat == b.onchain_msat ==> balance_of(b).onchain_balance_sats->0 == balance_of(
            b,
        ).balance / 1_000,
{
}

/// An address is listed as it is looked up, and no payment to it is called
/// confirmed.
pub proof fn law_address_lists_agree(
    listed: AddressRecord,
    found: LookupAddressResponse,
    a: WatchedAddress,
)
    requires
        is_address_record(listed, a),
        is_address_lookup(found, a),
    ensures
        listed.address == found.address,
        listed.address_type@ == found.address_type@,
        listed.total_received_sats == found.total_received_sats,
        forall|i: int|
            0 <= i < found.transactions@.len() ==> (#[trigger] found.transactions@[i]).confirmations
                == 0 && listed.created_at <= found.transactions@[i].timestamp,
{
    assert forall|i: int| 0 <= i < found.transactions@.len() implies (
    #[trigger] found.transactions@[i]).confirmations == 0 && listed.created_at
        <= found.transactions@[i].timestamp by {
        assert(listed.created_at <= a.transactions@[i].timestamp);
    }
}

/// A quote is the price of the first route that a route query lists.
pub proof fn law_quote_is_the_first_route(amount: u64, routes: Seq<RouteInfo>, first: Route)
    requires
        routes.len() > 0,
        is_route(first, routes[0]),
    ensures
        quote_of(amount, routes).route_found,
        quote_of(amount, routes).fee_msat == first.total_fee,
        quote_of(amount, routes).cltv_expiry_delta == first.total_time_lock,
{
}

// ── invoices ─────────────────────────────────────────────────────────

/// Nothing that proves a payment is shown of an invoice that is not settled.
pub proof fn law_no_proof_of_an_open_invoice(i: InvoiceRecord, t: Transaction, now: u64)
    requires
        is_invoice_of(i, t, now),
        i.state != InvoiceState::Settled,
    ensures
        i.preimage is None,
        i.settled_at is None,
{
}

/// A list without a wanted state shows every invoice, paid or not; a list with
/// one shows that state alone; and the settled and the pending are all there
/// are.
pub proof fn law_invoices_listed(found: Seq<PaymentDetails>, wanted: InvoiceState)
    ensures
        found.filter(in_state(None)) == found,
        forall|i: int|
            0 <= i < found.filter(in_state(Some(wanted))).len() ==> record_state(
                #[trigger] found.filter(in_state(Some(wanted)))[i],
            ) == wanted,
        found.filter(in_state(Some(InvoiceState::Settled))).len() + found.filter(
            in_state(Some(InvoiceState::Pending)),
        ).len() == found.len(),
{
    lemma_filter_everything(found, in_state(None));
    lemma_filter_keeps(found, in_state(Some(wanted)));
    lemma_filter_splits(
        found,
        in_state(Some(InvoiceState::Settled)),
        in_state(Some(InvoiceState::Pending)),
    );
}

/// An invoice and a transaction for one record agree.
pub proof fn law_invoice_agrees_with_transaction(
    i: InvoiceRecord,
    t: Transaction,
    p: PaymentDetails,
)
    requires
        is_invoice_of_record(i, p),
        is_transaction_of(t, p),
    ensures
        i.payment_hash@ == t.payment_hash@,
        i.amount == t.amount,
        i.settled_at == t.settled_at,
        i.state == InvoiceState::Settled <==> p.status == PaymentStatus::Succeeded,
        i.preimage is Some ==> i.preimage.deep_view() == t.preimage.deep_view(),
{
}

// ── paying a URI ─────────────────────────────────────────────────────

/// The fee budget of a request changes nothing of what is paid.
pub proof fn law_fee_budget_is_ignored(
    call: Result<PayCall, NncError>,
    r: PayRequest,
    max_fee: Option<u64>,
)
    requires
        is_payment_for(call, r),
    ensures
        is_payment_for(call, PayRequest { max_fee, ..r }),
{
}

/// An invoice is paid before an offer and an offer before an address, whatever
/// else the URI carries.
pub proof fn law_lightning_comes_first(
    call: Result<PayCall, NncError>,
    uri: UriView,
    amount: Option<u64>,
    payer_note: Option<Seq<char>>,
)
    requires
        is_payment_of(call, uri, amount, payer_note),
    ensures
        call matches Ok(PayCall::Bolt11 { .. }) <==> uri.lightning.len() > 0,
        call matches Ok(PayCall::Bolt12 { .. }) <==> uri.lightning.len() == 0 && uri.lno.len() > 0,
        call matches Ok(PayCall::Onchain { .. }) ==> uri.lightning.len() == 0 && uri.lno.len() == 0,
{
}

/// No more is sent on chain than was to be paid, and no less by a whole sat.
pub proof fn law_onchain_amount_is_rounded_down(
    call: Result<PayCall, NncError>,
    uri: UriView,
    amount: u64,
    payer_note: Option<Seq<char>>,
)
    requires
        is_payment_of(call, uri, Some(amount), payer_note),
        call matches Ok(PayCall::Onchain { .. }),
    ensures
        call matches Ok(PayCall::Onchain { amount_sat, .. }) && amount_sat * 1_000 <= amount
            < amount_sat * 1_000 + 1_000,
{
}

// ── making a URI ─────────────────────────────────────────────────────

/// The next question is about a method that was not asked about, and every
/// method in between is one that asks nothing.
pub proof fn law_methods_are_tried_in_order(
    wanted: Seq<MethodView>,
    amount: Option<u64>,
    from: int,
)
    requires
        0 <= from <= wanted.len(),
    ensures
        from <= next_asking(wanted, amount, from) <= wanted.len(),
        next_asking(wanted, amount, from) < wanted.len() ==> asks(
            wanted[next_asking(wanted, amount, from)],
            amount,
        ),
        forall|i: int|
            from <= i < next_asking(wanted, amount, from) ==> !asks(#[trigger] wanted[i], amount),
    decreases wanted.len() - from,
{
    if from < wanted.len() && !asks(wanted[from], amount) {
        law_methods_are_tried_in_order(wanted, amount, from + 1);
    }
}

/// What a URI carries stays in it: a further invoice, a further offer or an address
/// that parses takes away no invoice and no offer, and leaves amount, label and
/// message alone. Once there is something to pay, there is something to pay.
pub proof fn law_instructions_add_up(
    s: ReceivingView,
    invoice: Seq<char>,
    offer: Seq<char>,
    address: Seq<char>,
)
    requires
        s.wf(),
        is_plain_address(address),
    ensures
        forall|t: ReceivingView|
            t == s.with_invoice(invoice) || t == s.with_offer(offer) || t == s.with_address(address)
                ==> {
                &&& #[trigger] t.wf()
                &&& t.any()
                &&& s.uri.lightning.is_prefix_of(t.uri.lightning)
                &&& s.uri.lno.is_prefix_of(t.uri.lno)
                &&& t.uri.amount_sat == s.uri.amount_sat
                &&& t.uri.label == s.uri.label
                &&& t.uri.message == s.uri.message
                &&& t.next == s.next
                &&& t.wanted == s.wanted
            },
{
}

/// The invoices among some outcomes, in order.
pub open spec fn invoices_in(outcomes: Seq<Outcome>) -> Seq<Seq<char>>
    decreases outcomes.len(),
{
    if outcomes.len() == 0 {
        seq![]
    } else {
        match outcomes.last() {
            Outcome::Invoice(invoice) => invoices_in(outcomes.drop_last()).push(invoice),
            _ => invoices_in(outcomes.drop_last()),
        }
    }
}

/// The offers among some outcomes, in order.
pub open spec fn offers_in(outcomes: Seq<Outcome>) -> Seq<Seq<char>>
    decreases outcomes.len(),
{
    if outcomes.len() == 0 {
        seq![]
    } else {
        match outcomes.last() {
            Outcome::Offer(offer) => offers_in(outcomes.drop_last()).push(offer),
            _ => offers_in(outcomes.drop_last()),
        }
    }
}

/// The last address among some outcomes.
pub open spec fn last_address_in(outcomes: Seq<Outcome>) -> Option<Seq<char>>
    decreases outcomes.len(),
{
    if outcomes.len() == 0 {
        None
    } else {
        match outcomes.last() {
            Outcome::Address(address) => Some(address),
            _ => last_address_in(outcomes.drop_last()),
        }
    }
}

/// Over any number of questions, an empty URI comes to hold the invoices and
/// the offers that were made, in their order, and the last address; it keeps
/// the amount, label and message of the request; and there is something in it to
/// pay if and only if anything was made. A question that came
/// to nothing takes nothing away.
pub proof fn law_uri_holds_what_was_made(s: ReceivingView, outcomes: Seq<Outcome>)
    requires
        s.wf(),
        !s.any(),
        forall|i: int| 0 <= i < outcomes.len() ==> (#[trigger] outcomes[i]).is_sound(),
    ensures
        ({
            let t = s.after(outcomes);
            &&& t.wf()
            &&& t.uri.lightning == invoices_in(outcomes)
            &&& t.uri.lno == offers_in(outcomes)
            &&& t.uri.address == last_address_in(outcomes)
            &&& t.uri.amount_sat == s.uri.amount_sat
            &&& t.uri.label == s.uri.label
            &&& t.uri.message == s.uri.message
            &&& t.any() <==> (exists|i: int|
                0 <= i < outcomes.len() && !((#[trigger] outcomes[i]) is Nothing))
        }),
        s.after(outcomes).wanted == s.wanted,
        s.after(outcomes).amount == s.amount,
        s.after(outcomes).description == s.description,
    decreases outcomes.len(),
{
    if outcomes.len() == 0 {
        assert(s.uri.lightning =~= seq![]);
        assert(s.uri.lno =~= seq![]);
    } else {
        let before = outcomes.drop_last();
        assert forall|i: int| 0 <= i < before.len() implies (#[trigger] before[i]).is_sound() by {
            assert(outcomes[i].is_sound());
        }
        assert(outcomes[outcomes.len() - 1].is_sound());
        law_uri_holds_what_was_made(s, before);
        let u = s.after(before);
        law_methods_are_tried_in_order(u.wanted, u.amount, u.next);
        assert(u.advanced().wf());
        if u.any() {
            let i = choose|i: int| 0 <= i < before.len() && !((#[trigger] before[i]) is Nothing);
            assert(!(outcomes[i] is Nothing));
        } else {
            assert forall|i: int| 0 <= i < outcomes.len() - 1 implies (
            #[trigger] outcomes[i]) is Nothing by {
                assert(before[i] is Nothing);
            }
        }
        if !(outcomes.last() is Nothing) {
            assert(!(outcomes[outcomes.len() - 1] is Nothing));
        }
    }
}

/// Each question is about a later method than the one before, so there are no
/// more questions than wanted methods.
pub proof fn law_questions_come_to_an_end(s: ReceivingView)
    requires
        s.wf(),
        next_asking(s.wanted, s.amount, s.next) < s.wanted.len(),
    ensures
        s.next < s.advanced().next <= s.wanted.len(),
{
    law_methods_are_tried_in_order(s.wanted, s.amount, s.next);
}

/// What a URI was made to ask for is what is paid for it: the first invoice
/// made, or else the first offer, or else the address, each as it was made, for
/// the payer's amount or else for the amount asked, in whole sats.
pub proof fn law_made_uri_is_paid_as_made(
    s: ReceivingView,
    r: PayRequest,
    call: Result<PayCall, NncError>,
)
    requires
        s.wf(),
        s.any(),
        reads_back(carried_by(r.payment@), s.uri),
        is_payment_for(call, r),
    ensures
        ({
            let asked = match (r.amount, s.uri.amount_sat) {
                (Some(msat), _) => Some(msat as int),
                (None, Some(sat)) => Some(sat * 1_000),
                (None, None) => None,
            };
            if s.uri.lightning.len() > 0 {
                &&& call matches Ok(PayCall::Bolt11 { invoice, amount_msat })
                &&& invoice@ == s.uri.lightning[0]
                &&& amount_msat is Some <==> asked is Some
                &&& amount_msat is Some ==> amount_msat->0 == asked->0
            } else if s.uri.lno.len() > 0 {
                &&& call matches Ok(PayCall::Bolt12 { offer, amount_msat, payer_note })
                &&& offer@ == s.uri.lno[0]
                &&& amount_msat is Some <==> asked is Some
                &&& amount_msat is Some ==> amount_msat->0 == asked->0
                &&& payer_note.deep_view() == r.payer_note.deep_view()
            } else if asked is Some {
                &&& call matches Ok(PayCall::Onchain { address, amount_sat })
                &&& address@ == s.uri.address->0
                &&& amount_sat == asked->0 / 1_000
            } else {
                call is Err
            }
        }),
        s.amount is Some ==> s.uri.amount_sat == Some((s.amount->0 / 1_000) as u64),
{
}

// ── events ───────────────────────────────────────────────────────────

/// What came in is what went out and what was earned; only a sum too large to
/// hold is cut short.
pub proof fn law_forwards_balance(
    f: ForwardingEntry,
    from: Seq<u8>,
    to: Seq<u8>,
    fee: u64,
    outgoing: u64,
    now: u64,
)
    requires
        is_forwarded(f, from, to, fee, outgoing, now),
    ensures
        f.incoming_amount >= f.outgoing_amount,
        f.incoming_amount >= f.fee_earned,
        f.outgoing_amount + f.fee_earned <= u64::MAX ==> f.incoming_amount == f.outgoing_amount
            + f.fee_earned,
{
}

/// The history answers what was recorded.
pub proof fn law_history_answers_what_was_recorded(
    answered: ForwardingEvent,
    f: ForwardingEntry,
    from: Seq<u8>,
    to: Seq<u8>,
    fee: u64,
    outgoing: u64,
    now: u64,
)
    requires
        is_forwarded(f, from, to, fee, outgoing, now),
        is_forward(answered, f),
    ensures
        answered.incoming_channel_id@ == hex_text(from),
        answered.outgoing_channel_id@ == hex_text(to),
        answered.outgoing_amount == outgoing,
        answered.fee_earned == fee,
        answered.settled_at == now,
{
}

/// The channel found for an id has that id and is among the channels.
pub proof fn law_found_channel_has_the_id(channels: Seq<ChannelInfo>, id: Seq<char>)
    ensures
        match channel_with_id(channels, id) {
            Some(c) => c.id@ == id && channels.contains(c),
            None => forall|i: int| 0 <= i < channels.len() ==> (#[trigger] channels[i]).id@ != id,
        },
    decreases channels.len(),
{
    if channels.len() > 0 {
        let rest = channels.drop_first();
        law_found_channel_has_the_id(rest, id);
        if channels[0].id@ == id {
            assert(channels.contains(channels[0]));
        } else if let Some(c) = channel_with_id(rest, id) {
            let i = choose|i: int| 0 <= i < rest.len() && rest[i] == c;
            assert(channels[i + 1] == c);
        } else {
            assert forall|i: int| 0 <= i < channels.len() implies (#[trigger] channels[i]).id@
                != id by {
                if i > 0 {
                    assert(rest[i - 1] == channels[i]);
                }
            }
        }
    }
}

/// A channel that is announced as open is announced with the capacity,
/// balances and ids that the channel list answers.
pub proof fn law_opened_agrees_with_list(
    opened: Channel,
    ready: ReadyChannel,
    i: ChannelInfo,
    listed: Channel,
)
    requires
        is_opened(opened, ready, Some(i)),
        ready.id@ == i.id@,
        is_channel(listed, i),
    ensures
        opened.id@ == listed.id@,
        opened.short_channel_id == listed.short_channel_id,
        opened.is_private == listed.is_private,
        opened.capacity == listed.capacity,
        opened.local_balance == listed.local_balance,
        opened.remote_balance == listed.remote_balance,
        opened.funding_txid == listed.funding_txid,
{
}

/// A payment that is announced goes by the hash that its record goes by, and
/// its preimage is not announced.
pub proof fn law_announced_by_hash(
    t: Transaction,
    direction: TransactionType,
    hash: Seq<u8>,
    amount: u64,
    fees_paid: u64,
    now: u64,
    record: PaymentDetails,
)
    requires
        is_payment(t, direction, hex_text(hash), amount, fees_paid, now),
        record.kind.hash() == Some(hash),
    ensures
        t.payment_hash@ == hash_text(record.kind),
        t.preimage is None,
{
}

/// Whether two actions do the same, but for what an announcement says: they tell
/// the signer of the same channel, or record the same payment, or announce in the
/// same direction, or do nothing more.
pub open spec fn is_same_effect(a: Action, b: Action) -> bool {
    match (a, b) {
        (Action::AnnounceWallet(_), Action::AnnounceWallet(_)) => true,
        (Action::AnnounceControl(_), Action::AnnounceControl(_)) => true,
        (Action::PrepareChannel(r), Action::PrepareChannel(s)) => {
            &&& r.user_channel_id == s.user_channel_id
            &&& r.id@ == s.id@
            &&& r.peer_pubkey@ == s.peer_pubkey@
        },
        (Action::RecordForward(f), Action::RecordForward(g)) => {
            &&& f.incoming_channel_id@ == g.incoming_channel_id@
            &&& f.outgoing_channel_id@ == g.outgoing_channel_id@
            &&& f.incoming_amount == g.incoming_amount
            &&& f.outgoing_amount == g.outgoing_amount
            &&& f.fee_earned == g.fee_earned
            &&& f.settled_at == g.settled_at
        },
        (Action::MarkHandled, Action::MarkHandled) => true,
        _ => false,
    }
}

/// Whether an action announces something.
pub open spec fn announces(a: Action) -> bool {
    a is AnnounceWallet || a is AnnounceControl
}

/// How many actions an event takes, by the first.
spec fn run_len(first: Action) -> int {
    match first {
        Action::MarkHandled => 1,
        Action::PrepareChannel(_) => 3,
        _ => 2,
    }
}

proof fn lemma_run(
    actions: Seq<Action>,
    event: Event,
    now: u64,
    channels: Vec<ChannelInfo>,
    outcome: Result<(), AnnounceFailure>,
)
    requires
        is_run(actions, event, now, channels, outcome),
    ensures
        actions.len() == run_len(actions[0]),
        actions[0] is PrepareChannel ==> actions[1] is AnnounceControl,
        actions.last() is MarkHandled,
{
    if actions.len() > 1 {
        assert(!(actions[0] is MarkHandled));
        assert(is_action(actions[0int + 1], progress_after(actions[0], channels, outcome)));
    }
    if actions.len() > 2 {
        assert(!(actions[1] is MarkHandled));
        assert(is_action(actions[1int + 1], progress_after(actions[1], channels, outcome)));
    }
    if actions.len() > 3 {
        assert(!(actions[2] is MarkHandled));
    }
}

/// A failed announcement changes nothing else. Over one event, the signer is told
/// and payments are recorded in the same way whatever comes of the announcement;
/// it is tried once at most; and in the end the event is marked as handled.
pub proof fn law_failed_announcement_changes_nothing_else(
    event: Event,
    now: u64,
    channels: Vec<ChannelInfo>,
    good: Seq<Action>,
    bad: Seq<Action>,
    failure: AnnounceFailure,
)
    requires
        is_run(good, event, now, channels, Ok(())),
        is_run(bad, event, now, channels, Err(failure)),
    ensures
        good.len() == bad.len(),
        forall|i: int|
            0 <= i < good.len() ==> is_same_effect(#[trigger] good[i], #[trigger] bad[i]),
        forall|i: int, j: int|
            0 <= i < j < bad.len() ==> !(announces(#[trigger] bad[i]) && announces(
                #[trigger] bad[j],
            )),
        bad.last() is MarkHandled,
{
    lemma_run(good, event, now, channels, Ok(()));
    lemma_run(bad, event, now, channels, Err(failure));
    assert(is_same_effect(good[0], bad[0]));
}

// ── discovery ────────────────────────────────────────────────────────

/// Where a wallet method stands in the list, by its length and two letters.
spec fn wallet_place(name: Seq<char>) -> int {
    if name.len() == 8 {
        0
    } else if name.len() == 11 && name[0] == 'g' && name[7] == 'a' {
        1
    } else if name.len() == 11 && name[0] == 'p' && name[7] == 'o' {
        2
    } else if name.len() == 12 {
        3
    } else if name.len() == 14 && name[7] == 'i' {
        4
    } else if name.len() == 11 && name[0] == 'p' && name[7] == 'h' {
        5
    } else if name.len() == 16 {
        6
    } else if name.len() == 14 && name[7] == 'a' {
        7
    } else if name.len() == 14 && name[7] == 'd' {
        8
    } else if name.len() == 17 && name[0] == 'm' && name[7] == 'l' {
        9
    } else if name.len() == 19 && name[0] == 's' {
        10
    } else if name.len() == 19 && name[0] == 'c' {
        11
    } else if name.len() == 11 && name[0] == 'p' && name[7] == 's' {
        12
    } else if name.len() == 17 && name[0] == 'l' && name[7] == 'a' {
        13
    } else if name.len() == 14 && name[7] == 'p' {
        14
    } else if name.len() == 13 && name[0] == 'l' && name[7] == 'v' {
        15
    } else if name.len() == 10 {
        16
    } else if name.len() == 9 {
        17
    } else if name.len() == 11 && name[0] == 'l' && name[7] == 'f' {
        18
    } else if name.len() == 13 && name[0] == 'd' && name[7] == '_' {
        19
    } else if name.len() == 13 && name[0] == 'q' && name[7] == 'a' {
        20
    } else if name.len() == 3 {
        21
    } else if name.len() == 7 {
        22
    } else {
        -1
    }
}

/// Where a control method stands in the list, by its length and two letters.
spec fn control_place(name: Seq<char>) -> int {
    if name.len() == 13 && name[0] == 'l' && name[4] == '_' {
        0
    } else if name.len() == 12 && name[0] == 'o' && name[4] == '_' {
        1
    } else if name.len() == 13 && name[0] == 'c' && name[4] == 'e' {
        2
    } else if name.len() == 10 {
        3
    } else if name.len() == 12 && name[0] == 'c' && name[4] == 'e' {
        4
    } else if name.len() == 15 {
        5
    } else if name.len() == 16 && name[0] == 'g' && name[4] == 'c' {
        6
    } else if name.len() == 16 && name[0] == 's' && name[4] == 'c' {
        7
    } else if name.len() == 12 && name[0] == 'q' && name[4] == 'y' {
        8
    } else if name.len() == 22 {
        9
    } else if name.len() == 18 {
        10
    } else if name.len() == 16 && name[0] == 'g' && name[4] == 'n' {
        11
    } else if name.len() == 17 && name[4] == 'n' {
        12
    } else if name.len() == 19 {
        13
    } else {
        -1
    }
}

/// The wallet advertises twenty-three methods, each once, and none that it
/// does not implement; and three notifications, each once.
pub proof fn law_wallet_discovery()
    ensures
        wallet_methods().len() == 23,
        wallet_methods().no_duplicates(),
        !wallet_methods().contains("estimate_onchain_fees"@),
        wallet_notifications().len() == 3,
        wallet_notifications().no_duplicates(),
{
    reveal_strlit("get_info");
    reveal_strlit("get_balance");
    reveal_strlit("pay_invoice");
    reveal_strlit("make_invoice");
    reveal_strlit("lookup_invoice");
    reveal_strlit("pay_onchain");
    reveal_strlit("make_new_address");
    reveal_strlit("lookup_address");
    reveal_strlit("list_addresses");
    reveal_strlit("make_hold_invoice");
    reveal_strlit("settle_hold_invoice");
    reveal_strlit("cancel_hold_invoice");
    reveal_strlit("pay_keysend");
    reveal_strlit("list_transactions");
    reveal_strlit("lookup_payment");
    reveal_strlit("list_invoices");
    reveal_strlit("make_offer");
    reveal_strlit("pay_offer");
    reveal_strlit("list_offers");
    reveal_strlit("disable_offer");
    reveal_strlit("quote_payment");
    reveal_strlit("pay");
    reveal_strlit("receive");
    reveal_strlit("estimate_onchain_fees");
    reveal_strlit("payment_received");
    reveal_strlit("payment_sent");
    reveal_strlit("hold_invoice_accepted");
    let names = wallet_methods();
    assert(wallet_place(names[0]) == 0);
    assert(wallet_place(names[1]) == 1);
    assert(wallet_place(names[2]) == 2);
    assert(wallet_place(names[3]) == 3);
    assert(wallet_place(names[4]) == 4);
    assert(wallet_place(names[5]) == 5);
    assert(wallet_place(names[6]) == 6);
    assert(wallet_place(names[7]) == 7);
    assert(wallet_place(names[8]) == 8);
    assert(wallet_place(names[9]) == 9);
    assert(wallet_place(names[10]) == 10);
    assert(wallet_place(names[11]) == 11);
    assert(wallet_place(names[12]) == 12);
    assert(wallet_place(names[13]) == 13);
    assert(wallet_place(names[14]) == 14);
    assert(wallet_place(names[15]) == 15);
    assert(wallet_place(names[16]) == 16);
    assert(wallet_place(names[17]) == 17);
    assert(wallet_place(names[18]) == 18);
    assert(wallet_place(names[19]) == 19);
    assert(wallet_place(names[20]) == 20);
    assert(wallet_place(names[21]) == 21);
    assert(wallet_place(names[22]) == 22);
    assert forall|i: int| 0 <= i < 23 implies wallet_place(#[trigger] names[i]) == i by {}
    assert(wallet_place("estimate_onchain_fees"@) == -1);
    assert(names.no_duplicates());
    assert("payment_received"@.len() == 16);
    assert("payment_sent"@.len() == 12);
    assert("hold_invoice_accepted"@.len() == 21);
}

/// The control side advertises fourteen methods, each once, and none that it
/// does not implement.
pub proof fn law_control_discovery()
    ensures
        control_methods().len() == 14,
        control_methods().no_duplicates(),
        !control_methods().contains("get_pending_htlcs"@),
        !control_methods().contains("sign_message"@),
        !control_methods().contains("subscribe_notifications"@),
{
    reveal_strlit("list_channels");
    reveal_strlit("open_channel");
    reveal_strlit("close_channel");
    reveal_strlit("list_peers");
    reveal_strlit("connect_peer");
    reveal_strlit("disconnect_peer");
    reveal_strlit("get_channel_fees");
    reveal_strlit("set_channel_fees");
    reveal_strlit("query_routes");
    reveal_strlit("get_forwarding_history");
    reveal_strlit("list_network_nodes");
    reveal_strlit("get_network_node");
    reveal_strlit("get_network_stats");
    reveal_strlit("get_network_channel");
    reveal_strlit("get_pending_htlcs");
    reveal_strlit("sign_message");
    reveal_strlit("subscribe_notifications");
    let names = control_methods();
    assert(control_place(names[0]) == 0);
    assert(control_place(names[1]) == 1);
    assert(control_place(names[2]) == 2);
    assert(control_place(names[3]) == 3);
    assert(control_place(names[4]) == 4);
    assert(control_place(names[5]) == 5);
    assert(control_place(names[6]) == 6);
    assert(control_place(names[7]) == 7);
    assert(control_place(names[8]) == 8);
    assert(control_place(names[9]) == 9);
    assert(control_place(names[10]) == 10);
    assert(control_place(names[11]) == 11);
    assert(control_place(names[12]) == 12);
    assert(control_place(names[13]) == 13);
    assert forall|i: int| 0 <= i < 14 implies control_place(#[trigger] names[i]) == i by {}
    assert(control_place("get_pending_htlcs"@) == -1);
    assert(control_place("sign_message"@) == -1);
    assert(control_place("subscribe_notifications"@) == -1);
}

}
