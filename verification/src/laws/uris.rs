//! What payment URIs come to: what is paid for one, what goes into one, and how the
//! text of one is read and written.

use vstd::prelude::*;
use vstd::string::*;
use vstd::utf8::encode_utf8;

use crate::error::{ErrorCode, NncError};
use crate::foreign::{is_address, is_plain_address, offer_id_of, trimmed, UriTerms};
use crate::laws::{is_failure, law_methods_are_tried_in_order, lemma_failures, or_zero};
use crate::lightning::InvoiceInfo;
use crate::nwc::{PayRequest, ReceiveRequest, ReceiveResponse};
use crate::params::{encoded, is_visible, lemma_text_is_read};
use crate::state::NewOffer;
use crate::uri::{
    after, head_of, is_same_letter, is_sound, is_zero_amount, lemma_next_char,
    lemma_visible_stays, read_text, sort, taken, value_in, write_text, PaymentUri, Sorted, UriView,
};
use crate::wallet::pay::PayCall;
use crate::wallet::receive::{received, Receiving, ReceiveStep};
use crate::wallet::Wallet;

verus! {

// ── what is paid ─────────────────────────────────────────────────────

/// Whether an amount is the payer's, or else what the URI names, in millisatoshis.
pub open spec fn is_amount_for(paid: Option<u64>, asked: Option<u64>, named_sat: Option<u64>) -> bool {
    &&& asked is Some ==> paid == asked
    &&& asked is None && named_sat is Some ==> paid is Some && paid->0 == named_sat->0 * 1_000
    &&& asked is None && named_sat is None ==> paid is None
}

/// Whether a call pays what a URI carries: its first invoice, or else its first offer,
/// or else its address, for the payer's amount or else for the URI's.
pub open spec fn pays(
    call: Result<PayCall, NncError>,
    uri: UriView,
    asked: Option<u64>,
    payer_note: Option<Seq<char>>,
) -> bool {
    if uri.lightning.len() > 0 {
        &&& call matches Ok(PayCall::Bolt11 { invoice, amount_msat })
        &&& invoice@ == uri.lightning[0]
        &&& is_amount_for(amount_msat, asked, uri.amount_sat)
    } else if uri.lno.len() > 0 {
        &&& call matches Ok(PayCall::Bolt12 { offer, amount_msat, payer_note: note })
        &&& offer@ == uri.lno[0]
        &&& is_amount_for(amount_msat, asked, uri.amount_sat)
        &&& note.deep_view() == payer_note
    } else if uri.address is Some && (asked is Some || uri.amount_sat is Some) {
        &&& call matches Ok(PayCall::Onchain { address, amount_sat })
        &&& address@ == uri.address->0
        &&& asked is Some ==> amount_sat * 1_000 <= asked->0 < amount_sat * 1_000 + 1_000
        &&& asked is None ==> amount_sat == uri.amount_sat->0
    } else if uri.address is Some {
        &&& call matches Err(e)
        &&& e.code == ErrorCode::BadRequest
        &&& e.message@ == "an on-chain payment needs an amount"@
    } else {
        &&& call matches Err(e)
        &&& e.code == ErrorCode::UnsupportedPaymentInstruction
        &&& e.message@ == "no instruction in this URI is one this node can pay"@
    }
}

/// Of what a URI carries, the first invoice is paid, or else the first offer, or else
/// the address, for the payer's amount or else for the URI's.
pub proof fn law_uri_is_paid_by_its_first_instruction(
    w: &Wallet,
    uri: &PaymentUri,
    asked: Option<u64>,
    payer_note: Option<String>,
    call: Result<PayCall, NncError>,
)
    requires
        asked is None && uri.amount_sat is Some ==> uri.amount_sat->0 * 1_000 <= u64::MAX,
        call_ensures(Wallet::pay_uri, (w, uri, asked, payer_note), call),
    ensures
        pays(call, uri@, asked, payer_note.deep_view()),
{
}

/// What is paid for a request is what the URI in it carries, whatever the fee budget. A
/// text that is no URI is refused with the reason, and so is a URI that names more than
/// can be paid.
pub proof fn law_request_is_paid_as_its_uri_reads(
    w: &Wallet,
    text: &str,
    read: Result<PaymentUri, String>,
    r: PayRequest,
    call: Result<PayCall, NncError>,
)
    requires
        text@ == r.payment@,
        call_ensures(read_text, (text,), read),
        call_ensures(Wallet::pay, (w, r), call),
    ensures
        match read {
            Ok(uri) => if r.amount is None && uri.amount_sat is Some && uri.amount_sat->0 * 1_000
                > u64::MAX {
                call matches Err(e) && is_failure(
                    e,
                    ErrorCode::BadRequest,
                    "bip321"@,
                    "the amount is out of range"@,
                )
            } else {
                pays(call, uri@, r.amount, r.payer_note.deep_view())
            },
            Err(why) => call matches Err(e) && is_failure(
                e,
                ErrorCode::BadRequest,
                "bip321"@,
                why@,
            ),
        },
{
    lemma_failures();
}

// ── what goes into a URI ─────────────────────────────────────────────

/// A URI in the making starts with what the request says of it, in whole sats, and with
/// nothing to pay. The methods to try are the caller's, or else all.
pub proof fn law_uri_starts_as_asked(w: &Wallet, r: ReceiveRequest, s: Receiving)
    requires
        call_ensures(Wallet::receive, (w, r), s),
    ensures
        s@.amount == r.amount,
        s@.description == r.description.deep_view(),
        s@.uri.label == r.label.deep_view(),
        s@.uri.message == r.description.deep_view(),
        s@.uri.amount_sat is Some <==> r.amount is Some,
        r.amount is Some ==> s@.uri.amount_sat->0 * 1_000 <= r.amount->0 < s@.uri.amount_sat->0
            * 1_000 + 1_000,
        s@.uri.lightning.len() == 0 && s@.uri.lno.len() == 0 && s@.uri.address is None,
        s@.next == 0,
        r.methods is Some ==> s@.wanted.len() == r.methods->0@.len(),
        r.methods is Some ==> forall|i: int|
            0 <= i < s@.wanted.len() ==> {
                &&& (#[trigger] s@.wanted[i]).method == r.methods->0@[i].method@
                &&& s@.wanted[i].expiry == r.methods->0@[i].expiry
                &&& s@.wanted[i].address_type == r.methods->0@[i].address_type.deep_view()
            },
        r.methods is None ==> {
            &&& s@.wanted.len() == 3
            &&& s@.wanted[0].method == "bolt11"@
            &&& s@.wanted[1].method == "bolt12"@
            &&& s@.wanted[2].method == "onchain"@
            &&& forall|i: int|
                0 <= i < 3 ==> (#[trigger] s@.wanted[i]).expiry is None
                    && s@.wanted[i].address_type is None
        },
{
}

/// Whether an offer lapses after as many seconds as were wanted, and never only where
/// none were wanted or more than the node can be told.
pub open spec fn lapses_after(expiry: Option<u32>, wanted: Option<u64>) -> bool {
    &&& expiry is Some ==> wanted is Some && expiry->0 == wanted->0
    &&& expiry is None ==> wanted is None || wanted->0 > u32::MAX
}

/// What the node is asked for next is what the next method asks for, on its own terms:
/// an invoice for the amount asked, an offer that lapses when the method says, or an
/// address. A method is passed over only where it asks for nothing: an invoice without
/// an amount, an address that is not a taproot address, or a method that the node does
/// not know. Nothing of the URI changes.
pub proof fn law_next_method_is_asked_for_on_its_terms(s: &mut Receiving, step: ReceiveStep)
    requires
        0 <= old(s)@.next <= old(s)@.wanted.len(),
        call_ensures(Receiving::advance, (s,), step),
    ensures
        final(s)@.wanted == old(s)@.wanted,
        final(s)@.amount == old(s)@.amount,
        final(s)@.description == old(s)@.description,
        final(s)@.uri == old(s)@.uri,
        old(s)@.next <= final(s)@.next <= old(s)@.wanted.len(),
        step is Finish ==> final(s)@.next == old(s)@.wanted.len(),
        !(step is Finish) ==> final(s)@.next > old(s)@.next,
        forall|i: int|
            old(s)@.next <= i < final(s)@.next && (step is Finish || i < final(s)@.next - 1) ==> {
                let m = #[trigger] old(s)@.wanted[i];
                &&& m.method == "bolt11"@ ==> old(s)@.amount is None
                &&& m.method != "bolt12"@
                &&& m.method == "onchain"@ ==> m.address_type is Some && m.address_type->0
                    != "p2tr"@
            },
        ({
            let m = old(s)@.wanted[final(s)@.next - 1];
            match step {
                ReceiveStep::MakeInvoice(c) => {
                    &&& m.method == "bolt11"@
                    &&& old(s)@.amount is Some && c.amount_msat == old(s)@.amount->0
                    &&& c.description.deep_view() == old(s)@.description
                    &&& c.description_hash is None
                    &&& c.expiry == m.expiry
                },
                ReceiveStep::MakeOffer(c) => {
                    &&& m.method == "bolt12"@
                    &&& c.amount_msat == or_zero(old(s)@.amount)
                    &&& old(s)@.description is Some ==> c.description@ == old(s)@.description->0
                    &&& old(s)@.description is None ==> c.description@ == "bip321 offer"@
                    &&& lapses_after(c.expiry, m.expiry)
                },
                ReceiveStep::NewAddress => {
                    &&& m.method == "onchain"@
                    &&& m.address_type is None || m.address_type->0 == "p2tr"@
                },
                ReceiveStep::Finish => true,
            }
        }),
{
    law_methods_are_tried_in_order(old(s)@.wanted, old(s)@.amount, old(s)@.next);
    reveal_strlit("bolt11");
    reveal_strlit("bolt12");
    reveal_strlit("onchain");
    assert("bolt11"@[5] != "bolt12"@[5]);
    assert("onchain"@.len() == 7 && "bolt11"@.len() == 6 && "bolt12"@.len() == 6);
}

/// The invoice that the node made is the next invoice of the URI, and nothing else of it
/// changes. Where the node made none, nothing does.
pub proof fn law_made_invoice_goes_into_the_uri(
    s: &mut Receiving,
    made: Result<InvoiceInfo, String>,
)
    requires
        call_ensures(Receiving::invoice_made, (s, made), ()),
    ensures
        made is Err ==> final(s)@ == old(s)@,
        made matches Ok(m) ==> {
            &&& final(s)@.uri.lightning == old(s)@.uri.lightning.push(m.invoice@)
            &&& final(s)@.uri.lno == old(s)@.uri.lno
            &&& final(s)@.uri.address == old(s)@.uri.address
        },
        is_kept(final(s)@.uri, old(s)@.uri),
        final(s)@.next == old(s)@.next && final(s)@.wanted == old(s)@.wanted,
{
}

/// Whether a URI keeps its amount, label and message.
pub open spec fn is_kept(after: UriView, before: UriView) -> bool {
    after.amount_sat == before.amount_sat && after.label == before.label && after.message
        == before.message
}

/// The offer that the node made is the next offer of the URI, and is remembered under its
/// own id, for the amount asked and with the words that it was issued with. Where the
/// node made none, nothing changes and nothing is remembered.
pub proof fn law_made_offer_goes_into_the_uri(
    s: &mut Receiving,
    made: Result<String, String>,
    remember: Option<NewOffer>,
)
    requires
        call_ensures(Receiving::offer_made, (s, made), remember),
    ensures
        made is Err ==> final(s)@ == old(s)@ && remember is None,
        made matches Ok(offer) ==> {
            &&& final(s)@.uri.lno == old(s)@.uri.lno.push(offer@)
            &&& final(s)@.uri.lightning == old(s)@.uri.lightning
            &&& final(s)@.uri.address == old(s)@.uri.address
            &&& remember is Some
            &&& remember->0.offer@ == offer@
            &&& remember->0.amount_msat == or_zero(old(s)@.amount)
            &&& old(s)@.description is Some ==> remember->0.description@
                == old(s)@.description->0
            &&& old(s)@.description is None ==> remember->0.description@ == "bip321 offer"@
            &&& offer_id_of(offer@) is Some ==> remember->0.offer_id@ == offer_id_of(offer@)->0
            &&& offer_id_of(offer@) is None ==> forall|i: int|
                0 <= i < 32 ==> #[trigger] remember->0.offer_id@[i] == 0
        },
        is_kept(final(s)@.uri, old(s)@.uri),
        final(s)@.next == old(s)@.next && final(s)@.wanted == old(s)@.wanted,
{
}

/// The address that the node made is watched, and is the URI's address if it parses. Where
/// the node made none, nothing changes and nothing is watched.
pub proof fn law_made_address_goes_into_the_uri(
    s: &mut Receiving,
    made: Result<String, String>,
    register: Option<String>,
)
    requires
        call_ensures(Receiving::address_made, (s, made), register),
    ensures
        made is Err ==> final(s)@ == old(s)@ && register is None,
        made matches Ok(address) ==> {
            &&& register.deep_view() == Some(address@)
            &&& is_address(address@) ==> final(s)@.uri.address == Some(address@)
            &&& !is_address(address@) ==> final(s)@.uri.address == old(s)@.uri.address
        },
        final(s)@.uri.lightning == old(s)@.uri.lightning,
        final(s)@.uri.lno == old(s)@.uri.lno,
        is_kept(final(s)@.uri, old(s)@.uri),
        final(s)@.next == old(s)@.next && final(s)@.wanted == old(s)@.wanted,
{
}

/// A URI is answered if and only if there is something in it to pay, and its text is
/// read as what it was made of.
pub proof fn law_finished_uri_reads_as_made(
    s: Receiving,
    answer: Result<ReceiveResponse, NncError>,
    text: &str,
    read: Result<PaymentUri, String>,
)
    requires
        call_ensures(Receiving::finish, (s,), answer),
        answer is Ok ==> text@ == answer->Ok_0.bip321@,
        call_ensures(read_text, (text,), read),
    ensures
        answer is Ok <==> s@.uri.lightning.len() > 0 || s@.uri.lno.len() > 0
            || s@.uri.address is Some,
        answer is Ok ==> (read matches Ok(uri) && uri@ == s@.uri) && answer->Ok_0.transaction_id is None,
        answer matches Err(e) ==> e.code == ErrorCode::BadRequest && e.message@
            == "no payment instruction could be generated"@,
{
}

/// What is paid for a URI that was made is what it was made of.
pub proof fn law_finished_uri_is_paid_as_made(
    w: &Wallet,
    s: Receiving,
    a: ReceiveResponse,
    r: PayRequest,
    call: Result<PayCall, NncError>,
)
    requires
        call_ensures(Receiving::finish, (s,), Ok::<ReceiveResponse, NncError>(a)),
        r.payment@ == a.bip321@,
        r.amount is None && s@.uri.amount_sat is Some ==> s@.uri.amount_sat->0 * 1_000 <= u64::MAX,
        call_ensures(Wallet::pay, (w, r), call),
    ensures
        pays(call, s@.uri, r.amount, r.payer_note.deep_view()),
        s@.uri.lightning.len() > 0 || s@.uri.lno.len() > 0 || s@.uri.address is Some,
{
}

/// The answer carries the text that it is given, and without one it is refused.
pub proof fn law_text_is_answered(
    text: String,
    answer: Result<ReceiveResponse, NncError>,
    refused: Result<ReceiveResponse, NncError>,
)
    requires
        call_ensures(received, (Some(text),), answer),
        call_ensures(received, (None::<String>,), refused),
    ensures
        answer matches Ok(a) && a.bip321@ == text@ && a.transaction_id is None,
        refused matches Err(e) && e.code == ErrorCode::BadRequest && e.message@
            == "no payment instruction could be generated"@,
{
}

// ── the text of a URI ────────────────────────────────────────────────

/// A URI that is written is read as it was: every invoice, every offer, the address, the
/// amount, the label and the message. Its text starts with the scheme and the address.
pub proof fn law_written_uri_is_read_as_written(
    uri: PaymentUri,
    text: String,
    t: &str,
    read: Result<PaymentUri, String>,
)
    requires
        uri.lightning@.len() > 0 || uri.lno@.len() > 0 || uri.address is Some,
        uri.address is Some ==> is_plain_address(uri.address->0@),
        call_ensures(write_text, (uri,), text),
        t@ == text@,
        call_ensures(read_text, (t,), read),
    ensures
        read is Ok,
        read->Ok_0.lightning.deep_view() == uri.lightning.deep_view(),
        read->Ok_0.lno.deep_view() == uri.lno.deep_view(),
        read->Ok_0.address.deep_view() == uri.address.deep_view(),
        read->Ok_0.amount_sat == uri.amount_sat,
        read->Ok_0.label.deep_view() == uri.label.deep_view(),
        read->Ok_0.message.deep_view() == uri.message.deep_view(),
        ({
            let head = "bitcoin:"@ + (if uri.address is Some {
                uri.address->0@
            } else {
                seq![]
            });
            head.len() <= text@.len() && text@.take(head.len() as int) == head
        }),
        is_visible(text@),
{
    assert(is_sound(uri@));
    let head = "bitcoin:"@ + (if uri.address is Some {
        uri.address->0@
    } else {
        seq![]
    });
    assert(head =~= head_of(uri@.address));
    assert(text@.take(head.len() as int) =~= head);
}

/// White space around a URI is no part of it.
pub proof fn law_white_space_is_no_part_of_a_uri(
    a: &str,
    b: &str,
    of_a: Result<PaymentUri, String>,
    of_b: Result<PaymentUri, String>,
)
    requires
        trimmed(a@) == trimmed(b@),
        call_ensures(read_text, (a,), of_a),
        call_ensures(read_text, (b,), of_b),
    ensures
        of_a is Ok <==> of_b is Ok,
        of_a is Ok ==> of_a->Ok_0@ == of_b->Ok_0@,
        of_a is Err ==> of_a->Err_0@ == of_b->Err_0@,
{
}

/// What stands between the scheme and the first question mark is the address, if it is
/// one, of whatever network and as it stands.
pub proof fn law_slot_holds_the_address(
    text: &str,
    scheme: Seq<char>,
    slot: Seq<char>,
    rest: Seq<char>,
    read: Result<PaymentUri, String>,
)
    requires
        text@ == scheme + slot + rest,
        is_visible(text@),
        scheme.len() == 8,
        forall|i: int| 0 <= i < slot.len() ==> #[trigger] slot[i] != '?',
        rest.len() > 0 ==> rest[0] == '?',
        slot.len() > 0,
        call_ensures(read_text, (text,), read),
    ensures
        read matches Ok(uri) ==> uri.address.deep_view() == (if is_address(slot) {
            Some(slot)
        } else {
            None
        }),
{
    lemma_visible_stays(text@);
    let q = 8 + slot.len() as int;
    assert forall|i: int| 8 <= i < q implies #[trigger] text@[i] != '?' by {
        assert(text@[i] == slot[i - 8]);
    }
    if q < text@.len() {
        assert(text@[q] == rest[0]);
    }
    lemma_next_char(text@, '?', 8, q);
    assert(text@.subrange(8, q) =~= slot);
}

/// Whether a text is a lower-case name, letter for letter in either case.
pub open spec fn is_name(text: Seq<char>, name: Seq<char>) -> bool {
    &&& text.len() == name.len()
    &&& forall|i: int|
        0 <= i < name.len() ==> (#[trigger] text[i] == name[i] || 'A' <= text[i] <= 'Z'
            && text[i] as int + ('a' as int - 'A' as int) == name[i] as int)
}

/// Whether a text is the mark of a parameter that a payer must understand, or none.
pub open spec fn is_mark(text: Seq<char>) -> bool {
    text.len() == 0 || is_name(text, "req-"@)
}

/// Whether a parameter bears a name, marked or not.
pub open spec fn bears(param: Seq<char>, name: Seq<char>) -> bool {
    exists|mark: Seq<char>, n: Seq<char>, value: Seq<char>|
        is_mark(mark) && is_name(n, name) && param == #[trigger] (mark + n + value)
}

/// A parameter named as an invoice adds the invoice that it holds to those before it, and
/// one named as an offer adds that offer, whatever the case of the name, marked or not.
/// Nothing else of what was sorted changes.
pub proof fn law_instruction_is_taken_by_its_name(
    params: Vec<String>,
    more: Vec<String>,
    mark: Seq<char>,
    name: Seq<char>,
    t: Seq<char>,
    before: Sorted,
    after_it: Sorted,
)
    requires
        is_mark(mark),
        is_name(name, "lightning="@) || is_name(name, "lno="@),
        more.deep_view() == params.deep_view().push(mark + name + encoded(encode_utf8(t))),
        call_ensures(sort, (params,), before),
        call_ensures(sort, (more,), after_it),
    ensures
        after_it.zero == before.zero,
        is_name(name, "lightning="@) ==> after_it.lightning.deep_view()
            == before.lightning.deep_view().push(t) && after_it.lno.deep_view()
            == before.lno.deep_view(),
        is_name(name, "lno="@) ==> after_it.lno.deep_view() == before.lno.deep_view().push(t)
            && after_it.lightning.deep_view() == before.lightning.deep_view(),
{
    let value = encoded(encode_utf8(t));
    assert(more.deep_view().drop_last() =~= params.deep_view());
    assert(more.deep_view().last() == mark + name + value);
    lemma_text_is_read(t);
    lemma_named_value(mark, name, value);
}

/// What follows a name is what comes after it.
proof fn lemma_after_name(n: Seq<char>, name: Seq<char>, value: Seq<char>)
    requires
        is_name(n, name),
    ensures
        after(n + value, name) == Some(value),
{
    let p = n + value;
    assert forall|i: int| 0 <= i < name.len() implies is_same_letter(#[trigger] p[i], name[i]) by {
        assert(p[i] == n[i]);
    }
    assert(p.skip(name.len() as int) =~= value);
}

proof fn lemma_named_value(mark: Seq<char>, name: Seq<char>, value: Seq<char>)
    requires
        is_mark(mark),
        is_name(name, "lightning="@) || is_name(name, "lno="@),
    ensures
        !is_zero_amount(mark + name + value),
        is_name(name, "lightning="@) ==> value_in(mark + name + value, "lightning="@) == Some(
            value,
        ),
        is_name(name, "lno="@) ==> value_in(mark + name + value, "lno="@) == Some(value)
            && value_in(mark + name + value, "lightning="@) is None,
{
    reveal_strlit("lightning=");
    reveal_strlit("lno=");
    reveal_strlit("amount=");
    reveal_strlit("req-");
    let p = name + value;
    assert(p[0] == name[0] && p[1] == name[1]);
    assert(is_same_letter(name[0], 'l'));
    assert(!is_same_letter(p[0], "req-"@[0]));
    assert(!is_same_letter(p[0], "amount="@[0]));
    assert(after(p, "req-"@) is None);
    assert(after(p, "amount="@) is None);
    if is_name(name, "lightning="@) {
        lemma_after_name(name, "lightning="@, value);
    } else {
        lemma_after_name(name, "lno="@, value);
        assert(!is_same_letter(p[1], "lightning="@[1]));
        assert(after(p, "lightning="@) is None);
    }
    if mark.len() == 0 {
        assert(mark + name + value =~= p);
    } else {
        assert(mark + name + value =~= mark + p);
        lemma_after_name(mark, "req-"@, p);
    }
}

/// A parameter with a value under a name bears that name.
proof fn lemma_bears(param: Seq<char>, name: Seq<char>) -> (parts: (Seq<char>, Seq<char>))
    requires
        value_in(param, name) is Some,
    ensures
        bears(param, name),
        is_mark(parts.0) && is_name(parts.1, name),
        param == parts.0 + parts.1 + value_in(param, name)->0,
{
    reveal_strlit("req-");
    let value = value_in(param, name)->0;
    let (mark, rest) = match after(param, "req-"@) {
        Some(rest) => (param.take(4), rest),
        None => (Seq::empty(), param),
    };
    let n = rest.take(name.len() as int);
    if after(param, "req-"@) is Some {
        assert forall|i: int| 0 <= i < 4 implies #[trigger] mark[i] == "req-"@[i] || 'A' <= mark[i]
            <= 'Z' && mark[i] as int + ('a' as int - 'A' as int) == "req-"@[i] as int by {
            assert(is_same_letter(param[i], "req-"@[i]));
        }
    }
    assert forall|i: int| 0 <= i < name.len() implies #[trigger] n[i] == name[i] || 'A' <= n[i]
        <= 'Z' && n[i] as int + ('a' as int - 'A' as int) == name[i] as int by {
        assert(is_same_letter(rest[i], name[i]));
    }
    assert(param =~= mark + n + value);
    (mark, n)
}

/// A parameter that is neither an invoice nor an offer nor an amount is handed over as it
/// stands, and so is an amount with a digit other than nought in it. Nothing else of what
/// was sorted changes.
pub proof fn law_other_parameters_are_handed_over(
    params: Vec<String>,
    more: Vec<String>,
    p: Seq<char>,
    before: Sorted,
    after_it: Sorted,
)
    requires
        !bears(p, "lightning="@) && !bears(p, "lno="@),
        bears(p, "amount="@) ==> exists|i: int| 0 <= i < p.len() && '1' <= #[trigger] p[i] <= '9',
        more.deep_view() == params.deep_view().push(p),
        call_ensures(sort, (params,), before),
        call_ensures(sort, (more,), after_it),
    ensures
        after_it.handed.deep_view() == before.handed.deep_view().push(p),
        after_it.lightning.deep_view() == before.lightning.deep_view(),
        after_it.lno.deep_view() == before.lno.deep_view(),
        after_it.zero == before.zero,
{
    assert(more.deep_view().drop_last() =~= params.deep_view());
    assert(more.deep_view().last() == p);
    if value_in(p, "lightning="@) is Some {
        lemma_bears(p, "lightning="@);
    }
    if value_in(p, "lno="@) is Some {
        lemma_bears(p, "lno="@);
    }
    if is_zero_amount(p) {
        reveal_strlit("amount=");
        reveal_strlit("req-");
        let (mark, n) = lemma_bears(p, "amount="@);
        let value = value_in(p, "amount="@)->0;
        let i = choose|i: int| 0 <= i < p.len() && '1' <= #[trigger] p[i] <= '9';
        if i < mark.len() {
            assert(p[i] == mark[i]);
        } else if i < mark.len() + n.len() {
            assert(p[i] == n[i - mark.len()]);
        } else {
            assert(p[i] == value[i - mark.len() - n.len()]);
        }
    }
}

/// An amount of zero is taken for an amount of zero, once, and is not handed over.
pub proof fn law_zero_is_an_amount(
    params: Vec<String>,
    more: Vec<String>,
    places: nat,
    before: Sorted,
    after_it: Sorted,
)
    requires
        places <= 8,
        more.deep_view() == params.deep_view().push(
            "amount=0"@ + (if places == 0 {
                seq![]
            } else {
                seq!['.'] + Seq::new(places, |i: int| '0')
            }),
        ),
        call_ensures(sort, (params,), before),
        call_ensures(sort, (more,), after_it),
    ensures
        after_it.zero,
        !before.zero ==> after_it.handed.deep_view() == before.handed.deep_view(),
        before.zero ==> after_it.handed.deep_view().len() == before.handed.deep_view().len() + 1,
        after_it.lightning.deep_view() == before.lightning.deep_view(),
        after_it.lno.deep_view() == before.lno.deep_view(),
{
    reveal_strlit("lightning=");
    reveal_strlit("lno=");
    reveal_strlit("amount=");
    reveal_strlit("amount=0");
    reveal_strlit("req-");
    let p = more.deep_view().last();
    assert(more.deep_view().drop_last() =~= params.deep_view());
    assert(!is_same_letter(p[0], "req-"@[0]));
    assert(!is_same_letter(p[0], "lightning="@[0]));
    assert(!is_same_letter(p[0], "lno="@[0]));
    assert forall|i: int| 0 <= i < 7 implies is_same_letter(#[trigger] p[i], "amount="@[i]) by {}
    let v = p.skip(7);
    assert(v[0] == '0');
    assert forall|i: int| 2 <= i < v.len() implies #[trigger] v[i] == '0' by {}
    assert(is_zero_amount(p));
}

/// Nothing is sorted out of no parameters.
pub proof fn law_no_parameters_hold_nothing(params: Vec<String>, s: Sorted)
    requires
        params@.len() == 0,
        call_ensures(sort, (params,), s),
    ensures
        !s.zero && s.lightning@.len() == 0 && s.lno@.len() == 0 && s.handed@.len() == 0,
{
    assert(s@.lightning.len() == 0 && s@.lno.len() == 0 && s@.handed.len() == 0);
}

/// A URI is put together from what was read of it: the instructions and the address that
/// were sorted out, and the terms that were read. An amount beside an amount of zero is
/// one too many.
pub proof fn law_uri_is_put_together_from_what_was_read(
    terms: UriTerms,
    s: Sorted,
    address: Option<String>,
    e: String,
    uri: Result<PaymentUri, String>,
    unread: Result<PaymentUri, String>,
)
    requires
        call_ensures(taken, (Ok::<UriTerms, String>(terms), s, address), uri),
        call_ensures(taken, (Err::<UriTerms, String>(e), s, address), unread),
    ensures
        uri is Err <==> s.zero && terms.amount_sat is Some,
        uri matches Err(why) ==> why@ == "the amount is given twice"@,
        uri matches Ok(u) ==> {
            &&& s.zero ==> u.amount_sat == Some(0u64)
            &&& !s.zero ==> u.amount_sat == terms.amount_sat
            &&& u.label.deep_view() == terms.label.deep_view()
            &&& u.message.deep_view() == terms.message.deep_view()
            &&& u.lightning.deep_view() == s.lightning.deep_view()
            &&& u.lno.deep_view() == s.lno.deep_view()
            &&& u.address.deep_view() == address.deep_view()
        },
        unread matches Err(why) && why@ == e@,
{
    if let Ok(u) = uri {
        assert(u@.lightning == s@.lightning && u@.lno == s@.lno);
        assert(u@.label == terms@.label && u@.message == terms@.message);
    }
}

}
