//! How bytes, errors, times and names are written and read.

use vstd::prelude::*;
use vstd::utf8::{
    encode_utf8, encode_utf8_decode_utf8, encode_utf8_valid_utf8, is_ascii_chars,
    is_ascii_chars_encode_utf8,
};

use crate::clock::seconds;
use crate::control::Control;
use crate::digits::{bytes_of_preimage, decode_hex, digit_value, hex_payment_hash};
use crate::error::{ldk_err, ErrorCode, NncError};
use crate::events::hex_hash;
use crate::laws::{is_failure, lemma_digit_reads_back, lemma_failures};
use crate::nwc::Bip321Capability;
use crate::params::{
    bytes_from, decode, encoded, escaped, escaped_char, escaped_text, in_ascii, is_escape,
    lemma_ascii_is_not_escaped, lemma_text_is_read,
};
use crate::wallet::account::{capability, wallet_capabilities};
use crate::wallet::Wallet;

verus! {

// ── hex ──────────────────────────────────────────────────────────────

/// Whether a character is the lower-case hex digit for a value.
pub open spec fn is_digit_for(c: char, n: int) -> bool {
    ||| 0 <= n < 10 && c as int == '0' as int + n
    ||| 10 <= n < 16 && c as int == 'a' as int + n - 10
}

/// Whether a character is a hex digit, of either case, for a value.
pub open spec fn stands_for(c: char, n: int) -> bool {
    is_digit_for(c, n) || 10 <= n < 16 && c as int == 'A' as int + n - 10
}

/// Whether a text is some bytes in lower-case hex, the high half of each first.
pub open spec fn is_hex_of(text: Seq<char>, bytes: Seq<u8>) -> bool {
    &&& text.len() == 2 * bytes.len()
    &&& forall|i: int|
        0 <= i < bytes.len() ==> is_digit_for(text[2 * i], (#[trigger] bytes[i]) as int / 16)
            && is_digit_for(text[2 * i + 1], bytes[i] as int % 16)
}

/// Bytes are written in lower-case hex, two digits a byte, the high half first.
pub proof fn law_bytes_are_written_in_hex(bytes: &[u8], text: String, hash: String)
    requires
        call_ensures(hex_payment_hash, (bytes,), text),
        call_ensures(hex_hash, (bytes,), hash),
    ensures
        is_hex_of(text@, bytes@),
        hash@ == text@,
{
    assert forall|i: int| 0 <= i < bytes@.len() implies is_digit_for(
        text@[2 * i],
        (#[trigger] bytes@[i]) as int / 16,
    ) && is_digit_for(text@[2 * i + 1], bytes@[i] as int % 16) by {
        assert((2 * i) / 2 == i && (2 * i) % 2 == 0);
        assert((2 * i + 1) / 2 == i && (2 * i + 1) % 2 == 1);
    }
}

/// A text of 64 hex digits, of either case, is read as the 32 bytes that it spells, and
/// no other text is read.
pub proof fn law_hex_is_read_as_bytes(text: &str, bytes: Option<Vec<u8>>)
    requires
        call_ensures(decode_hex, (text,), bytes),
    ensures
        bytes is Some ==> text@.len() == 64 && bytes->0@.len() == 32 && forall|i: int|
            0 <= i < 32 ==> stands_for(text@[2 * i], (#[trigger] bytes->0@[i]) as int / 16)
                && stands_for(text@[2 * i + 1], bytes->0@[i] as int % 16),
        bytes is None ==> text@.len() != 64 || exists|i: int|
            0 <= i < 64 && forall|n: int| !stands_for(#[trigger] text@[i], n),
{
    lemma_hex_is_read(text@, bytes);
}

proof fn lemma_hex_is_read(text: Seq<char>, bytes: Option<Vec<u8>>)
    requires
        bytes.deep_view() == bytes_of_preimage(text),
    ensures
        bytes is Some ==> text.len() == 64 && bytes->0@.len() == 32 && forall|i: int|
            0 <= i < 32 ==> stands_for(text[2 * i], (#[trigger] bytes->0@[i]) as int / 16)
                && stands_for(text[2 * i + 1], bytes->0@[i] as int % 16),
        bytes is None ==> text.len() != 64 || exists|i: int|
            0 <= i < 64 && forall|n: int| !stands_for(#[trigger] text[i], n),
{
    if let Some(b) = bytes {
        assert(b@ =~= b.deep_view());
        assert forall|i: int| 0 <= i < 32 implies stands_for(
            text[2 * i],
            (#[trigger] b@[i]) as int / 16,
        ) && stands_for(text[2 * i + 1], b@[i] as int % 16) by {
            assert(digit_value(text[2 * i]) is Some);
            assert(digit_value(text[2 * i + 1]) is Some);
        }
    } else if text.len() == 64 {
        let i = choose|i: int|
            0 <= i < text.len() && digit_value(#[trigger] text[i]) is None;
        assert forall|n: int| !stands_for(#[trigger] text[i], n) by {}
    }
}

// ── escapes ──────────────────────────────────────────────────────────

/// A text in ASCII without a percent sign stands for itself.
proof fn lemma_plain_bytes_from(text: Seq<char>, at: int)
    requires
        0 <= at <= text.len(),
        is_ascii_chars(text),
        forall|i: int| 0 <= i < text.len() ==> #[trigger] text[i] != '%',
    ensures
        bytes_from(text, at) == text.skip(at).map_values(|c: char| c as u8),
    decreases text.len() - at,
{
    if at < text.len() {
        lemma_plain_bytes_from(text, at + 1);
        assert(text[at] != '%');
        assert(!is_escape(text, at));
        assert(bytes_from(text, at) =~= text.skip(at).map_values(|c: char| c as u8));
    } else {
        assert(bytes_from(text, at) =~= text.skip(at).map_values(|c: char| c as u8));
    }
}

/// What is written with escapes is read without them, and what is written without any
/// is read as it stands.
pub proof fn law_escapes_are_resolved(text: &str, t: Seq<char>, out: String)
    requires
        call_ensures(decode, (text,), out),
        is_ascii_chars(text@),
    ensures
        text@ == encoded(encode_utf8(t)) ==> out@ == t,
        (forall|i: int| 0 <= i < text@.len() ==> #[trigger] text@[i] != '%') ==> out@ == text@,
{
    lemma_text_is_read(t);
    if forall|i: int| 0 <= i < text@.len() ==> #[trigger] text@[i] != '%' {
        lemma_plain_bytes_from(text@, 0);
        is_ascii_chars_encode_utf8(text@);
        encode_utf8_valid_utf8(text@);
        encode_utf8_decode_utf8(text@);
        assert(bytes_from(text@, 0) =~= encode_utf8(text@));
    }
}

/// What is in ASCII stays as it is, and what comes out is in ASCII.
pub proof fn law_ascii_stays(text: &str, out: String)
    requires
        call_ensures(in_ascii, (text,), out),
    ensures
        is_ascii_chars(out@),
        is_ascii_chars(text@) ==> out@ == text@,
{
    if is_ascii_chars(text@) {
        lemma_ascii_is_not_escaped(text@);
    }
}

proof fn lemma_utf8_of_last(t: Seq<char>)
    requires
        t.len() > 0,
    ensures
        encode_utf8(t) == encode_utf8(t.drop_last()) + encode_utf8(seq![t.last()]),
    decreases t.len(),
{
    reveal_with_fuel(encode_utf8, 2);
    if t.len() == 1 {
        assert(t.drop_last() =~= seq![]);
        assert(t =~= seq![t.last()]);
        assert(encode_utf8(t) =~= encode_utf8(t.drop_last()) + encode_utf8(seq![t.last()]));
    } else {
        let rest = t.drop_first();
        lemma_utf8_of_last(rest);
        assert(rest.drop_last() =~= t.drop_last().drop_first());
        assert(t.drop_last()[0] == t[0]);
        assert(encode_utf8(t) =~= encode_utf8(t.drop_last()) + encode_utf8(seq![t.last()]));
    }
}

proof fn lemma_escapes_are_read(pre: Seq<char>, bytes: Seq<u8>, post: Seq<char>)
    ensures
        bytes_from(pre + escaped(bytes) + post, pre.len() as int) == bytes + bytes_from(
            pre + escaped(bytes) + post,
            (pre.len() + escaped(bytes).len()) as int,
        ),
    decreases bytes.len(),
{
    let text = pre + escaped(bytes) + post;
    let at = pre.len() as int;
    if bytes.len() == 0 {
        assert(bytes + bytes_from(text, at) =~= bytes_from(text, at));
    } else {
        let b = bytes[0];
        let rest = bytes.drop_first();
        let next = pre + escaped(bytes).take(3);
        assert(escaped(bytes) =~= escaped(bytes).take(3) + escaped(rest)) by {
            assert forall|i: int| 0 <= i < escaped(rest).len() implies escaped(bytes)[i + 3]
                == #[trigger] escaped(rest)[i] by {
                assert((i + 3) % 3 == i % 3 && (i + 3) / 3 == i / 3 + 1);
            }
        }
        assert(text =~= next + escaped(rest) + post);
        lemma_escapes_are_read(next, rest, post);
        lemma_digit_reads_back(b as int / 16);
        lemma_digit_reads_back(b as int % 16);
        assert(text[at] == escaped(bytes)[0] && text[at + 1] == escaped(bytes)[1] && text[at + 2]
            == escaped(bytes)[2]);
        assert(is_escape(text, at));
        assert(bytes_from(text, at) =~= bytes + bytes_from(text, at + escaped(bytes).len()));
    }
}

proof fn lemma_ascii_char(c: char)
    requires
        c <= '\u{7f}',
    ensures
        is_ascii_chars(seq![c]),
{
}

proof fn lemma_escaped_text_is_read(t: Seq<char>, post: Seq<char>)
    requires
        forall|i: int| 0 <= i < t.len() ==> #[trigger] t[i] != '%',
    ensures
        bytes_from(escaped_text(t) + post, 0) == encode_utf8(t) + bytes_from(
            escaped_text(t) + post,
            escaped_text(t).len() as int,
        ),
    decreases t.len(),
{
    if t.len() == 0 {
        assert(encode_utf8(t) + bytes_from(escaped_text(t) + post, 0) =~= bytes_from(
            escaped_text(t) + post,
            0,
        ));
    } else {
        let before = t.drop_last();
        let c = t.last();
        assert(c == t[t.len() - 1]);
        let pre = escaped_text(before);
        let e = escaped_char(c);
        let text = escaped_text(t) + post;
        assert forall|i: int| 0 <= i < before.len() implies #[trigger] before[i] != '%' by {
            assert(before[i] == t[i]);
        }
        lemma_escaped_text_is_read(before, e + post);
        assert(text =~= pre + (e + post));
        assert(text =~= pre + e + post);
        lemma_utf8_of_last(t);
        let at = pre.len() as int;
        if c <= '\u{7f}' {
            lemma_ascii_char(c);
            is_ascii_chars_encode_utf8(seq![c]);
            assert(encode_utf8(seq![c]) =~= seq![c as u8]);
            assert(text[at] == c);
            assert(!is_escape(text, at));
        } else {
            lemma_escapes_are_read(pre, encode_utf8(seq![c]), post);
        }
        assert(bytes_from(text, 0) =~= encode_utf8(t) + bytes_from(
            text,
            escaped_text(t).len() as int,
        ));
    }
}

/// What lies beyond ASCII is written in ASCII, and read as it was.
pub proof fn law_what_is_beyond_ascii_is_read_as_it_was(
    text: &str,
    out: String,
    again: &str,
    read: String,
)
    requires
        forall|i: int| 0 <= i < text@.len() ==> #[trigger] text@[i] != '%',
        call_ensures(in_ascii, (text,), out),
        again@ == out@,
        call_ensures(decode, (again,), read),
    ensures
        is_ascii_chars(out@),
        read@ == text@,
{
    lemma_escaped_text_is_read(text@, seq![]);
    assert(escaped_text(text@) + seq![] =~= escaped_text(text@));
    assert(bytes_from(escaped_text(text@), 0) =~= encode_utf8(text@));
    encode_utf8_valid_utf8(text@);
    encode_utf8_decode_utf8(text@);
}

// ── errors and times ─────────────────────────────────────────────────

/// An error says what it was made to say, and a failure of the node says what failed
/// and how.
pub proof fn law_errors_say_what_they_were_made_to_say(
    code: ErrorCode,
    what: &str,
    how: &str,
    plain: NncError,
    failed: NncError,
)
    requires
        call_ensures(NncError::new, (code, what), plain),
        call_ensures(ldk_err, (what, code, how), failed),
    ensures
        plain.code == code && plain.message@ == what@,
        is_failure(failed, code, what@, how@),
{
    lemma_failures();
}

/// A reading of the clock is passed on, and a clock before the epoch reads as the
/// epoch.
pub proof fn law_a_reading_is_passed_on(s: u64, read: u64, unread: u64)
    requires
        call_ensures(seconds, (Some(s),), read),
        call_ensures(seconds, (None::<u64>,), unread),
    ensures
        read == s,
        unread == 0,
{
}

// ── names ────────────────────────────────────────────────────────────

/// A wallet goes by the name that it was given.
pub proof fn law_wallet_keeps_its_name(alias: Option<String>, w: Wallet)
    requires
        call_ensures(Wallet::new, (alias,), w),
    ensures
        w.alias.deep_view() == alias.deep_view(),
{
}

/// The wallet names every method that it serves, and every notification that it sends.
pub proof fn law_wallet_names_what_it_serves(
    w: &Wallet,
    methods: Vec<String>,
    notifications: Vec<String>,
)
    requires
        call_ensures(Wallet::methods, (w,), methods),
        call_ensures(Wallet::notifications, (w,), notifications),
    ensures
        methods.deep_view().len() == 23,
        methods.deep_view().contains("get_info"@),
        methods.deep_view().contains("get_balance"@),
        methods.deep_view().contains("pay_invoice"@),
        methods.deep_view().contains("make_invoice"@),
        methods.deep_view().contains("lookup_invoice"@),
        methods.deep_view().contains("pay_onchain"@),
        methods.deep_view().contains("make_new_address"@),
        methods.deep_view().contains("lookup_address"@),
        methods.deep_view().contains("list_addresses"@),
        methods.deep_view().contains("make_hold_invoice"@),
        methods.deep_view().contains("settle_hold_invoice"@),
        methods.deep_view().contains("cancel_hold_invoice"@),
        methods.deep_view().contains("pay_keysend"@),
        methods.deep_view().contains("list_transactions"@),
        methods.deep_view().contains("lookup_payment"@),
        methods.deep_view().contains("list_invoices"@),
        methods.deep_view().contains("make_offer"@),
        methods.deep_view().contains("pay_offer"@),
        methods.deep_view().contains("list_offers"@),
        methods.deep_view().contains("disable_offer"@),
        methods.deep_view().contains("quote_payment"@),
        methods.deep_view().contains("pay"@),
        methods.deep_view().contains("receive"@),
        notifications.deep_view().len() == 3,
        notifications.deep_view().contains("payment_received"@),
        notifications.deep_view().contains("payment_sent"@),
        notifications.deep_view().contains("hold_invoice_accepted"@),
{
    let m = methods.deep_view();
    assert(m[0] == "get_info"@ && m[1] == "get_balance"@ && m[2] == "pay_invoice"@);
    assert(m[3] == "make_invoice"@ && m[4] == "lookup_invoice"@ && m[5] == "pay_onchain"@);
    assert(m[6] == "make_new_address"@ && m[7] == "lookup_address"@ && m[8] == "list_addresses"@);
    assert(m[9] == "make_hold_invoice"@ && m[10] == "settle_hold_invoice"@);
    assert(m[11] == "cancel_hold_invoice"@ && m[12] == "pay_keysend"@);
    assert(m[13] == "list_transactions"@ && m[14] == "lookup_payment"@ && m[15] == "list_invoices"@);
    assert(m[16] == "make_offer"@ && m[17] == "pay_offer"@ && m[18] == "list_offers"@);
    assert(m[19] == "disable_offer"@ && m[20] == "quote_payment"@ && m[21] == "pay"@);
    assert(m[22] == "receive"@);
    let n = notifications.deep_view();
    assert(n[0] == "payment_received"@ && n[1] == "payment_sent"@ && n[2]
        == "hold_invoice_accepted"@);
}

/// The control side names every method that it serves.
pub proof fn law_control_names_what_it_serves<N>(c: &Control<N>, methods: Vec<String>)
    requires
        call_ensures(Control::<N>::methods, (c,), methods),
    ensures
        methods.deep_view().len() == 14,
        methods.deep_view().contains("list_channels"@),
        methods.deep_view().contains("open_channel"@),
        methods.deep_view().contains("close_channel"@),
        methods.deep_view().contains("list_peers"@),
        methods.deep_view().contains("connect_peer"@),
        methods.deep_view().contains("disconnect_peer"@),
        methods.deep_view().contains("get_channel_fees"@),
        methods.deep_view().contains("set_channel_fees"@),
        methods.deep_view().contains("query_routes"@),
        methods.deep_view().contains("get_forwarding_history"@),
        methods.deep_view().contains("list_network_nodes"@),
        methods.deep_view().contains("get_network_node"@),
        methods.deep_view().contains("get_network_stats"@),
        methods.deep_view().contains("get_network_channel"@),
{
    let m = methods.deep_view();
    assert(m[0] == "list_channels"@ && m[1] == "open_channel"@ && m[2] == "close_channel"@);
    assert(m[3] == "list_peers"@ && m[4] == "connect_peer"@ && m[5] == "disconnect_peer"@);
    assert(m[6] == "get_channel_fees"@ && m[7] == "set_channel_fees"@ && m[8] == "query_routes"@);
    assert(m[9] == "get_forwarding_history"@ && m[10] == "list_network_nodes"@);
    assert(m[11] == "get_network_node"@ && m[12] == "get_network_stats"@);
    assert(m[13] == "get_network_channel"@);
}

/// The wallet can be paid by invoice, by offer, and on chain to taproot addresses alone.
pub proof fn law_capabilities(c: Vec<Bip321Capability>)
    requires
        call_ensures(Wallet::capabilities, (), c),
    ensures
        c@.len() == 3,
        c@[0].method@ == "bolt11"@ && c@[0].address_types is None,
        c@[1].method@ == "bolt12"@ && c@[1].address_types is None,
        c@[2].method@ == "onchain"@ && c@[2].address_types.deep_view() == Some(seq!["p2tr"@]),
{
    let seen = c@.map_values(|c: Bip321Capability| capability(c));
    assert(seen.len() == 3);
    assert(seen[0] == capability(c@[0]) && seen[1] == capability(c@[1]) && seen[2] == capability(
        c@[2],
    ));
    assert(seen == wallet_capabilities());
}

}
