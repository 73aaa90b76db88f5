//! Every call into std or another crate that is taken on trust.
//!
//! Nothing here decides anything: a function makes an outside call, reads or
//! fills an outside value field by field, and turns what it takes and gives into
//! plain values. What the rest of the library proves, it proves from the
//! contracts in this file.

use bip321::Bip321Uri;
use ldk_node::bitcoin::address::NetworkUnchecked;
use ldk_node::bitcoin::{Address, Amount};
use ldk_node::lightning::offers::offer::Offer;
use ldk_node::lightning_invoice::Bolt11Invoice;
use vstd::prelude::*;
use vstd::string::*;
use vstd::utf8::{decode_utf8, encode_utf8, valid_utf8};

use crate::digits::{bytes_of_hex, hex_text};
use crate::params::{encoded, is_param, with_params};

verus! {

// ── text ─────────────────────────────────────────────────────────────

/// The characters with the Unicode property `White_Space`.
pub open spec fn is_white_space(c: char) -> bool {
    ||| '\u{9}' <= c <= '\u{d}'
    ||| c == '\u{20}'
    ||| c == '\u{85}'
    ||| c == '\u{a0}'
    ||| c == '\u{1680}'
    ||| '\u{2000}' <= c <= '\u{200a}'
    ||| c == '\u{2028}'
    ||| c == '\u{2029}'
    ||| c == '\u{202f}'
    ||| c == '\u{205f}'
    ||| c == '\u{3000}'
}

/// `text` without the white space at its front.
pub open spec fn trimmed_front(text: Seq<char>) -> Seq<char>
    decreases text.len(),
{
    if text.len() > 0 && is_white_space(text[0]) {
        trimmed_front(text.drop_first())
    } else {
        text
    }
}

/// `text` without the white space at its back.
pub open spec fn trimmed_back(text: Seq<char>) -> Seq<char>
    decreases text.len(),
{
    if text.len() > 0 && is_white_space(text.last()) {
        trimmed_back(text.drop_last())
    } else {
        text
    }
}

/// `text` without the white space around it.
pub open spec fn trimmed(text: Seq<char>) -> Seq<char> {
    trimmed_back(trimmed_front(text))
}

/// `str::trim`: the text without leading and trailing white space, which std
/// defines by the Unicode property `White_Space`.
pub assume_specification[ str::trim ](text: &str) -> (inner: &str)
    ensures
        inner@ == trimmed(text@),
;

/// `String::from_utf8`: the text that some bytes encode, or nothing where they
/// are not UTF-8.
#[verifier::external_body]
pub(crate) fn text_of_utf8(bytes: Vec<u8>) -> (text: Option<String>)
    ensures
        match text {
            Some(t) => valid_utf8(bytes@) && t@ == decode_utf8(bytes@),
            None => !valid_utf8(bytes@),
        },
{
    String::from_utf8(bytes).ok()
}

// ── the clock ────────────────────────────────────────────────────────

#[verifier::external_type_specification]
#[verifier::external_body]
pub struct ExSystemTime(std::time::SystemTime);

#[verifier::external_type_specification]
#[verifier::external_body]
pub struct ExSystemTimeError(std::time::SystemTimeError);

/// `SystemTime::now`: the machine's clock, of which nothing is promised.
pub assume_specification[ std::time::SystemTime::now ]() -> std::time::SystemTime
;

/// `SystemTime::duration_since` from the Unix epoch. The machine's clock
/// decides the result, so nothing is promised of it.
#[verifier::external_body]
pub(crate) fn since_epoch(time: &std::time::SystemTime) -> Result<
    std::time::Duration,
    std::time::SystemTimeError,
> {
    time.duration_since(std::time::UNIX_EPOCH)
}

/// `Duration::as_secs`: the whole seconds of a duration that the clock gave.
pub assume_specification[ std::time::Duration::as_secs ](duration: &std::time::Duration) -> u64
;

// ── hex and hashes ───────────────────────────────────────────────────

/// `hex::encode`: two lower-case digits for each byte, the high half first.
#[verifier::external_body]
pub(crate) fn hex_encode(bytes: &[u8; 32]) -> (text: String)
    ensures
        text@ == hex_text(bytes@),
{
    hex::encode(bytes)
}

/// `hex::decode`: the bytes that the digits spell, or nothing where the
/// length is odd or a character is no hex digit of either case.
#[verifier::external_body]
pub(crate) fn hex_decode(text: &str) -> (bytes: Option<Vec<u8>>)
    ensures
        bytes.deep_view() == bytes_of_hex(text@),
{
    hex::decode(text).ok()
}

/// The SHA-256 digest of some bytes.
pub uninterp spec fn sha256_digest(bytes: Seq<u8>) -> Seq<u8>;

/// `sha256::Hash::hash` of the `hashes` crate that `nwc` exports, as its
/// `Display` prints it: the 32 bytes of the digest in hex, first byte first.
#[verifier::external_body]
pub(crate) fn sha256_text(bytes: &[u8]) -> (text: String)
    ensures
        text@ == hex_text(sha256_digest(bytes@)),
        text@.len() == 64,
{
    <nwc::nostr::hashes::sha256::Hash as nwc::nostr::hashes::Hash>::hash(bytes).to_string()
}

/// `ChannelId`'s `Display`: its 32 bytes in hex, first byte first.
#[verifier::external_body]
pub(crate) fn channel_id_text(id: [u8; 32]) -> (text: String)
    ensures
        text@ == hex_text(id@),
{
    ldk_node::lightning::ln::types::ChannelId(id).to_string()
}

// ── payment instructions ─────────────────────────────────────────────

/// The id of the BOLT 12 offer that a text encodes, where it encodes one.
pub uninterp spec fn offer_id_of(text: Seq<char>) -> Option<Seq<u8>>;

/// `Offer::from_str`, and `Offer::id` of the offer it reads.
#[verifier::external_body]
pub(crate) fn offer_id(text: &str) -> (id: Option<[u8; 32]>)
    ensures
        id.deep_view() == offer_id_of(text@),
{
    text.parse::<Offer>().ok().map(|offer| offer.id().0)
}

/// What a BOLT 11 invoice asks for and of whom.
#[derive(Debug, PartialEq, Eq)]
pub struct InvoiceTerms {
    /// The amount, where the invoice names one.
    pub amount_msat: Option<u64>,
    /// The payee's public key.
    pub payee: String,
}

/// An invoice by its contents.
pub struct InvoiceView {
    pub amount_msat: Option<u64>,
    pub payee: Seq<char>,
}

impl View for InvoiceTerms {
    type V = InvoiceView;

    open spec fn view(&self) -> InvoiceView {
        InvoiceView { amount_msat: self.amount_msat, payee: self.payee@ }
    }
}

/// The BOLT 11 invoice that a text encodes, or why it encodes none.
pub uninterp spec fn invoice_terms_of(text: Seq<char>) -> Result<InvoiceView, Seq<char>>;

/// `Bolt11Invoice::from_str`, with `amount_milli_satoshis` and
/// `recover_payee_pub_key` of the invoice it reads. An error is given as its
/// own `Display` prints it.
#[verifier::external_body]
pub(crate) fn invoice_terms(text: &str) -> (terms: Result<InvoiceTerms, String>)
    ensures
        match terms {
            Ok(t) => invoice_terms_of(text@) == Ok::<_, Seq<char>>(t@),
            Err(e) => invoice_terms_of(text@) == Err::<InvoiceView, _>(e@),
        },
{
    match text.parse::<Bolt11Invoice>() {
        Ok(invoice) => Ok(
            InvoiceTerms {
                amount_msat: invoice.amount_milli_satoshis(),
                payee: invoice.recover_payee_pub_key().to_string(),
            },
        ),
        Err(e) => Err(e.to_string()),
    }
}

/// Whether a text encodes a Bitcoin address, of whatever network.
pub uninterp spec fn is_address(text: Seq<char>) -> bool;

/// Whether a text is made of ASCII letters and digits.
pub open spec fn is_alphanumeric(text: Seq<char>) -> bool {
    forall|i: int|
        0 <= i < text.len() ==> '0' <= #[trigger] text[i] <= '9' || 'A' <= text[i] <= 'Z' || 'a'
            <= text[i] <= 'z'
}

/// Whether a text encodes an address, in letters and digits.
pub open spec fn is_plain_address(text: Seq<char>) -> bool {
    is_address(text) && text.len() > 0 && is_alphanumeric(text)
}

/// Whether `Address::from_str` reads an address. It reads base58 and bech32, both
/// of them letters and digits, and no empty text.
#[verifier::external_body]
pub(crate) fn parses_as_address(text: &str) -> (found: bool)
    ensures
        found == is_address(text@),
        found ==> is_plain_address(text@),
{
    text.parse::<Address<NetworkUnchecked>>().is_ok()
}

/// What is left to the URI crate of a BIP 321 URI.
#[derive(Debug, PartialEq, Eq)]
pub struct UriTerms {
    pub amount_sat: Option<u64>,
    pub label: Option<String>,
    pub message: Option<String>,
}

/// What is left to the URI crate, by its contents.
#[verifier::ext_equal]
pub struct UriTermsView {
    pub amount_sat: Option<u64>,
    pub label: Option<Seq<char>>,
    pub message: Option<Seq<char>>,
}

impl View for UriTerms {
    type V = UriTermsView;

    open spec fn view(&self) -> UriTermsView {
        UriTermsView {
            amount_sat: self.amount_sat,
            label: self.label.deep_view(),
            message: self.message.deep_view(),
        }
    }
}

/// What the URI crate reads in a text, or why it reads no URI in it.
pub uninterp spec fn uri_terms_of(text: Seq<char>) -> Result<UriTermsView, Seq<char>>;

/// `Bip321Uri::from_str`, with the amount, label and message of the URI it
/// reads. An error is given as its `Display` prints it. The parser cuts the text
/// at fixed byte offsets, which need not be character boundaries in a text
/// beyond ASCII.
#[verifier::external_body]
pub(crate) fn read_uri(text: &str) -> (uri: Result<UriTerms, String>)
    requires
        text.is_ascii(),
    ensures
        match uri {
            Ok(u) => uri_terms_of(text@) == Ok::<_, Seq<char>>(u@),
            Err(e) => uri_terms_of(text@) == Err::<UriTermsView, _>(e@),
        },
{
    match text.parse::<Bip321Uri>() {
        Ok(u) => Ok(
            UriTerms {
                amount_sat: u.amount().map(|a| a.to_sat()),
                label: u.label().cloned(),
                message: u.message().cloned(),
            },
        ),
        Err(e) => Err(e.to_string()),
    }
}

/// The text that the URI crate writes for an amount, a label, a message and some
/// silent payment codes.
pub uninterp spec fn uri_text_of(uri: UriTermsView, codes: Seq<Seq<char>>) -> Seq<char>;

/// Whether a text starts with another.
pub open spec fn starts_with(text: Seq<char>, start: Seq<char>) -> bool {
    start.len() <= text.len() && text.take(start.len() as int) == start
}

/// Whether a text is the parameter for an amount other than zero, for a label or
/// for a message.
pub open spec fn is_term(param: Seq<char>) -> bool {
    &&& is_param(param)
    &&& {
        ||| starts_with(param, "amount="@) && exists|i: int|
            7 <= i < param.len() && '1' <= #[trigger] param[i] <= '9'
        ||| starts_with(param, "label="@)
        ||| starts_with(param, "message="@)
    }
}

/// The parameters for some silent payment codes.
pub open spec fn code_params(codes: Seq<Seq<char>>) -> Seq<Seq<char>> {
    codes.map_values(|code: Seq<char>| "sp="@ + encoded(encode_utf8(code)))
}

/// Whether a text is laid out as the URI crate does it: the scheme, and behind a
/// question mark the parameters, if there are any, the codes last.
pub open spec fn is_laid_out(text: Seq<char>, codes: Seq<Seq<char>>) -> bool {
    exists|terms: Seq<Seq<char>>|
        (forall|i: int| 0 <= i < terms.len() ==> is_term(#[trigger] terms[i])) && text
            == #[trigger] with_params("bitcoin:"@, terms + code_params(codes))
}

/// Whether the URI crate read those terms.
pub open spec fn is_read_as(read: Result<UriTermsView, Seq<char>>, uri: UriTermsView) -> bool {
    read matches Ok(terms) && terms == uri
}

/// A `Bip321Uri` made by its setters, as its `Display` prints it. The setters
/// refuse an amount of zero, and take a silent payment code as it stands.
///
/// `Display` percent-encodes a parameter's value, all but letters, digits and four
/// marks, and `Bip321Uri::from_str` decodes what it encodes in a label or message.
/// It reads a URI only where there is something to pay in it, such as a code.
#[verifier::external_body]
pub(crate) fn write_uri(uri: UriTerms, codes: Vec<String>) -> (text: String)
    requires
        uri.amount_sat != Some(0u64),
    ensures
        text@ == uri_text_of(uri@, codes.deep_view()),
        is_laid_out(text@, codes.deep_view()),
        codes@.len() > 0 ==> is_read_as(uri_terms_of(text@), uri@),
{
    let mut u: Bip321Uri = Bip321Uri::new();
    if let Some(sat) = uri.amount_sat {
        let _ = u.set_amount(Amount::from_sat(sat));
    }
    if let Some(label) = uri.label {
        u.set_label(label)
    }
    if let Some(message) = uri.message {
        u.set_message(message)
    }
    for code in codes { u.push_sp(code, false) }
    u.to_string()
}

// ── JSON ─────────────────────────────────────────────────────────────

#[verifier::external_type_specification]
#[verifier::external_body]
pub struct ExValue(serde_json::Value);

/// The names of a JSON object's members; none of any other value.
pub uninterp spec fn json_names(value: serde_json::Value) -> Set<Seq<char>>;

/// The members of a JSON object that are text or null, null as `None`.
pub uninterp spec fn json_texts(value: serde_json::Value) -> Map<Seq<char>, Option<Seq<char>>>;

/// `Value::get` by name, and `Value::as_str` of the member it finds.
#[verifier::external_body]
pub(crate) fn json_text(value: &serde_json::Value, name: &str) -> (text: Option<String>)
    ensures
        text.deep_view() == (if json_texts(*value).contains_key(name@) {
            json_texts(*value)[name@]
        } else {
            None
        }),
{
    value.get(name).and_then(|member| member.as_str()).map(|text| text.to_string())
}

/// `Value::Object` of the given members, collected into a `serde_json::Map`:
/// text as a JSON string and `None` as null.
#[verifier::external_body]
pub(crate) fn json_object(members: Vec<(String, Option<String>)>) -> (value: serde_json::Value)
    requires
        forall|i: int, j: int|
            0 <= i < j < members@.len() ==> (#[trigger] members@[i]).0@ != (#[trigger] members@[j]).0@,
    ensures
        json_names(value) == members@.map_values(|m: (String, Option<String>)| m.0@).to_set(),
        json_texts(value).dom() == json_names(value),
        forall|i: int|
            0 <= i < members@.len() ==> json_texts(value)[(#[trigger] members@[i]).0@]
                == members@[i].1.deep_view(),
{
    serde_json::Value::Object(
        members.into_iter().map(|(name, text)| (name, serde_json::Value::from(text))).collect(),
    )
}

}
