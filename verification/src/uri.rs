//! BIP 321 payment URIs.
//!
//! A crate reads and writes the texts. Invoices, offers and addresses it would
//! parse and print anew, an address of the main network alone, and an amount of
//! zero it would refuse. This node takes all of these as they stand, so they are
//! not left to it. It is handed each instruction as a silent payment code, which
//! it takes as it stands, and an amount of zero not at all; in what it writes, the
//! codes are turned back into what they stand for.

use vstd::prelude::*;
use vstd::string::*;
use vstd::utf8::{encode_utf8, is_ascii_chars};

use crate::foreign::{
    code_params, is_address, is_laid_out, is_plain_address, is_term, is_white_space,
    parses_as_address, read_uri, starts_with, trimmed, trimmed_back, trimmed_front, uri_terms_of,
    uri_text_of, write_uri, UriTerms, UriTermsView,
};
use crate::params::{
    append_params, are_ascii, are_params, decode, decoded, encoded, escaped_text, find, in_ascii,
    is_param, is_visible, lemma_alphanumeric_is_not_encoded, lemma_ascii_is_not_escaped,
    lemma_encoded_is_param, lemma_params_are_ascii, lemma_params_are_found,
    lemma_params_are_visible, lemma_text_is_read, next_char, params_from, split_params,
    with_params,
};

verus! {

// ── what a URI carries ───────────────────────────────────────────────

/// What a BIP 321 URI carries, as far as this node reads or writes it.
#[derive(Debug, PartialEq, Eq)]
pub struct PaymentUri {
    pub amount_sat: Option<u64>,
    /// Names the payee.
    pub label: Option<String>,
    /// Says what the payment is for.
    pub message: Option<String>,
    /// BOLT 11 invoices, in order, as they stand.
    pub lightning: Vec<String>,
    /// BOLT 12 offers, in order, as they stand.
    pub lno: Vec<String>,
    /// An address, of whatever network, as it stands.
    pub address: Option<String>,
}

/// A URI by its contents.
#[verifier::ext_equal]
pub struct UriView {
    pub amount_sat: Option<u64>,
    pub label: Option<Seq<char>>,
    pub message: Option<Seq<char>>,
    pub lightning: Seq<Seq<char>>,
    pub lno: Seq<Seq<char>>,
    pub address: Option<Seq<char>>,
}

impl View for PaymentUri {
    type V = UriView;

    open spec fn view(&self) -> UriView {
        UriView {
            amount_sat: self.amount_sat,
            label: self.label.deep_view(),
            message: self.message.deep_view(),
            lightning: self.lightning.deep_view(),
            lno: self.lno.deep_view(),
            address: self.address.deep_view(),
        }
    }
}

/// Whether a URI has something to pay.
pub open spec fn has_instruction(uri: UriView) -> bool {
    uri.lightning.len() > 0 || uri.lno.len() > 0 || uri.address is Some
}

/// Whether the address of a URI, if it has one, parses.
pub open spec fn is_sound(uri: UriView) -> bool {
    uri.address is Some ==> is_plain_address(uri.address->0)
}

// ── the parameters of a URI ──────────────────────────────────────────

/// Where the address slot ends, which starts behind the scheme's eight
/// characters.
pub open spec fn slot_end(text: Seq<char>) -> int {
    next_char(text, '?', 8)
}

/// The parameters of a URI.
pub open spec fn params_of(text: Seq<char>) -> Seq<Seq<char>> {
    let q = slot_end(text);
    if q < text.len() {
        params_from(text, q + 1, q + 1)
    } else {
        seq![]
    }
}

/// Whether `c` is the lower-case letter or other character `l`, in either case.
pub open spec fn is_same_letter(c: char, l: char) -> bool {
    c == l || 'A' <= c <= 'Z' && c as int + 32 == l as int
}

/// What follows a start in a text, if it starts with it in either case.
pub open spec fn after(text: Seq<char>, start: Seq<char>) -> Option<Seq<char>> {
    if start.len() <= text.len() && (forall|i: int|
        0 <= i < start.len() ==> is_same_letter(#[trigger] text[i], start[i])) {
        Some(text.skip(start.len() as int))
    } else {
        None
    }
}

/// The value of a parameter with a given name, which stands with its equals sign.
/// One that a payer must understand has a mark in front of its name.
pub open spec fn value_in(param: Seq<char>, name: Seq<char>) -> Option<Seq<char>> {
    match after(param, "req-"@) {
        Some(marked) => after(marked, name),
        None => after(param, name),
    }
}

/// Whether a text is a decimal zero, in whole or to at most eight places.
pub open spec fn is_zero(text: Seq<char>) -> bool {
    &&& 1 <= text.len() <= 10
    &&& text[0] == '0'
    &&& text.len() > 1 ==> text[1] == '.'
    &&& forall|i: int| 2 <= i < text.len() ==> #[trigger] text[i] == '0'
}

/// Whether a parameter is an amount of zero.
pub open spec fn is_zero_amount(param: Seq<char>) -> bool {
    value_in(param, "amount="@) matches Some(amount) && is_zero(amount)
}

/// The parameters of a URI, sorted.
#[verifier::ext_equal]
pub struct SortedView {
    /// Whether an amount of zero is among them.
    pub zero: bool,
    pub lightning: Seq<Seq<char>>,
    pub lno: Seq<Seq<char>>,
    /// What is handed to the crate.
    pub handed: Seq<Seq<char>>,
}

/// No parameters.
pub open spec fn no_params() -> SortedView {
    SortedView { zero: false, lightning: seq![], lno: seq![], handed: seq![] }
}

/// Sorted parameters with one more.
pub open spec fn with_param(s: SortedView, param: Seq<char>) -> SortedView {
    if !s.zero && is_zero_amount(param) {
        SortedView { zero: true, ..s }
    } else if value_in(param, "lightning="@) is Some {
        let value = value_in(param, "lightning="@)->0;
        SortedView {
            lightning: s.lightning.push(decoded(value)),
            handed: s.handed.push("sp="@ + value),
            ..s
        }
    } else if value_in(param, "lno="@) is Some {
        let value = value_in(param, "lno="@)->0;
        SortedView {
            lno: s.lno.push(decoded(value)),
            handed: s.handed.push("sp="@ + value),
            ..s
        }
    } else {
        SortedView { handed: s.handed.push(param), ..s }
    }
}

/// Parameters, sorted: an amount of zero is taken out, and what is in an invoice
/// or an offer is handed over as a silent payment code.
pub open spec fn sorted(params: Seq<Seq<char>>) -> SortedView
    decreases params.len(),
{
    if params.len() == 0 {
        no_params()
    } else {
        with_param(sorted(params.drop_last()), params.last())
    }
}

// ── reading ──────────────────────────────────────────────────────────

/// The address in the slot of a URI, where there is one.
pub open spec fn slot_address(text: Seq<char>) -> Option<Seq<char>> {
    let q = slot_end(text);
    if 8 < q <= text.len() && is_address(text.subrange(8, q)) {
        Some(text.subrange(8, q))
    } else {
        None
    }
}

/// What the crate is handed of a URI. A slot that holds an address is handed over
/// as one more silent payment code.
pub open spec fn handed_over(text: Seq<char>) -> Seq<char> {
    let handed = sorted(params_of(text)).handed;
    match slot_address(text) {
        Some(address) => with_params(text.take(8), handed.push("sp="@ + address)),
        None => with_params(text.take(slot_end(text)), handed),
    }
}

/// What a URI carries, given what the crate read of it.
pub open spec fn carried(
    read: Result<UriTermsView, Seq<char>>,
    s: SortedView,
    address: Option<Seq<char>>,
) -> Result<UriView, Seq<char>> {
    match read {
        Ok(terms) => if s.zero && terms.amount_sat is Some {
            Err("the amount is given twice"@)
        } else {
            Ok(
                UriView {
                    amount_sat: if s.zero {
                        Some(0u64)
                    } else {
                        terms.amount_sat
                    },
                    label: terms.label,
                    message: terms.message,
                    lightning: s.lightning,
                    lno: s.lno,
                    address,
                },
            )
        },
        Err(why) => Err(why),
    }
}

/// What the URI in a text carries, or why it is none. White space around it is no
/// part of it.
pub open spec fn carried_by(text: Seq<char>) -> Result<UriView, Seq<char>> {
    let t = escaped_text(trimmed(text));
    carried(uri_terms_of(handed_over(t)), sorted(params_of(t)), slot_address(t))
}

/// What was read, by its contents.
pub open spec fn terms_view(read: Result<UriTerms, String>) -> Result<UriTermsView, Seq<char>> {
    match read {
        Ok(u) => Ok(u@),
        Err(e) => Err(e@),
    }
}

/// A URI by its contents, or why it is none.
pub open spec fn uri_view(uri: Result<PaymentUri, String>) -> Result<UriView, Seq<char>> {
    match uri {
        Ok(u) => Ok(u@),
        Err(e) => Err(e@),
    }
}

/// The parameters of a URI, sorted.
#[derive(Debug, PartialEq, Eq)]
pub struct Sorted {
    pub zero: bool,
    pub lightning: Vec<String>,
    pub lno: Vec<String>,
    pub handed: Vec<String>,
}

impl View for Sorted {
    type V = SortedView;

    open spec fn view(&self) -> SortedView {
        SortedView {
            zero: self.zero,
            lightning: self.lightning.deep_view(),
            lno: self.lno.deep_view(),
            handed: self.handed.deep_view(),
        }
    }
}

fn strip<'a>(text: &'a str, start: &str) -> (rest: Option<&'a str>)
    requires
        text.is_ascii(),
        start.is_ascii(),
    ensures
        rest.deep_view() == after(text@, start@),
        rest matches Some(r) ==> r.is_ascii(),
{
    let n: usize = text.unicode_len();
    let m: usize = start.unicode_len();
    if n < m {
        return None;
    }
    for i in 0..m
        invariant
            text.is_ascii(),
            start.is_ascii(),
            n == text@.len(),
            m == start@.len(),
            m <= n,
            forall|j: int| 0 <= j < i ==> is_same_letter(#[trigger] text@[j], start@[j]),
    {
        let c = text.get_char(i);
        let l = start.get_char(i);
        if !(c == l || 'A' <= c && c <= 'Z' && c as u32 + 32 == l as u32) {
            assert(!is_same_letter(text@[i as int], start@[i as int]));
            return None;
        }
    }
    assert(text@.subrange(m as int, n as int) =~= text@.skip(m as int));
    Some(text.substring_ascii(m, n))
}

fn value<'a>(param: &'a str, name: &str) -> (value: Option<&'a str>)
    requires
        param.is_ascii(),
        name.is_ascii(),
    ensures
        value.deep_view() == value_in(param@, name@),
        value matches Some(v) ==> v.is_ascii(),
{
    proof {
        reveal_strlit("req-");
    }
    match strip(param, "req-") {
        Some(marked) => strip(marked, name),
        None => strip(param, name),
    }
}

fn spells_zero(text: &str) -> (zero: bool)
    requires
        text.is_ascii(),
    ensures
        zero == is_zero(text@),
{
    let n: usize = text.unicode_len();
    if n < 1 || n > 10 || text.get_char(0) != '0' {
        return false;
    }
    if n > 1 && text.get_char(1) != '.' {
        return false;
    }
    let mut i: usize = 2;
    while i < n
        invariant
            text.is_ascii(),
            n == text@.len(),
            2 <= i,
            forall|j: int| 2 <= j < i && j < n ==> #[trigger] text@[j] == '0',
        decreases n - i,
    {
        if text.get_char(i) != '0' {
            return false;
        }
        i = i + 1;
    }
    true
}

fn names_zero(param: &str) -> (zero: bool)
    requires
        param.is_ascii(),
    ensures
        zero == is_zero_amount(param@),
{
    proof {
        reveal_strlit("amount=");
    }
    match value(param, "amount=") {
        Some(amount) => spells_zero(amount),
        None => false,
    }
}

fn code(text: &str) -> (param: String)
    ensures
        param@ == "sp="@ + text@,
{
    let mut param = "sp=".to_string();
    param.append(text);
    param
}

/// Sorts the parameters of a URI.
pub fn sort(params: Vec<String>) -> (s: Sorted)
    requires
        are_ascii(params.deep_view()),
    ensures
        s@ == sorted(params.deep_view()),
        are_ascii(s@.handed),
{
    let mut s = Sorted {
        zero: false,
        lightning: Vec::new(),
        lno: Vec::new(),
        handed: Vec::new(),
    };
    let ghost all = params.deep_view();
    assert(s@ =~= no_params());
    for i in 0..params.len()
        invariant
            all == params.deep_view(),
            are_ascii(all),
            s@ == sorted(all.take(i as int)),
            are_ascii(s@.handed),
    {
        let ghost before = s@;
        let param = params[i].as_str();
        proof {
            assert(all.take(i + 1).drop_last() =~= all.take(i as int));
            assert(all[i as int] == param@);
            assert(is_ascii_chars(all[i as int]));
            reveal_strlit("lightning=");
            reveal_strlit("lno=");
            reveal_strlit("sp=");
        }
        if !s.zero && names_zero(param) {
            s.zero = true;
        } else if let Some(v) = value(param, "lightning=") {
            s.lightning.push(decode(v));
            s.handed.push(code(v));
        } else if let Some(v) = value(param, "lno=") {
            s.lno.push(decode(v));
            s.handed.push(code(v));
        } else {
            s.handed.push(params[i].clone());
        }
        assert(s@ =~~= with_param(before, param@));
    }
    assert(all.take(all.len() as int) =~= all);
    s
}

/// What a URI carries, given what the crate read of it.
pub fn taken(read: Result<UriTerms, String>, s: Sorted, address: Option<String>) -> (uri: Result<
    PaymentUri,
    String,
>)
    ensures
        uri_view(uri) == carried(terms_view(read), s@, address.deep_view()),
{
    let terms = match read {
        Ok(terms) => terms,
        Err(e) => {
            return Err(e);
        },
    };
    if s.zero && terms.amount_sat.is_some() {
        return Err("the amount is given twice".to_string());
    }
    Ok(
        PaymentUri {
            amount_sat: if s.zero {
                Some(0)
            } else {
                terms.amount_sat
            },
            label: terms.label,
            message: terms.message,
            lightning: s.lightning,
            lno: s.lno,
            address,
        },
    )
}

/// Reads the URI in a text. White space around it is no part of it.
pub fn read_text(text: &str) -> (uri: Result<PaymentUri, String>)
    ensures
        uri_view(uri) == carried_by(text@),
{
    let owned = in_ascii(text.trim());
    let t = owned.as_str();
    let n: usize = t.unicode_len();
    let q = find(t, '?', 8);
    let params = if q < n {
        split_params(t, q + 1)
    } else {
        Vec::new()
    };
    assert(params.deep_view() =~= params_of(t@));
    let mut s = sort(params);
    let mut address: Option<String> = None;
    let mut head = t.substring_ascii(0, q).to_owned();
    assert(t@.subrange(0, q as int) =~= t@.take(q as int));
    if q > 8 {
        let slot = t.substring_ascii(8, q);
        if parses_as_address(slot) {
            address = Some(slot.to_owned());
            head = t.substring_ascii(0, 8).to_owned();
            assert(t@.subrange(0, 8) =~= t@.take(8));
        }
    }
    let ghost sorted_params = s@;
    let mut handed: Vec<String> = Vec::new();
    std::mem::swap(&mut handed, &mut s.handed);
    if let Some(slot) = &address {
        handed.push(code(slot.as_str()));
        assert(handed.deep_view() =~= sorted_params.handed.push("sp="@ + slot@));
    }
    proof {
        reveal_strlit("sp=");
        assert(are_ascii(handed.deep_view()));
        lemma_params_are_ascii(head@, handed.deep_view());
    }
    let handed = append_params(head, &handed);
    assert(handed@ == handed_over(t@));
    taken(read_uri(handed.as_str()), s, address)
}

// ── writing ──────────────────────────────────────────────────────────

/// Whether a URI was read as it was written.
pub open spec fn reads_back(read: Result<UriView, Seq<char>>, uri: UriView) -> bool {
    read matches Ok(v) && v == uri
}

/// What is left to the crate of a URI.
pub open spec fn terms_of(uri: UriView) -> UriTermsView {
    UriTermsView {
        amount_sat: if uri.amount_sat == Some(0u64) {
            None
        } else {
            uri.amount_sat
        },
        label: uri.label,
        message: uri.message,
    }
}

/// What the crate takes for silent payment codes: the invoices, the offers and
/// the address.
pub open spec fn codes_of(uri: UriView) -> Seq<Seq<char>> {
    uri.lightning + uri.lno + (match uri.address {
        Some(address) => seq![address],
        None => seq![],
    })
}

/// The parameters for some codes under another name.
pub open spec fn renamed(name: Seq<char>, params: Seq<Seq<char>>) -> Seq<Seq<char>> {
    params.map_values(|param: Seq<char>| name + param.skip(3))
}

/// The parameter for an amount of zero, where there is one.
pub open spec fn zero_param(zero: bool) -> Seq<Seq<char>> {
    if zero {
        seq!["amount=0"@]
    } else {
        seq![]
    }
}

/// The scheme and the address that a URI starts with.
pub open spec fn head_of(address: Option<Seq<char>>) -> Seq<char> {
    match address {
        Some(address) => "bitcoin:"@ + address,
        None => "bitcoin:"@,
    }
}

/// How many of a URI's parameters come before those for codes.
pub open spec fn codes_start(text: Seq<char>, lightning: int, lno: int, address: bool) -> int {
    params_of(text).len() - lightning - lno - (if address {
        1int
    } else {
        0
    })
}

/// The text of a URI, given what the crate wrote of it: an amount of zero is put
/// in, and the codes, which come last, are put under the names of what they stand
/// for, or into the address slot.
pub open spec fn completed(
    text: Seq<char>,
    lightning: int,
    lno: int,
    address: Option<Seq<char>>,
    zero: bool,
) -> Seq<char> {
    let params = params_of(text);
    let n = codes_start(text, lightning, lno, address is Some);
    with_params(
        head_of(address),
        zero_param(zero) + params.take(n) + renamed(
            "lightning="@,
            params.subrange(n, n + lightning),
        ) + renamed("lno="@, params.subrange(n + lightning, n + lightning + lno)),
    )
}

/// The text of a URI.
pub open spec fn text_for(uri: UriView) -> Seq<char> {
    completed(
        uri_text_of(terms_of(uri), codes_of(uri)),
        uri.lightning.len() as int,
        uri.lno.len() as int,
        uri.address,
        uri.amount_sat == Some(0u64),
    )
}

fn rename(name: &str, param: &str) -> (renamed: String)
    requires
        param.is_ascii(),
        param@.len() >= 3,
    ensures
        renamed@ == name@ + param@.skip(3),
{
    let mut renamed = name.to_owned();
    let n: usize = param.unicode_len();
    renamed.append(param.substring_ascii(3, n));
    assert(param@.subrange(3, n as int) =~= param@.skip(3));
    renamed
}

/// Completes what the crate wrote of a URI.
pub fn complete(text: &str, lightning: usize, lno: usize, address: Option<String>, zero: bool) -> (out:
    String)
    requires
        text.is_ascii(),
        0 <= codes_start(text@, lightning as int, lno as int, address is Some),
        forall|i: int|
            codes_start(text@, lightning as int, lno as int, address is Some) <= i < params_of(
                text@,
            ).len() ==> (#[trigger] params_of(text@)[i]).len() >= 3,
    ensures
        out@ == completed(text@, lightning as int, lno as int, address.deep_view(), zero),
{
    let q = find(text, '?', 8);
    let params = if q < text.unicode_len() {
        split_params(text, q + 1)
    } else {
        Vec::new()
    };
    let ghost all = params_of(text@);
    assert(params.deep_view() =~= all);
    let n: usize = params.len() - lightning - lno - (if address.is_some() {
        1
    } else {
        0
    });
    let mut out: Vec<String> = Vec::new();
    if zero {
        out.push("amount=0".to_string());
    }
    assert(out.deep_view() =~= zero_param(zero));
    let ghost start = zero_param(zero);
    for i in 0..n
        invariant
            params.deep_view() == all,
            n <= params.len(),
            out.deep_view() == start + all.take(i as int),
    {
        let ghost before = out.deep_view();
        out.push(params[i].clone());
        assert(out.deep_view() =~= before.push(all[i as int]));
        assert(out.deep_view() =~= start + all.take(i + 1));
    }
    let ghost start = out.deep_view();
    for i in 0..lightning
        invariant
            params.deep_view() == all,
            are_ascii(all),
            n + lightning + lno <= params.len(),
            forall|j: int| n <= j < all.len() ==> (#[trigger] all[j]).len() >= 3,
            out.deep_view() == start + renamed("lightning="@, all.subrange(n as int, n + i)),
    {
        let ghost before = out.deep_view();
        assert(all[n + i] == params[n + i]@ && is_ascii_chars(all[n + i]));
        out.push(rename("lightning=", params[n + i].as_str()));
        assert(out.deep_view() =~= before.push("lightning="@ + all[n + i].skip(3)));
        assert(out.deep_view() =~= start + renamed("lightning="@, all.subrange(n as int, n + i + 1)));
    }
    let ghost start = out.deep_view();
    let m: usize = n + lightning;
    for i in 0..lno
        invariant
            params.deep_view() == all,
            are_ascii(all),
            m == n + lightning,
            n + lightning + lno <= params.len(),
            forall|j: int| n <= j < all.len() ==> (#[trigger] all[j]).len() >= 3,
            out.deep_view() == start + renamed("lno="@, all.subrange(m as int, m + i)),
    {
        let ghost before = out.deep_view();
        assert(all[m + i] == params[m + i]@ && is_ascii_chars(all[m + i]));
        out.push(rename("lno=", params[m + i].as_str()));
        assert(out.deep_view() =~= before.push("lno="@ + all[m + i].skip(3)));
        assert(out.deep_view() =~= start + renamed("lno="@, all.subrange(m as int, m + i + 1)));
    }
    let mut head = "bitcoin:".to_string();
    if let Some(a) = &address {
        head.append(a.as_str());
    }
    append_params(head, &out)
}

/// The terms stay as they are.
proof fn lemma_terms_stay(params: Seq<Seq<char>>, terms: Seq<Seq<char>>)
    requires
        forall|i: int| 0 <= i < terms.len() ==> is_term(#[trigger] terms[i]),
    ensures
        sorted(params + terms) == (SortedView {
            handed: sorted(params).handed + terms,
            ..sorted(params)
        }),
    decreases terms.len(),
{
    if terms.len() == 0 {
        assert(params + terms =~= params);
        assert(sorted(params).handed + terms =~= sorted(params).handed);
    } else {
        let before = terms.drop_last();
        assert forall|i: int| 0 <= i < before.len() implies is_term(#[trigger] before[i]) by {
            assert(is_term(terms[i]));
        }
        lemma_terms_stay(params, before);
        let p = terms.last();
        assert(is_term(terms[terms.len() - 1]));
        lemma_term_is_kept(p);
        assert((params + terms).drop_last() =~= params + before);
        assert(sorted(params).handed + terms =~= (sorted(params).handed + before).push(p));
    }
}

/// A term is neither an amount of zero nor an instruction.
proof fn lemma_term_is_kept(p: Seq<char>)
    requires
        is_term(p),
    ensures
        !is_zero_amount(p),
        value_in(p, "lightning="@) is None,
        value_in(p, "lno="@) is None,
{
    reveal_strlit("amount=");
    reveal_strlit("label=");
    reveal_strlit("message=");
    reveal_strlit("lightning=");
    reveal_strlit("lno=");
    reveal_strlit("req-");
    if starts_with(p, "amount="@) {
        assert(p[0] == p.take(7)[0]);
        let i = choose|i: int| 7 <= i < p.len() && '1' <= #[trigger] p[i] <= '9';
        assert(p.skip(7)[i - 7] == p[i]);
    } else if starts_with(p, "label="@) {
        assert(p[0] == p.take(6)[0]);
        assert(p[1] == p.take(6)[1]);
    } else {
        assert(p[0] == p.take(8)[0]);
    }
    assert(!is_same_letter(p[0], "req-"@[0]));
    assert(!is_same_letter(p[0], "amount="@[0]) || starts_with(p, "amount="@));
    assert(!is_same_letter(p[0], "lightning="@[0]) || !is_same_letter(p[1], "lightning="@[1]));
    assert(!is_same_letter(p[0], "lno="@[0]) || !is_same_letter(p[1], "lno="@[1]));
}

/// The parameters for some instructions.
pub open spec fn instruction_params(name: Seq<char>, texts: Seq<Seq<char>>) -> Seq<Seq<char>> {
    texts.map_values(|text: Seq<char>| name + encoded(encode_utf8(text)))
}

/// What is in a parameter under its name is its value.
proof fn lemma_value(name: Seq<char>, value: Seq<char>)
    requires
        name == "lightning="@ || name == "lno="@,
    ensures
        !is_zero_amount(name + value),
        value_in(name + value, name) == Some(value),
        name == "lno="@ ==> value_in(name + value, "lightning="@) is None,
{
    reveal_strlit("amount=");
    reveal_strlit("lightning=");
    reveal_strlit("lno=");
    reveal_strlit("req-");
    let p = name + value;
    assert(p[0] == 'l');
    assert(!is_same_letter(p[0], "amount="@[0]));
    assert(!is_same_letter(p[0], "req-"@[0]));
    assert forall|i: int| 0 <= i < name.len() implies is_same_letter(#[trigger] p[i], name[i]) by {}
    assert(p.skip(name.len() as int) =~= value);
    if name == "lno="@ {
        assert(!is_same_letter(p[1], "lightning="@[1]));
    }
}

/// Invoices are taken as they were written, and handed over as codes.
proof fn lemma_invoices_are_taken(params: Seq<Seq<char>>, texts: Seq<Seq<char>>)
    ensures
        sorted(params + instruction_params("lightning="@, texts)) == (SortedView {
            lightning: sorted(params).lightning + texts,
            handed: sorted(params).handed + code_params(texts),
            ..sorted(params)
        }),
    decreases texts.len(),
{
    let more = instruction_params("lightning="@, texts);
    let s = sorted(params);
    if texts.len() == 0 {
        assert(params + more =~= params);
        assert(s.lightning + texts =~= s.lightning);
        assert(s.handed + code_params(texts) =~= s.handed);
    } else {
        let before = texts.drop_last();
        lemma_invoices_are_taken(params, before);
        let value = encoded(encode_utf8(texts.last()));
        lemma_value("lightning="@, value);
        lemma_text_is_read(texts.last());
        assert((params + more).drop_last() =~= params + instruction_params("lightning="@, before));
        assert(s.lightning + texts =~= (s.lightning + before).push(texts.last()));
        assert(s.handed + code_params(texts) =~= (s.handed + code_params(before)).push(
            "sp="@ + value,
        ));
    }
}

/// Offers are taken as they were written, and handed over as codes.
proof fn lemma_offers_are_taken(params: Seq<Seq<char>>, texts: Seq<Seq<char>>)
    ensures
        sorted(params + instruction_params("lno="@, texts)) == (SortedView {
            lno: sorted(params).lno + texts,
            handed: sorted(params).handed + code_params(texts),
            ..sorted(params)
        }),
    decreases texts.len(),
{
    let more = instruction_params("lno="@, texts);
    let s = sorted(params);
    if texts.len() == 0 {
        assert(params + more =~= params);
        assert(s.lno + texts =~= s.lno);
        assert(s.handed + code_params(texts) =~= s.handed);
    } else {
        let before = texts.drop_last();
        lemma_offers_are_taken(params, before);
        let value = encoded(encode_utf8(texts.last()));
        lemma_value("lno="@, value);
        lemma_text_is_read(texts.last());
        assert((params + more).drop_last() =~= params + instruction_params("lno="@, before));
        assert(s.lno + texts =~= (s.lno + before).push(texts.last()));
        assert(s.handed + code_params(texts) =~= (s.handed + code_params(before)).push(
            "sp="@ + value,
        ));
    }
}

/// Where a character stands first, seen from what comes before it.
pub(crate) proof fn lemma_next_char(text: Seq<char>, c: char, from: int, at: int)
    requires
        0 <= from <= at <= text.len(),
        forall|i: int| from <= i < at ==> #[trigger] text[i] != c,
        at < text.len() ==> text[at] == c,
    ensures
        next_char(text, c, from) == at,
    decreases at - from,
{
    if from < at {
        lemma_next_char(text, c, from + 1, at);
    }
}

/// The parameters of a URI are those it was put together from.
proof fn lemma_params_of(head: Seq<char>, params: Seq<Seq<char>>)
    requires
        head.len() >= 8,
        is_visible(head),
        forall|i: int| 8 <= i < head.len() ==> #[trigger] head[i] != '?',
        are_params(params),
    ensures
        slot_end(with_params(head, params)) == head.len(),
        params_of(with_params(head, params)) == params,
        with_params(head, params).take(head.len() as int) == head,
        is_visible(with_params(head, params)),
{
    let text = with_params(head, params);
    let q = head.len() as int;
    assert forall|i: int| 8 <= i < q implies #[trigger] text[i] != '?' by {
        assert(text[i] == head[i]);
    }
    lemma_next_char(text, '?', 8, q);
    assert(text.take(q) =~= head);
    lemma_params_are_visible(head, params);
    if params.len() > 0 {
        lemma_params_are_found(head, params);
    } else {
        assert(params =~= seq![]);
    }
}

/// A parameter under a name that is visible can stand for one.
proof fn lemma_are_params(name: Seq<char>, texts: Seq<Seq<char>>)
    requires
        is_param(name),
    ensures
        are_params(instruction_params(name, texts)),
{
    assert forall|i: int| 0 <= i < texts.len() implies is_param(
        #[trigger] instruction_params(name, texts)[i],
    ) by {
        lemma_encoded_is_param(encode_utf8(texts[i]));
    }
}

/// What the crate wrote: the terms, and then the codes.
proof fn lemma_written(written: Seq<char>, codes: Seq<Seq<char>>) -> (terms: Seq<Seq<char>>)
    requires
        is_laid_out(written, codes),
    ensures
        forall|i: int| 0 <= i < terms.len() ==> is_term(#[trigger] terms[i]),
        written == with_params("bitcoin:"@, terms + code_params(codes)),
        params_of(written) == terms + code_params(codes),
        are_params(params_of(written)),
        is_visible(written),
        forall|i: int|
            terms.len() <= i < params_of(written).len() ==> (#[trigger] params_of(written)[i]).len()
                >= 3,
{
    let terms = choose|terms: Seq<Seq<char>>|
        (forall|i: int| 0 <= i < terms.len() ==> is_term(#[trigger] terms[i])) && written
            == #[trigger] with_params("bitcoin:"@, terms + code_params(codes));
    reveal_strlit("bitcoin:");
    reveal_strlit("sp=");
    let params = terms + code_params(codes);
    lemma_are_params("sp="@, codes);
    assert(instruction_params("sp="@, codes) =~= code_params(codes));
    assert forall|i: int| 0 <= i < params.len() implies is_param(#[trigger] params[i]) by {
        if i < terms.len() {
            assert(is_term(terms[i]));
        } else {
            assert(params[i] == code_params(codes)[i - terms.len()]);
        }
    }
    lemma_params_of("bitcoin:"@, params);
    terms
}

/// A text that is visible has no white space around it and nothing to escape.
pub(crate) proof fn lemma_visible_stays(text: Seq<char>)
    requires
        is_visible(text),
    ensures
        escaped_text(trimmed(text)) == text,
        is_ascii_chars(text),
{
    assert(text.len() > 0 ==> !is_white_space(text[0]));
    assert(trimmed_front(text) == text);
    assert(text.len() > 0 ==> !is_white_space(text[text.len() - 1]));
    assert(trimmed_back(text) == text);
    lemma_ascii_is_not_escaped(text);
}

/// The parameters that a URI is written with, given its terms.
spec fn all_params(uri: UriView, terms: Seq<Seq<char>>) -> Seq<Seq<char>> {
    zero_param(uri.amount_sat == Some(0u64)) + terms + instruction_params(
        "lightning="@,
        uri.lightning,
    ) + instruction_params("lno="@, uri.lno)
}

/// A URI is completed with its own instructions.
proof fn lemma_completed(written: Seq<char>, uri: UriView, terms: Seq<Seq<char>>)
    requires
        params_of(written) == terms + code_params(codes_of(uri)),
    ensures
        codes_start(
            written,
            uri.lightning.len() as int,
            uri.lno.len() as int,
            uri.address is Some,
        ) == terms.len(),
        completed(
            written,
            uri.lightning.len() as int,
            uri.lno.len() as int,
            uri.address,
            uri.amount_sat == Some(0u64),
        ) == with_params(head_of(uri.address), all_params(uri, terms)),
{
    reveal_strlit("sp=");
    let params = params_of(written);
    let n = terms.len() as int;
    let l = uri.lightning.len() as int;
    let m = uri.lno.len() as int;
    let codes = codes_of(uri);
    assert(params.take(n) =~= terms);
    assert forall|i: int| 0 <= i < codes.len() implies (#[trigger] params[n + i]).skip(3)
        == encoded(encode_utf8(codes[i])) by {
        assert(params[n + i] == code_params(codes)[i]);
        assert(params[n + i].skip(3) =~= encoded(encode_utf8(codes[i])));
    }
    assert(renamed("lightning="@, params.subrange(n, n + l)) =~= instruction_params(
        "lightning="@,
        uri.lightning,
    )) by {
        assert forall|i: int| 0 <= i < l implies renamed(
            "lightning="@,
            params.subrange(n, n + l),
        )[i] == #[trigger] instruction_params("lightning="@, uri.lightning)[i] by {
            assert(params.subrange(n, n + l)[i] == params[n + i]);
            assert(codes[i] == uri.lightning[i]);
        }
    }
    assert(renamed("lno="@, params.subrange(n + l, n + l + m)) =~= instruction_params(
        "lno="@,
        uri.lno,
    )) by {
        assert forall|i: int| 0 <= i < m implies renamed(
            "lno="@,
            params.subrange(n + l, n + l + m),
        )[i] == #[trigger] instruction_params("lno="@, uri.lno)[i] by {
            assert(params.subrange(n + l, n + l + m)[i] == params[n + (l + i)]);
            assert(codes[l + i] == uri.lno[i]);
        }
    }
}

/// What a URI is written with is sorted into what it holds and what the crate
/// wrote.
proof fn lemma_sorted(uri: UriView, terms: Seq<Seq<char>>)
    requires
        forall|i: int| 0 <= i < terms.len() ==> is_term(#[trigger] terms[i]),
    ensures
        sorted(all_params(uri, terms)) == (SortedView {
            zero: uri.amount_sat == Some(0u64),
            lightning: uri.lightning,
            lno: uri.lno,
            handed: terms + code_params(uri.lightning) + code_params(uri.lno),
        }),
{
    let z = zero_param(uri.amount_sat == Some(0u64));
    reveal_with_fuel(sorted, 2);
    reveal_strlit("amount=0");
    reveal_strlit("amount=");
    reveal_strlit("req-");
    assert(is_zero_amount("amount=0"@)) by {
        let p = "amount=0"@;
        assert(!is_same_letter(p[0], "req-"@[0]));
        assert(p.skip(7) =~= seq!['0']);
    }
    let s = sorted(z);
    assert(s =~= SortedView { zero: uri.amount_sat == Some(0u64), ..no_params() });
    lemma_terms_stay(z, terms);
    lemma_invoices_are_taken(z + terms, uri.lightning);
    lemma_offers_are_taken(
        z + terms + instruction_params("lightning="@, uri.lightning),
        uri.lno,
    );
    assert(s.handed + terms =~= terms);
    assert(s.lightning + uri.lightning =~= uri.lightning);
    assert(s.lno + uri.lno =~= uri.lno);
}

/// What a URI is written with can stand for parameters.
proof fn lemma_all_are_params(uri: UriView, terms: Seq<Seq<char>>)
    requires
        forall|i: int| 0 <= i < terms.len() ==> is_term(#[trigger] terms[i]),
    ensures
        are_params(all_params(uri, terms)),
{
    reveal_strlit("amount=0");
    reveal_strlit("lightning=");
    reveal_strlit("lno=");
    lemma_are_params("lightning="@, uri.lightning);
    lemma_are_params("lno="@, uri.lno);
    let z = zero_param(uri.amount_sat == Some(0u64));
    assert(are_params(z));
    assert(are_params(z + terms));
    assert(are_params(z + terms + instruction_params("lightning="@, uri.lightning)));
}

/// What is written is read as it was written.
proof fn lemma_reads_back(written: Seq<char>, uri: UriView, terms: Seq<Seq<char>>)
    requires
        has_instruction(uri),
        is_sound(uri),
        forall|i: int| 0 <= i < terms.len() ==> is_term(#[trigger] terms[i]),
        written == with_params("bitcoin:"@, terms + code_params(codes_of(uri))),
        uri_terms_of(written) matches Ok(v) && v == terms_of(uri),
    ensures
        is_visible(with_params(head_of(uri.address), all_params(uri, terms))),
        reads_back(carried_by(with_params(head_of(uri.address), all_params(uri, terms))), uri),
{
    reveal_strlit("bitcoin:");
    let head = head_of(uri.address);
    let params = all_params(uri, terms);
    let text = with_params(head, params);
    lemma_all_are_params(uri, terms);
    assert forall|i: int| 8 <= i < head.len() implies #[trigger] head[i] != '?' by {
        assert(head[i] == uri.address->0[i - 8]);
    }
    lemma_params_of(head, params);
    lemma_visible_stays(text);
    lemma_sorted(uri, terms);
    assert(head.take(8) =~= "bitcoin:"@);
    let handed = terms + code_params(uri.lightning) + code_params(uri.lno);
    match uri.address {
        Some(a) => {
            lemma_alphanumeric_is_not_encoded(a);
            assert(text.subrange(8, head.len() as int) =~= a) by {
                assert(text.take(head.len() as int).skip(8) =~= a);
                assert(text.subrange(8, head.len() as int) =~= text.take(head.len() as int).skip(8));
            }
            assert(text.take(8) =~= head.take(8));
            assert(handed.push("sp="@ + a) =~= terms + code_params(codes_of(uri)));
        },
        None => {
            assert(handed =~= terms + code_params(codes_of(uri)));
        },
    }
    assert(handed_over(text) == written);
}

/// Writes a URI.
pub fn write_text(uri: PaymentUri) -> (text: String)
    ensures
        text@ == text_for(uri@),
        has_instruction(uri@) && is_sound(uri@) ==> {
            &&& is_visible(text@)
            &&& reads_back(carried_by(text@), uri@)
        },
{
    let ghost view = uri@;
    let zero = match uri.amount_sat {
        Some(sat) => sat == 0,
        None => false,
    };
    let lightning: usize = uri.lightning.len();
    let lno: usize = uri.lno.len();
    let mut codes: Vec<String> = Vec::new();
    for i in 0..lightning
        invariant
            lightning == uri.lightning.len(),
            codes.deep_view() == uri.lightning.deep_view().take(i as int),
    {
        let ghost before = codes.deep_view();
        codes.push(uri.lightning[i].clone());
        assert(codes.deep_view() =~= before.push(uri.lightning.deep_view()[i as int]));
        assert(codes.deep_view() =~= uri.lightning.deep_view().take(i + 1));
    }
    assert(codes.deep_view() =~= uri.lightning.deep_view());
    for i in 0..lno
        invariant
            lno == uri.lno.len(),
            codes.deep_view() == uri.lightning.deep_view() + uri.lno.deep_view().take(i as int),
    {
        let ghost before = codes.deep_view();
        codes.push(uri.lno[i].clone());
        assert(codes.deep_view() =~= before.push(uri.lno.deep_view()[i as int]));
        assert(codes.deep_view() =~= uri.lightning.deep_view() + uri.lno.deep_view().take(i + 1));
    }
    assert(codes.deep_view() =~= uri.lightning.deep_view() + uri.lno.deep_view());
    if let Some(a) = &uri.address {
        let ghost before = codes.deep_view();
        codes.push(a.clone());
        assert(codes.deep_view() =~= before.push(a@));
    }
    assert(codes.deep_view() =~= codes_of(view));
    let terms = UriTerms {
        amount_sat: if zero {
            None
        } else {
            uri.amount_sat
        },
        label: uri.label,
        message: uri.message,
    };
    assert(terms@ =~= terms_of(view));
    let written = write_uri(terms, codes);
    proof {
        let own = lemma_written(written@, codes_of(view));
        lemma_completed(written@, view, own);
        lemma_visible_stays(written@);
        if has_instruction(view) && is_sound(view) {
            lemma_reads_back(written@, view, own);
        }
    }
    complete(written.as_str(), lightning, lno, uri.address, zero)
}

}
