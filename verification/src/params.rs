//! The parameters of a URI, and the escapes in them.

use vstd::prelude::*;
use vstd::string::*;
use vstd::utf8::{
    decode_utf8, encode_utf8, encode_utf8_decode_utf8, encode_utf8_valid_utf8, is_ascii_chars,
    is_ascii_chars_encode_utf8, valid_utf8,
};

use crate::digits::{digit, digit_value, hex_digit, value_of};
use crate::foreign::{is_alphanumeric, text_of_utf8};

verus! {

// ── one parameter after another ──────────────────────────────────────

/// Where a character stands first from `from` on, or the end of the text.
pub open spec fn next_char(text: Seq<char>, c: char, from: int) -> int
    decreases text.len() - from,
{
    if from >= text.len() {
        text.len() as int
    } else if text[from] == c {
        from
    } else {
        next_char(text, c, from + 1)
    }
}

/// The parameters in a text from `at` on, the first of which starts at `start`.
/// An ampersand stands between any two.
pub open spec fn params_from(text: Seq<char>, start: int, at: int) -> Seq<Seq<char>>
    decreases text.len() - at,
{
    if at >= text.len() {
        seq![text.subrange(start, text.len() as int)]
    } else if text[at] == '&' {
        seq![text.subrange(start, at)] + params_from(text, at + 1, at + 1)
    } else {
        params_from(text, start, at + 1)
    }
}

/// Parameters with an ampersand between any two.
pub open spec fn joined(params: Seq<Seq<char>>) -> Seq<char>
    decreases params.len(),
{
    if params.len() == 0 {
        seq![]
    } else if params.len() == 1 {
        params[0]
    } else {
        joined(params.drop_last()) + seq!['&'] + params.last()
    }
}

/// A URI's scheme and address with its parameters, if there are any, behind a
/// question mark.
pub open spec fn with_params(head: Seq<char>, params: Seq<Seq<char>>) -> Seq<char> {
    if params.len() == 0 {
        head
    } else {
        head + seq!['?'] + joined(params)
    }
}

/// Whether a text is visible ASCII, without a space.
pub open spec fn is_visible(text: Seq<char>) -> bool {
    forall|i: int| 0 <= i < text.len() ==> '!' <= #[trigger] text[i] <= '~'
}

/// Whether a text can stand for a parameter.
pub open spec fn is_param(text: Seq<char>) -> bool {
    forall|i: int| 0 <= i < text.len() ==> '!' <= #[trigger] text[i] <= '~' && text[i] != '&'
}

/// Whether each of some texts can stand for a parameter.
pub open spec fn are_params(params: Seq<Seq<char>>) -> bool {
    forall|i: int| 0 <= i < params.len() ==> is_param(#[trigger] params[i])
}

/// Whether each of some texts is ASCII.
pub open spec fn are_ascii(params: Seq<Seq<char>>) -> bool {
    forall|i: int| 0 <= i < params.len() ==> is_ascii_chars(#[trigger] params[i])
}

/// Where a character stands first from `from` on, or the end of the text.
pub(crate) fn find(text: &str, c: char, from: usize) -> (at: usize)
    requires
        text.is_ascii(),
    ensures
        at == next_char(text@, c, from as int),
        at <= text@.len(),
        from <= text@.len() ==> from <= at,
        at < text@.len() ==> text@[at as int] == c,
{
    let n: usize = text.unicode_len();
    if from >= n {
        return n;
    }
    let mut at: usize = from;
    while at < n
        invariant
            text.is_ascii(),
            n == text@.len(),
            from <= at <= n,
            next_char(text@, c, from as int) == next_char(text@, c, at as int),
        decreases n - at,
    {
        if text.get_char(at) == c {
            return at;
        }
        at = at + 1;
    }
    n
}

/// The parameters in a text from `from` on.
pub(crate) fn split_params(text: &str, from: usize) -> (params: Vec<String>)
    requires
        text.is_ascii(),
        from <= text@.len(),
    ensures
        params.deep_view() == params_from(text@, from as int, from as int),
        are_ascii(params.deep_view()),
{
    let n: usize = text.unicode_len();
    let mut params: Vec<String> = Vec::new();
    let mut start: usize = from;
    let mut at: usize = from;
    assert(params.deep_view() + params_from(text@, start as int, at as int) =~= params_from(
        text@,
        from as int,
        from as int,
    ));
    while at < n
        invariant
            text.is_ascii(),
            n == text@.len(),
            start <= at <= n,
            params.deep_view() + params_from(text@, start as int, at as int) == params_from(
                text@,
                from as int,
                from as int,
            ),
            are_ascii(params.deep_view()),
        decreases n - at,
    {
        if text.get_char(at) == '&' {
            let ghost before = params.deep_view();
            let ghost param_text = text@.subrange(start as int, at as int);
            params.push(text.substring_ascii(start, at).to_owned());
            assert(params.deep_view() =~= before.push(param_text));
            start = at + 1;
            assert(params.deep_view() + params_from(text@, start as int, at + 1) =~= before + (seq![
                param_text,
            ] + params_from(text@, at + 1, at + 1)));
        }
        at = at + 1;
    }
    let ghost before = params.deep_view();
    params.push(text.substring_ascii(start, n).to_owned());
    assert(params.deep_view() =~= before.push(text@.subrange(start as int, n as int)));
    params
}

/// Appends parameters to a URI's scheme and address.
pub(crate) fn append_params(head: String, params: &Vec<String>) -> (text: String)
    ensures
        text@ == with_params(head@, params.deep_view()),
{
    let mut text = head;
    let ghost all = params.deep_view();
    for i in 0..params.len()
        invariant
            all == params.deep_view(),
            text@ == with_params(head@, all.take(i as int)),
    {
        proof {
            reveal_strlit("?");
            reveal_strlit("&");
            assert(all.take(i + 1).drop_last() =~= all.take(i as int));
            assert(all.take(i + 1).last() == params[i as int]@);
        }
        if i == 0 {
            text.append("?");
        } else {
            text.append("&");
        }
        text.append(params[i].as_str());
        assert(text@ =~= with_params(head@, all.take(i + 1)));
    }
    assert(all.take(all.len() as int) =~= all);
    text
}

/// Behind the last ampersand stands one parameter.
proof fn lemma_last_param(text: Seq<char>, start: int, at: int)
    requires
        0 <= start <= at <= text.len(),
        forall|i: int| at <= i < text.len() ==> #[trigger] text[i] != '&',
    ensures
        params_from(text, start, at) == seq![text.subrange(start, text.len() as int)],
    decreases text.len() - at,
{
    if at < text.len() {
        lemma_last_param(text, start, at + 1);
    }
}

/// A parameter put behind the others is the last one found.
proof fn lemma_one_more_param(text: Seq<char>, param: Seq<char>, start: int, at: int)
    requires
        0 <= start <= at <= text.len(),
        is_param(param),
    ensures
        params_from(text + seq!['&'] + param, start, at) == params_from(text, start, at).push(
            param,
        ),
    decreases text.len() - at,
{
    let more = text + seq!['&'] + param;
    if at == text.len() {
        assert forall|i: int| at + 1 <= i < more.len() implies #[trigger] more[i] != '&' by {
            assert(more[i] == param[i - at - 1]);
        }
        lemma_last_param(more, at + 1, at + 1);
        assert(more.subrange(at + 1, more.len() as int) =~= param);
        assert(more.subrange(start, at) =~= text.subrange(start, at));
        assert(params_from(more, start, at) =~= params_from(text, start, at).push(param));
    } else if text[at] == '&' {
        lemma_one_more_param(text, param, at + 1, at + 1);
        assert(more[at] == '&');
        assert(more.subrange(start, at) =~= text.subrange(start, at));
        assert(params_from(more, start, at) =~= params_from(text, start, at).push(param));
    } else {
        lemma_one_more_param(text, param, start, at + 1);
        assert(more[at] == text[at]);
    }
}

/// Parameters are found as they were put behind one another.
pub proof fn lemma_params_are_found(head: Seq<char>, params: Seq<Seq<char>>)
    requires
        params.len() > 0,
        are_params(params),
    ensures
        params_from(with_params(head, params), head.len() as int + 1, head.len() as int + 1)
            == params,
    decreases params.len(),
{
    let from = head.len() as int + 1;
    let text = with_params(head, params);
    if params.len() == 1 {
        assert forall|i: int| from <= i < text.len() implies #[trigger] text[i] != '&' by {
            assert(text[i] == params[0][i - from]);
        }
        lemma_last_param(text, from, from);
        assert(text.subrange(from, text.len() as int) =~= params[0]);
        assert(seq![params[0]] =~= params);
    } else {
        let before = params.drop_last();
        assert forall|i: int| 0 <= i < before.len() implies is_param(#[trigger] before[i]) by {
            assert(is_param(params[i]));
        }
        assert(is_param(params[params.len() - 1]));
        lemma_params_are_found(head, before);
        let t = with_params(head, before);
        assert(text =~= t + seq!['&'] + params.last());
        lemma_one_more_param(t, params.last(), from, from);
        assert(before.push(params.last()) =~= params);
    }
}

/// Parameters behind a visible text make a visible text.
pub proof fn lemma_params_are_visible(head: Seq<char>, params: Seq<Seq<char>>)
    requires
        is_visible(head),
        are_params(params),
    ensures
        is_visible(with_params(head, params)),
    decreases params.len(),
{
    if params.len() == 1 {
        assert(is_param(params[0]));
    } else if params.len() > 1 {
        let before = params.drop_last();
        assert forall|i: int| 0 <= i < before.len() implies is_param(#[trigger] before[i]) by {
            assert(is_param(params[i]));
        }
        assert(is_param(params[params.len() - 1]));
        lemma_params_are_visible(head, before);
        assert(with_params(head, params) =~= with_params(head, before) + seq!['&']
            + params.last());
    }
}

/// Parameters in ASCII behind a text in ASCII make a text in ASCII.
pub proof fn lemma_params_are_ascii(head: Seq<char>, params: Seq<Seq<char>>)
    requires
        is_ascii_chars(head),
        are_ascii(params),
    ensures
        is_ascii_chars(with_params(head, params)),
    decreases params.len(),
{
    if params.len() == 1 {
        assert(is_ascii_chars(params[0]));
    } else if params.len() > 1 {
        let before = params.drop_last();
        assert forall|i: int| 0 <= i < before.len() implies is_ascii_chars(
            #[trigger] before[i],
        ) by {
            assert(is_ascii_chars(params[i]));
        }
        assert(is_ascii_chars(params[params.len() - 1]));
        lemma_params_are_ascii(head, before);
        assert(with_params(head, params) =~= with_params(head, before) + seq!['&']
            + params.last());
    }
}

// ── beyond ASCII ─────────────────────────────────────────────────────

/// Bytes as a URI escapes them: a percent sign and two hex digits each.
pub open spec fn escaped(bytes: Seq<u8>) -> Seq<char> {
    Seq::new(
        3 * bytes.len(),
        |i: int|
            if i % 3 == 0 {
                '%'
            } else if i % 3 == 1 {
                hex_digit(bytes[i / 3] as int / 16)
            } else {
                hex_digit(bytes[i / 3] as int % 16)
            },
    )
}

/// A character as it is, or escaped where it is beyond ASCII.
pub open spec fn escaped_char(c: char) -> Seq<char> {
    if c <= '\u{7f}' {
        seq![c]
    } else {
        escaped(encode_utf8(seq![c]))
    }
}

/// A text with whatever is beyond ASCII escaped.
pub open spec fn escaped_text(text: Seq<char>) -> Seq<char>
    decreases text.len(),
{
    if text.len() == 0 {
        seq![]
    } else {
        escaped_text(text.drop_last()) + escaped_char(text.last())
    }
}

fn escape(bytes: &[u8]) -> (out: String)
    ensures
        out@ == escaped(bytes@),
        is_ascii_chars(out@),
{
    let mut out = String::new();
    for i in 0..bytes.len()
        invariant
            out@ == escaped(bytes@.take(i as int)),
            is_ascii_chars(out@),
    {
        let b: u8 = bytes[i];
        proof {
            reveal_strlit("%");
        }
        out.append("%");
        out.append(digit(b / 16));
        out.append(digit(b % 16));
        assert(out@ =~= escaped(bytes@.take(i + 1)));
    }
    assert(bytes@.take(bytes@.len() as int) =~= bytes@);
    out
}

/// The text with whatever is beyond ASCII escaped.
pub fn in_ascii(text: &str) -> (out: String)
    ensures
        out@ == escaped_text(text@),
        is_ascii_chars(out@),
{
    let mut out = String::new();
    let n: usize = text.unicode_len();
    for i in 0..n
        invariant
            n == text@.len(),
            out@ == escaped_text(text@.take(i as int)),
            is_ascii_chars(out@),
    {
        let c = text.substring_char(i, i + 1);
        proof {
            assert(text@.take(i + 1).drop_last() =~= text@.take(i as int));
            assert(c@ =~= seq![text@[i as int]]);
        }
        if text.get_char(i) <= '\u{7f}' {
            out.append(c);
        } else {
            let e = escape(c.as_bytes());
            out.append(e.as_str());
        }
    }
    assert(text@.take(n as int) =~= text@);
    out
}

/// A text in ASCII stays as it is.
pub proof fn lemma_ascii_is_not_escaped(text: Seq<char>)
    requires
        is_ascii_chars(text),
    ensures
        escaped_text(text) == text,
    decreases text.len(),
{
    if text.len() > 0 {
        lemma_ascii_is_not_escaped(text.drop_last());
        assert(text.drop_last() + seq![text.last()] =~= text);
    } else {
        assert(text =~= seq![]);
    }
}

// ── escapes and what they stand for ──────────────────────────────────

/// Whether a byte stands in a URI as it is: a letter, a digit or one of four
/// marks.
pub open spec fn is_unreserved(b: u8) -> bool {
    let c = b as char;
    ||| 'A' <= c <= 'Z'
    ||| 'a' <= c <= 'z'
    ||| '0' <= c <= '9'
    ||| c == '-' || c == '.' || c == '_' || c == '~'
}

/// The upper-case hex digit for a value below sixteen.
pub open spec fn upper_digit(n: int) -> char {
    if n < 10 {
        (48 + n) as char
    } else {
        (55 + n) as char
    }
}

/// A byte in a URI: as it is, or a percent sign and two digits.
pub open spec fn encoded_byte(b: u8) -> Seq<char> {
    if is_unreserved(b) {
        seq![b as char]
    } else {
        seq!['%', upper_digit(b as int / 16), upper_digit(b as int % 16)]
    }
}

/// Bytes in a URI, one after another.
pub open spec fn encoded(bytes: Seq<u8>) -> Seq<char>
    decreases bytes.len(),
{
    if bytes.len() == 0 {
        seq![]
    } else {
        encoded_byte(bytes[0]) + encoded(bytes.drop_first())
    }
}

/// Whether an escape stands at `at`.
pub open spec fn is_escape(text: Seq<char>, at: int) -> bool {
    &&& at + 3 <= text.len()
    &&& text[at] == '%'
    &&& digit_value(text[at + 1]) is Some
    &&& digit_value(text[at + 2]) is Some
}

/// The bytes that a text in ASCII stands for from `at` on, with its escapes
/// resolved.
pub open spec fn bytes_from(text: Seq<char>, at: int) -> Seq<u8>
    decreases text.len() - at,
{
    if at >= text.len() {
        seq![]
    } else if is_escape(text, at) {
        seq![(16 * digit_value(text[at + 1])->0 + digit_value(text[at + 2])->0) as u8]
            + bytes_from(text, at + 3)
    } else {
        seq![text[at] as u8] + bytes_from(text, at + 1)
    }
}

/// The text that a text in ASCII stands for. One whose escapes make no UTF-8
/// stands for itself.
pub open spec fn decoded(text: Seq<char>) -> Seq<char> {
    let bytes = bytes_from(text, 0);
    if valid_utf8(bytes) {
        decode_utf8(bytes)
    } else {
        text
    }
}

/// The text that a text in ASCII stands for.
pub fn decode(text: &str) -> (out: String)
    requires
        text.is_ascii(),
    ensures
        out@ == decoded(text@),
{
    let n: usize = text.unicode_len();
    let b: &[u8] = text.as_bytes();
    let mut out: Vec<u8> = Vec::new();
    let mut at: usize = 0;
    assert(out@ + bytes_from(text@, 0) =~= bytes_from(text@, 0));
    while at < n
        invariant
            text.is_ascii(),
            n == text@.len(),
            b@.len() == n,
            at <= n,
            forall|j: int| 0 <= j < n ==> b@[j] == #[trigger] text@[j] as u8,
            out@ + bytes_from(text@, at as int) == bytes_from(text@, 0),
        decreases n - at,
    {
        let ghost before = out@;
        assert(b@[at as int] == text@[at as int] as u8);
        if n - at >= 3 && b[at] == 37 {
            assert(b@[at + 1] == text@[at + 1] as u8 && b@[at + 2] == text@[at + 2] as u8);
            if let (Some(h), Some(l)) = (value_of(b[at + 1]), value_of(b[at + 2])) {
                out.push(16 * h + l);
                assert(is_escape(text@, at as int));
                assert(out@ + bytes_from(text@, at + 3) =~= before + bytes_from(text@, at as int));
                at = at + 3;
                continue;
            }
        }
        out.push(b[at]);
        assert(!is_escape(text@, at as int));
        assert(out@ + bytes_from(text@, at + 1) =~= before + bytes_from(text@, at as int));
        at = at + 1;
    }
    assert(out@ =~= bytes_from(text@, 0));
    match text_of_utf8(out) {
        Some(out) => out,
        None => text.to_owned(),
    }
}

/// The digits of a byte are read as that byte.
proof fn lemma_digits_are_read(b: u8)
    ensures
        digit_value(upper_digit(b as int / 16)) == Some(b as int / 16),
        digit_value(upper_digit(b as int % 16)) == Some(b as int % 16),
        '0' <= upper_digit(b as int / 16) <= 'F',
        '0' <= upper_digit(b as int % 16) <= 'F',
{
}

/// What was written of some bytes stands for them.
proof fn lemma_bytes_are_read(before: Seq<char>, bytes: Seq<u8>)
    ensures
        bytes_from(before + encoded(bytes), before.len() as int) == bytes,
    decreases bytes.len(),
{
    let text = before + encoded(bytes);
    let at = before.len() as int;
    if bytes.len() == 0 {
        assert(text =~= before);
        assert(bytes =~= seq![]);
    } else {
        let b = bytes[0];
        let next = before + encoded_byte(b);
        lemma_bytes_are_read(next, bytes.drop_first());
        assert(text =~= next + encoded(bytes.drop_first()));
        lemma_digits_are_read(b);
        if is_unreserved(b) {
            assert(text[at] == b as char);
        } else {
            assert(text[at] == '%');
            assert(text[at + 1] == upper_digit(b as int / 16));
            assert(text[at + 2] == upper_digit(b as int % 16));
        }
        assert(seq![b] + bytes.drop_first() =~= bytes);
    }
}

/// A text as it was written stands for itself.
pub proof fn lemma_text_is_read(text: Seq<char>)
    ensures
        decoded(encoded(encode_utf8(text))) == text,
{
    let bytes = encode_utf8(text);
    lemma_bytes_are_read(seq![], bytes);
    assert(seq![] + encoded(bytes) =~= encoded(bytes));
    encode_utf8_valid_utf8(text);
    encode_utf8_decode_utf8(text);
}

/// What is written of some bytes can stand in a parameter.
pub proof fn lemma_encoded_is_param(bytes: Seq<u8>)
    ensures
        is_param(encoded(bytes)),
    decreases bytes.len(),
{
    if bytes.len() > 0 {
        lemma_encoded_is_param(bytes.drop_first());
        lemma_digits_are_read(bytes[0]);
    }
}

/// A text of letters and digits is written as it is.
pub proof fn lemma_alphanumeric_is_not_encoded(text: Seq<char>)
    requires
        is_alphanumeric(text),
    ensures
        encoded(encode_utf8(text)) == text,
    decreases text.len(),
{
    assert(is_ascii_chars(text));
    is_ascii_chars_encode_utf8(text);
    lemma_plain_bytes(encode_utf8(text));
    assert(encoded(encode_utf8(text)) =~= text);
}

/// Bytes that need no escape are written as they are.
proof fn lemma_plain_bytes(bytes: Seq<u8>)
    requires
        forall|i: int| 0 <= i < bytes.len() ==> is_unreserved(#[trigger] bytes[i]),
    ensures
        encoded(bytes) == bytes.map_values(|b: u8| b as char),
    decreases bytes.len(),
{
    if bytes.len() > 0 {
        let rest = bytes.drop_first();
        assert forall|i: int| 0 <= i < rest.len() implies is_unreserved(#[trigger] rest[i]) by {
            assert(is_unreserved(bytes[i + 1]));
        }
        lemma_plain_bytes(rest);
        assert(encoded(bytes) =~= bytes.map_values(|b: u8| b as char));
    } else {
        assert(encoded(bytes) =~= bytes.map_values(|b: u8| b as char));
    }
}

}
