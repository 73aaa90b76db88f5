//! Bytes as hexadecimal text, and back.
//!
//! Payment hashes, preimages, offer ids and channel ids all travel as hex.
//! The text is written in lower case; it is read in either case.

use vstd::prelude::*;
use vstd::string::*;

verus! {

/// The lower-case hex digit for a value below sixteen.
pub open spec fn hex_digit(n: int) -> char {
    if n < 10 {
        (48 + n) as char
    } else {
        (87 + n) as char
    }
}

/// Two lower-case digits a byte, the high half first.
pub open spec fn hex_text(bytes: Seq<u8>) -> Seq<char> {
    Seq::new(
        2 * bytes.len(),
        |i: int|
            if i % 2 == 0 {
                hex_digit(bytes[i / 2] as int / 16)
            } else {
                hex_digit(bytes[i / 2] as int % 16)
            },
    )
}

/// What a hex digit of either case stands for.
pub open spec fn digit_value(c: char) -> Option<int> {
    if '0' <= c <= '9' {
        Some(c as int - 48)
    } else if 'a' <= c <= 'f' {
        Some(c as int - 87)
    } else if 'A' <= c <= 'F' {
        Some(c as int - 55)
    } else {
        None
    }
}

/// The bytes that a text of hex digits spells: two digits of either case a
/// byte, and nothing else in the text.
pub open spec fn bytes_of_hex(text: Seq<char>) -> Option<Seq<u8>> {
    if text.len() % 2 == 0 && (forall|i: int|
        0 <= i < text.len() ==> digit_value(#[trigger] text[i]) is Some) {
        Some(
            Seq::new(
                text.len() / 2,
                |i: int| (16 * digit_value(text[2 * i])->0 + digit_value(text[2 * i + 1])->0) as u8,
            ),
        )
    } else {
        None
    }
}

/// The 32 bytes that a text of 64 hex digits spells.
pub open spec fn bytes_of_preimage(text: Seq<char>) -> Option<Seq<u8>> {
    if text.len() == 64 {
        bytes_of_hex(text)
    } else {
        None
    }
}

/// The digit for `n`, as text.
pub(crate) fn digit(n: u8) -> (text: &'static str)
    requires
        n < 16,
    ensures
        text@ == seq![hex_digit(n as int)],
{
    proof {
        reveal_strlit("0");
        reveal_strlit("1");
        reveal_strlit("2");
        reveal_strlit("3");
        reveal_strlit("4");
        reveal_strlit("5");
        reveal_strlit("6");
        reveal_strlit("7");
        reveal_strlit("8");
        reveal_strlit("9");
        reveal_strlit("a");
        reveal_strlit("b");
        reveal_strlit("c");
        reveal_strlit("d");
        reveal_strlit("e");
        reveal_strlit("f");
    }
    match n {
        0 => "0",
        1 => "1",
        2 => "2",
        3 => "3",
        4 => "4",
        5 => "5",
        6 => "6",
        7 => "7",
        8 => "8",
        9 => "9",
        10 => "a",
        11 => "b",
        12 => "c",
        13 => "d",
        14 => "e",
        _ => "f",
    }
}

/// Hex for a payment hash or a preimage.
pub fn hex_payment_hash(bytes: &[u8]) -> (out: String)
    ensures
        out@ == hex_text(bytes@),
{
    let mut out = String::new();
    for i in 0..bytes.len()
        invariant
            out@ == hex_text(bytes@.take(i as int)),
    {
        let b: u8 = bytes[i];
        out.append(digit(b / 16));
        out.append(digit(b % 16));
        assert(out@ =~= hex_text(bytes@.take(i + 1)));
    }
    assert(bytes@.take(bytes@.len() as int) =~= bytes@);
    out
}

/// The value of an ASCII hex digit of either case.
pub(crate) fn value_of(b: u8) -> (n: Option<u8>)
    requires
        b < 128,
    ensures
        match n {
            Some(n) => digit_value(b as char) == Some(n as int) && n < 16,
            None => digit_value(b as char) is None,
        },
{
    if 48 <= b && b <= 57 {
        Some((b - 48) as u8)
    } else if 97 <= b && b <= 102 {
        Some((b - 87) as u8)
    } else if 65 <= b && b <= 70 {
        Some((b - 55) as u8)
    } else {
        None
    }
}

/// Hex to bytes, strictly 32 of them.
pub fn decode_hex(s: &str) -> (bytes: Option<Vec<u8>>)
    ensures
        bytes.deep_view() == bytes_of_preimage(s@),
{
    if !s.is_ascii() {
        proof {
            let bad = choose|i: int| 0 <= i < s@.len() && !('\0' <= #[trigger] s@[i]
                <= '\u{7f}');
            assert(digit_value(s@[bad]) is None);
        }
        return None;
    }
    let text: &[u8] = s.as_bytes();
    if text.len() != 64 {
        return None;
    }
    let mut out: Vec<u8> = Vec::new();
    for i in 0usize..32
        invariant
            s.is_ascii(),
            text@.len() == 64,
            s@.len() == 64,
            forall|j: int| 0 <= j < 64 ==> text@[j] == #[trigger] s@[j] as u8,
            out@.len() == i,
            forall|j: int| 0 <= j < 2 * i ==> digit_value(#[trigger] s@[j]) is Some,
            forall|j: int|
                0 <= j < i ==> #[trigger] out@[j] == (16 * digit_value(s@[2 * j])->0 + digit_value(
                    s@[2 * j + 1],
                )->0) as u8,
    {
        assert(text@[2 * i] == s@[2 * i] as u8 && text@[2 * i + 1] == s@[2 * i + 1] as u8);
        match (value_of(text[2 * i]), value_of(text[2 * i + 1])) {
            (Some(h), Some(l)) => {
                out.push(16 * h + l);
            },
            _ => {
                assert(digit_value(s@[2 * i]) is None || digit_value(s@[2 * i + 1]) is None);
                return None;
            },
        }
    }
    assert(out@ =~= bytes_of_hex(s@)->0);
    Some(out)
}

}
