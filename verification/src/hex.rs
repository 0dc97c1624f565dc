//! Opaque bytes as hexadecimal text and back.

use vstd::prelude::*;
use vstd::utf8::{encode_utf8, is_ascii_chars, is_ascii_chars_encode_utf8};

#[allow(unused_imports)]
use crate::resp::{byte_strings, texts};
use crate::text::{hex_char_of, lower};
#[allow(unused_imports)]
use crate::text::hex_char;

verus! {

/// Bytes as hexadecimal text: two lower-case digits for each, the high one first.
pub open spec fn hex_text(bytes: Seq<u8>) -> Seq<char> {
    Seq::new(
        2 * bytes.len(),
        |i: int|
            if i % 2 == 0 {
                hex_char(bytes[i / 2] as int / 16)
            } else {
                hex_char(bytes[i / 2] as int % 16)
            },
    )
}

/// The value of a hexadecimal digit, of either case.
pub open spec fn hex_value(byte: u8) -> Option<int> {
    if 48 <= byte <= 57 {
        Some(byte - 48)
    } else if 97 <= byte <= 102 {
        Some(byte - 87)
    } else if 65 <= byte <= 70 {
        Some(byte - 55)
    } else {
        None
    }
}

/// Whether text is an even number of hexadecimal digits.
pub open spec fn is_hex(text: Seq<u8>) -> bool {
    &&& text.len() % 2 == 0
    &&& forall|i: int| 0 <= i < text.len() ==> hex_value(#[trigger] text[i]) is Some
}

/// The bytes that hexadecimal text stands for, or `None` if it is not that.
pub open spec fn hex_bytes(text: Seq<u8>) -> Option<Seq<u8>> {
    if is_hex(text) {
        Some(
            Seq::new(
                text.len() / 2,
                |i: int| (hex_value(text[2 * i])->0 * 16 + hex_value(text[2 * i + 1])->0) as u8,
            ),
        )
    } else {
        None
    }
}

/// Hex-encode opaque bytes for a command argument or reply.
pub fn encode(bytes: &[u8]) -> (text: String)
    ensures
        text@ == hex_text(bytes@),
{
    let mut text = String::new();
    let mut at: usize = 0;
    while at < bytes.len()
        invariant
            at <= bytes.len(),
            text@ == hex_text(bytes@.take(at as int)),
        decreases bytes.len() - at,
    {
        let byte = bytes[at];
        text.push(hex_char_of(byte / 16));
        text.push(hex_char_of(byte % 16));
        assert(text@ =~= hex_text(bytes@.take(at + 1)));
        at = at + 1;
    }
    assert(bytes@.take(at as int) =~= bytes@);
    text
}

fn hex_value_of(byte: u8) -> (value: Option<u8>)
    ensures
        match value {
            Some(digit) => hex_value(byte) == Some(digit as int) && digit < 16,
            None => hex_value(byte) is None,
        },
{
    if byte >= 48 && byte <= 57 {
        Some(byte - 48)
    } else if byte >= 97 && byte <= 102 {
        Some(byte - 87)
    } else if byte >= 65 && byte <= 70 {
        Some(byte - 55)
    } else {
        None
    }
}

/// Decode hexadecimal text back to bytes. `None` if its length is odd or it holds
/// anything but hexadecimal digits.
pub fn decode(text: &[u8]) -> (bytes: Option<Vec<u8>>)
    ensures
        match bytes {
            Some(bytes) => hex_bytes(text@) == Some(bytes@),
            None => hex_bytes(text@) is None,
        },
{
    if text.len() % 2 != 0 {
        return None;
    }
    let count: usize = text.len() / 2;
    let mut bytes: Vec<u8> = Vec::new();
    let mut at: usize = 0;
    while at < count
        invariant
            at <= count,
            text.len() == 2 * count,
            bytes.len() == at,
            forall|i: int| 0 <= i < 2 * at ==> hex_value(#[trigger] text@[i]) is Some,
            forall|i: int|
                0 <= i < at ==> #[trigger] bytes@[i] == (hex_value(text@[2 * i])->0 * 16
                    + hex_value(text@[2 * i + 1])->0) as u8,
        decreases count - at,
    {
        let high = match hex_value_of(text[2 * at]) {
            Some(high) => high,
            None => {
                return None;
            },
        };
        let low = match hex_value_of(text[2 * at + 1]) {
            Some(low) => low,
            None => {
                return None;
            },
        };
        bytes.push(high * 16 + low);
        at = at + 1;
    }
    assert(bytes@ =~= hex_bytes(text@)->0);
    Some(bytes)
}

proof fn lemma_hex_text_ascii(bytes: Seq<u8>)
    ensures
        is_ascii_chars(hex_text(bytes)),
        encode_utf8(hex_text(bytes)).len() == 2 * bytes.len(),
        forall|i: int|
            0 <= i < 2 * bytes.len() ==> #[trigger] encode_utf8(hex_text(bytes))[i] == hex_text(
                bytes,
            )[i] as u8,
{
    is_ascii_chars_encode_utf8(hex_text(bytes));
}

/// Whether every one of these texts is hexadecimal.
pub open spec fn all_hex(encoded: Seq<Seq<char>>) -> bool {
    forall|i: int| 0 <= i < encoded.len() ==> hex_bytes(#[trigger] encode_utf8(encoded[i])) is Some
}

/// The byte strings that a list of hexadecimal texts stands for.
pub open spec fn decoded(encoded: Seq<Seq<char>>) -> Seq<Seq<u8>> {
    Seq::new(encoded.len(), |i: int| hex_bytes(encode_utf8(encoded[i]))->0)
}

/// Decode a list of hexadecimal texts. `None` if any of them is not hexadecimal.
pub fn decode_all(encoded: &Vec<String>) -> (bytes: Option<Vec<Vec<u8>>>)
    ensures
        match bytes {
            Some(bytes) => all_hex(texts(encoded@)) && byte_strings(bytes@) == decoded(
                texts(encoded@),
            ),
            None => !all_hex(texts(encoded@)),
        },
{
    let mut bytes: Vec<Vec<u8>> = Vec::new();
    let mut at: usize = 0;
    while at < encoded.len()
        invariant
            at <= encoded.len(),
            all_hex(texts(encoded@).take(at as int)),
            byte_strings(bytes@) == decoded(texts(encoded@).take(at as int)),
        decreases encoded.len() - at,
    {
        let ghost seen = texts(encoded@).take(at as int);
        let ghost next = texts(encoded@).take(at + 1);
        assert(texts(encoded@)[at as int] == encoded@[at as int]@);
        match decode(encoded[at].as_str().as_bytes()) {
            Some(item) => {
                let ghost before = bytes@;
                bytes.push(item);
                assert(next =~= seen.push(encoded@[at as int]@));
                assert forall|i: int| 0 <= i < next.len() implies hex_bytes(
                    #[trigger] encode_utf8(next[i]),
                ) is Some by {
                    if i < at {
                        assert(next[i] == seen[i]);
                    }
                }
                assert(byte_strings(bytes@) =~= byte_strings(before).push(item@));
                assert(byte_strings(bytes@) =~= decoded(next));
            },
            None => {
                assert(hex_bytes(encode_utf8(texts(encoded@)[at as int])) is None);
                return None;
            },
        }
        at = at + 1;
    }
    assert(texts(encoded@).take(at as int) =~= texts(encoded@));
    Some(bytes)
}

/// Decoding what was encoded gives the bytes back, whatever they are.
pub proof fn hex_round_trips(bytes: Seq<u8>)
    ensures
        hex_bytes(encode_utf8(hex_text(bytes))) == Some(bytes),
{
    lemma_hex_text_ascii(bytes);
    let text = encode_utf8(hex_text(bytes));
    assert forall|i: int| 0 <= i < bytes.len() implies {
        &&& hex_value(#[trigger] text[2 * i]) == Some(bytes[i] as int / 16)
        &&& hex_value(text[2 * i + 1]) == Some(bytes[i] as int % 16)
    } by {
        assert((2 * i) / 2 == i && (2 * i) % 2 == 0);
        assert((2 * i + 1) / 2 == i && (2 * i + 1) % 2 == 1);
    }
    assert forall|i: int| 0 <= i < text.len() implies hex_value(#[trigger] text[i]) is Some by {
        assert(i == 2 * (i / 2) || i == 2 * (i / 2) + 1);
        assert(hex_value(text[2 * (i / 2)]) is Some);
    }
    assert(hex_bytes(text)->0 =~= bytes);
}

/// Decoding a list that was encoded gives every item of it back.
pub proof fn hex_lists_round_trip(items: Seq<Seq<u8>>)
    ensures
        all_hex(items.map_values(|item: Seq<u8>| hex_text(item))),
        decoded(items.map_values(|item: Seq<u8>| hex_text(item))) == items,
{
    let encoded = items.map_values(|item: Seq<u8>| hex_text(item));
    assert forall|i: int| 0 <= i < encoded.len() implies hex_bytes(
        #[trigger] encode_utf8(encoded[i]),
    ) == Some(items[i]) by {
        hex_round_trips(items[i]);
    }
    assert(decoded(encoded) =~= items) by {
        assert forall|i: int| 0 <= i < items.len() implies decoded(encoded)[i] == items[i] by {
            assert(hex_bytes(encode_utf8(encoded[i])) == Some(items[i]));
        }
    }
}

/// Encoding what was decoded gives the text back, with its capitals made small.
pub proof fn hex_text_is_canonical(text: Seq<u8>)
    requires
        is_hex(text),
    ensures
        encode_utf8(hex_text(hex_bytes(text)->0)) == text.map_values(|byte: u8| lower(byte)),
{
    let bytes = hex_bytes(text)->0;
    lemma_hex_text_ascii(bytes);
    let again = encode_utf8(hex_text(bytes));
    assert forall|i: int| 0 <= i < text.len() implies again[i] == lower(text[i]) by {
        let pair = i / 2;
        assert(hex_value(text[2 * pair]) is Some);
        assert(hex_value(text[2 * pair + 1]) is Some);
        let high = hex_value(text[2 * pair])->0;
        let low = hex_value(text[2 * pair + 1])->0;
        assert(bytes[pair] == high * 16 + low);
        assert(i == 2 * pair || i == 2 * pair + 1);
    }
    assert(again =~= text.map_values(|byte: u8| lower(byte)));
}

/// Hexadecimal text has two digits for each byte, its high half first, each the
/// character at its place among the sixteen.
pub proof fn hex_text_writes_both_halves(bytes: Seq<u8>, at: int)
    requires
        0 <= at < bytes.len(),
    ensures
        hex_text(bytes).len() == 2 * bytes.len(),
        hex_text(bytes)[2 * at] == "0123456789abcdef"@[bytes[at] as int / 16],
        hex_text(bytes)[2 * at + 1] == "0123456789abcdef"@[bytes[at] as int % 16],
{
    reveal_strlit("0123456789abcdef");
    assert((2 * at) / 2 == at && (2 * at) % 2 == 0);
    assert((2 * at + 1) / 2 == at && (2 * at + 1) % 2 == 1);
}

/// A digit is read as its place among the sixteen, small or capital, and nothing else is
/// a digit.
pub proof fn hex_digits_are_the_sixteen(byte: u8, value: int)
    ensures
        hex_value(byte) == Some(value) <==> 0 <= value < 16 && (byte
            == "0123456789abcdef"@[value] as u8 || byte == "0123456789ABCDEF"@[value] as u8),
{
    reveal_strlit("0123456789abcdef");
    reveal_strlit("0123456789ABCDEF");
}

/// Decoding reads two digits for each byte, the high half first, and takes nothing but
/// whole pairs of digits.
pub proof fn decoding_reads_pairs_of_digits(text: Seq<u8>, bytes: Seq<u8>)
    ensures
        hex_bytes(text) == Some(bytes) <==> text.len() == 2 * bytes.len() && forall|i: int|
            0 <= i < bytes.len() ==> {
                &&& hex_value(text[2 * i]) == Some((#[trigger] bytes[i]) as int / 16)
                &&& hex_value(text[2 * i + 1]) == Some(bytes[i] as int % 16)
            },
{
    if hex_bytes(text) == Some(bytes) {
        assert forall|i: int| 0 <= i < bytes.len() implies {
            &&& hex_value(text[2 * i]) == Some((#[trigger] bytes[i]) as int / 16)
            &&& hex_value(text[2 * i + 1]) == Some(bytes[i] as int % 16)
        } by {
            assert(hex_value(text[2 * i]) is Some);
            assert(hex_value(text[2 * i + 1]) is Some);
        }
    }
    if text.len() == 2 * bytes.len() && forall|i: int|
        0 <= i < bytes.len() ==> {
            &&& hex_value(text[2 * i]) == Some((#[trigger] bytes[i]) as int / 16)
            &&& hex_value(text[2 * i + 1]) == Some(bytes[i] as int % 16)
        } {
        assert forall|i: int| 0 <= i < text.len() implies hex_value(#[trigger] text[i]) is Some by {
            let pair = bytes[i / 2];
            assert(hex_value(text[2 * (i / 2)]) == Some(pair as int / 16));
            assert(i == 2 * (i / 2) || i == 2 * (i / 2) + 1);
        }
        assert(hex_bytes(text)->0 =~= bytes);
    }
}

/// A list is read item by item: every item that is hexadecimal is decoded at its place,
/// and one that is not spoils the list.
pub proof fn lists_are_decoded_item_by_item(encoded: Seq<Seq<char>>, at: int)
    requires
        0 <= at < encoded.len(),
    ensures
        all_hex(encoded) ==> decoded(encoded).len() == encoded.len() && hex_bytes(
            encode_utf8(encoded[at]),
        ) == Some(decoded(encoded)[at]),
        hex_bytes(encode_utf8(encoded[at])) is None ==> !all_hex(encoded),
{
}

} // verus!
