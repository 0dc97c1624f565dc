//! Numbers as text, and ASCII text compared without regard to case.

use vstd::prelude::*;
use vstd::utf8::{encode_utf8, is_ascii_chars, is_ascii_chars_encode_utf8};

verus! {

/// `String::push` appends one character.
pub assume_specification[ String::push ](text: &mut String, character: char)
    ensures
        final(text)@ == old(text)@.push(character),
;

// ---------------------------------------------------------------------------
// Rendering
// ---------------------------------------------------------------------------

/// The character for a digit below ten.
pub open spec fn digit_char(digit: int) -> char {
    (48 + digit) as char
}

/// A number in decimal, without leading zeros.
pub open spec fn decimal(number: nat) -> Seq<char>
    decreases number,
{
    if number < 10 {
        seq![digit_char(number as int)]
    } else {
        decimal(number / 10).push(digit_char((number % 10) as int))
    }
}

/// A signed number in decimal, `-` first when it is negative.
pub open spec fn signed_decimal(number: int) -> Seq<char> {
    if number < 0 {
        seq!['-'] + decimal((-number) as nat)
    } else {
        decimal(number as nat)
    }
}

/// The lower-case character for a hexadecimal digit.
pub open spec fn hex_char(digit: int) -> char {
    if digit < 10 {
        (48 + digit) as char
    } else {
        (87 + digit) as char
    }
}

/// The last `width` hexadecimal digits of a number, zero-padded.
pub open spec fn hex_digits(number: nat, width: nat) -> Seq<char>
    decreases width,
{
    if width == 0 {
        Seq::empty()
    } else {
        hex_digits(number / 16, (width - 1) as nat).push(hex_char((number % 16) as int))
    }
}

/// A `u32` as `0x` and eight hexadecimal digits.
pub open spec fn hex_word(number: u32) -> Seq<char> {
    seq!['0', 'x'] + hex_digits(number as nat, 8)
}

/// Append a number in decimal.
pub fn push_decimal(text: &mut String, number: u64)
    ensures
        final(text)@ == old(text)@ + decimal(number as nat),
    decreases number,
{
    if number >= 10 {
        push_decimal(text, number / 10);
    }
    let digit: u8 = (number % 10) as u8;
    text.push((48 + digit) as char);
    assert(text@ =~= old(text)@ + decimal(number as nat));
}

/// Append a signed number in decimal.
pub fn push_signed(text: &mut String, number: i64)
    ensures
        final(text)@ == old(text)@ + signed_decimal(number as int),
{
    if number < 0 {
        text.push('-');
        if number == i64::MIN {
            push_decimal(text, 9_223_372_036_854_775_808);
        } else {
            push_decimal(text, (-number) as u64);
        }
        assert(text@ =~= old(text)@ + signed_decimal(number as int));
    } else {
        push_decimal(text, number as u64);
    }
}

/// A number in decimal.
pub fn decimal_string(number: u64) -> (text: String)
    ensures
        text@ == decimal(number as nat),
{
    let mut text = String::new();
    push_decimal(&mut text, number);
    assert(text@ =~= decimal(number as nat));
    text
}

/// A truth value in words.
pub open spec fn bool_text(value: bool) -> Seq<char> {
    if value {
        "true"@
    } else {
        "false"@
    }
}

/// A truth value in words.
pub fn bool_text_of(value: bool) -> (text: &'static str)
    ensures
        text@ == bool_text(value),
{
    if value {
        "true"
    } else {
        "false"
    }
}

/// The lower-case character for a hexadecimal digit.
pub fn hex_char_of(digit: u8) -> (character: char)
    requires
        digit < 16,
    ensures
        character == hex_char(digit as int),
{
    if digit < 10 {
        (48 + digit) as char
    } else {
        (87 + digit) as char
    }
}

fn push_hex_digits(text: &mut String, number: u32, width: u8)
    ensures
        final(text)@ == old(text)@ + hex_digits(number as nat, width as nat),
    decreases width,
{
    if width > 0 {
        push_hex_digits(text, number / 16, width - 1);
        text.push(hex_char_of((number % 16) as u8));
    }
    assert(text@ =~= old(text)@ + hex_digits(number as nat, width as nat));
}

/// Append a `u32` as `0x` and eight hexadecimal digits.
pub fn push_hex_word(text: &mut String, number: u32)
    ensures
        final(text)@ == old(text)@ + hex_word(number),
{
    text.push('0');
    text.push('x');
    push_hex_digits(text, number, 8);
    assert(text@ =~= old(text)@ + hex_word(number));
}

// ---------------------------------------------------------------------------
// Reading
// ---------------------------------------------------------------------------

/// Whether a byte is an ASCII digit.
pub open spec fn is_digit(byte: u8) -> bool {
    48 <= byte <= 57
}

/// Whether a byte string is one or more ASCII digits.
pub open spec fn all_digits(bytes: Seq<u8>) -> bool {
    &&& bytes.len() > 0
    &&& forall|i: int| 0 <= i < bytes.len() ==> is_digit(#[trigger] bytes[i])
}

/// The number a string of ASCII digits stands for.
pub open spec fn digits_value(bytes: Seq<u8>) -> nat
    decreases bytes.len(),
{
    if bytes.len() == 0 {
        0
    } else {
        digits_value(bytes.drop_last()) * 10 + (bytes.last() - 48) as nat
    }
}

/// A byte string without the `+` it may start with.
pub open spec fn without_plus(bytes: Seq<u8>) -> Seq<u8> {
    if bytes.len() > 0 && bytes[0] == 43 {
        bytes.skip(1)
    } else {
        bytes
    }
}

/// What a decimal integer argument stands for: an optional `+`, then digits alone,
/// for a number that fits.
pub open spec fn parsed_u64(bytes: Seq<u8>) -> Option<u64> {
    let digits = without_plus(bytes);
    if all_digits(digits) && digits_value(digits) <= u64::MAX {
        Some(digits_value(digits) as u64)
    } else {
        None
    }
}

proof fn lemma_digits_value_grows(bytes: Seq<u8>, count: int)
    requires
        0 <= count <= bytes.len(),
    ensures
        digits_value(bytes.take(count)) <= digits_value(bytes),
    decreases bytes.len() - count,
{
    if count < bytes.len() {
        lemma_digits_value_grows(bytes, count + 1);
        assert(bytes.take(count + 1).drop_last() =~= bytes.take(count));
    } else {
        assert(bytes.take(count) =~= bytes);
    }
}

/// Read a decimal integer argument.
pub fn parse_u64(bytes: &[u8]) -> (number: Option<u64>)
    ensures
        number == parsed_u64(bytes@),
{
    let start: usize = if bytes.len() > 0 && bytes[0] == 43 {
        1
    } else {
        0
    };
    let ghost digits = without_plus(bytes@);
    assert(digits.len() == bytes.len() - start);
    assert(forall|j: int| 0 <= j < digits.len() ==> digits[j] == bytes@[start + j]);
    if start == bytes.len() {
        return None;
    }
    let mut value: u64 = 0;
    let mut at: usize = start;
    assert(digits.take(0).len() == 0);
    while at < bytes.len()
        invariant
            start <= at <= bytes.len(),
            digits == without_plus(bytes@),
            digits.len() == bytes.len() - start,
            forall|j: int| 0 <= j < digits.len() ==> digits[j] == bytes@[start + j],
            forall|j: int| 0 <= j < at - start ==> is_digit(#[trigger] digits[j]),
            value == digits_value(digits.take(at - start)),
        decreases bytes.len() - at,
    {
        let byte = bytes[at];
        let ghost done = at - start;
        assert(digits[done] == byte);
        if byte < 48 || byte > 57 {
            assert(!is_digit(digits[done]));
            return None;
        }
        proof {
            assert(digits.take(done + 1).drop_last() =~= digits.take(done));
            assert(digits.take(done + 1).last() == byte);
            lemma_digits_value_grows(digits, done + 1);
        }
        let digit: u64 = (byte - 48) as u64;
        if value > (u64::MAX - digit) / 10 {
            return None;
        }
        value = value * 10 + digit;
        at = at + 1;
    }
    assert(digits.take(at - start) =~= digits);
    Some(value)
}

/// Every character of a number in decimal is an ASCII digit.
pub proof fn lemma_decimal_digits(number: nat)
    ensures
        decimal(number).len() > 0,
        forall|i: int|
            0 <= i < decimal(number).len() ==> 48 <= (#[trigger] decimal(number)[i]) as int <= 57,
        is_ascii_chars(decimal(number)),
    decreases number,
{
    if number >= 10 {
        lemma_decimal_digits(number / 10);
    }
}

/// The bytes of a number in decimal are its digits.
pub proof fn lemma_decimal_bytes(number: nat)
    ensures
        encode_utf8(decimal(number)).len() == decimal(number).len(),
        forall|i: int|
            0 <= i < decimal(number).len() ==> #[trigger] encode_utf8(decimal(number))[i]
                == decimal(number)[i] as u8,
        all_digits(encode_utf8(decimal(number))),
        digits_value(encode_utf8(decimal(number))) == number,
    decreases number,
{
    lemma_decimal_digits(number);
    is_ascii_chars_encode_utf8(decimal(number));
    let bytes = encode_utf8(decimal(number));
    if number >= 10 {
        lemma_decimal_digits(number / 10);
        lemma_decimal_bytes(number / 10);
        is_ascii_chars_encode_utf8(decimal(number / 10));
        assert(bytes.drop_last() =~= encode_utf8(decimal(number / 10)));
        assert(bytes.last() == digit_char((number % 10) as int) as u8);
        assert(digits_value(bytes) == (number / 10) * 10 + number % 10);
    } else {
        assert(digits_value(bytes.drop_last()) == 0);
    }
}

/// Reading back a number rendered in decimal gives the number.
pub proof fn decimal_round_trips(number: u64)
    ensures
        parsed_u64(encode_utf8(decimal(number as nat))) == Some(number),
{
    lemma_decimal_bytes(number as nat);
    let bytes = encode_utf8(decimal(number as nat));
    assert(is_digit(bytes[0]));
    assert(without_plus(bytes) == bytes);
}

// ---------------------------------------------------------------------------
// ASCII text
// ---------------------------------------------------------------------------

/// A byte string as text, one character for each byte.
pub open spec fn ascii_text(bytes: Seq<u8>) -> Seq<char> {
    Seq::new(bytes.len(), |i: int| bytes[i] as char)
}

/// An ASCII text as bytes, one for each character.
pub open spec fn ascii_bytes(text: Seq<char>) -> Seq<u8> {
    Seq::new(text.len(), |i: int| text[i] as u8)
}

/// The bytes of an ASCII text are its characters.
pub proof fn lemma_ascii_bytes(text: Seq<char>)
    requires
        is_ascii_chars(text),
    ensures
        encode_utf8(text) == ascii_bytes(text),
{
    is_ascii_chars_encode_utf8(text);
    assert(encode_utf8(text) =~= ascii_bytes(text));
}

/// Append a byte string as text, one character for each byte.
pub fn push_ascii(text: &mut String, bytes: &[u8])
    ensures
        final(text)@ == old(text)@ + ascii_text(bytes@),
{
    let ghost before = text@;
    let mut at: usize = 0;
    while at < bytes.len()
        invariant
            at <= bytes@.len(),
            text@ =~= before + ascii_text(bytes@.take(at as int)),
        decreases bytes@.len() - at,
    {
        text.push(bytes[at] as char);
        at = at + 1;
    }
    assert(bytes@.take(at as int) =~= bytes@);
}

// ---------------------------------------------------------------------------
// ASCII case
// ---------------------------------------------------------------------------

/// A byte with an ASCII capital made small.
pub open spec fn lower(byte: u8) -> u8 {
    if 65 <= byte <= 90 {
        (byte + 32) as u8
    } else {
        byte
    }
}

/// Whether two byte strings are the same but for the case of ASCII letters.
pub open spec fn same_ignoring_case(left: Seq<u8>, right: Seq<u8>) -> bool {
    &&& left.len() == right.len()
    &&& forall|i: int| 0 <= i < left.len() ==> lower(#[trigger] left[i]) == lower(right[i])
}

/// Whether `phrase` starts at `at` in `bytes`, but for the case of ASCII letters.
pub open spec fn occurs_at(bytes: Seq<u8>, phrase: Seq<u8>, at: int) -> bool {
    &&& 0 <= at <= bytes.len() - phrase.len()
    &&& same_ignoring_case(bytes.subrange(at, at + phrase.len()), phrase)
}

/// Whether `phrase` stands anywhere in `bytes`, but for the case of ASCII letters.
pub open spec fn mentions(bytes: Seq<u8>, phrase: Seq<u8>) -> bool {
    exists|at: int| occurs_at(bytes, phrase, at)
}

fn lower_of(byte: u8) -> (result: u8)
    ensures
        result == lower(byte),
{
    if byte >= 65 && byte <= 90 {
        byte + 32
    } else {
        byte
    }
}

/// Compare two byte strings without regard to the case of ASCII letters.
pub fn eq_ignoring_case(left: &[u8], right: &[u8]) -> (same: bool)
    ensures
        same == same_ignoring_case(left@, right@),
{
    if left.len() != right.len() {
        return false;
    }
    let mut at: usize = 0;
    while at < left.len()
        invariant
            at <= left.len(),
            left.len() == right.len(),
            forall|i: int| 0 <= i < at ==> lower(#[trigger] left@[i]) == lower(right@[i]),
        decreases left.len() - at,
    {
        if lower_of(left[at]) != lower_of(right[at]) {
            assert(lower(left@[at as int]) != lower(right@[at as int]));
            return false;
        }
        at = at + 1;
    }
    true
}

/// Whether a byte string is an ASCII text, but for the case of letters.
pub open spec fn spells(bytes: Seq<u8>, text: Seq<char>) -> bool {
    same_ignoring_case(bytes, ascii_bytes(text))
}

/// Compare a byte string with an ASCII text without regard to the case of letters.
pub fn spells_out(bytes: &[u8], text: &str) -> (same: bool)
    requires
        is_ascii_chars(text@),
    ensures
        same == spells(bytes@, text@),
{
    proof {
        lemma_ascii_bytes(text@);
    }
    eq_ignoring_case(bytes, text.as_bytes())
}

/// Look for a phrase without regard to the case of ASCII letters.
pub fn contains_ignoring_case(bytes: &[u8], phrase: &[u8]) -> (found: bool)
    ensures
        found == mentions(bytes@, phrase@),
{
    if bytes.len() < phrase.len() {
        return false;
    }
    let last: usize = bytes.len() - phrase.len();
    let mut at: usize = 0;
    while at <= last
        invariant
            at <= last + 1,
            last == bytes.len() - phrase.len(),
            forall|earlier: int| 0 <= earlier < at ==> !occurs_at(bytes@, phrase@, earlier),
        decreases last + 1 - at,
    {
        let window = vstd::slice::slice_subrange(bytes, at, at + phrase.len());
        if eq_ignoring_case(window, phrase) {
            assert(occurs_at(bytes@, phrase@, at as int));
            return true;
        }
        assert(!occurs_at(bytes@, phrase@, at as int));
        if at == last {
            return false;
        }
        at = at + 1;
    }
    false
}

// ---------------------------------------------------------------------------
// What the texts are
// ---------------------------------------------------------------------------

/// A power of a base.
pub open spec fn power_of(base: nat, exponent: nat) -> nat
    decreases exponent,
{
    if exponent == 0 {
        1
    } else {
        base * power_of(base, (exponent - 1) as nat)
    }
}

proof fn lemma_power_positive(base: nat, exponent: nat)
    requires
        base > 0,
    ensures
        power_of(base, exponent) > 0,
    decreases exponent,
{
    if exponent > 0 {
        lemma_power_positive(base, (exponent - 1) as nat);
        let smaller = power_of(base, (exponent - 1) as nat);
        assert(base * smaller > 0) by (nonlinear_arith)
            requires
                base > 0,
                smaller > 0,
        ;
    }
}

proof fn lemma_digit_below(number: nat, base: nat, place: nat)
    requires
        base > 0,
        place > 0,
    ensures
        number / power_of(base, place) == (number / base) / power_of(base, (place - 1) as nat),
{
    lemma_power_positive(base, (place - 1) as nat);
    vstd::arithmetic::div_mod::lemma_div_denominator(
        number as int,
        base as int,
        power_of(base, (place - 1) as nat) as int,
    );
}

/// A number in decimal has just the digits it needs, and the digit at each place is the
/// number's digit for that power of ten.
pub proof fn decimal_has_the_digits_of_the_number(number: nat)
    ensures
        decimal(number).len() > 0,
        number < power_of(10, decimal(number).len()),
        decimal(number).len() > 1 ==> number >= power_of(10, (decimal(number).len() - 1) as nat),
        forall|i: int|
            0 <= i < decimal(number).len() ==> (#[trigger] decimal(number)[i]) as int == '0' as int + (
            number / power_of(10, (decimal(number).len() - 1 - i) as nat)) % 10,
    decreases number,
{
    let text = decimal(number);
    assert(power_of(10, 0) == 1);
    assert(power_of(10, 1) == 10 * power_of(10, 0));
    assert(number / 1 == number);
    if number >= 10 {
        let rest = number / 10;
        decimal_has_the_digits_of_the_number(rest);
        let shorter = decimal(rest);
        assert(power_of(10, text.len()) == 10 * power_of(10, shorter.len()));
        assert(power_of(10, (text.len() - 1) as nat) == 10 * power_of(
            10,
            (shorter.len() - 1) as nat,
        ));
        assert forall|i: int| 0 <= i < text.len() implies (#[trigger] text[i]) as int == '0' as int
            + (number / power_of(10, (text.len() - 1 - i) as nat)) % 10 by {
            let place = (text.len() - 1 - i) as nat;
            if place > 0 {
                lemma_digit_below(number, 10, place);
                assert(text[i] == shorter[i]);
            } else {
                assert(number / 1 == number);
            }
        }
    }
}

/// A negative number is a minus sign and the number without it, and any other is just
/// its digits.
pub proof fn a_negative_number_is_marked_by_its_sign(number: nat)
    ensures
        signed_decimal(number as int) == decimal(number),
        number > 0 ==> signed_decimal(-(number as int)).len() == decimal(number).len() + 1,
        number > 0 ==> signed_decimal(-(number as int))[0] == '-',
        number > 0 ==> signed_decimal(-(number as int)).skip(1) == decimal(number),
{
    if number > 0 {
        assert(signed_decimal(-(number as int)).skip(1) =~= decimal(number));
    }
}

proof fn lemma_hex_digits(number: nat, width: nat)
    ensures
        hex_digits(number, width).len() == width,
        forall|i: int|
            0 <= i < width ==> (#[trigger] hex_digits(number, width)[i]) == hex_char(
                ((number / power_of(16, (width - 1 - i) as nat)) % 16) as int,
            ),
    decreases width,
{
    if width > 0 {
        let below = (width - 1) as nat;
        lemma_hex_digits(number / 16, below);
        assert(power_of(16, 0) == 1);
        let text = hex_digits(number, width);
        assert forall|i: int| 0 <= i < width implies (#[trigger] text[i]) == hex_char(
            ((number / power_of(16, (width - 1 - i) as nat)) % 16) as int,
        ) by {
            let place = (width - 1 - i) as nat;
            if place > 0 {
                lemma_digit_below(number, 16, place);
                assert(text[i] == hex_digits(number / 16, below)[i]);
            } else {
                assert(number / 1 == number);
            }
        }
    }
}

/// A hexadecimal digit is the character at its place among the sixteen.
pub proof fn hex_characters_are_the_sixteen(digit: int)
    requires
        0 <= digit < 16,
    ensures
        hex_char(digit) == "0123456789abcdef"@[digit],
{
    reveal_strlit("0123456789abcdef");
}

/// A word in hexadecimal is `0x` and eight digits, each the word's digit for its power
/// of sixteen.
pub proof fn hex_word_has_the_digits_of_the_word(number: u32)
    ensures
        hex_word(number).len() == 10,
        hex_word(number)[0] == '0',
        hex_word(number)[1] == 'x',
        forall|i: int|
            2 <= i < 10 ==> (#[trigger] hex_word(number)[i])
                == "0123456789abcdef"@[((number as nat / power_of(16, (9 - i) as nat)) % 16) as int],
{
    lemma_hex_digits(number as nat, 8);
    assert forall|i: int| 2 <= i < 10 implies (#[trigger] hex_word(number)[i])
        == "0123456789abcdef"@[((number as nat / power_of(16, (9 - i) as nat)) % 16) as int] by {
        assert(hex_word(number)[i] == hex_digits(number as nat, 8)[i - 2]);
        hex_characters_are_the_sixteen(((number as nat / power_of(16, (9 - i) as nat)) % 16) as int);
    }
}

/// Reading goes digit by digit: a first digit is its own value, a further digit makes
/// the number ten times as large and adds its own, a number that no longer fits and a
/// text that was no number stay none, and nothing but a digit can follow.
pub proof fn reading_goes_digit_by_digit(bytes: Seq<u8>, digit: u8, other: u8)
    requires
        digit < 10,
        !('0' as u8 <= other <= '9' as u8),
    ensures
        parsed_u64(Seq::empty()) is None,
        parsed_u64(seq!['+' as u8]) is None,
        parsed_u64(seq![('0' as u8 + digit) as u8]) == Some(digit as u64),
        parsed_u64(seq!['+' as u8, ('0' as u8 + digit) as u8]) == Some(digit as u64),
        match parsed_u64(bytes) {
            Some(number) => parsed_u64(bytes.push(('0' as u8 + digit) as u8)) == if number * 10
                + digit <= u64::MAX {
                Some((number * 10 + digit) as u64)
            } else {
                None
            },
            None => bytes.len() > 0 && bytes != seq!['+' as u8] ==> parsed_u64(
                bytes.push(('0' as u8 + digit) as u8),
            ) is None,
        },
        parsed_u64(bytes.push(other)) is None,
{
    let byte = ('0' as u8 + digit) as u8;
    assert(byte == 48 + digit);
    let plus = seq!['+' as u8];
    assert(without_plus(plus) =~= Seq::empty());
    let one = seq![byte];
    assert(one.drop_last() =~= Seq::empty());
    assert(digits_value(one.drop_last()) == 0);
    assert(without_plus(one) == one);
    assert(all_digits(one));
    let signed = seq!['+' as u8, byte];
    assert(without_plus(signed) =~= one);
    let digits = without_plus(bytes);
    let longer = bytes.push(byte);
    if bytes.len() > 0 {
        assert(without_plus(longer) =~= digits.push(byte));
        assert(digits.push(byte).drop_last() =~= digits);
        if all_digits(digits) {
            assert forall|i: int| 0 <= i < digits.push(byte).len() implies is_digit(
                #[trigger] digits.push(byte)[i],
            ) by {
                if i < digits.len() {
                    assert(is_digit(digits[i]));
                }
            }
        } else if digits.len() > 0 {
            let at = choose|i: int| 0 <= i < digits.len() && !is_digit(#[trigger] digits[i]);
            assert(!is_digit(digits.push(byte)[at]));
        } else {
            assert(bytes =~= plus);
        }
    }
    let spoiled = bytes.push(other);
    let rest = without_plus(spoiled);
    if rest.len() > 0 {
        assert(rest[rest.len() - 1] == other);
        assert(!is_digit(rest[rest.len() - 1]));
    }
}

/// Two bytes are the same but for case when they are equal or are the capital and the
/// small form of one letter.
pub open spec fn same_letter(left: u8, right: u8) -> bool {
    ||| left == right
    ||| 'A' as u8 <= left <= 'Z' as u8 && right - left == 'a' as u8 - 'A' as u8
    ||| 'A' as u8 <= right <= 'Z' as u8 && left - right == 'a' as u8 - 'A' as u8
}

/// Ignoring case ignores the case of ASCII letters, place by place, and nothing else.
pub proof fn case_is_all_that_is_ignored(left: Seq<u8>, right: Seq<u8>)
    ensures
        same_ignoring_case(left, right) <==> left.len() == right.len() && forall|i: int|
            0 <= i < left.len() ==> same_letter(#[trigger] left[i], right[i]),
{
    assert forall|a: u8, b: u8| (lower(a) == lower(b)) == #[trigger] same_letter(a, b) by {}
    if same_ignoring_case(left, right) {
        assert forall|i: int| 0 <= i < left.len() implies same_letter(
            #[trigger] left[i],
            right[i],
        ) by {
            assert(lower(left[i]) == lower(right[i]));
        }
    }
    if left.len() == right.len() && forall|i: int|
        0 <= i < left.len() ==> same_letter(#[trigger] left[i], right[i]) {
        assert forall|i: int| 0 <= i < left.len() implies lower(#[trigger] left[i]) == lower(
            right[i],
        ) by {
            assert(same_letter(left[i], right[i]));
        }
    }
}

/// A byte string spells a text when it has the text's characters, place by place, but
/// for the case of letters.
pub proof fn spelling_goes_by_characters(bytes: Seq<u8>, text: Seq<char>)
    requires
        is_ascii_chars(text),
    ensures
        spells(bytes, text) <==> bytes.len() == text.len() && forall|i: int|
            0 <= i < bytes.len() ==> same_letter(#[trigger] bytes[i], text[i] as u8),
{
    case_is_all_that_is_ignored(bytes, ascii_bytes(text));
    if spells(bytes, text) {
        assert forall|i: int| 0 <= i < bytes.len() implies same_letter(
            #[trigger] bytes[i],
            text[i] as u8,
        ) by {
            assert(same_letter(bytes[i], ascii_bytes(text)[i]));
        }
    }
    if bytes.len() == text.len() && forall|i: int|
        0 <= i < bytes.len() ==> same_letter(#[trigger] bytes[i], text[i] as u8) {
        assert forall|i: int| 0 <= i < bytes.len() implies same_letter(
            #[trigger] bytes[i],
            ascii_bytes(text)[i],
        ) by {
            assert(same_letter(bytes[i], text[i] as u8));
        }
    }
}

/// A phrase is mentioned wherever it stands, whatever is around it and whatever the case
/// of its letters.
pub proof fn a_phrase_is_found_anywhere(before: Seq<u8>, phrase: Seq<u8>, written: Seq<u8>, after: Seq<u8>)
    requires
        written.len() == phrase.len(),
        forall|i: int| 0 <= i < phrase.len() ==> same_letter(#[trigger] written[i], phrase[i]),
    ensures
        mentions(before + written + after, phrase),
{
    case_is_all_that_is_ignored(written, phrase);
    let bytes = before + written + after;
    assert(bytes.subrange(before.len() as int, (before.len() + phrase.len()) as int) =~= written);
    assert(occurs_at(bytes, phrase, before.len() as int));
}

/// A phrase that is mentioned does stand there, letter for letter but for case.
pub proof fn a_phrase_found_is_there(bytes: Seq<u8>, phrase: Seq<u8>)
    requires
        mentions(bytes, phrase),
    ensures
        exists|before: Seq<u8>, written: Seq<u8>, after: Seq<u8>|
            {
                &&& bytes == #[trigger] (before + written + after)
                &&& written.len() == phrase.len()
                &&& forall|i: int|
                    0 <= i < phrase.len() ==> same_letter(#[trigger] written[i], phrase[i])
            },
{
    let at = choose|at: int| occurs_at(bytes, phrase, at);
    let written = bytes.subrange(at, at + phrase.len());
    case_is_all_that_is_ignored(written, phrase);
    assert(bytes =~= bytes.take(at) + written + bytes.skip(at + phrase.len()));
}

/// Bytes taken as text, one character each, are those bytes.
pub proof fn text_of_bytes_keeps_them(bytes: Seq<u8>)
    ensures
        ascii_text(bytes).len() == bytes.len(),
        forall|i: int| 0 <= i < bytes.len() ==> (#[trigger] ascii_text(bytes)[i]) as int == bytes[i],
        ascii_bytes(ascii_text(bytes)) == bytes,
{
    assert(ascii_bytes(ascii_text(bytes)) =~= bytes);
}

/// Whether a text stands somewhere in another, whole.
pub open spec fn holds(text: Seq<char>, part: Seq<char>) -> bool {
    exists|before: Seq<char>, after: Seq<char>| text == #[trigger] (before + part + after)
}

/// A text holds what stands between two others.
pub proof fn lemma_holds(text: Seq<char>, before: Seq<char>, part: Seq<char>, after: Seq<char>)
    requires
        text =~= before + part + after,
    ensures
        holds(text, part),
{
}

} // verus!
