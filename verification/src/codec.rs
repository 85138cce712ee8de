use vstd::prelude::*;

use crate::error::Error;

verus! {

/// The digit that stands for a nibble: `0` to `9`, then `a` to `f`.
pub open spec fn hex_digit(nibble: int) -> char {
    if nibble < 10 {
        (nibble + 48) as char
    } else {
        (nibble + 87) as char
    }
}

/// The nibble of `bytes` that the digit at `position` of its text stands for:
/// the high half of a byte at an even position, the low half at an odd one.
pub open spec fn nibble_at(bytes: Seq<u8>, position: int) -> int {
    if position % 2 == 0 {
        bytes[position / 2] as int / 16
    } else {
        bytes[position / 2] as int % 16
    }
}

/// The hexadecimal text of `bytes`: two lower-case digits for each byte, in
/// the order of the bytes.
pub open spec fn encoded(bytes: Seq<u8>) -> Seq<char> {
    Seq::new(2 * bytes.len(), |position: int| hex_digit(nibble_at(bytes, position)))
}

/// The value of `c` as a hexadecimal digit in either case; `None` for any
/// other character.
pub open spec fn digit_value(c: char) -> Option<int> {
    if '0' <= c <= '9' {
        Some(c as int - 48)
    } else if 'a' <= c <= 'f' {
        Some(c as int - 87)
    } else if 'A' <= c <= 'F' {
        Some(c as int - 55)
    } else {
        None
    }
}

/// Whether `text` is hexadecimal: an even number of characters, each of them
/// a hexadecimal digit.
pub open spec fn is_hex(text: Seq<char>) -> bool {
    &&& text.len() % 2 == 0
    &&& forall|i: int| 0 <= i < text.len() ==> (#[trigger] digit_value(text[i])) is Some
}

/// The byte that the two digits `high` and `low` stand for.
pub open spec fn byte_of(high: char, low: char) -> u8 {
    (16 * digit_value(high).unwrap() + digit_value(low).unwrap()) as u8
}

/// The bytes that a hexadecimal `text` stands for.
pub open spec fn decoded(text: Seq<char>) -> Seq<u8> {
    Seq::new(text.len() / 2, |i: int| byte_of(text[2 * i], text[2 * i + 1]))
}

/// What decoding `text` gives: its bytes, or `InvalidHex` where it is not
/// hexadecimal.
pub open spec fn decode_spec(text: Seq<char>) -> Result<Seq<u8>, Error> {
    if is_hex(text) {
        Ok(decoded(text))
    } else {
        Err(Error::InvalidHex)
    }
}

/// Text of odd length is not hexadecimal, and neither is text that holds a
/// character which is no hexadecimal digit: decoding either is `InvalidHex`.
pub proof fn lemma_decode_rejects(text: Seq<char>, i: int)
    ensures
        text.len() % 2 == 1 ==> decode_spec(text) == Err::<Seq<u8>, Error>(Error::InvalidHex),
        0 <= i < text.len() && digit_value(text[i]) is None ==> decode_spec(text) == Err::<
            Seq<u8>,
            Error,
        >(Error::InvalidHex),
{
}

/// A digit written for a nibble reads back as that nibble.
pub proof fn lemma_digit_round_trip(nibble: int)
    requires
        0 <= nibble < 16,
    ensures
        digit_value(hex_digit(nibble)) == Some(nibble),
        '0' <= hex_digit(nibble) <= '9' || 'a' <= hex_digit(nibble) <= 'f',
{
}

/// Encoding gives text of twice the length of the bytes, made of the digits
/// `0` to `9` and `a` to `f` only, which is therefore hexadecimal.
pub proof fn lemma_encoded_shape(bytes: Seq<u8>)
    ensures
        encoded(bytes).len() == 2 * bytes.len(),
        forall|i: int|
            0 <= i < encoded(bytes).len() ==> {
                let c = #[trigger] encoded(bytes)[i];
                '0' <= c <= '9' || 'a' <= c <= 'f'
            },
        is_hex(encoded(bytes)),
{
    let text = encoded(bytes);
    assert forall|i: int| 0 <= i < text.len() implies {
        let c = #[trigger] text[i];
        ('0' <= c <= '9' || 'a' <= c <= 'f') && digit_value(c) is Some
    } by {
        lemma_digit_round_trip(nibble_at(bytes, i));
    }
}

/// Decoding undoes encoding: the text of any bytes reads back as those bytes.
pub proof fn lemma_decode_encoded(bytes: Seq<u8>)
    ensures
        decode_spec(encoded(bytes)) == Ok::<Seq<u8>, Error>(bytes),
{
    lemma_encoded_shape(bytes);
    let text = encoded(bytes);
    assert forall|i: int| 0 <= i < bytes.len() implies decoded(text)[i] == bytes[i] by {
        lemma_digit_round_trip(nibble_at(bytes, 2 * i));
        lemma_digit_round_trip(nibble_at(bytes, 2 * i + 1));
    }
    assert(decoded(text) =~= bytes);
}

/// Encoding undoes decoding up to case: hexadecimal text in lower case is the
/// text of the bytes it stands for.
pub proof fn lemma_encode_decoded(text: Seq<char>)
    requires
        is_hex(text),
        forall|i: int| 0 <= i < text.len() ==> !('A' <= #[trigger] text[i] <= 'F'),
    ensures
        encoded(decoded(text)) == text,
{
    let bytes = decoded(text);
    assert forall|p: int| 0 <= p < text.len() implies encoded(bytes)[p] == text[p] by {
        let i = p / 2;
        assert(digit_value(text[2 * i]) is Some);
        assert(digit_value(text[2 * i + 1]) is Some);
        assert(digit_value(text[p]) is Some);
    }
    assert(encoded(bytes) =~= text);
}

/// `base16::DecodeError`, of which nothing is read: every value of it
/// becomes `InvalidHex`.
#[verifier::external_type_specification]
#[verifier::external_body]
pub struct ExDecodeError(base16::DecodeError);

/// Calls `base16::encode_lower`, which writes for each byte the digit of its
/// high nibble and then the digit of its low nibble, taken from
/// `0123456789abcdef`. It panics where the length of the text would not fit
/// below the top bit of a `usize`; such an input is left out.
#[verifier::external_body]
fn base16_encode_lower(bytes: &[u8]) -> (text: String)
    requires
        2 * bytes@.len() <= usize::MAX,
    ensures
        text@ == encoded(bytes@),
{
    base16::encode_lower(bytes)
}

/// Calls `base16::decode` on the bytes of `text`. It fails on an odd number
/// of bytes and on any byte outside `0-9`, `a-f` and `A-F`; otherwise each
/// pair of digits gives one byte, the first digit being the high nibble. A
/// text whose bytes are all such digits has one character for each byte.
#[verifier::external_body]
fn base16_decode(text: &str) -> (outcome: Result<Vec<u8>, base16::DecodeError>)
    ensures
        outcome is Ok <==> is_hex(text@),
        outcome matches Ok(bytes) ==> bytes@ == decoded(text@),
{
    base16::decode(text)
}

/// Writes `bytes` as hexadecimal text, in lower case, two digits a byte.
pub fn encode(bytes: &[u8]) -> (text: String)
    requires
        2 * bytes@.len() <= usize::MAX,
    ensures
        text@ == encoded(bytes@),
{
    base16_encode_lower(bytes)
}

/// Reads hexadecimal text, in either case, back into bytes. Text of odd
/// length, or with a character that is no hexadecimal digit, is `InvalidHex`.
pub fn decode(text: &str) -> (outcome: Result<Vec<u8>, Error>)
    ensures
        match outcome {
            Ok(bytes) => decode_spec(text@) == Ok::<Seq<u8>, Error>(bytes@),
            Err(e) => decode_spec(text@) == Err::<Seq<u8>, Error>(e),
        },
{
    match base16_decode(text) {
        Ok(bytes) => Ok(bytes),
        Err(_) => Err(Error::InvalidHex),
    }
}

} // verus!
