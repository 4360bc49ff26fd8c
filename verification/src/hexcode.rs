use vstd::prelude::*;

verus! {

/// The lower-case hexadecimal digit for a nibble `n` (0 <= n < 16).
pub open spec fn hex_digit(n: int) -> char {
    if n < 10 {
        (48 + n) as char
    } else {
        (87 + n) as char
    }
}

/// Lower-case hexadecimal text of `bytes`: two digits per byte, high nibble first.
pub open spec fn hex_encoding(bytes: Seq<u8>) -> Seq<char> {
    Seq::new(
        2 * bytes.len(),
        |i: int|
            if i % 2 == 0 {
                hex_digit((bytes[i / 2] / 16) as int)
            } else {
                hex_digit((bytes[i / 2] % 16) as int)
            },
    )
}

/// A character accepted as a hexadecimal digit, in either case.
pub open spec fn is_hex_char(c: char) -> bool {
    ||| 48 <= c as u32 <= 57
    ||| 97 <= c as u32 <= 102
    ||| 65 <= c as u32 <= 70
}

/// The value of a hexadecimal digit.
pub open spec fn hex_char_value(c: char) -> int {
    if 48 <= c as u32 <= 57 {
        c as u32 - 48
    } else if 97 <= c as u32 <= 102 {
        c as u32 - 87
    } else {
        c as u32 - 55
    }
}

/// Text that decodes as hexadecimal: an even number of hexadecimal digits.
pub open spec fn is_hex_text(text: Seq<char>) -> bool {
    &&& text.len() % 2 == 0
    &&& forall|i: int| 0 <= i < text.len() ==> is_hex_char(#[trigger] text[i])
}

/// The bytes that hexadecimal `text` stands for, two digits per byte.
pub open spec fn hex_decoding(text: Seq<char>) -> Seq<u8> {
    Seq::new(
        text.len() / 2,
        |i: int| (16 * hex_char_value(text[2 * i]) + hex_char_value(text[2 * i + 1])) as u8,
    )
}

/// Hexadecimal text is twice as long as the bytes and uses only the digits
/// `0`-`9` and the lower-case letters `a`-`f`.
pub proof fn lemma_hex_encoding_is_lower_case(bytes: Seq<u8>)
    ensures
        hex_encoding(bytes).len() == 2 * bytes.len(),
        forall|i: int|
            0 <= i < hex_encoding(bytes).len() ==> (48 <= #[trigger] hex_encoding(bytes)[i] as u32 <= 57 || 97
                <= hex_encoding(bytes)[i] as u32 <= 102),
{
    assert forall|i: int| 0 <= i < hex_encoding(bytes).len() implies (48 <= #[trigger] hex_encoding(bytes)[i] as u32 <= 57
        || 97 <= hex_encoding(bytes)[i] as u32 <= 102) by {
        lemma_hex_digit_value((bytes[i / 2] / 16) as int);
        lemma_hex_digit_value((bytes[i / 2] % 16) as int);
    }
}

proof fn lemma_hex_digit_value(n: int)
    requires
        0 <= n < 16,
    ensures
        is_hex_char(hex_digit(n)),
        hex_char_value(hex_digit(n)) == n,
{
}

/// Hexadecimal encoding is undone by decoding.
pub proof fn lemma_hex_roundtrip(bytes: Seq<u8>)
    ensures
        is_hex_text(hex_encoding(bytes)),
        hex_decoding(hex_encoding(bytes)) == bytes,
{
    let text = hex_encoding(bytes);
    assert forall|i: int| 0 <= i < text.len() implies is_hex_char(#[trigger] text[i]) by {
        lemma_hex_digit_value((bytes[i / 2] / 16) as int);
        lemma_hex_digit_value((bytes[i / 2] % 16) as int);
    }
    assert forall|i: int| 0 <= i < bytes.len() implies hex_decoding(text)[i] == bytes[i] by {
        assert((2 * i) / 2 == i);
        assert((2 * i + 1) / 2 == i);
        lemma_hex_digit_value((bytes[i] / 16) as int);
        lemma_hex_digit_value((bytes[i] % 16) as int);
    }
    assert(hex_decoding(text) =~= bytes);
}

/// `hex::FromHexError`, the error of `hex::decode`.
#[verifier::external_type_specification]
#[verifier::external_body]
pub struct ExFromHexError(hex::FromHexError);

/// Calls `hex::encode`, which writes each byte as two lower-case hexadecimal
/// digits, high nibble first.
#[verifier::external_body]
pub(crate) fn hex_encode(bytes: &[u8]) -> (text: String)
    ensures
        text@ == hex_encoding(bytes@),
{
    hex::encode(bytes)
}

/// Calls `hex::decode` on the UTF-8 bytes of `text`: it succeeds exactly when
/// the text is an even number of hexadecimal digits of either case (any other
/// character, non-ASCII ones included, is refused), and then gives one byte
/// per pair of digits.
#[verifier::external_body]
pub(crate) fn hex_decode(text: &str) -> (bytes: Result<Vec<u8>, hex::FromHexError>)
    ensures
        bytes is Ok <==> is_hex_text(text@),
        bytes matches Ok(b) ==> b@ == hex_decoding(text@),
{
    hex::decode(text)
}

} // verus!
