//! The text form of a fingerprint: the base64 of its byte form.

use crate::codec::{decode, decoded, encode, encoded, CodecError};
use vstd::prelude::*;

verus! {

#[verifier::external_type_specification]
#[verifier::external_body]
pub struct ExDecodeError(base64::DecodeError);

/// The base64 of a byte sequence, in the standard alphabet, with padding.
pub uninterp spec fn base64_text(bytes: Seq<u8>) -> Seq<char>;

/// The bytes that a text is the base64 of, if it is that of any.
pub uninterp spec fn base64_bytes(text: Seq<char>) -> Option<Seq<u8>>;

/// Whether a character is one of the 64 that stand for six bits each: a
/// letter or a digit of ASCII, `+` or `/`.
pub open spec fn is_base64_digit(c: char) -> bool {
    let n = c as u32;
    ||| 0x41 <= n <= 0x5A
    ||| 0x61 <= n <= 0x7A
    ||| 0x30 <= n <= 0x39
    ||| n == 0x2B
    ||| n == 0x2F
}

/// Whether a character is one that base64 text is made of: one of the 64,
/// or the padding `=`.
pub open spec fn is_base64_symbol(c: char) -> bool {
    is_base64_digit(c) || c == '='
}

/// The number of `=` that end the base64 of `n` bytes: none after whole
/// groups of three bytes, two after one byte over, one after two.
pub open spec fn base64_padding(n: nat) -> nat {
    ((3 - n % 3) % 3) as nat
}

/// Whether a text has the shape of the base64 of `n` bytes: the length, the
/// padding at the end, and before it nothing but the 64 characters.
pub open spec fn base64_shaped(text: Seq<char>, n: nat) -> bool {
    &&& text.len() == base64_len(n)
    &&& forall|i: int| 0 <= i < text.len() - base64_padding(n) ==> is_base64_digit(#[trigger] text[i])
    &&& forall|i: int| text.len() - base64_padding(n) <= i < text.len() ==> #[trigger] text[i] == '='
}

/// Whether a character is white space, which is to say has the Unicode
/// property `White_Space`.
pub open spec fn is_white_space(c: char) -> bool {
    let n = c as u32;
    ||| 0x09 <= n <= 0x0D
    ||| n == 0x20
    ||| n == 0x85
    ||| n == 0xA0
    ||| n == 0x1680
    ||| 0x2000 <= n <= 0x200A
    ||| n == 0x2028
    ||| n == 0x2029
    ||| n == 0x202F
    ||| n == 0x205F
    ||| n == 0x3000
}

/// The number of white space characters with which a text begins.
pub open spec fn leading_white(text: Seq<char>) -> nat
    decreases text.len(),
{
    if text.len() > 0 && is_white_space(text.first()) {
        1 + leading_white(text.drop_first())
    } else {
        0
    }
}

/// The number of white space characters with which a text ends.
pub open spec fn trailing_white(text: Seq<char>) -> nat
    decreases text.len(),
{
    if text.len() > 0 && is_white_space(text.last()) {
        1 + trailing_white(text.drop_last())
    } else {
        0
    }
}

/// A text without the white space at its two ends.
pub open spec fn trimmed(text: Seq<char>) -> Seq<char> {
    let rest = text.skip(leading_white(text) as int);
    rest.take(rest.len() - trailing_white(rest))
}

/// A text that is empty, or neither begins nor ends with white space, is
/// trimmed already.
pub proof fn trimmed_is_whole(text: Seq<char>)
    requires
        text.len() > 0 ==> !is_white_space(text.first()) && !is_white_space(text.last()),
    ensures
        trimmed(text) == text,
{
    assert(text.skip(0) =~= text);
    assert(text.take(text.len() as int) =~= text);
}

/// The length of the base64 of `n` bytes: four characters for every three
/// bytes or part of three.
pub open spec fn base64_len(n: nat) -> nat {
    4 * ((n + 2) / 3)
}

/// The text form of a fingerprint.
pub open spec fn text_of(codes: Seq<u32>) -> Seq<char> {
    base64_text(encoded(codes))
}

/// The bytes that a text holds once trimmed, or `EncodingError`.
pub open spec fn bytes_of(text: Seq<char>) -> Result<Seq<u8>, CodecError> {
    match base64_bytes(trimmed(text)) {
        Some(bytes) => Ok(bytes),
        None => Err(CodecError::EncodingError),
    }
}

/// The fingerprint that a text holds: its bytes must be base64 and a whole
/// number of codes.
pub open spec fn parsed(text: Seq<char>) -> Result<Seq<u32>, CodecError> {
    match bytes_of(text) {
        Ok(bytes) => if bytes.len() % 4 == 0 {
            Ok(decoded(bytes))
        } else {
            Err(CodecError::CodecFormatError)
        },
        Err(e) => Err(e),
    }
}

/// Writes a fingerprint as text, from which `parse_fingerprint` reads it
/// back. The text must fit in memory: its length, a third more than four
/// bytes per code, may not exceed `usize::MAX`.
pub fn fingerprint_text(codes: &[u32]) -> (text: String)
    requires
        base64_len(4 * codes@.len()) <= usize::MAX,
    ensures
        text@ == text_of(codes@),
        text@.len() == base64_len(4 * codes@.len()),
        base64_shaped(text@, 4 * codes@.len()),
        forall|i: int| 0 <= i < text@.len() ==> is_base64_symbol(#[trigger] text@[i]),
        parsed(text@) == Ok::<Seq<u32>, CodecError>(codes@),
{
    let bytes = encode(codes);
    let text = base64_encode(bytes.as_slice());
    proof {
        crate::codec::decode_inverts_encode(codes@);
        if text@.len() > 0 {
            assert(is_base64_symbol(text@[0]) && is_base64_symbol(text@.last()));
        }
        trimmed_is_whole(text@);
    }
    text
}

/// Reads the bytes out of a base64 text, white space at its ends aside.
pub fn text_bytes(text: &str) -> (r: Result<Vec<u8>, CodecError>)
    ensures
        match r {
            Ok(bytes) => bytes_of(text@) == Ok::<Seq<u8>, CodecError>(bytes@),
            Err(e) => bytes_of(text@) == Err::<Seq<u8>, CodecError>(e),
        },
{
    match base64_decode(trim(text)) {
        Ok(bytes) => Ok(bytes),
        Err(_) => Err(CodecError::EncodingError),
    }
}

/// Reads a fingerprint from its text form. Text that is not base64 gives
/// `EncodingError`; base64 of a byte count that is not a multiple of four
/// gives `CodecFormatError`.
pub fn parse_fingerprint(text: &str) -> (r: Result<Vec<u32>, CodecError>)
    ensures
        match r {
            Ok(codes) => parsed(text@) == Ok::<Seq<u32>, CodecError>(codes@),
            Err(e) => parsed(text@) == Err::<Seq<u32>, CodecError>(e),
        },
{
    match text_bytes(text) {
        Ok(bytes) => decode(bytes.as_slice()),
        Err(e) => Err(e),
    }
}

/// Calls `encode` of `base64::engine::general_purpose::STANDARD`.
///
/// Taken on trust: the text depends on the bytes alone, has four characters
/// for every three bytes or part of three, ends in as many `=` as fill the
/// last four and holds none but the 64 characters before them, and is text
/// that `decode` of the same engine turns back into the bytes. The call
/// panics where that length does not fit in `usize`, which `requires` rules
/// out.
#[verifier::external_body]
fn base64_encode(bytes: &[u8]) -> (text: String)
    requires
        base64_len(bytes@.len()) <= usize::MAX,
    ensures
        text@ == base64_text(bytes@),
        base64_shaped(text@, bytes@.len()),
        base64_bytes(text@) == Some(bytes@),
{
    base64::Engine::encode(&base64::engine::general_purpose::STANDARD, bytes)
}

/// Calls `decode` of `base64::engine::general_purpose::STANDARD`.
///
/// Taken on trust: whether the call succeeds, and with which bytes, depends
/// on the text alone.
#[verifier::external_body]
fn base64_decode(text: &str) -> (r: Result<Vec<u8>, base64::DecodeError>)
    ensures
        match r {
            Ok(bytes) => base64_bytes(text@) == Some(bytes@),
            Err(_) => base64_bytes(text@) is None,
        },
{
    base64::Engine::decode(&base64::engine::general_purpose::STANDARD, text)
}

/// Calls `str::trim`.
///
/// Taken on trust, as that function is documented: the result is the text
/// without its leading and trailing white space, where white space is what
/// has the Unicode property `White_Space`.
#[verifier::external_body]
fn trim(text: &str) -> (r: &str)
    ensures
        r@ == trimmed(text@),
{
    text.trim()
}

} // verus!
