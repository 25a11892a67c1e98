//! The byte form of a fingerprint: four bytes per code, most significant byte
//! first, codes in order.

use vstd::prelude::*;

verus! {

/// Why a serialized fingerprint was rejected.
#[derive(Debug, Clone, Copy, PartialEq, Eq, Structural)]
pub enum CodecError {
    /// The byte length is not a multiple of four.
    CodecFormatError,
    /// The text is not base64.
    EncodingError,
}

/// The four bytes of a code, most significant first.
pub open spec fn code_bytes(code: u32) -> Seq<u8> {
    seq![
        (code / 0x100_0000) as u8,
        (code / 0x1_0000 % 0x100) as u8,
        (code / 0x100 % 0x100) as u8,
        (code % 0x100) as u8,
    ]
}

/// The code whose bytes, most significant first, are `b0`, `b1`, `b2`, `b3`.
pub open spec fn code_of(b0: u8, b1: u8, b2: u8, b3: u8) -> u32 {
    (b0 * 0x100_0000 + b1 * 0x1_0000 + b2 * 0x100 + b3) as u32
}

/// The byte form of a fingerprint.
pub open spec fn encoded(codes: Seq<u32>) -> Seq<u8> {
    Seq::new(4 * codes.len(), |i: int| code_bytes(codes[i / 4])[i % 4])
}

/// The fingerprint that a byte sequence holds, read four bytes at a time.
/// Bytes after the last whole group of four do not count.
pub open spec fn decoded(bytes: Seq<u8>) -> Seq<u32> {
    Seq::new(
        bytes.len() / 4,
        |k: int| code_of(bytes[4 * k], bytes[4 * k + 1], bytes[4 * k + 2], bytes[4 * k + 3]),
    )
}

/// Reading the four bytes of a code gives the code back.
pub proof fn code_of_code_bytes(code: u32)
    ensures
        code_bytes(code).len() == 4,
        code_of(
            code_bytes(code)[0],
            code_bytes(code)[1],
            code_bytes(code)[2],
            code_bytes(code)[3],
        ) == code,
{
}

/// Writing the code read from four bytes gives the four bytes back.
pub proof fn code_bytes_code_of(b0: u8, b1: u8, b2: u8, b3: u8)
    ensures
        code_bytes(code_of(b0, b1, b2, b3)) == seq![b0, b1, b2, b3],
{
    let low: int = b1 * 0x1_0000 + b2 * 0x100 + b3;
    let code: int = b0 * 0x100_0000 + low;
    assert(0 <= low < 0x100_0000);
    assert(code / 0x100_0000 == b0);
    assert(code / 0x1_0000 == b0 * 0x100 + b1);
    assert(code / 0x100 == b0 * 0x1_0000 + b1 * 0x100 + b2);
    assert(code_of(b0, b1, b2, b3) == code);
    assert(code_bytes(code_of(b0, b1, b2, b3)) =~= seq![b0, b1, b2, b3]);
}

/// Decoding inverts encoding: every fingerprint comes back from its byte
/// form, and that form has a length that decoding accepts.
pub proof fn decode_inverts_encode(codes: Seq<u32>)
    ensures
        encoded(codes).len() == 4 * codes.len(),
        encoded(codes).len() % 4 == 0,
        decoded(encoded(codes)) == codes,
{
    let bytes = encoded(codes);
    assert forall|k: int| 0 <= k < codes.len() implies #[trigger] decoded(bytes)[k] == codes[k] by {
        code_of_code_bytes(codes[k]);
        assert((4 * k) / 4 == k && (4 * k + 1) / 4 == k && (4 * k + 2) / 4 == k && (4 * k + 3) / 4
            == k);
        assert((4 * k) % 4 == 0 && (4 * k + 1) % 4 == 1 && (4 * k + 2) % 4 == 2 && (4 * k + 3) % 4
            == 3);
    }
    assert(decoded(bytes) =~= codes);
}

/// Encoding inverts decoding on every byte sequence that decoding accepts.
pub proof fn encode_inverts_decode(bytes: Seq<u8>)
    requires
        bytes.len() % 4 == 0,
    ensures
        encoded(decoded(bytes)) == bytes,
{
    let codes = decoded(bytes);
    assert forall|i: int| 0 <= i < bytes.len() implies #[trigger] encoded(codes)[i] == bytes[i] by {
        let k = i / 4;
        code_bytes_code_of(bytes[4 * k], bytes[4 * k + 1], bytes[4 * k + 2], bytes[4 * k + 3]);
    }
    assert(encoded(codes) =~= bytes);
}

/// Two fingerprints with the same byte form are the same fingerprint.
pub proof fn encoded_is_injective(a: Seq<u32>, b: Seq<u32>)
    requires
        encoded(a) == encoded(b),
    ensures
        a == b,
{
    decode_inverts_encode(a);
    decode_inverts_encode(b);
}

/// Serializes a fingerprint: four bytes per code, most significant byte
/// first, in sequence order.
pub fn encode(codes: &[u32]) -> (bytes: Vec<u8>)
    ensures
        bytes@ == encoded(codes@),
{
    let mut bytes: Vec<u8> = Vec::new();
    let mut i: usize = 0;
    while i < codes.len()
        invariant
            i <= codes.len(),
            bytes@.len() == 4 * i,
            forall|j: int| 0 <= j < 4 * i ==> bytes@[j] == code_bytes(codes@[j / 4])[j % 4],
        decreases codes.len() - i,
    {
        let code: u32 = codes[i];
        bytes.push((code / 0x100_0000) as u8);
        bytes.push((code / 0x1_0000 % 0x100) as u8);
        bytes.push((code / 0x100 % 0x100) as u8);
        bytes.push((code % 0x100) as u8);
        i += 1;
    }
    assert(bytes@ =~= encoded(codes@));
    bytes
}

/// Reads a fingerprint back from its byte form. A length that is not a
/// multiple of four is rejected; nothing is cut off silently.
pub fn decode(bytes: &[u8]) -> (r: Result<Vec<u32>, CodecError>)
    ensures
        bytes@.len() % 4 == 0 ==> (r matches Ok(codes) && codes@ == decoded(bytes@)),
        bytes@.len() % 4 != 0 ==> (r matches Err(e) && e == CodecError::CodecFormatError),
{
    if bytes.len() % 4 != 0 {
        return Err(CodecError::CodecFormatError);
    }
    let count: usize = bytes.len() / 4;
    let mut codes: Vec<u32> = Vec::new();
    let mut k: usize = 0;
    while k < count
        invariant
            k <= count,
            4 * count == bytes@.len(),
            bytes@.len() <= usize::MAX,
            codes@.len() == k,
            forall|j: int| 0 <= j < k ==> codes@[j] == decoded(bytes@)[j],
        decreases count - k,
    {
        let b0: u32 = bytes[4 * k] as u32;
        let b1: u32 = bytes[4 * k + 1] as u32;
        let b2: u32 = bytes[4 * k + 2] as u32;
        let b3: u32 = bytes[4 * k + 3] as u32;
        codes.push(b0 * 0x100_0000 + b1 * 0x1_0000 + b2 * 0x100 + b3);
        k += 1;
    }
    assert(codes@ =~= decoded(bytes@));
    Ok(codes)
}

} // verus!
