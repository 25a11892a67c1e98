//! Comparing two fingerprints: the matcher finds the segments in which
//! they line up, and the segments are reduced to one score.

use crate::codec::{decode, decoded};
use crate::preset::Preset;
use crate::score::Score;
use crate::segment::{aggregate, score_segments, total_frames, Segment};
use crate::text::{bytes_of, text_bytes};
use vstd::prelude::*;

verus! {

/// Why two fingerprints could not be compared.
#[derive(Debug, Clone, Copy, PartialEq, Eq, Structural)]
pub enum CompareError {
    /// The text of the fingerprint with this index (0 or 1) is not base64.
    EncodingError { index: u8 },
    /// The bytes of the fingerprint with this index (0 or 1) are not a whole
    /// number of codes.
    CodecFormatError { index: u8 },
    /// The fingerprint with this index (0 or 1) has `FINGERPRINT_LIMIT` codes
    /// or more.
    FingerprintTooLong { index: u8 },
}

impl CompareError {
    /// The words in which a failed comparison is reported.
    pub open spec fn message_text(self) -> Seq<char> {
        match self {
            CompareError::EncodingError { index } => if index == 0 {
                "Base64 decode error for fingerprint_a"@
            } else {
                "Base64 decode error for fingerprint_b"@
            },
            CompareError::CodecFormatError { index } => if index == 0 {
                "Length of fingerprint_a is not a multiple of 4 bytes"@
            } else {
                "Length of fingerprint_b is not a multiple of 4 bytes"@
            },
            CompareError::FingerprintTooLong { .. } => "Failed to match fingerprints"@,
        }
    }

    /// Reports the failure in words.
    pub fn message(&self) -> (text: &'static str)
        ensures
            text@ == self.message_text(),
    {
        match self {
            CompareError::EncodingError { index } => if *index == 0 {
                "Base64 decode error for fingerprint_a"
            } else {
                "Base64 decode error for fingerprint_b"
            },
            CompareError::CodecFormatError { index } => if *index == 0 {
                "Length of fingerprint_a is not a multiple of 4 bytes"
            } else {
                "Length of fingerprint_b is not a multiple of 4 bytes"
            },
            CompareError::FingerprintTooLong { .. } => "Failed to match fingerprints",
        }
    }
}

/// The matcher takes fingerprints of fewer codes than this.
pub const FINGERPRINT_LIMIT: usize = 524286;

/// The segments that the matcher finds for two fingerprints within the limit.
pub uninterp spec fn matched_segments(fp1: Seq<u32>, fp2: Seq<u32>) -> Seq<Segment>;

/// Every segment lies inside both fingerprints, and the segments follow one
/// another in the first fingerprint without overlap.
pub open spec fn in_order_within(segments: Seq<Segment>, len1: nat, len2: nat) -> bool {
    &&& forall|i: int|
        0 <= i < segments.len() ==> (#[trigger] segments[i]).offset1 + segments[i].items_count
            <= len1 && segments[i].offset2 + segments[i].items_count <= len2
    &&& forall|i: int, j: int|
        0 <= i < j < segments.len() ==> (#[trigger] segments[i]).offset1 + segments[i].items_count
            <= (#[trigger] segments[j]).offset1
}

/// Segments that lie in order inside a fingerprint of `len1` codes have no
/// more than `len1` frames together.
pub proof fn frames_fit(segments: Seq<Segment>, len1: nat, len2: nat)
    requires
        in_order_within(segments, len1, len2),
    ensures
        total_frames(segments) <= len1,
        segments.len() > 0 ==> total_frames(segments) <= segments.last().offset1
            + segments.last().items_count,
    decreases segments.len(),
{
    if segments.len() > 0 {
        let front = segments.drop_last();
        assert(in_order_within(front, len1, len2)) by {
            assert forall|i: int| 0 <= i < front.len() implies front[i] == segments[i] by {}
        }
        frames_fit(front, len1, len2);
        if front.len() > 0 {
            assert(front.last() == segments[segments.len() - 2]);
        }
    }
}

/// What comparing two fingerprints gives: no score if either is empty, an
/// error if one is too long for the matcher (the first such one is named),
/// else the aggregate of the segments that the matcher finds.
pub open spec fn comparison(fp1: Seq<u32>, fp2: Seq<u32>) -> Result<Option<Score>, CompareError> {
    if fp1.len() == 0 || fp2.len() == 0 {
        Ok(None)
    } else if fp1.len() >= FINGERPRINT_LIMIT {
        Err(CompareError::FingerprintTooLong { index: 0 })
    } else if fp2.len() >= FINGERPRINT_LIMIT {
        Err(CompareError::FingerprintTooLong { index: 1 })
    } else {
        Ok(aggregate(matched_segments(fp1, fp2)))
    }
}

/// An empty fingerprint compares to nothing: against whatever other
/// fingerprint, and on either side, there is no score and no error.
pub proof fn comparison_of_empty(fp: Seq<u32>)
    ensures
        comparison(Seq::empty(), fp) == Ok::<Option<Score>, CompareError>(None),
        comparison(fp, Seq::empty()) == Ok::<Option<Score>, CompareError>(None),
{
}

/// Whether two fingerprints can be compared does not depend on which comes
/// first: the comparison fails one way round exactly where it fails the
/// other way round.
pub proof fn comparison_fails_both_ways(fp1: Seq<u32>, fp2: Seq<u32>)
    ensures
        comparison(fp1, fp2) is Err <==> comparison(fp2, fp1) is Err,
{
}

/// Compares two fingerprints made under `preset`. `Ok(None)` says that they
/// have nothing in common that lines up; a score says how unlike the parts
/// are that do line up, 0 for identical. An empty fingerprint is compared
/// with nothing: the matcher is not asked.
pub fn compare(fp1: &[u32], fp2: &[u32], preset: &Preset) -> (r: Result<Option<Score>, CompareError>)
    ensures
        r == comparison(fp1@, fp2@),
{
    if fp1.len() == 0 || fp2.len() == 0 {
        return Ok(None);
    }
    match match_segments(fp1, fp2, preset.parameters()) {
        Ok(segments) => {
            proof {
                frames_fit(segments@, fp1@.len(), fp2@.len());
            }
            Ok(score_segments(segments.as_slice()))
        },
        Err(e) => Err(e),
    }
}

/// What comparing two fingerprints in text form gives. Both texts are read as
/// base64 before either is cut into codes, so an `EncodingError` of either
/// text comes before a `CodecFormatError` of either.
pub open spec fn text_comparison(text1: Seq<char>, text2: Seq<char>) -> Result<
    Option<Score>,
    CompareError,
> {
    match (bytes_of(text1), bytes_of(text2)) {
        (Err(_), _) => Err(CompareError::EncodingError { index: 0 }),
        (Ok(_), Err(_)) => Err(CompareError::EncodingError { index: 1 }),
        (Ok(bytes1), Ok(bytes2)) => if bytes1.len() % 4 != 0 {
            Err(CompareError::CodecFormatError { index: 0 })
        } else if bytes2.len() % 4 != 0 {
            Err(CompareError::CodecFormatError { index: 1 })
        } else {
            comparison(decoded(bytes1), decoded(bytes2))
        },
    }
}

/// Whether two texts can be compared does not depend on which comes first.
pub proof fn text_comparison_fails_both_ways(text1: Seq<char>, text2: Seq<char>)
    ensures
        text_comparison(text1, text2) is Err <==> text_comparison(text2, text1) is Err,
{
    match (bytes_of(text1), bytes_of(text2)) {
        (Ok(bytes1), Ok(bytes2)) => {
            comparison_fails_both_ways(decoded(bytes1), decoded(bytes2));
        },
        _ => {},
    }
}

/// Compares two fingerprints given in text form, both made under `preset`.
pub fn compare_fingerprints(text1: &str, text2: &str, preset: &Preset) -> (r: Result<
    Option<Score>,
    CompareError,
>)
    ensures
        r == text_comparison(text1@, text2@),
{
    let bytes1 = match text_bytes(text1) {
        Ok(bytes) => bytes,
        Err(_) => {
            return Err(CompareError::EncodingError { index: 0 });
        },
    };
    let bytes2 = match text_bytes(text2) {
        Ok(bytes) => bytes,
        Err(_) => {
            return Err(CompareError::EncodingError { index: 1 });
        },
    };
    let fp1 = match decode(bytes1.as_slice()) {
        Ok(codes) => codes,
        Err(_) => {
            return Err(CompareError::CodecFormatError { index: 0 });
        },
    };
    let fp2 = match decode(bytes2.as_slice()) {
        Ok(codes) => codes,
        Err(_) => {
            return Err(CompareError::CodecFormatError { index: 1 });
        },
    };
    compare(fp1.as_slice(), fp2.as_slice(), preset)
}

/// Calls `rusty_chromaprint::match_fingerprints` and hands its segments out
/// field by field, each score as its bit pattern.
///
/// Taken on trust from that function: it fails exactly when a fingerprint has
/// `FINGERPRINT_LIMIT` codes or more, naming the first such one; what it finds
/// otherwise depends on the two fingerprints alone; and the segments it finds
/// lie inside both fingerprints and follow one another without overlap.
#[verifier::external_body]
fn match_segments(fp1: &[u32], fp2: &[u32], parameters: &rusty_chromaprint::Configuration) -> (r:
    Result<Vec<Segment>, CompareError>)
    ensures
        match r {
            Ok(segments) => {
                &&& fp1@.len() < FINGERPRINT_LIMIT
                &&& fp2@.len() < FINGERPRINT_LIMIT
                &&& segments@ == matched_segments(fp1@, fp2@)
                &&& in_order_within(segments@, fp1@.len(), fp2@.len())
            },
            Err(e) => {
                ||| fp1@.len() >= FINGERPRINT_LIMIT && e == (CompareError::FingerprintTooLong {
                    index: 0,
                })
                ||| fp1@.len() < FINGERPRINT_LIMIT && fp2@.len() >= FINGERPRINT_LIMIT && e == (
                CompareError::FingerprintTooLong { index: 1 })
            },
        },
{
    match rusty_chromaprint::match_fingerprints(fp1, fp2, parameters) {
        Ok(found) => Ok(
            found.iter().map(
                |s| Segment { offset1: s.offset1, offset2: s.offset2, items_count: s.items_count, score_bits: s.score.to_bits() },
            ).collect(),
        ),
        Err(rusty_chromaprint::MatchError::FingerprintTooLong { index }) => Err(
            CompareError::FingerprintTooLong { index },
        ),
    }
}

} // verus!
