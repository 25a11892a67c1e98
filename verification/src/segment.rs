//! Matching segments and the score that a set of them comes to.
//!
//! Each segment has a score and a length in frames. The aggregate of a set
//! of segments is the maximum score less their mean gap, where a segment's
//! gap is what its score lacks to the maximum and the mean is the harmonic
//! mean weighted by frames: long segments that match well count most.

use crate::score::{in_score_range, score_of, steps, Score, MAX_SCORE};
use vstd::prelude::*;

verus! {

/// A run of frames of the first fingerprint that lines up with a run of the
/// same length of the second.
#[derive(Debug, Clone, Copy, PartialEq, Eq, Structural)]
pub struct Segment {
    /// Index of the run's first frame in the first fingerprint.
    pub offset1: usize,
    /// Index of the run's first frame in the second fingerprint.
    pub offset2: usize,
    /// Number of frames in the run.
    pub items_count: usize,
    /// The run's dissimilarity, as the bit pattern of a binary64 number.
    pub score_bits: u64,
}

/// The factor by which frame counts are scaled before they are divided by a
/// gap: 2^64.
pub const SHARE_SCALE: u128 = 0x1_0000_0000_0000_0000;

/// Whether a segment counts towards the aggregate: it spans a frame at least
/// and its score is a number from 0 up to, but not including, the maximum.
pub open spec fn informative(s: Segment) -> bool {
    s.items_count > 0 && in_score_range(s.score_bits)
}

/// The frames with which a segment weighs in: none if it is not informative.
pub open spec fn weight(s: Segment) -> nat {
    if informative(s) {
        s.items_count as nat
    } else {
        0
    }
}

/// How far a segment's score is below the maximum, in steps.
pub open spec fn gap(s: Segment) -> int {
    MAX_SCORE - steps(s.score_bits)
}

/// A segment's frames over its gap, scaled by `SHARE_SCALE` and rounded down.
pub open spec fn share(s: Segment) -> nat {
    if informative(s) {
        ((s.items_count * SHARE_SCALE) / gap(s)) as nat
    } else {
        0
    }
}

/// The frames of all segments.
pub open spec fn total_frames(segments: Seq<Segment>) -> nat
    decreases segments.len(),
{
    if segments.len() == 0 {
        0
    } else {
        total_frames(segments.drop_last()) + segments.last().items_count as nat
    }
}

/// The frames of the informative segments.
pub open spec fn total_weight(segments: Seq<Segment>) -> nat
    decreases segments.len(),
{
    if segments.len() == 0 {
        0
    } else {
        total_weight(segments.drop_last()) + weight(segments.last())
    }
}

/// The shares of the informative segments.
pub open spec fn total_share(segments: Seq<Segment>) -> nat
    decreases segments.len(),
{
    if segments.len() == 0 {
        0
    } else {
        total_share(segments.drop_last()) + share(segments.last())
    }
}

/// The aggregate score of a set of segments: the maximum less the mean gap,
/// where the mean is the harmonic mean of the informative segments' gaps,
/// each weighted by its frames. Without an informative segment there is no
/// score. The mean gap is rounded down and capped at the maximum.
pub open spec fn aggregate(segments: Seq<Segment>) -> Option<Score> {
    let frames = total_weight(segments);
    if frames == 0 {
        None
    } else {
        let mean_gap = (frames * SHARE_SCALE) / (total_share(segments) as int);
        let capped = if mean_gap > MAX_SCORE {
            MAX_SCORE as int
        } else {
            mean_gap
        };
        Some(Score { raw: (MAX_SCORE - capped) as u32 })
    }
}

/// An informative segment has a gap from 1 to the maximum, and its share
/// times its gap is at most its scaled frames and misses them by less than
/// the gap.
pub proof fn share_bounds(s: Segment)
    requires
        informative(s),
    ensures
        1 <= gap(s) <= MAX_SCORE,
        share(s) * gap(s) <= s.items_count * SHARE_SCALE,
        s.items_count * SHARE_SCALE < share(s) * gap(s) + gap(s),
        s.items_count * 0x8_0000_0000 <= share(s) <= s.items_count * SHARE_SCALE,
{
    crate::score::steps_in_range(s.score_bits);
    let g = gap(s);
    let x = s.items_count * SHARE_SCALE;
    vstd::arithmetic::div_mod::lemma_fundamental_div_mod(x, g);
    vstd::arithmetic::div_mod::lemma_div_pos_is_pos(x, g);
    assert(0 <= x % g < g);
    assert(g * (x / g) == (x / g) * g) by (nonlinear_arith);
    assert(x / g <= x) by {
        vstd::arithmetic::div_mod::lemma_div_is_ordered_by_denominator(x, 1, g);
    }
    assert(x / (MAX_SCORE as int) <= x / g) by {
        vstd::arithmetic::div_mod::lemma_div_is_ordered_by_denominator(x, g, MAX_SCORE as int);
    }
    assert(x / (MAX_SCORE as int) == s.items_count * 0x8_0000_0000);
}

/// The weight of a set of segments is at most its frames, and its shares lie
/// between 2^35 and 2^64 times its weight.
pub proof fn sums_bounds(segments: Seq<Segment>)
    ensures
        total_weight(segments) <= total_frames(segments),
        total_weight(segments) * 0x8_0000_0000 <= total_share(segments) <= total_weight(segments)
            * SHARE_SCALE,
    decreases segments.len(),
{
    if segments.len() > 0 {
        sums_bounds(segments.drop_last());
        if informative(segments.last()) {
            share_bounds(segments.last());
        }
    }
}

/// The first `n` segments have no more frames than all of them.
pub proof fn frames_of_prefix(segments: Seq<Segment>, n: int)
    requires
        0 <= n <= segments.len(),
    ensures
        total_frames(segments.take(n)) <= total_frames(segments),
    decreases segments.len() - n,
{
    if n < segments.len() {
        frames_of_prefix(segments, n + 1);
        assert(segments.take(n + 1).drop_last() =~= segments.take(n));
    } else {
        assert(segments.take(n) =~= segments);
    }
}

/// Reduces segments to their aggregate score: `None` where none of them is
/// informative, else the maximum less the weighted harmonic mean of the gaps.
/// The frames of all segments together must fit in 64 bits.
pub fn score_segments(segments: &[Segment]) -> (r: Option<Score>)
    requires
        total_frames(segments@) <= u64::MAX,
    ensures
        r == aggregate(segments@),
{
    let mut frames: u64 = 0;
    let mut shares: u128 = 0;
    let mut i: usize = 0;
    while i < segments.len()
        invariant
            i <= segments@.len(),
            total_frames(segments@) <= u64::MAX,
            frames == total_weight(segments@.take(i as int)),
            shares == total_share(segments@.take(i as int)),
        decreases segments@.len() - i,
    {
        let s: Segment = segments[i];
        proof {
            frames_of_prefix(segments@, i + 1);
            sums_bounds(segments@.take(i as int));
            sums_bounds(segments@.take(i + 1));
            assert(segments@.take(i + 1).drop_last() =~= segments@.take(i as int));
            assert(segments@.take(i + 1).last() == s);
        }
        if s.items_count > 0 {
            if let Some(score) = score_of(s.score_bits) {
                proof {
                    share_bounds(s);
                }
                let gap: u128 = (MAX_SCORE - score.raw) as u128;
                let scaled: u128 = (s.items_count as u128) * SHARE_SCALE;
                shares = shares + scaled / gap;
                frames = frames + s.items_count as u64;
            }
        }
        i += 1;
    }
    proof {
        assert(segments@.take(i as int) =~= segments@);
        sums_bounds(segments@);
    }
    if frames == 0 {
        return None;
    }
    let mean_gap: u128 = ((frames as u128) * SHARE_SCALE) / shares;
    let capped: u32 = if mean_gap > MAX_SCORE as u128 {
        MAX_SCORE
    } else {
        mean_gap as u32
    };
    Some(Score { raw: MAX_SCORE - capped })
}

/// Over two sets of segments taken together, frames, weight and shares are
/// the sums of those of the two.
pub proof fn totals_add_up(a: Seq<Segment>, b: Seq<Segment>)
    ensures
        total_frames(a + b) == total_frames(a) + total_frames(b),
        total_weight(a + b) == total_weight(a) + total_weight(b),
        total_share(a + b) == total_share(a) + total_share(b),
    decreases b.len(),
{
    if b.len() == 0 {
        assert(a + b =~= a);
    } else {
        totals_add_up(a, b.drop_last());
        assert((a + b).drop_last() =~= a + b.drop_last());
        assert((a + b).last() == b.last());
    }
}

/// The aggregate does not depend on which of two sets of segments comes
/// first.
pub proof fn aggregate_of_swapped(a: Seq<Segment>, b: Seq<Segment>)
    ensures
        aggregate(a + b) == aggregate(b + a),
{
    totals_add_up(a, b);
    totals_add_up(b, a);
}

/// Segments that are not informative change nothing: the aggregate with
/// them is the aggregate without.
pub proof fn aggregate_without_uninformative(a: Seq<Segment>, b: Seq<Segment>)
    requires
        forall|i: int| 0 <= i < b.len() ==> !informative(#[trigger] b[i]),
    ensures
        aggregate(a + b) == aggregate(a),
{
    totals_add_up(a, b);
    aggregate_is_none(b);
    sums_bounds(b);
}

/// Whether every informative segment has a score of `low` steps at least and
/// `high` steps at most.
pub open spec fn scores_between(segments: Seq<Segment>, low: int, high: int) -> bool {
    forall|i: int|
        0 <= i < segments.len() && informative(#[trigger] segments[i]) ==> low <= steps(
            segments[i].score_bits,
        ) <= high
}

/// Where every informative score lies between `low` and `high`, the shares
/// times the least gap are at most the scaled weight, and the shares times
/// the greatest gap miss it by no more than the weight times that gap.
proof fn shares_between(segments: Seq<Segment>, low: int, high: int)
    requires
        0 <= low <= high < MAX_SCORE,
        scores_between(segments, low, high),
    ensures
        total_share(segments) * (MAX_SCORE - high) <= total_weight(segments) * SHARE_SCALE,
        total_weight(segments) * SHARE_SCALE <= total_share(segments) * (MAX_SCORE - low)
            + total_weight(segments) * (MAX_SCORE - low),
    decreases segments.len(),
{
    let least = MAX_SCORE - high;
    let most = MAX_SCORE - low;
    let scale = SHARE_SCALE as int;
    if segments.len() == 0 {
        assert(total_share(segments) * least == 0) by (nonlinear_arith)
            requires
                total_share(segments) == 0,
        ;
    } else {
        let front = segments.drop_last();
        let s = segments.last();
        assert(scores_between(front, low, high)) by {
            assert forall|i: int| 0 <= i < front.len() implies front[i] == segments[i] by {}
        }
        shares_between(front, low, high);
        if informative(s) {
            share_bounds(s);
            assert(s == segments[segments.len() - 1]);
            let g = gap(s);
            let h = share(s) as int;
            let n = s.items_count as int;
            let fh = total_share(front) as int;
            let fw = total_weight(front) as int;
            assert(h * least <= h * g && h * g + g <= h * most + n * most) by (nonlinear_arith)
                requires
                    0 <= h,
                    1 <= n,
                    0 < least <= g <= most,
            ;
            assert((fh + h) * least == fh * least + h * least && (fh + h) * most == fh * most + h
                * most && (fw + n) * most == fw * most + n * most && (fw + n) * scale == fw * scale
                + n * scale) by (nonlinear_arith);
            assert(total_share(segments) == fh + h);
            assert(total_weight(segments) == fw + n);
        }
    }
}

/// There is no aggregate exactly where no segment is informative.
pub proof fn aggregate_is_none(segments: Seq<Segment>)
    ensures
        aggregate(segments) is None <==> forall|i: int|
            0 <= i < segments.len() ==> !informative(#[trigger] segments[i]),
    decreases segments.len(),
{
    if segments.len() > 0 {
        let front = segments.drop_last();
        aggregate_is_none(front);
        assert forall|i: int| 0 <= i < front.len() implies front[i] == segments[i] by {}
        assert(segments.last() == segments[segments.len() - 1]);
        if forall|i: int| 0 <= i < segments.len() ==> !informative(#[trigger] segments[i]) {
            assert forall|i: int| 0 <= i < front.len() implies !informative(#[trigger] front[i]) by {
                assert(!informative(segments[i]));
            }
        }
    }
}

/// The aggregate lies between the best and the worst score of the
/// informative segments: where each of them has `low` steps at least and
/// `high` at most, so has the aggregate.
pub proof fn aggregate_between(segments: Seq<Segment>, low: int, high: int)
    requires
        0 <= low <= high < MAX_SCORE,
        scores_between(segments, low, high),
    ensures
        aggregate(segments) matches Some(score) ==> low <= score.raw <= high,
{
    let weight = total_weight(segments) as int;
    let shares = total_share(segments) as int;
    let scale = SHARE_SCALE as int;
    if weight > 0 {
        shares_between(segments, low, high);
        sums_bounds(segments);
        let least = MAX_SCORE - high;
        let most = MAX_SCORE - low;
        let mean = (weight * scale) / shares;
        assert(shares > 0);
        vstd::arithmetic::div_mod::lemma_fundamental_div_mod(weight * scale, shares);
        assert(0 <= (weight * scale) % shares < shares);
        assert(least <= mean <= most) by (nonlinear_arith)
            requires
                shares > 0,
                weight > 0,
                0 < least <= most <= 0x2000_0000,
                shares * least <= weight * scale,
                weight * scale <= shares * most + weight * most,
                weight * 0x8_0000_0000 <= shares,
                weight * scale == shares * mean + (weight * scale) % shares,
                0 <= (weight * scale) % shares < shares,
        ;
    }
}

/// Where there is an aggregate, it is a score below the maximum.
pub proof fn aggregate_in_range(segments: Seq<Segment>)
    ensures
        aggregate(segments) matches Some(score) ==> score.raw < MAX_SCORE,
{
    assert(scores_between(segments, 0, MAX_SCORE - 1)) by {
        assert forall|i: int| 0 <= i < segments.len() && informative(
            #[trigger] segments[i],
        ) implies 0 <= steps(segments[i].score_bits) <= MAX_SCORE - 1 by {
            crate::score::steps_in_range(segments[i].score_bits);
        }
    }
    aggregate_between(segments, 0, MAX_SCORE - 1);
}

/// Where all informative segments have one and the same score, that score
/// is the aggregate; a perfect match throughout gives 0.
pub proof fn aggregate_of_equal_scores(segments: Seq<Segment>, raw: int)
    requires
        0 <= raw < MAX_SCORE,
        scores_between(segments, raw, raw),
    ensures
        aggregate(segments) matches Some(score) ==> score.raw == raw,
{
    aggregate_between(segments, raw, raw);
}

} // verus!
