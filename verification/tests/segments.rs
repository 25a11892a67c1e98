use sqlite3_chromaprint::segment::{score_segments, Segment};
use sqlite3_chromaprint::score::{Score, MAX_SCORE, SCORE_UNIT};

fn segment_with(items_count: usize, score: f64) -> Segment {
    Segment { offset1: 0, offset2: 0, items_count, score_bits: score.to_bits() }
}

fn as_number(score: Score) -> f64 {
    score.raw as f64 / SCORE_UNIT as f64
}

fn in_floating_point(segments: &[(usize, f64)]) -> f64 {
    let total: f64 = segments.iter().map(|s| s.0 as f64).sum();
    32.0 - total / segments.iter().map(|s| s.0 as f64 / (32.0 - s.1)).sum::<f64>()
}

#[test]
fn no_segments_give_no_score() {
    assert_eq!(score_segments(&[]), None);
}

#[test]
fn a_single_segment_gives_its_own_score() {
    assert_eq!(score_segments(&[segment_with(100, 1.5)]), Some(Score { raw: 25_165_824 }));
    assert_eq!(score_segments(&[segment_with(1, 1.5)]), Some(Score { raw: 25_165_824 }));
    assert_eq!(score_segments(&[segment_with(1, 0.1)]), Some(Score { raw: 1_677_721 }));
    assert_eq!(score_segments(&[segment_with(524_285, 9.75)]), Some(Score { raw: 163_577_856 }));
}

#[test]
fn a_perfect_segment_gives_zero() {
    assert_eq!(score_segments(&[segment_with(42, 0.0)]), Some(Score { raw: 0 }));
    assert_eq!(
        score_segments(&[segment_with(42, 0.0), segment_with(1, 0.0), segment_with(1000, 0.0)]),
        Some(Score { raw: 0 })
    );
}

#[test]
fn two_segments_of_equal_length_give_the_harmonic_mean_of_their_gaps() {
    // gaps 32 and 16: mean gap 2 / (1/32 + 1/16) = 21.333.., score 10.666..
    let segments = [segment_with(10, 0.0), segment_with(10, 16.0)];
    assert_eq!(score_segments(&segments), Some(Score { raw: 178_956_971 }));
}

#[test]
fn longer_segments_weigh_more() {
    // 32 - 4 / (3/27 + 1/30) = 4.3076923..
    let segments = [segment_with(3, 5.0), segment_with(1, 2.0)];
    assert_eq!(score_segments(&segments), Some(Score { raw: 72_271_085 }));
    let swapped = [segment_with(1, 5.0), segment_with(3, 2.0)];
    let heavier_on_the_better = score_segments(&swapped).unwrap();
    assert!(heavier_on_the_better.raw < 72_271_085);
}

#[test]
fn three_segments_give_the_exact_value_of_the_formula() {
    let segments = [segment_with(30, 0.1), segment_with(70, 9.75), segment_with(5, 0.0)];
    assert_eq!(score_segments(&segments), Some(Score { raw: 121_667_313 }));
}

#[test]
fn the_order_of_segments_does_not_matter() {
    let one = [segment_with(30, 0.1), segment_with(70, 9.75), segment_with(5, 0.0)];
    let other = [segment_with(5, 0.0), segment_with(30, 0.1), segment_with(70, 9.75)];
    assert_eq!(score_segments(&one), score_segments(&other));
}

#[test]
fn the_worst_score_in_range_is_kept() {
    let worst = f64::from_bits(32.0f64.to_bits() - 1);
    assert_eq!(score_segments(&[segment_with(1, worst)]), Some(Score { raw: MAX_SCORE - 1 }));
}

#[test]
fn a_segment_at_the_maximum_is_left_out() {
    assert_eq!(score_segments(&[segment_with(10, 32.0)]), None);
    assert_eq!(
        score_segments(&[segment_with(10, 32.0), segment_with(100, 1.5)]),
        Some(Score { raw: 25_165_824 })
    );
}

#[test]
fn segments_without_a_number_for_a_score_are_left_out() {
    let segments = [
        segment_with(10, f64::NAN),
        segment_with(10, f64::INFINITY),
        segment_with(10, -3.0),
        segment_with(10, 40.0),
    ];
    assert_eq!(score_segments(&segments), None);
    let with_one_good =
        [segment_with(10, f64::NAN), segment_with(7, 1.0), segment_with(10, -3.0)];
    assert_eq!(score_segments(&with_one_good), Some(Score { raw: 16_777_216 }));
}

#[test]
fn segments_without_frames_are_left_out() {
    assert_eq!(score_segments(&[segment_with(0, 1.0)]), None);
    assert_eq!(
        score_segments(&[segment_with(0, 1.0), segment_with(3, 5.0), segment_with(1, 2.0)]),
        Some(Score { raw: 72_271_085 })
    );
}

#[test]
fn offsets_do_not_enter_the_score() {
    let here = Segment { offset1: 0, offset2: 0, items_count: 9, score_bits: 2.5f64.to_bits() };
    let there = Segment { offset1: 700, offset2: 13, items_count: 9, score_bits: 2.5f64.to_bits() };
    assert_eq!(score_segments(&[here]), score_segments(&[there]));
}

#[test]
fn the_aggregate_lies_between_the_best_and_the_worst_segment() {
    let segments = [segment_with(17, 3.25), segment_with(400, 0.5), segment_with(3, 9.0)];
    let score = score_segments(&segments).unwrap();
    assert!(score.raw >= SCORE_UNIT / 2);
    assert!(score.raw <= 9 * SCORE_UNIT);
}

#[test]
fn the_aggregate_is_below_the_maximum() {
    let worst = f64::from_bits(32.0f64.to_bits() - 1);
    let segments = [segment_with(1, worst), segment_with(usize::MAX / 4, worst)];
    assert!(score_segments(&segments).unwrap().raw < MAX_SCORE);
}

#[test]
fn the_aggregate_agrees_with_floating_point() {
    let cases: [&[(usize, f64)]; 4] = [
        &[(221, 0.857), (14, 6.5)],
        &[(1, 9.999), (1, 0.001), (1, 5.0)],
        &[(1000, 1.25), (2000, 1.75), (3000, 0.125), (10, 8.0)],
        &[(7, 3.3)],
    ];
    for case in cases {
        let segments: Vec<Segment> = case.iter().map(|s| segment_with(s.0, s.1)).collect();
        let score = as_number(score_segments(&segments).unwrap());
        assert!((score - in_floating_point(case)).abs() < 1.0e-6);
    }
}
