use sqlite3_chromaprint::generator::fingerprint_pcm;
use sqlite3_chromaprint::matcher::{compare, compare_fingerprints};
use sqlite3_chromaprint::preset::Preset;
use sqlite3_chromaprint::score::{Score, SCORE_UNIT};
use sqlite3_chromaprint::text::{fingerprint_text, parse_fingerprint};

fn recording(sample_rate: u32, seconds: u32, seed: u32, noise: f64) -> Vec<i16> {
    let tau = 2.0 * std::f64::consts::PI;
    let note_len = sample_rate as usize / 4;
    let mut state = seed;
    let mut hiss = seed ^ 0x5555_5555;
    let mut first = 440.0f64;
    let mut second = 660.0f64;
    let mut samples = Vec::new();
    for n in 0..sample_rate as usize * seconds as usize {
        if n % note_len == 0 {
            state = state.wrapping_mul(1_664_525).wrapping_add(1_013_904_223);
            first = 220.0 * 2f64.powf(((state >> 24) % 24) as f64 / 12.0);
            state = state.wrapping_mul(1_664_525).wrapping_add(1_013_904_223);
            second = 220.0 * 2f64.powf(((state >> 24) % 24) as f64 / 12.0);
        }
        let t = n as f64 / sample_rate as f64;
        hiss = hiss.wrapping_mul(1_103_515_245).wrapping_add(12_345);
        let v = 0.4 * (tau * first * t).sin()
            + 0.2 * (tau * 2.0 * first * t).sin()
            + 0.3 * (tau * second * t).sin()
            + noise * ((hiss >> 16) as f64 / 32768.0 - 1.0);
        samples.push((v * 20000.0).max(-32768.0).min(32767.0) as i16);
    }
    samples
}

#[test]
fn the_same_recording_in_two_renderings_is_a_likely_duplicate() {
    let preset = Preset::test1();
    let clean = fingerprint_pcm(&preset, 44100, 1, &[recording(44100, 30, 7, 0.0)]).unwrap();
    let lossy = fingerprint_pcm(&preset, 22050, 1, &[recording(22050, 30, 7, 0.01)]).unwrap();
    assert_ne!(clean, lossy);
    let score = compare(&clean, &lossy, &preset).unwrap().unwrap();
    assert!(score.raw < 2 * SCORE_UNIT);
    let text_score = compare_fingerprints(
        &fingerprint_text(&clean),
        &fingerprint_text(&lossy),
        &preset,
    );
    assert_eq!(text_score, Ok(Some(score)));
}

#[test]
fn a_noisy_rendering_at_the_target_rate_is_a_likely_duplicate() {
    let preset = Preset::test1();
    let clean = fingerprint_pcm(&preset, 44100, 1, &[recording(44100, 30, 7, 0.0)]).unwrap();
    let noisy = fingerprint_pcm(&preset, 11025, 1, &[recording(11025, 30, 7, 0.05)]).unwrap();
    let score = compare(&clean, &noisy, &preset).unwrap().unwrap();
    assert!(score.raw < 2 * SCORE_UNIT);
    assert_eq!(compare(&noisy, &clean, &preset), Ok(Some(score)));
}

#[test]
fn unrelated_recordings_are_no_duplicates() {
    let preset = Preset::test1();
    let one = fingerprint_pcm(&preset, 44100, 1, &[recording(44100, 30, 7, 0.0)]).unwrap();
    let other = fingerprint_pcm(&preset, 44100, 1, &[recording(44100, 30, 8, 0.0)]).unwrap();
    match compare(&one, &other, &preset).unwrap() {
        None => {}
        Some(score) => assert!(score.raw >= 2 * SCORE_UNIT),
    }
}

#[test]
fn a_recording_compared_to_itself_scores_zero() {
    let preset = Preset::test1();
    let fingerprint = fingerprint_pcm(&preset, 44100, 2, &[recording(44100, 20, 3, 0.0)]).unwrap();
    assert_eq!(compare(&fingerprint, &fingerprint, &preset), Ok(Some(Score { raw: 0 })));
}

#[test]
fn a_stored_fingerprint_comes_back_from_its_text() {
    let preset = Preset::test1();
    let fingerprint = fingerprint_pcm(&preset, 22050, 1, &[recording(22050, 15, 19, 0.0)]).unwrap();
    assert!(!fingerprint.is_empty());
    let text = fingerprint_text(&fingerprint);
    assert_eq!(parse_fingerprint(&text), Ok(fingerprint));
}

#[test]
fn silence_compares_to_nothing_when_it_is_too_short_to_have_codes() {
    let preset = Preset::test1();
    let nothing = fingerprint_pcm(&preset, 44100, 2, &[vec![0i16; 2000]]).unwrap();
    let something = fingerprint_pcm(&preset, 44100, 1, &[recording(44100, 10, 7, 0.0)]).unwrap();
    assert_eq!(nothing, Vec::<u32>::new());
    assert_eq!(compare(&nothing, &something, &preset), Ok(None));
    assert_eq!(
        compare_fingerprints(&fingerprint_text(&nothing), &fingerprint_text(&something), &preset),
        Ok(None)
    );
}
