use audio_engine::engine::{GranularEngine, BLOCK_LEN};
use audio_engine::envelope::{envelope_level, slope_samples};
use audio_engine::grain::{Grain, Tap, POSITION_LIMIT};
use audio_engine::position::{clamp_ticks, wrap, Window, TICKS_PER_SAMPLE};
use audio_engine::resample::{read_plan, ReadPlan};
use audio_engine::voice::{GrainParams, Voice, VoiceParams, POOL_CAPACITY};
use rand::rngs::StdRng;
use rand::SeedableRng;

const T: i64 = TICKS_PER_SAMPLE;

fn params(start: u32, end: u32, grain_size: u32, slope_len: u32) -> GrainParams {
    GrainParams { window: Window::new(start, end), grain_size, slope_len }
}

fn voice_params(movement: i64, speed: i64, interval: u32, randomness: i64) -> VoiceParams {
    VoiceParams { movement, speed, interval, randomness }
}

fn active_taps(taps: &[Option<Tap>]) -> Vec<Tap> {
    taps.iter().filter_map(|t| *t).collect()
}

#[test]
fn envelope_starts_at_zero_and_peaks_at_full_level() {
    assert_eq!(envelope_level(0, 100, 10), 0);
    assert_eq!(envelope_level(5, 100, 10), 5);
    assert_eq!(envelope_level(50, 100, 10), 10);
    assert_eq!(envelope_level(95, 100, 10), 5);
    assert_eq!(envelope_level(99, 100, 10), 1);
    assert_eq!(slope_samples(10), 10);
}

#[test]
fn envelope_overlapping_slopes_take_the_smaller_edge() {
    // six samples with ten-sample slopes: the edges meet in the middle
    let levels: Vec<u32> = (0..6).map(|a| envelope_level(a, 6, 10)).collect();
    assert_eq!(levels, vec![0, 1, 2, 3, 2, 1]);
}

#[test]
fn envelope_zero_slope_is_one_sample() {
    assert_eq!(slope_samples(0), 1);
    assert_eq!(envelope_level(0, 4, 0), 0);
    assert_eq!(envelope_level(1, 4, 0), 1);
    assert_eq!(envelope_level(3, 4, 0), 1);
}

#[test]
fn read_plan_interpolates_inside() {
    let r = read_plan(10, 2 * T + T / 2);
    assert_eq!(r, ReadPlan { index: 2, next: 3, frac: 32768 });
    let r = read_plan(10, 7 * T);
    assert_eq!(r, ReadPlan { index: 7, next: 8, frac: 0 });
}

#[test]
fn read_plan_clamps_at_both_ends() {
    assert_eq!(read_plan(10, -1), ReadPlan { index: 0, next: 0, frac: 0 });
    assert_eq!(read_plan(10, -50 * T), ReadPlan { index: 0, next: 0, frac: 0 });
    assert_eq!(read_plan(10, 9 * T), ReadPlan { index: 9, next: 9, frac: 0 });
    assert_eq!(read_plan(10, 9 * T + 123), ReadPlan { index: 9, next: 9, frac: 0 });
    assert_eq!(read_plan(10, 1000 * T), ReadPlan { index: 9, next: 9, frac: 0 });
    assert_eq!(read_plan(1, 5), ReadPlan { index: 0, next: 0, frac: 0 });
}

#[test]
fn wrap_reduces_both_ways() {
    assert_eq!(wrap(25, 10), 5);
    assert_eq!(wrap(-1, 10), 9);
    assert_eq!(wrap(-25, 10), 5);
    assert_eq!(wrap(-30, 10), 0);
    assert_eq!(wrap(i128::MIN, 7), (i128::MIN).rem_euclid(7) as i64);
    assert_eq!(clamp_ticks(-5, 0, 10), 0);
    assert_eq!(clamp_ticks(50, 0, 10), 10);
    assert_eq!(clamp_ticks(7, 0, 10), 7);
}

#[test]
fn window_length() {
    assert_eq!(Window::new(10, 20).len_ticks(), 10 * T);
    assert!(Window::new(20, 10).is_empty());
    assert_eq!(Window::new(20, 10).len_ticks(), 0);
}

#[test]
fn grain_advances_and_expires() {
    let g = Grain { position: 5 * T, elapsed: 0, duration: 2, speed: T };
    let g1 = g.advance().unwrap();
    assert_eq!(g1.position, 6 * T);
    assert_eq!(g1.elapsed, 1);
    assert_eq!(g1.advance(), None);
    let back = Grain { position: T, elapsed: 0, duration: 10, speed: -3 * T };
    assert_eq!(back.advance().unwrap().position, 0);
    let far = Grain { position: POSITION_LIMIT - 1, elapsed: 0, duration: 10, speed: 5 };
    assert_eq!(far.advance().unwrap().position, POSITION_LIMIT);
}

#[test]
fn ramp_scenario_first_grain() {
    // ramp waveform 0..1000, static scan, speed one sample per sample,
    // linear fades of ten samples, one grain every fifty samples
    let waveform: Vec<f32> = (0..1000).map(|i| i as f32).collect();
    let p = params(0, 1000, 50, 10);
    let v = voice_params(0, T, 50, 0);
    let mut voice = Voice::new();
    let mut outputs: Vec<f32> = Vec::new();
    for sample in 0..50 {
        let taps = active_taps(&voice.step(&p, &v, 0, waveform.len()));
        assert_eq!(taps.len(), 1, "sample {}", sample);
        let t = taps[0];
        let a = waveform[t.read.index];
        let b = waveform[t.read.next];
        let read = a + (b - a) * t.read.frac as f32 / T as f32;
        let gain = t.level as f32 / slope_samples(p.slope_len) as f32;
        outputs.push(read * gain);
    }
    assert_eq!(outputs[0], 0.0);
    assert_eq!(outputs[25], waveform[25]);
    for k in 0..10 {
        assert!((outputs[k] - waveform[k] * k as f32 / 10.0).abs() < 1e-4);
    }
    // the first grain has expired and the second starts on sample fifty
    let taps = active_taps(&voice.step(&p, &v, 0, waveform.len()));
    assert_eq!(taps.len(), 1);
    assert_eq!(taps[0].read.index, 0);
    assert_eq!(taps[0].level, 0);
}

#[test]
fn opposite_movements_wrap_in_the_window() {
    let p = params(100, 110, 20, 5);
    let up = voice_params(3 * T, T, 4, 0);
    let down = voice_params(-3 * T, T, 4, 0);
    let mut a = Voice::new();
    let mut b = Voice::new();
    let mut seen_a = Vec::new();
    let mut seen_b = Vec::new();
    for _ in 0..4 {
        a.step(&p, &up, 0, 1000);
        b.step(&p, &down, 0, 1000);
        seen_a.push(a.scan / T);
        seen_b.push(b.scan / T);
    }
    assert_eq!(seen_a, vec![3, 6, 9, 2]);
    assert_eq!(seen_b, vec![7, 4, 1, 8]);
    assert_eq!((a.scan + b.scan) % (10 * T), 0);
}

#[test]
fn grain_count_never_exceeds_pool() {
    let p = params(0, 1000, 10_000, 100);
    let v = voice_params(T, T, 0, 0);
    let mut voice = Voice::new();
    for sample in 0..(3 * POOL_CAPACITY) {
        voice.step(&p, &v, 0, 1000);
        assert_eq!(voice.active_count(), (sample + 1).min(POOL_CAPACITY));
    }
    assert_eq!(voice.slots.len(), POOL_CAPACITY);
}

#[test]
fn freed_slot_is_reused() {
    let p = params(0, 1000, 3, 1);
    let v = voice_params(0, T, 1, 0);
    let mut voice = Voice::new();
    for _ in 0..10 {
        voice.step(&p, &v, 0, 1000);
        assert!(voice.active_count() <= 3);
    }
    assert_eq!(voice.active_count(), 2);
    assert!(voice.slots[3..].iter().all(|s| s.is_none()));
}

#[test]
fn empty_window_or_zero_grain_starts_nothing() {
    let v = voice_params(T, T, 1, 0);
    let mut voice = Voice::new();
    for _ in 0..5 {
        voice.step(&params(50, 50, 10, 2), &v, 0, 1000);
        voice.step(&params(90, 20, 10, 2), &v, 0, 1000);
        voice.step(&params(0, 100, 0, 2), &v, 0, 1000);
    }
    assert_eq!(voice.active_count(), 0);
    // the scan position stays put over an empty window
    assert_eq!(voice.scan, 5 * T);
}

#[test]
fn short_waveform_is_silent() {
    let p = params(0, 10, 20, 2);
    let v = voice_params(0, T, 1, 0);
    let mut voice = Voice::new();
    for wave_len in [0usize, 1, 0, 1] {
        let taps = voice.step(&p, &v, 0, wave_len);
        assert!(taps.iter().all(|t| t.is_none()));
    }
    assert_eq!(voice.active_count(), 4);
    let taps = voice.step(&p, &v, 0, 2);
    assert_eq!(active_taps(&taps).len(), 5);
}

#[test]
fn spawn_position_is_clamped_into_window() {
    let p = params(10, 20, 5, 1);
    let v = voice_params(0, T, 1, 0);
    let mut voice = Voice::new();
    voice.step(&p, &v, -100 * T, 1000);
    assert_eq!(voice.slots[0].unwrap().position, 10 * T + T);
    let mut voice = Voice::new();
    let taps = voice.step(&p, &v, 100 * T, 1000);
    assert_eq!(active_taps(&taps)[0].read.index, 19);
}

#[test]
fn countdown_resets_to_interval() {
    let p = params(0, 100, 2, 1);
    let v = voice_params(0, T, 3, 0);
    let mut voice = Voice::new();
    let mut counts = Vec::new();
    for _ in 0..7 {
        voice.step(&p, &v, 0, 100);
        counts.push(voice.countdown);
    }
    assert_eq!(counts, vec![3, 2, 1, 3, 2, 1, 3]);
}

#[test]
fn engine_block_has_block_len_samples() {
    let mut engine = GranularEngine::new(StdRng::seed_from_u64(7));
    let p = params(0, 1000, 30, 5);
    let v1 = voice_params(2 * T, T, 10, 0);
    let v2 = voice_params(-2 * T, T / 2, 7, 0);
    let block = engine.render_block(&p, &v1, &v2, 1000);
    assert_eq!(block.len(), BLOCK_LEN);
    assert_eq!(engine.voice_1.scan, 256 * T);
    assert_eq!(engine.voice_2.scan, (1000 - 256) * T);
    let block = engine.render_block(&p, &v1, &v2, 1000);
    assert_eq!(block.len(), BLOCK_LEN);
    assert_eq!(engine.voice_1.scan, 512 * T);
    assert!(block.iter().all(|(a, b)| a.len() == POOL_CAPACITY && b.len() == POOL_CAPACITY));
}

#[test]
fn engine_jitter_stays_within_randomness() {
    let mut engine = GranularEngine::new(StdRng::seed_from_u64(42));
    let p = params(0, 1000, 1, 1);
    // the first sample moves the scan to the middle of the window
    let v = voice_params(500 * T, T, 1, 0);
    engine.step(&p, &v, &v, 1000);
    let still = voice_params(0, T, 1, 10 * T);
    let mut positions = Vec::new();
    for _ in 0..200 {
        let (taps, _) = engine.step(&p, &still, &still, 1000);
        let t = active_taps(&taps);
        assert_eq!(t.len(), 1);
        let pos = t[0].read.index as i64 * T + t[0].read.frac as i64;
        assert!(pos >= 490 * T && pos <= 510 * T, "{}", pos);
        positions.push(pos);
    }
    assert!(positions.iter().any(|&x| x < 500 * T));
    assert!(positions.iter().any(|&x| x > 500 * T));
}
