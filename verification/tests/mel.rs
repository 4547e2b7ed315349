use gijiroku21_core::audio::mel::{
    build_mel_filterbank, log_mel_spectrogram, reflect_pad, FilterWeight,
};
use gijiroku21_core::audio::MelConfig;
use rustfft::num_complex::Complex;
use rustfft::FftPlanner;

const EPS: f32 = 1e-10;

fn hz_to_mel(hz: f32) -> f32 {
    2595.0 * (1.0 + hz / 700.0).log10()
}

fn mel_to_hz(mel: f32) -> f32 {
    700.0 * (10f32.powf(mel / 2595.0) - 1.0)
}

fn bin_edges(cfg: &MelConfig) -> Vec<usize> {
    let mel_min = hz_to_mel(cfg.f_min as f32);
    let mel_max = hz_to_mel(cfg.f_max as f32);
    (0..cfg.n_mels + 2)
        .map(|i| mel_min + (mel_max - mel_min) * i as f32 / (cfg.n_mels as f32 + 1.0))
        .map(mel_to_hz)
        .map(|hz| ((cfg.n_fft + 1) as f32 * hz / cfg.sample_rate as f32).floor() as usize)
        .collect()
}

fn log_mel(samples: &[f32], cfg: &MelConfig) -> Vec<f32> {
    let filters = build_mel_filterbank(&bin_edges(cfg), cfg.n_fft);
    let hann: Vec<f32> = (0..cfg.win_length)
        .map(|i| {
            0.5 - 0.5 * (2.0 * std::f32::consts::PI * i as f32 / (cfg.win_length as f32 - 1.0)).cos()
        })
        .collect();
    let fft = FftPlanner::<f32>::new().plan_fft_forward(cfg.n_fft);
    let analyze = |frame: &[f32]| -> Vec<f32> {
        let mut spectrum: Vec<Complex<f32>> = frame
            .iter()
            .enumerate()
            .map(|(i, &s)| Complex::new(if i < hann.len() { s * hann[i] } else { s }, 0.0))
            .collect();
        fft.process(&mut spectrum);
        let power: Vec<f32> =
            spectrum[..cfg.n_fft / 2 + 1].iter().map(|c| c.re * c.re + c.im * c.im).collect();
        filters
            .iter()
            .map(|filter| {
                let energy: f32 = filter
                    .iter()
                    .zip(power.iter())
                    .map(|(w, p)| w.num as f32 / w.den as f32 * p)
                    .sum();
                if energy <= 0.0 {
                    EPS.log10()
                } else {
                    energy.max(EPS).log10()
                }
            })
            .collect()
    };
    log_mel_spectrogram(samples, cfg, EPS.log10(), &analyze)
}

#[test]
fn test_log_mel_output_size() {
    let cfg = MelConfig::default();
    let samples = vec![0.0f32; cfg.sample_rate as usize];
    let mel = log_mel(&samples, &cfg);
    assert_eq!(mel.len(), cfg.n_mels * cfg.target_frames);
}

#[test]
fn mel_config_default_is_whisper_shape() {
    let cfg = MelConfig::default();
    assert_eq!(cfg.sample_rate, 16_000);
    assert_eq!(cfg.n_fft, 400);
    assert_eq!(cfg.hop_length, 160);
    assert_eq!(cfg.win_length, 400);
    assert_eq!(cfg.n_mels, 80);
    assert_eq!(cfg.f_min, 0);
    assert_eq!(cfg.f_max, 8_000);
    assert_eq!(cfg.target_frames, 3_000);
}

#[test]
fn log_mel_of_silence_is_finite_and_at_the_floor() {
    let cfg = MelConfig::default();
    // The configured duration: 3000 frames, 160 samples apart.
    let samples = vec![0.0f32; cfg.target_frames * cfg.hop_length];
    let mel = log_mel(&samples, &cfg);
    assert_eq!(mel.len(), cfg.n_mels * cfg.target_frames);
    let floor = EPS.log10();
    for value in mel {
        assert!(value.is_finite());
        assert!(value >= floor);
    }
}

#[test]
fn log_mel_of_a_tone_is_finite_and_above_the_floor_somewhere() {
    let cfg = MelConfig::default();
    let samples: Vec<f32> = (0..16000)
        .map(|i| (2.0 * std::f32::consts::PI * 440.0 * i as f32 / 16000.0).sin() * 0.5)
        .collect();
    let mel = log_mel(&samples, &cfg);
    let floor = EPS.log10();
    assert!(mel.iter().all(|v| v.is_finite() && *v >= floor));
    assert!(mel.iter().any(|v| *v > 0.0));
    // 16000 samples give 101 frames; the columns after them stay at the floor.
    for band in 0..cfg.n_mels {
        for frame in 101..cfg.target_frames {
            assert_eq!(mel[band * cfg.target_frames + frame], floor);
        }
    }
}

#[test]
fn log_mel_of_nothing_is_all_floor() {
    let cfg = MelConfig::default();
    let mel = log_mel(&[], &cfg);
    assert_eq!(mel.len(), 80 * 3000);
    assert!(mel.iter().all(|v| *v == EPS.log10()));
}

#[test]
fn log_mel_of_nothing_never_analyses() {
    let cfg = MelConfig { n_mels: 3, target_frames: 4, ..MelConfig::default() };
    let mel = log_mel_spectrogram(&[], &cfg, -7i32, &|_frame: &[i32]| -> Vec<i32> {
        panic!("an empty signal has no frame")
    });
    assert_eq!(mel, vec![-7; 12]);
}

fn small_config() -> MelConfig {
    MelConfig {
        sample_rate: 16_000,
        n_fft: 4,
        hop_length: 2,
        win_length: 4,
        n_mels: 2,
        f_min: 0,
        f_max: 8_000,
        target_frames: 5,
    }
}

#[test]
fn log_mel_places_each_frame_in_its_column() {
    let cfg = small_config();
    let samples: Vec<i32> = vec![1, 2, 3, 4, 5, 6];
    // Padded by 2: [3, 2, 1, 2, 3, 4, 5, 6, 5, 4]; frames start at 0, 2, 4, 6.
    let mel = log_mel_spectrogram(&samples, &cfg, -1, &|frame: &[i32]| {
        assert_eq!(frame.len(), 4);
        vec![frame[0] * 10 + frame[3], frame.iter().sum()]
    });
    assert_eq!(
        mel,
        vec![
            32, 14, 36, 54, -1, // band 0: first * 10 + last of each frame
            8, 10, 18, 20, -1, // band 1: the sum of each frame
        ]
    );
}

#[test]
fn log_mel_stops_at_the_width_of_the_matrix() {
    let cfg = MelConfig { target_frames: 2, ..small_config() };
    let samples: Vec<i32> = vec![1, 2, 3, 4, 5, 6];
    let mel = log_mel_spectrogram(&samples, &cfg, -1, &|frame: &[i32]| vec![frame[0], frame[1]]);
    assert_eq!(mel, vec![3, 1, 2, 2]);
}

#[test]
fn log_mel_with_no_columns_is_empty() {
    let cfg = MelConfig { target_frames: 0, ..small_config() };
    let samples: Vec<i32> = vec![1, 2, 3];
    let mel = log_mel_spectrogram(&samples, &cfg, -1, &|_frame: &[i32]| -> Vec<i32> {
        panic!("no column to fill")
    });
    assert!(mel.is_empty());
}

#[test]
fn reflect_pad_mirrors_both_ends() {
    assert_eq!(reflect_pad(&[1, 2, 3, 4, 5], 2), vec![3, 2, 1, 2, 3, 4, 5, 4, 3]);
    assert_eq!(reflect_pad(&[1, 2, 3], 1), vec![2, 1, 2, 3, 2]);
}

#[test]
fn reflect_pad_of_a_short_signal_falls_back_to_its_first_sample() {
    // Left: indices 3, 2, 1 of a signal with indices 0 and 1; right: index 0, then clamped.
    assert_eq!(reflect_pad(&[7, 9], 3), vec![7, 7, 9, 7, 9, 7, 7, 7]);
    assert_eq!(reflect_pad(&[7], 2), vec![7, 7, 7, 7, 7]);
}

#[test]
fn reflect_pad_by_nothing_or_of_nothing_is_a_copy() {
    assert_eq!(reflect_pad(&[1, 2, 3], 0), vec![1, 2, 3]);
    assert_eq!(reflect_pad::<i32>(&[], 4), Vec::<i32>::new());
}

fn w(num: usize, den: usize) -> FilterWeight {
    FilterWeight { num, den }
}

#[test]
fn filterbank_is_triangles_over_the_edges() {
    // n_fft = 16 keeps 9 bins; edges 1, 3, 6, 8 make two filters.
    let filters = build_mel_filterbank(&[1, 3, 6, 8], 16);
    assert_eq!(filters.len(), 2);
    let zero = w(0, 1);
    assert_eq!(
        filters[0],
        vec![zero, w(0, 2), w(1, 2), w(3, 3), w(2, 3), w(1, 3), zero, zero, zero]
    );
    assert_eq!(
        filters[1],
        vec![zero, zero, zero, w(0, 3), w(1, 3), w(2, 3), w(2, 2), w(1, 2), zero]
    );
}

#[test]
fn filterbank_with_repeated_or_far_edges() {
    // A filter with no rising side, and edges past the last bin.
    let filters = build_mel_filterbank(&[2, 2, 4, 40], 4);
    assert_eq!(filters.len(), 2);
    let zero = w(0, 1);
    assert_eq!(filters[0], vec![zero, zero, w(2, 2)]);
    assert_eq!(filters[1], vec![zero, zero, w(0, 2)]);
    assert!(build_mel_filterbank(&[1], 16).is_empty());
    assert!(build_mel_filterbank(&[], 16).is_empty());
    assert!(build_mel_filterbank(&[1, 2], 16).is_empty());
}

#[test]
fn filterbank_for_whisper_has_80_filters_of_201_bins() {
    let cfg = MelConfig::default();
    let filters = build_mel_filterbank(&bin_edges(&cfg), cfg.n_fft);
    assert_eq!(filters.len(), 80);
    for filter in &filters {
        assert_eq!(filter.len(), 201);
        assert!(filter.iter().all(|weight| weight.den >= 1 && weight.num <= weight.den));
    }
}
