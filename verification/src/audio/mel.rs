//! The framing of a log-mel spectrogram.
//!
//! This module owns everything about the feature matrix that is counting
//! and placing: how the signal is padded, where each frame starts, which
//! cell of the matrix each value goes to, and the shape of the triangular
//! filters. The spectral arithmetic on one frame is the caller's `analyze`.

use vstd::prelude::*;
use vstd::slice::slice_subrange;
use vstd::slice::slice_to_vec;

verus! {

/// The shape of the feature matrix and of the analysis that fills it.
#[derive(Debug, Clone, Copy, PartialEq, Eq, Structural)]
pub struct MelConfig {
    /// The rate of the audio, in samples per second.
    pub sample_rate: u32,
    /// The length of one frame, in samples: the size of the transform.
    pub n_fft: usize,
    /// The distance between the starts of two frames, in samples.
    pub hop_length: usize,
    /// The length of the window laid on a frame, in samples.
    pub win_length: usize,
    /// The number of mel bands: the rows of the matrix.
    pub n_mels: usize,
    /// The lowest frequency of the filters, in hertz.
    pub f_min: u32,
    /// The highest frequency of the filters, in hertz.
    pub f_max: u32,
    /// The number of frames: the columns of the matrix.
    pub target_frames: usize,
}

impl Default for MelConfig {
    /// 80 bands by 3000 frames of 400 samples every 160, at 16 kHz, over
    /// 0 to 8000 Hz.
    fn default() -> (config: MelConfig)
        ensures
            config == (MelConfig {
                sample_rate: 16_000,
                n_fft: 400,
                hop_length: 160,
                win_length: 400,
                n_mels: 80,
                f_min: 0,
                f_max: 8_000,
                target_frames: 3_000,
            }),
    {
        MelConfig {
            sample_rate: 16_000,
            n_fft: 400,
            hop_length: 160,
            win_length: 400,
            n_mels: 80,
            f_min: 0,
            f_max: 8_000,
            target_frames: 3_000,
        }
    }
}

/// The signal with `pad` samples mirrored onto each end.
///
/// On the left the samples at `pad, pad - 1, .., 1` come before the first
/// sample; on the right the samples at `len - 2, len - 3, ..` come after the
/// last. Where the signal is too short to mirror from, its first sample
/// stands in. An empty signal stays empty.
pub open spec fn reflect_padded<T>(samples: Seq<T>, pad: nat) -> Seq<T> {
    if pad == 0 || samples.len() == 0 {
        samples
    } else {
        Seq::new(
            samples.len() + 2 * pad,
            |i: int|
                if i < pad {
                    if pad - i < samples.len() {
                        samples[pad - i]
                    } else {
                        samples[0]
                    }
                } else if i < pad + samples.len() {
                    samples[i - pad]
                } else {
                    let past = i - pad - samples.len();
                    if 2 + past <= samples.len() {
                        samples[samples.len() - 2 - past]
                    } else {
                        samples[0]
                    }
                },
        )
    }
}

/// How many frames of `n_fft` samples, `hop_length` apart, start in a signal
/// of `padded_len` samples.
pub open spec fn frame_count(padded_len: nat, n_fft: nat, hop_length: nat) -> nat {
    if padded_len >= n_fft {
        ((padded_len - n_fft) / (hop_length as int) + 1) as nat
    } else {
        1
    }
}

/// How many frames of the signal are analysed: those that it has, up to the
/// width of the matrix.
pub open spec fn analysed_frames(samples_len: nat, config: MelConfig) -> nat {
    let padded_len = if config.n_fft / 2 == 0 || samples_len == 0 {
        samples_len
    } else {
        samples_len + 2 * (config.n_fft / 2) as nat
    };
    let frames = frame_count(padded_len, config.n_fft as nat, config.hop_length as nat);
    if config.target_frames as nat <= frames {
        config.target_frames as nat
    } else {
        frames
    }
}

/// Frame `index` of the padded signal.
pub open spec fn frame_of<T>(samples: Seq<T>, config: MelConfig, index: nat) -> Seq<T> {
    reflect_padded(samples, (config.n_fft / 2) as nat).subrange(
        index * config.hop_length,
        index * config.hop_length + config.n_fft,
    )
}

/// Whether `analyze` may be called on every frame of `n_fft` samples, and
/// gives one value for each band whenever it is.
pub open spec fn analyzes_frames<T, K: Fn(&[T]) -> Vec<T>>(config: MelConfig, analyze: K) -> bool {
    &&& forall|frame: &[T]|
        frame@.len() == config.n_fft ==> #[trigger] call_requires(analyze, (frame,))
    &&& forall|frame: &[T], bands: Vec<T>| #[trigger]
        call_ensures(analyze, (frame,), bands) ==> bands@.len() == config.n_mels
}

/// Whether column `frame` of the matrix holds what `analyze` gave for frame
/// `frame` of the padded signal.
pub open spec fn column_analysed<T, K: Fn(&[T]) -> Vec<T>>(
    samples: Seq<T>,
    config: MelConfig,
    analyze: K,
    mel: Seq<T>,
    frame: int,
) -> bool {
    exists|window: &[T], bands: Vec<T>|
        {
            &&& window@ == frame_of(samples, config, frame as nat)
            &&& #[trigger] call_ensures(analyze, (window,), bands)
            &&& column_is(mel, config, frame, bands@)
        }
}

/// Whether `mel` is the feature matrix of `samples`: `n_mels` rows of
/// `target_frames` values, row after row, where the column of every analysed
/// frame holds what `analyze` gave for that frame and every other column
/// holds `floor`. Of an empty signal no frame is analysed.
pub open spec fn is_log_mel<T, K: Fn(&[T]) -> Vec<T>>(
    samples: Seq<T>,
    config: MelConfig,
    floor: T,
    analyze: K,
    mel: Seq<T>,
) -> bool {
    let analysed = if samples.len() == 0 {
        0
    } else {
        analysed_frames(samples.len(), config)
    };
    &&& mel.len() == config.n_mels * config.target_frames
    &&& forall|frame: int|
        0 <= frame < analysed ==> #[trigger] column_analysed(samples, config, analyze, mel, frame)
    &&& forall|band: int, frame: int|
        0 <= band < config.n_mels && analysed <= frame < config.target_frames ==> mel[#[trigger] cell(
            config,
            band,
            frame,
        )] == floor
}

/// The place of band `band` of frame `frame` in the matrix.
pub open spec fn cell(config: MelConfig, band: int, frame: int) -> int {
    band * config.target_frames + frame
}

/// Whether column `frame` of the matrix holds `bands`, one value for each
/// band.
pub open spec fn column_is<T>(mel: Seq<T>, config: MelConfig, frame: int, bands: Seq<T>) -> bool {
    &&& bands.len() == config.n_mels
    &&& forall|band: int|
        0 <= band < config.n_mels ==> mel[#[trigger] cell(config, band, frame)] == bands[band]
}

/// Mirrors `pad` samples of the signal onto each of its ends.
pub fn reflect_pad<T: Copy>(samples: &[T], pad: usize) -> (padded: Vec<T>)
    requires
        samples@.len() + 2 * pad <= usize::MAX,
    ensures
        padded@ == reflect_padded(samples@, pad as nat),
{
    let len: usize = samples.len();
    if pad == 0 || len == 0 {
        return slice_to_vec(samples);
    }
    let mut padded: Vec<T> = Vec::new();
    let ghost want = reflect_padded(samples@, pad as nat);
    let mut i: usize = 0;
    while i < pad
        invariant
            i <= pad,
            len == samples@.len(),
            len > 0,
            pad > 0,
            want == reflect_padded(samples@, pad as nat),
            padded@.len() == i,
            forall|k: int| 0 <= k < i ==> padded@[k] == want[k],
        decreases pad - i,
    {
        let idx: usize = pad - i;
        let sample: T = if idx < len { samples[idx] } else { samples[0] };
        padded.push(sample);
        i += 1;
    }
    let mut j: usize = 0;
    while j < len
        invariant
            j <= len,
            len == samples@.len(),
            len > 0,
            pad > 0,
            len + 2 * pad <= usize::MAX,
            want == reflect_padded(samples@, pad as nat),
            padded@.len() == pad + j,
            forall|k: int| 0 <= k < pad + j ==> padded@[k] == want[k],
        decreases len - j,
    {
        padded.push(samples[j]);
        j += 1;
    }
    let mut past: usize = 0;
    while past < pad
        invariant
            past <= pad,
            len == samples@.len(),
            len > 0,
            pad > 0,
            len + 2 * pad <= usize::MAX,
            want == reflect_padded(samples@, pad as nat),
            padded@.len() == pad + len + past,
            forall|k: int| 0 <= k < pad + len + past ==> padded@[k] == want[k],
        decreases pad - past,
    {
        let idx: usize = if 2 + past <= len { len - 2 - past } else { 0 };
        padded.push(samples[idx]);
        past += 1;
    }
    assert(padded@ =~= want);
    padded
}

/// Two different cells of the matrix lie at different places, and every
/// cell lies inside the matrix.
pub proof fn lemma_cells(config: MelConfig, band: int, frame: int, other_band: int, other_frame: int)
    requires
        0 <= band < config.n_mels,
        0 <= frame < config.target_frames,
        0 <= other_band < config.n_mels,
        0 <= other_frame < config.target_frames,
    ensures
        0 <= cell(config, band, frame) < config.n_mels * config.target_frames,
        cell(config, band, frame) == cell(config, other_band, other_frame) ==> band == other_band
            && frame == other_frame,
{
    let width = config.target_frames as int;
    let rows = config.n_mels as int;
    assert(0 <= band * width + frame < rows * width) by (nonlinear_arith)
        requires
            0 <= band < rows,
            0 <= frame < width,
    ;
    assert(band * width + frame == other_band * width + other_frame ==> band == other_band)
        by (nonlinear_arith)
        requires
            0 <= frame < width,
            0 <= other_frame < width,
    ;
}

/// Every place in the matrix is the cell of one band and one frame.
pub proof fn lemma_place_is_cell(config: MelConfig, place: int)
    requires
        0 <= place < config.n_mels * config.target_frames,
    ensures
        config.target_frames > 0,
        0 <= place / (config.target_frames as int) < config.n_mels,
        0 <= place % (config.target_frames as int) < config.target_frames,
        cell(
            config,
            place / (config.target_frames as int),
            place % (config.target_frames as int),
        ) == place,
{
    let width = config.target_frames as int;
    let rows = config.n_mels as int;
    assert(width > 0 && 0 <= place / width < rows && 0 <= place % width < width && (place / width)
        * width + place % width == place) by (nonlinear_arith)
        requires
            0 <= place < rows * width,
            0 <= width,
            0 <= rows,
    ;
}

/// The matrix of an empty signal holds the floor value everywhere.
pub proof fn lemma_log_mel_of_silence<T, K: Fn(&[T]) -> Vec<T>>(
    samples: Seq<T>,
    config: MelConfig,
    floor: T,
    analyze: K,
    mel: Seq<T>,
)
    requires
        is_log_mel(samples, config, floor, analyze, mel),
        samples.len() == 0,
    ensures
        mel.len() == config.n_mels * config.target_frames,
        forall|place: int| 0 <= place < mel.len() ==> mel[place] == floor,
{
    assert forall|place: int| 0 <= place < mel.len() implies mel[place] == floor by {
        lemma_place_is_cell(config, place);
        let band = place / (config.target_frames as int);
        let frame = place % (config.target_frames as int);
        assert(mel[cell(config, band, frame)] == floor);
    }
}

/// Every value of the matrix is the floor value or one that `analyze` gave:
/// what holds of the floor value and of every value that `analyze` can give
/// holds of every value of the matrix.
pub proof fn lemma_log_mel_values<T, K: Fn(&[T]) -> Vec<T>>(
    samples: Seq<T>,
    config: MelConfig,
    floor: T,
    analyze: K,
    mel: Seq<T>,
    holds: spec_fn(T) -> bool,
)
    requires
        is_log_mel(samples, config, floor, analyze, mel),
        holds(floor),
        forall|window: &[T], bands: Vec<T>, band: int|
            #![trigger call_ensures(analyze, (window,), bands), bands@[band]]
            call_ensures(analyze, (window,), bands) && 0 <= band < bands@.len() ==> holds(
                bands@[band],
            ),
    ensures
        forall|place: int| 0 <= place < mel.len() ==> holds(#[trigger] mel[place]),
{
    let analysed: int = if samples.len() == 0 {
        0
    } else {
        analysed_frames(samples.len(), config) as int
    };
    assert forall|place: int| 0 <= place < mel.len() implies holds(#[trigger] mel[place]) by {
        lemma_place_is_cell(config, place);
        let band = place / (config.target_frames as int);
        let frame = place % (config.target_frames as int);
        if frame < analysed {
            assert(column_analysed(samples, config, analyze, mel, frame));
            let (window, bands) = choose|window: &[T], bands: Vec<T>|
                {
                    &&& window@ == frame_of(samples, config, frame as nat)
                    &&& #[trigger] call_ensures(analyze, (window,), bands)
                    &&& column_is(mel, config, frame, bands@)
                };
            assert(mel[cell(config, band, frame)] == bands@[band]);
            assert(holds(bands@[band]));
        } else {
            assert(mel[cell(config, band, frame)] == floor);
        }
    }
}

/// A column that was filled stays filled while only other columns change.
proof fn lemma_column_kept<T, K: Fn(&[T]) -> Vec<T>>(
    samples: Seq<T>,
    config: MelConfig,
    analyze: K,
    before: Seq<T>,
    after: Seq<T>,
    frame: int,
)
    requires
        column_analysed(samples, config, analyze, before, frame),
        forall|band: int|
            0 <= band < config.n_mels ==> after[#[trigger] cell(config, band, frame)] == before[cell(
                config,
                band,
                frame,
            )],
    ensures
        column_analysed(samples, config, analyze, after, frame),
{
    let (window, bands) = choose|window: &[T], bands: Vec<T>|
        {
            &&& window@ == frame_of(samples, config, frame as nat)
            &&& #[trigger] call_ensures(analyze, (window,), bands)
            &&& column_is(before, config, frame, bands@)
        };
    assert(column_is(after, config, frame, bands@));
}

/// The log-mel feature matrix of `samples`.
///
/// The signal is padded by half a frame on each side and cut into frames of
/// `n_fft` samples, `hop_length` apart. `analyze` turns one frame into one
/// value for each mel band (window, transform, power, filters, logarithm);
/// the values of frame `f` go to column `f`. Columns for which the signal
/// has no frame, and all columns of an empty signal, hold `floor`.
pub fn log_mel_spectrogram<T: Copy, K: Fn(&[T]) -> Vec<T>>(
    samples: &[T],
    cfg: &MelConfig,
    floor: T,
    analyze: &K,
) -> (mel: Vec<T>)
    requires
        cfg.n_mels * cfg.target_frames <= usize::MAX,
        samples@.len() + 2 * (cfg.n_fft / 2) <= usize::MAX,
        samples@.len() > 0 ==> cfg.hop_length > 0,
        analyzes_frames(*cfg, *analyze),
    ensures
        is_log_mel(samples@, *cfg, floor, *analyze, mel@),
        mel@.len() == cfg.n_mels * cfg.target_frames,
        samples@.len() == 0 ==> forall|place: int| 0 <= place < mel@.len() ==> mel@[place] == floor,
{
    let rows: usize = cfg.n_mels;
    let width: usize = cfg.target_frames;
    let total: usize = rows * width;
    let mut mel: Vec<T> = Vec::new();
    let mut filled: usize = 0;
    while filled < total
        invariant
            filled <= total,
            mel@.len() == filled,
            forall|k: int| 0 <= k < filled ==> mel@[k] == floor,
        decreases total - filled,
    {
        mel.push(floor);
        filled += 1;
    }
    assert forall|band: int, frame: int| 0 <= band < rows && 0 <= frame < width implies mel@[#[trigger] cell(
        *cfg,
        band,
        frame,
    )] == floor by {
        lemma_cells(*cfg, band, frame, band, frame);
    }
    if samples.len() == 0 {
        return mel;
    }
    assert(mel@.len() == cfg.n_mels * cfg.target_frames);
    let pad: usize = cfg.n_fft / 2;
    let padded: Vec<T> = reflect_pad(samples, pad);
    let hop: usize = cfg.hop_length;
    let n_fft: usize = cfg.n_fft;
    assert(padded@.len() >= n_fft);
    let spare: usize = (padded.len() - n_fft) / hop;
    let max_frames: usize = if spare >= width { width } else { spare + 1 };
    assert(max_frames == analysed_frames(samples@.len(), *cfg));
    let mut frame_idx: usize = 0;
    while frame_idx < max_frames
        invariant
            frame_idx <= max_frames,
            max_frames <= width,
            max_frames <= spare + 1,
            rows == cfg.n_mels,
            width == cfg.target_frames,
            hop == cfg.hop_length,
            n_fft == cfg.n_fft,
            hop > 0,
            padded@ == reflect_padded(samples@, (cfg.n_fft / 2) as nat),
            padded@.len() >= n_fft,
            padded@.len() <= usize::MAX,
            spare == (padded@.len() - n_fft) / (hop as int),
            rows * width <= usize::MAX,
            mel@.len() == rows * width,
            analyzes_frames(*cfg, *analyze),
            forall|frame: int|
                0 <= frame < frame_idx ==> #[trigger] column_analysed(
                    samples@,
                    *cfg,
                    *analyze,
                    mel@,
                    frame,
                ),
            forall|band: int, frame: int|
                0 <= band < rows && frame_idx <= frame < width ==> mel@[#[trigger] cell(
                    *cfg,
                    band,
                    frame,
                )] == floor,
        decreases max_frames - frame_idx,
    {
        assert(frame_idx * hop + n_fft <= padded@.len()) by (nonlinear_arith)
            requires
                frame_idx <= spare,
                hop > 0,
                spare == (padded@.len() - n_fft) / (hop as int),
                padded@.len() >= n_fft,
        ;
        let start: usize = frame_idx * hop;
        let window = slice_subrange(padded.as_slice(), start, start + n_fft);
        assert(window@ == frame_of(samples@, *cfg, frame_idx as nat));
        let bands: Vec<T> = analyze(window);
        let ghost before = mel@;
        let mut band: usize = 0;
        while band < rows
            invariant
                band <= rows,
                frame_idx < width,
                rows == cfg.n_mels,
                width == cfg.target_frames,
                bands@.len() == rows,
                rows * width <= usize::MAX,
                mel@.len() == rows * width,
                before.len() == rows * width,
                forall|b: int|
                    0 <= b < band ==> mel@[#[trigger] cell(*cfg, b, frame_idx as int)] == bands@[b],
                forall|b: int, f: int|
                    0 <= b < rows && 0 <= f < width && f != frame_idx ==> mel@[#[trigger] cell(
                        *cfg,
                        b,
                        f,
                    )] == before[cell(*cfg, b, f)],
            decreases rows - band,
        {
            proof {
                lemma_cells(*cfg, band as int, frame_idx as int, band as int, frame_idx as int);
            }
            let place: usize = band * width + frame_idx;
            let ghost prior = mel@;
            mel.set(place, bands[band]);
            assert forall|b: int| 0 <= b < band + 1 implies mel@[#[trigger] cell(
                *cfg,
                b,
                frame_idx as int,
            )] == bands@[b] by {
                lemma_cells(*cfg, b, frame_idx as int, band as int, frame_idx as int);
            }
            assert forall|b: int, f: int|
                0 <= b < rows && 0 <= f < width && f != frame_idx implies mel@[#[trigger] cell(
                *cfg,
                b,
                f,
            )] == before[cell(*cfg, b, f)] by {
                lemma_cells(*cfg, b, f, band as int, frame_idx as int);
            }
            band += 1;
        }
        proof {
            assert(column_is(mel@, *cfg, frame_idx as int, bands@));
            assert(call_ensures(*analyze, (window,), bands));
            assert(column_analysed(samples@, *cfg, *analyze, mel@, frame_idx as int));
            assert forall|frame: int| 0 <= frame < frame_idx implies #[trigger] column_analysed(
                samples@,
                *cfg,
                *analyze,
                mel@,
                frame,
            ) by {
                lemma_column_kept(samples@, *cfg, *analyze, before, mel@, frame);
            }
        }
        frame_idx += 1;
    }
    mel
}

/// One weight of a mel filter: the fraction `num / den`; `den` is never zero.
#[derive(Debug, Clone, Copy, PartialEq, Eq, Structural)]
pub struct FilterWeight {
    pub num: usize,
    pub den: usize,
}

/// The weight that the triangular filter with edges `lo`, `mid` and `hi`
/// gives to bin `k`: rising from zero at `lo` towards one at `mid`, falling
/// from one at `mid` to zero at `hi`, and zero elsewhere.
pub open spec fn triangle_weight(lo: usize, mid: usize, hi: usize, k: int) -> FilterWeight {
    if mid <= k < hi {
        FilterWeight { num: (hi - k) as usize, den: (hi - mid) as usize }
    } else if lo <= k < mid {
        FilterWeight { num: (k - lo) as usize, den: (mid - lo) as usize }
    } else {
        FilterWeight { num: 0, den: 1 }
    }
}

/// The number of frequency bins that a transform of `n_fft` samples keeps.
pub open spec fn spectrum_bins(n_fft: usize) -> nat {
    (n_fft / 2 + 1) as nat
}

/// Whether `filters` is the bank of triangular filters over `bin_edges`:
/// one filter for every three adjacent edges, each with one weight for
/// every bin of the spectrum.
pub open spec fn is_filterbank(
    bin_edges: Seq<usize>,
    n_fft: usize,
    filters: Seq<Vec<FilterWeight>>,
) -> bool {
    &&& filters.len() == if bin_edges.len() >= 2 {
        bin_edges.len() - 2
    } else {
        0
    }
    &&& forall|m: int|
        0 <= m < filters.len() ==> (#[trigger] filters[m])@.len() == spectrum_bins(n_fft)
    &&& forall|m: int, k: int|
        0 <= m < filters.len() && 0 <= k < spectrum_bins(n_fft) ==> #[trigger] filters[m]@[k]
            == triangle_weight(bin_edges[m], bin_edges[m + 1], bin_edges[m + 2], k)
}

/// The bank of triangular mel filters whose edges are the bins `bin_edges`.
///
/// Filter `m` rises over the bins from `bin_edges[m]` to `bin_edges[m + 1]`
/// and falls from there to `bin_edges[m + 2]`.
pub fn build_mel_filterbank(bin_edges: &[usize], n_fft: usize) -> (filters: Vec<Vec<FilterWeight>>)
    ensures
        is_filterbank(bin_edges@, n_fft, filters@),
        forall|m: int, k: int|
            0 <= m < filters@.len() && 0 <= k < spectrum_bins(n_fft) ==> (#[trigger] filters@[m]@[k]).den
                >= 1,
{
    let bins: usize = n_fft / 2 + 1;
    let mut filters: Vec<Vec<FilterWeight>> = Vec::new();
    if bin_edges.len() < 2 {
        return filters;
    }
    let count: usize = bin_edges.len() - 2;
    let mut m: usize = 0;
    while m < count
        invariant
            m <= count,
            count + 2 == bin_edges@.len(),
            bins == spectrum_bins(n_fft),
            filters@.len() == m,
            forall|i: int| 0 <= i < m ==> (#[trigger] filters@[i])@.len() == bins,
            forall|i: int, k: int|
                0 <= i < m && 0 <= k < bins ==> #[trigger] filters@[i]@[k] == triangle_weight(
                    bin_edges@[i],
                    bin_edges@[i + 1],
                    bin_edges@[i + 2],
                    k,
                ),
        decreases count - m,
    {
        let lo: usize = bin_edges[m];
        let mid: usize = bin_edges[m + 1];
        let hi: usize = bin_edges[m + 2];
        let mut row: Vec<FilterWeight> = Vec::new();
        let mut k: usize = 0;
        while k < bins
            invariant
                k <= bins,
                row@.len() == k,
                forall|j: int| 0 <= j < k ==> #[trigger] row@[j] == triangle_weight(lo, mid, hi, j),
            decreases bins - k,
        {
            let weight = if mid <= k && k < hi {
                FilterWeight { num: hi - k, den: hi - mid }
            } else if lo <= k && k < mid {
                FilterWeight { num: k - lo, den: mid - lo }
            } else {
                FilterWeight { num: 0, den: 1 }
            };
            row.push(weight);
            k += 1;
        }
        filters.push(row);
        m += 1;
    }
    filters
}

} // verus!
