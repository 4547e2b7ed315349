//! Linear-interpolation resampling.
//!
//! The resampler decides how many samples come out and which two input
//! samples, in which proportion, make each of them. Blending two samples is
//! arithmetic on the sample type and is left to the caller's `lerp`.

use vstd::prelude::*;
use vstd::slice::slice_to_vec;

verus! {

/// The rate, in samples per second, that the recogniser takes.
pub const WHISPER_SAMPLE_RATE: u32 = 16_000;

/// How many samples `len` input samples become: `len * output_rate /
/// input_rate`, rounded up.
pub open spec fn resampled_len(len: nat, input_rate: nat, output_rate: nat) -> nat {
    if input_rate == 0 {
        0
    } else {
        ((len * output_rate + input_rate - 1) / (input_rate as int)) as nat
    }
}

/// The input index at or just before the source position of output sample
/// `i`, which is `i * input_rate / output_rate`.
pub open spec fn tap_index(i: nat, input_rate: nat, output_rate: nat) -> nat {
    i * input_rate / output_rate
}

/// How far the source position of output sample `i` lies past
/// [`tap_index`], in units of `1 / output_rate` of a sample.
pub open spec fn tap_offset(i: nat, input_rate: nat, output_rate: nat) -> nat {
    i * input_rate % output_rate
}

/// The neighbour after input index `idx`, clamped to the last index.
pub open spec fn tap_next(idx: nat, len: nat) -> nat {
    if idx + 1 < len {
        idx + 1
    } else {
        (len - 1) as nat
    }
}

/// Whether `output` is `input` resampled from `input_rate` to `output_rate`
/// with `lerp` as the blend: a copy where the rates are equal, else
/// [`resampled_len`] samples, each one what `lerp` gave for the two
/// neighbours of its source position and the offset between them.
pub open spec fn is_resampled<T, F: Fn(T, T, u32, u32) -> T>(
    input: Seq<T>,
    input_rate: u32,
    output_rate: u32,
    lerp: F,
    output: Seq<T>,
) -> bool {
    if input_rate == output_rate {
        output == input
    } else {
        &&& output.len() == resampled_len(input.len(), input_rate as nat, output_rate as nat)
        &&& forall|i: int|
            0 <= i < output.len() ==> call_ensures(
                lerp,
                (
                    input[tap_index(i as nat, input_rate as nat, output_rate as nat) as int],
                    input[tap_next(
                        tap_index(i as nat, input_rate as nat, output_rate as nat),
                        input.len(),
                    ) as int],
                    tap_offset(i as nat, input_rate as nat, output_rate as nat) as u32,
                    output_rate,
                ),
                #[trigger] output[i],
            )
    }
}

/// Whether `lerp` may be called for every output sample of this resampling.
pub open spec fn lerp_accepts<T, F: Fn(T, T, u32, u32) -> T>(
    input: Seq<T>,
    input_rate: u32,
    output_rate: u32,
    lerp: F,
) -> bool {
    forall|i: nat|
        #![trigger tap_index(i, input_rate as nat, output_rate as nat)]
        i < resampled_len(input.len(), input_rate as nat, output_rate as nat) ==> call_requires(
            lerp,
            (
                input[tap_index(i, input_rate as nat, output_rate as nat) as int],
                input[tap_next(tap_index(i, input_rate as nat, output_rate as nat), input.len()) as int],
                tap_offset(i, input_rate as nat, output_rate as nat) as u32,
                output_rate,
            ),
        )
}

/// Every output sample before the end has its source position inside the
/// input.
pub proof fn lemma_tap_in_range(i: nat, len: nat, input_rate: nat, output_rate: nat)
    requires
        input_rate > 0,
        i < resampled_len(len, input_rate, output_rate),
    ensures
        output_rate > 0,
        len > 0,
        i * input_rate < len * output_rate,
        tap_index(i, input_rate, output_rate) < len,
        tap_next(tap_index(i, input_rate, output_rate), len) < len,
        tap_offset(i, input_rate, output_rate) < output_rate,
{
    let total = len * output_rate + input_rate - 1;
    let count = total / (input_rate as int);
    assert(i * input_rate < len * output_rate && output_rate > 0 && len > 0) by (nonlinear_arith)
        requires
            input_rate > 0,
            count == (len * output_rate + input_rate - 1) / (input_rate as int),
            i < count,
    {
        assert(count * input_rate <= len * output_rate + input_rate - 1);
        assert((i + 1) * input_rate <= count * input_rate);
    }
    assert(i * input_rate / output_rate < len) by (nonlinear_arith)
        requires
            output_rate > 0,
            i * input_rate < len * output_rate,
    ;
    assert(i * input_rate % output_rate < output_rate) by (nonlinear_arith)
        requires
            output_rate > 0,
    ;
}

/// At equal rates the output is as long as the input.
pub proof fn lemma_resampled_len_same_rate(len: nat, rate: nat)
    requires
        rate > 0,
    ensures
        resampled_len(len, rate, rate) == len,
{
    assert((len * rate + rate - 1) / (rate as int) == len) by (nonlinear_arith)
        requires
            rate > 0,
    ;
}

/// Whatever the blend, resampling to the same rate gives the input back, and
/// from a rate above zero the output has `len * output_rate / input_rate`
/// samples, rounded up.
pub proof fn lemma_resampled_shape<T, F: Fn(T, T, u32, u32) -> T>(
    input: Seq<T>,
    input_rate: u32,
    output_rate: u32,
    lerp: F,
    output: Seq<T>,
)
    requires
        is_resampled(input, input_rate, output_rate, lerp, output),
    ensures
        input_rate == output_rate ==> output == input,
        input_rate > 0 ==> output.len() == resampled_len(
            input.len(),
            input_rate as nat,
            output_rate as nat,
        ),
{
    if input_rate == output_rate && input_rate > 0 {
        lemma_resampled_len_same_rate(input.len(), input_rate as nat);
    }
}

/// Every output sample is a blend of two input samples, or an input sample
/// itself: what holds of every input sample, and of the blend of any two
/// samples of which it holds, holds of every output sample. So a range of
/// amplitudes that the blend stays in is a range that resampling stays in.
pub proof fn lemma_resampled_values<T, F: Fn(T, T, u32, u32) -> T>(
    input: Seq<T>,
    input_rate: u32,
    output_rate: u32,
    lerp: F,
    output: Seq<T>,
    holds: spec_fn(T) -> bool,
)
    requires
        is_resampled(input, input_rate, output_rate, lerp, output),
        input_rate == output_rate || input_rate > 0,
        forall|i: int| 0 <= i < input.len() ==> holds(#[trigger] input[i]),
        forall|a: T, b: T, offset: u32, blend: T|
            holds(a) && holds(b) && offset < output_rate && #[trigger] call_ensures(
                lerp,
                (a, b, offset, output_rate),
                blend,
            ) ==> holds(blend),
    ensures
        forall|i: int| 0 <= i < output.len() ==> holds(#[trigger] output[i]),
{
    if input_rate != output_rate {
        assert forall|i: int| 0 <= i < output.len() implies holds(#[trigger] output[i]) by {
            lemma_tap_in_range(i as nat, input.len(), input_rate as nat, output_rate as nat);
            let first = tap_index(i as nat, input_rate as nat, output_rate as nat);
            let second = tap_next(first, input.len());
            assert(holds(input[first as int]));
            assert(holds(input[second as int]));
        }
    }
}

/// More input never becomes less output.
pub proof fn lemma_resampled_len_monotonic(a: nat, b: nat, input_rate: nat, output_rate: nat)
    requires
        a <= b,
    ensures
        resampled_len(a, input_rate, output_rate) <= resampled_len(b, input_rate, output_rate),
{
    if input_rate > 0 {
        assert(a * output_rate <= b * output_rate) by (nonlinear_arith)
            requires
                a <= b,
        ;
        vstd::arithmetic::div_mod::lemma_div_is_ordered(
            a * output_rate + input_rate - 1,
            b * output_rate + input_rate - 1,
            input_rate as int,
        );
    }
}

/// Resamples `input` from `input_rate` to `output_rate` by linear
/// interpolation. No low-pass filter is applied, so strong downsampling may
/// alias.
pub fn resample_linear<T: Copy, F: Fn(T, T, u32, u32) -> T>(
    input: &[T],
    input_rate: u32,
    output_rate: u32,
    lerp: &F,
) -> (output: Vec<T>)
    requires
        input_rate == output_rate || input_rate > 0 || input@.len() == 0,
        input_rate != output_rate ==> resampled_len(
            input@.len(),
            input_rate as nat,
            output_rate as nat,
        ) <= usize::MAX,
        input_rate != output_rate ==> lerp_accepts(input@, input_rate, output_rate, *lerp),
    ensures
        is_resampled(input@, input_rate, output_rate, *lerp, output@),
        input_rate == output_rate ==> output@ == input@,
        input_rate > 0 ==> output@.len() == resampled_len(
            input@.len(),
            input_rate as nat,
            output_rate as nat,
        ),
{
    if input_rate == output_rate {
        proof {
            if input_rate > 0 {
                lemma_resampled_len_same_rate(input@.len(), input_rate as nat);
            }
        }
        return slice_to_vec(input);
    }
    let len: usize = input.len();
    let mut output: Vec<T> = Vec::new();
    if input_rate == 0 {
        return output;
    }
    assert(len as nat * output_rate as nat <= 0xffff_ffff_ffff_ffff * 0xffff_ffff)
        by (nonlinear_arith)
        requires
            len <= 0xffff_ffff_ffff_ffff,
            output_rate <= 0xffff_ffff,
    ;
    let total: u128 = len as u128 * output_rate as u128 + (input_rate as u128 - 1);
    let output_len: usize = (total / input_rate as u128) as usize;
    let mut i: usize = 0;
    while i < output_len
        invariant
            i <= output_len,
            input_rate > 0,
            input_rate != output_rate,
            len == input@.len(),
            output_len == resampled_len(len as nat, input_rate as nat, output_rate as nat),
            lerp_accepts(input@, input_rate, output_rate, *lerp),
            output@.len() == i,
            forall|k: int|
                0 <= k < i ==> call_ensures(
                    *lerp,
                    (
                        input@[tap_index(k as nat, input_rate as nat, output_rate as nat) as int],
                        input@[tap_next(
                            tap_index(k as nat, input_rate as nat, output_rate as nat),
                            input@.len(),
                        ) as int],
                        tap_offset(k as nat, input_rate as nat, output_rate as nat) as u32,
                        output_rate,
                    ),
                    #[trigger] output@[k],
                ),
        decreases output_len - i,
    {
        proof {
            lemma_tap_in_range(i as nat, len as nat, input_rate as nat, output_rate as nat);
            assert(i as nat * input_rate as nat <= 0xffff_ffff_ffff_ffff * 0xffff_ffff)
                by (nonlinear_arith)
                requires
                    i <= 0xffff_ffff_ffff_ffff,
                    input_rate <= 0xffff_ffff,
            ;
        }
        let position: u128 = i as u128 * input_rate as u128;
        let idx0: usize = (position / output_rate as u128) as usize;
        let offset: u32 = (position % output_rate as u128) as u32;
        let idx1: usize = if idx0 + 1 < len { idx0 + 1 } else { len - 1 };
        assert(idx0 == tap_index(i as nat, input_rate as nat, output_rate as nat));
        assert(offset == tap_offset(i as nat, input_rate as nat, output_rate as nat));
        assert(idx1 == tap_next(idx0 as nat, len as nat));
        let sample: T = lerp(input[idx0], input[idx1], offset, output_rate);
        output.push(sample);
        i += 1;
    }
    output
}

/// Resamples `input` from `input_rate` to the rate the recogniser takes.
pub fn resample_for_whisper<T: Copy, F: Fn(T, T, u32, u32) -> T>(
    input: &[T],
    input_rate: u32,
    lerp: &F,
) -> (output: Vec<T>)
    requires
        input_rate == WHISPER_SAMPLE_RATE || input_rate > 0 || input@.len() == 0,
        input_rate != WHISPER_SAMPLE_RATE ==> resampled_len(
            input@.len(),
            input_rate as nat,
            WHISPER_SAMPLE_RATE as nat,
        ) <= usize::MAX,
        input_rate != WHISPER_SAMPLE_RATE ==> lerp_accepts(
            input@,
            input_rate,
            WHISPER_SAMPLE_RATE,
            *lerp,
        ),
    ensures
        is_resampled(input@, input_rate, WHISPER_SAMPLE_RATE, *lerp, output@),
        input_rate == WHISPER_SAMPLE_RATE ==> output@ == input@,
        input_rate > 0 ==> output@.len() == resampled_len(
            input@.len(),
            input_rate as nat,
            WHISPER_SAMPLE_RATE as nat,
        ),
{
    resample_linear(input, input_rate, WHISPER_SAMPLE_RATE, lerp)
}

} // verus!
