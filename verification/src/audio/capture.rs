//! What comes from a capture device: interleaved frames to be mixed down to
//! one channel, and the errors that end a capture.

use vstd::prelude::*;
use vstd::slice::slice_subrange;
use vstd::string::StringExecFns;

verus! {

/// The rate at which audio is taken to arrive until the device has said
/// its own, in samples per second.
pub const DEFAULT_SAMPLE_RATE: u32 = 48_000;

/// How many samples the capture buffer holds: one minute at
/// [`DEFAULT_SAMPLE_RATE`].
pub const BUFFER_CAPACITY: usize = 2_880_000;

/// Why capture could not start or go on. None of these is retried.
#[derive(Debug)]
pub enum AudioCaptureError {
    /// The input device failed; the field says how.
    DeviceError(String),
    /// The stream of samples failed; the field says how.
    StreamError(String),
    /// The system has no default input device.
    NoDefaultDevice,
    /// The device offers no configuration that can be used; the field says why.
    ConfigError(String),
}

impl AudioCaptureError {
    /// The text of the error, as it is shown to a user.
    pub open spec fn spec_message(&self) -> Seq<char> {
        match self {
            AudioCaptureError::DeviceError(why) => "Audio device error: "@ + why@,
            AudioCaptureError::StreamError(why) => "Stream error: "@ + why@,
            AudioCaptureError::NoDefaultDevice => "No default input device found"@,
            AudioCaptureError::ConfigError(why) => "Configuration error: "@ + why@,
        }
    }

    /// The text of the error, as it is shown to a user.
    pub fn message(&self) -> (text: String)
        ensures
            text@ == self.spec_message(),
    {
        match self {
            AudioCaptureError::DeviceError(why) => String::from_str("Audio device error: ").concat(
                why.as_str(),
            ),
            AudioCaptureError::StreamError(why) => String::from_str("Stream error: ").concat(
                why.as_str(),
            ),
            AudioCaptureError::NoDefaultDevice => String::from_str("No default input device found"),
            AudioCaptureError::ConfigError(why) => String::from_str("Configuration error: ").concat(
                why.as_str(),
            ),
        }
    }
}

/// How many frames of `channels` samples `len` interleaved samples make; a
/// last frame may be short.
pub open spec fn interleaved_frames(len: nat, channels: nat) -> nat {
    ((len + channels - 1) / (channels as int)) as nat
}

/// Frame `index` of interleaved `data`: the samples that the channels took
/// at one instant, in the order of the channels.
pub open spec fn interleaved_frame<T>(data: Seq<T>, channels: nat, index: nat) -> Seq<T> {
    data.subrange(
        (index * channels) as int,
        if (index + 1) * channels <= data.len() {
            ((index + 1) * channels) as int
        } else {
            data.len() as int
        },
    )
}

/// Whether sample `index` of `mono` is what `mix` made of frame `index` of
/// `data`.
pub open spec fn frame_mixed<T, F: Fn(&[T]) -> T>(
    data: Seq<T>,
    channels: nat,
    mix: F,
    mono: Seq<T>,
    index: int,
) -> bool {
    exists|frame: &[T]|
        {
            &&& frame@ == interleaved_frame(data, channels, index as nat)
            &&& #[trigger] call_ensures(mix, (frame,), mono[index])
        }
}

/// Mixes interleaved `data` of `channels` channels down to one channel: one
/// sample for every frame, made by `mix` from the samples of that frame.
pub fn downmix<T: Copy, F: Fn(&[T]) -> T>(data: &[T], channels: usize, mix: &F) -> (mono: Vec<T>)
    requires
        channels > 0,
        forall|frame: &[T]|
            0 < frame@.len() <= channels ==> #[trigger] call_requires(*mix, (frame,)),
    ensures
        mono@.len() == interleaved_frames(data@.len(), channels as nat),
        forall|index: int|
            0 <= index < mono@.len() ==> #[trigger] frame_mixed(
                data@,
                channels as nat,
                *mix,
                mono@,
                index,
            ),
{
    let len: usize = data.len();
    let mut mono: Vec<T> = Vec::new();
    let mut start: usize = 0;
    let ghost mut count: nat = 0;
    proof {
        if len == 0 {
            assert(interleaved_frames(0, channels as nat) == 0) by (nonlinear_arith)
                requires
                    channels > 0,
            ;
        }
    }
    while start < len
        invariant
            channels > 0,
            len == data@.len(),
            start <= len,
            count <= interleaved_frames(len as nat, channels as nat),
            start < len ==> start == count * channels,
            start == len ==> count == interleaved_frames(len as nat, channels as nat),
            mono@.len() == count,
            forall|frame: &[T]|
                0 < frame@.len() <= channels ==> #[trigger] call_requires(*mix, (frame,)),
            forall|index: int|
                0 <= index < mono@.len() ==> #[trigger] frame_mixed(
                    data@,
                    channels as nat,
                    *mix,
                    mono@,
                    index,
                ),
        decreases len - start,
    {
        let end: usize = if len - start >= channels { start + channels } else { len };
        proof {
            lemma_frame_bounds(len as nat, channels as nat, count);
        }
        let frame = slice_subrange(data, start, end);
        assert(frame@ == interleaved_frame(data@, channels as nat, count));
        let sample: T = mix(frame);
        let ghost before = mono@;
        mono.push(sample);
        proof {
            assert(call_ensures(*mix, (frame,), mono@[count as int]));
            assert(frame_mixed(data@, channels as nat, *mix, mono@, count as int));
            assert forall|index: int| 0 <= index < before.len() implies #[trigger] frame_mixed(
                data@,
                channels as nat,
                *mix,
                mono@,
                index,
            ) by {
                assert(frame_mixed(data@, channels as nat, *mix, before, index));
                let earlier = choose|earlier: &[T]|
                    {
                        &&& earlier@ == interleaved_frame(data@, channels as nat, index as nat)
                        &&& #[trigger] call_ensures(*mix, (earlier,), before[index])
                    };
                assert(call_ensures(*mix, (earlier,), mono@[index]));
            }
            count = count + 1;
        }
        start = end;
    }
    mono
}

/// Where frame `index` lies while samples are left: it starts inside the
/// data, and it is the last frame exactly when fewer than `channels`
/// samples follow its start or the data ends with it.
proof fn lemma_frame_bounds(len: nat, channels: nat, index: nat)
    requires
        channels > 0,
        index * channels < len,
    ensures
        index < interleaved_frames(len, channels),
        (index + 1) * channels == index * channels + channels,
        (index + 1) * channels >= len ==> index + 1 == interleaved_frames(len, channels),
        (index + 1) * channels < len ==> index + 1 < interleaved_frames(len, channels),
{
    let frames = (len + channels - 1) / (channels as int);
    assert(index < frames && (index + 1) * channels == index * channels + channels && ((index + 1)
        * channels >= len ==> index + 1 == frames) && ((index + 1) * channels < len ==> index + 1
        < frames)) by (nonlinear_arith)
        requires
            channels > 0,
            index * channels < len,
            frames == (len + channels - 1) / (channels as int),
    ;
}

} // verus!
