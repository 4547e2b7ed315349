//! The scheduler of streaming recognition.
//!
//! On every tick it decides, from how much audio the buffer holds and how
//! much of it has been handed out already, whether a new window goes to the
//! recogniser, and it puts what comes back onto the recording's timeline.

use std::sync::Arc;
use vstd::prelude::*;
use crate::asr::model::AsrError;
use crate::asr::model::AsrModel;
use crate::asr::model::TranscriptionResult;
use crate::asr::model::TranscriptionSegment;
use crate::audio::buffer::AudioBuffer;
use crate::audio::buffer::most_recent;
use crate::audio::resample::is_resampled;
use crate::audio::resample::lerp_accepts;
use crate::audio::resample::resample_for_whisper;
use crate::audio::resample::lemma_resampled_len_monotonic;
use crate::audio::resample::resampled_len;
use crate::audio::resample::WHISPER_SAMPLE_RATE;
use crate::time::least;
use crate::time::micros_of;
use crate::time::samples_in;
use crate::time::Seconds;

verus! {

/// How the scheduler cuts and paces its windows.
#[derive(Debug, Clone, Copy, PartialEq, Eq, Structural)]
pub struct StreamingConfig {
    /// The length of the window handed to the recogniser.
    pub chunk_duration: Seconds,
    /// How much new audio must have come before the next window is cut.
    pub interval_sec: Seconds,
    /// The rate of the audio in the buffer, in samples per second.
    pub input_sample_rate: u32,
    /// How much trailing audio consecutive windows share. The scheduler
    /// carries it for whoever stitches the text; it does not use it.
    pub overlap_duration: Seconds,
}

impl Default for StreamingConfig {
    /// Windows of 30 s every 5 s of new audio, at 48 kHz, sharing 1 s.
    fn default() -> (config: StreamingConfig)
        ensures
            config == (StreamingConfig {
                chunk_duration: Seconds { micros: 30_000_000 },
                interval_sec: Seconds { micros: 5_000_000 },
                input_sample_rate: 48_000,
                overlap_duration: Seconds { micros: 1_000_000 },
            }),
    {
        StreamingConfig {
            chunk_duration: Seconds { micros: 30_000_000 },
            interval_sec: Seconds { micros: 5_000_000 },
            input_sample_rate: 48_000,
            overlap_duration: Seconds { micros: 1_000_000 },
        }
    }
}

/// How long `held` samples last at `rate`, as the buffer reports it.
pub open spec fn duration_of(held: nat, rate: u32) -> Seconds {
    Seconds { micros: least(micros_of(held, rate as nat), u64::MAX as nat) as u64 }
}

/// How many samples the window of `config` has, as the buffer counts them.
pub open spec fn chunk_samples(config: StreamingConfig) -> nat {
    least(
        samples_in(config.chunk_duration.micros as nat, config.input_sample_rate as nat),
        usize::MAX as nat,
    )
}

/// Whether a tick cuts a window: the audio past the watermark is at least
/// the interval.
pub open spec fn is_due(buffer_duration: Seconds, watermark: Seconds, interval: Seconds) -> bool {
    buffer_duration.micros - watermark.micros >= interval.micros
}

/// Where a window of `chunk_len` samples begins when the buffer's audio ends
/// at `buffer_duration`.
pub open spec fn chunk_start(buffer_duration: Seconds, chunk_len: nat, rate: u32) -> Seconds {
    let length = duration_of(chunk_len, rate);
    Seconds {
        micros: if buffer_duration.micros >= length.micros {
            (buffer_duration.micros - length.micros) as u64
        } else {
            0
        },
    }
}

/// What a tick that cut a window hands back for the recogniser's `outcome`:
/// its segments moved `offset` later, or its error.
pub open spec fn delivered(
    outcome: Result<TranscriptionResult, AsrError>,
    offset: Seconds,
    result: Result<Option<Vec<TranscriptionSegment>>, AsrError>,
) -> bool {
    match outcome {
        Ok(transcription) => {
            &&& result matches Ok(Some(segments))
            &&& segments@ == transcription.segments@.map_values(
                |s: TranscriptionSegment| s.shifted(offset),
            )
        },
        Err(error) => result == Err::<Option<Vec<TranscriptionSegment>>, AsrError>(error),
    }
}

/// Where the watermark stands after a tick that cut a window: at the end of
/// the buffer's audio if the recogniser answered, and where it was if the
/// recogniser failed, so that the window may be tried again.
pub open spec fn watermark_after(
    outcome: Result<TranscriptionResult, AsrError>,
    buffer_duration: Seconds,
    watermark: Seconds,
) -> Seconds {
    if outcome is Ok {
        buffer_duration
    } else {
        watermark
    }
}

/// A tick is due only when a whole interval of audio lies past the
/// watermark; right after a tick that moved the watermark to the end of the
/// buffer's audio, none is due until new audio has come.
pub proof fn lemma_throttle(buffer_duration: Seconds, watermark: Seconds, interval: Seconds)
    ensures
        is_due(buffer_duration, watermark, interval) ==> buffer_duration.micros >= watermark.micros
            + interval.micros,
        interval.micros > 0 ==> !is_due(buffer_duration, buffer_duration, interval),
        buffer_duration.micros < watermark.micros ==> !is_due(buffer_duration, watermark, interval),
{
}

/// A window cut from the end of the buffer's audio never begins before the
/// timeline does: its start is the length of the buffer's audio less the
/// length of the window, and that is no less than zero.
pub proof fn lemma_chunk_start(held: nat, chunk_len: nat, rate: u32)
    requires
        chunk_len <= held,
    ensures
        duration_of(chunk_len, rate).micros <= duration_of(held, rate).micros,
        chunk_start(duration_of(held, rate), chunk_len, rate).micros == duration_of(
            held,
            rate,
        ).micros - duration_of(chunk_len, rate).micros,
{
    crate::time::lemma_micros_of_monotonic(chunk_len, held, rate as nat);
}

/// What comes back for an answer of the recogniser: as many segments as it
/// gave, in its order, each with its text, confidence and speaker as they
/// were, and with its start and its end `offset` later. The new time is the
/// plain sum wherever the sum is a time that can be held, and the end of
/// the timeline where it is not.
pub proof fn lemma_remap(
    transcription: TranscriptionResult,
    offset: Seconds,
    result: Result<Option<Vec<TranscriptionSegment>>, AsrError>,
)
    requires
        delivered(Ok(transcription), offset, result),
    ensures
        result matches Ok(Some(segments)) && segments@.len() == transcription.segments@.len() && (
        forall|i: int|
            0 <= i < segments@.len() ==> {
                let before = transcription.segments@[i];
                let after = #[trigger] segments@[i];
                &&& after.text == before.text
                &&& after.confidence == before.confidence
                &&& after.speaker == before.speaker
                &&& after.start.micros == if before.start.micros + offset.micros <= u64::MAX {
                    before.start.micros + offset.micros
                } else {
                    u64::MAX as int
                }
                &&& after.end.micros == if before.end.micros + offset.micros <= u64::MAX {
                    before.end.micros + offset.micros
                } else {
                    u64::MAX as int
                }
            }),
{
}

/// What the loop around the scheduler does with what a tick gave.
#[derive(Debug)]
pub enum TickAction {
    /// Segments came: they are handed to whoever listens.
    Deliver(Vec<TranscriptionSegment>),
    /// The recogniser failed on this window: the failure is reported.
    Report(AsrError),
    /// Nothing was due: nothing is done.
    Idle,
}

/// What a tick's result asks of the loop.
pub open spec fn action_for(
    result: Result<Option<Vec<TranscriptionSegment>>, AsrError>,
) -> TickAction {
    match result {
        Ok(Some(segments)) => TickAction::Deliver(segments),
        Ok(None) => TickAction::Idle,
        Err(error) => TickAction::Report(error),
    }
}

/// What the loop around the scheduler does with what a tick gave. Whatever
/// it is, the loop goes on to the next tick: a window on which the
/// recogniser failed is reported and does not end the loop.
pub fn tick_action(result: Result<Option<Vec<TranscriptionSegment>>, AsrError>) -> (action:
    TickAction)
    ensures
        action == action_for(result),
{
    match result {
        Ok(Some(segments)) => TickAction::Deliver(segments),
        Ok(None) => TickAction::Idle,
        Err(error) => TickAction::Report(error),
    }
}

/// Moves every segment `offset` later on the timeline.
pub fn shift_segments(segments: Vec<TranscriptionSegment>, offset: Seconds) -> (moved: Vec<
    TranscriptionSegment,
>)
    ensures
        moved@ == segments@.map_values(|s: TranscriptionSegment| s.shifted(offset)),
{
    let mut moved: Vec<TranscriptionSegment> = Vec::new();
    let ghost all = segments@;
    for segment in it: segments
        invariant
            it.seq() == all,
            moved@.len() == it.index(),
            forall|k: int| 0 <= k < moved@.len() ==> moved@[k] == (#[trigger] all[k]).shifted(offset),
    {
        moved.push(segment.shift(offset));
    }
    assert(moved@ == all.map_values(|s: TranscriptionSegment| s.shifted(offset)));
    moved
}

/// The scheduler: a recogniser, a configuration, and the watermark, the
/// time on the buffer's timeline up to which audio has been handed out.
pub struct StreamingTranscriber<M: AsrModel> {
    model: Arc<M>,
    config: StreamingConfig,
    last_processed_time: Seconds,
}

impl<M: AsrModel> StreamingTranscriber<M> {
    /// The configuration the scheduler was made with.
    pub closed spec fn spec_config(&self) -> StreamingConfig {
        self.config
    }

    /// The watermark.
    pub closed spec fn spec_last_processed_time(&self) -> Seconds {
        self.last_processed_time
    }

    /// The recogniser.
    pub closed spec fn spec_model(&self) -> Arc<M> {
        self.model
    }

    /// A scheduler that has handed out nothing yet.
    pub fn new(model: Arc<M>, config: StreamingConfig) -> (transcriber: Self)
        ensures
            transcriber.spec_model() == model,
            transcriber.spec_config() == config,
            transcriber.spec_last_processed_time().micros == 0,
    {
        StreamingTranscriber { model, config, last_processed_time: Seconds { micros: 0 } }
    }

    /// The configuration the scheduler was made with.
    pub fn config(&self) -> (config: StreamingConfig)
        ensures
            config == self.spec_config(),
    {
        self.config
    }

    /// The watermark.
    pub fn last_processed_time(&self) -> (watermark: Seconds)
        ensures
            watermark == self.spec_last_processed_time(),
    {
        self.last_processed_time
    }

    /// Whether a tick would cut a window from a buffer whose audio lasts
    /// `buffer_duration`.
    pub fn should_process(&self, buffer_duration: Seconds) -> (due: bool)
        ensures
            due == is_due(
                buffer_duration,
                self.spec_last_processed_time(),
                self.spec_config().interval_sec,
            ),
    {
        buffer_duration.micros >= self.last_processed_time.micros && buffer_duration.micros
            - self.last_processed_time.micros >= self.config.interval_sec.micros
    }

    /// Ends a tick that was due and cut a window of `chunk_len` samples from
    /// a buffer whose audio lasted `buffer_duration`, given what the
    /// recogniser made of the window.
    ///
    /// Where the recogniser answered, its segments come back moved to where
    /// the window began on the buffer's timeline, and the watermark stands
    /// at the end of the buffer's audio, also where there is no segment.
    /// Where it failed, its error comes back and the watermark stays, so
    /// that the next tick that is due tries again.
    pub fn finish_chunk(
        &mut self,
        buffer_duration: Seconds,
        chunk_len: usize,
        outcome: Result<TranscriptionResult, AsrError>,
    ) -> (result: Result<Option<Vec<TranscriptionSegment>>, AsrError>)
        requires
            is_due(
                buffer_duration,
                old(self).spec_last_processed_time(),
                old(self).spec_config().interval_sec,
            ),
        ensures
            delivered(
                outcome,
                chunk_start(buffer_duration, chunk_len as nat, old(self).spec_config().input_sample_rate),
                result,
            ),
            final(self).spec_last_processed_time() == watermark_after(
                outcome,
                buffer_duration,
                old(self).spec_last_processed_time(),
            ),
            final(self).spec_last_processed_time().micros >= old(
                self,
            ).spec_last_processed_time().micros,
            final(self).spec_config() == old(self).spec_config(),
            final(self).spec_model() == old(self).spec_model(),
    {
        match outcome {
            Ok(transcription) => {
                let length = Seconds::of_samples(chunk_len, self.config.input_sample_rate);
                let chunk_start_time = buffer_duration.saturating_sub(length);
                let adjusted = shift_segments(transcription.segments, chunk_start_time);
                self.last_processed_time = buffer_duration;
                Ok(Some(adjusted))
            },
            Err(error) => Err(error),
        }
    }

    /// One tick of the scheduler.
    ///
    /// Where less than the interval of new audio lies past the watermark, or
    /// the buffer gives an empty window, nothing happens and `Ok(None)` comes
    /// back. Otherwise the most recent window is resampled to the
    /// recogniser's rate and handed to the recogniser, and the tick ends as
    /// [`StreamingTranscriber::finish_chunk`] says for what came back: the
    /// segments on the buffer's timeline and the watermark at the end of the
    /// buffer's audio, or the recogniser's error and the watermark unmoved.
    pub fn process_next_chunk<F: Fn(M::Sample, M::Sample, u32, u32) -> M::Sample>(
        &mut self,
        buffer: &AudioBuffer<M::Sample>,
        lerp: &F,
    ) -> (result: Result<Option<Vec<TranscriptionSegment>>, AsrError>)
        requires
            old(self).spec_config().input_sample_rate != WHISPER_SAMPLE_RATE ==> resampled_len(
                buffer@.len(),
                old(self).spec_config().input_sample_rate as nat,
                WHISPER_SAMPLE_RATE as nat,
            ) <= usize::MAX,
            old(self).spec_config().input_sample_rate != WHISPER_SAMPLE_RATE ==> lerp_accepts(
                most_recent(buffer@, chunk_samples(old(self).spec_config())),
                old(self).spec_config().input_sample_rate,
                WHISPER_SAMPLE_RATE,
                *lerp,
            ),
        ensures
            final(self).spec_config() == old(self).spec_config(),
            final(self).spec_model() == old(self).spec_model(),
            ({
                let config = old(self).spec_config();
                let watermark = old(self).spec_last_processed_time();
                let buffer_duration = duration_of(buffer@.len(), config.input_sample_rate);
                let chunk = most_recent(buffer@, chunk_samples(config));
                if is_due(buffer_duration, watermark, config.interval_sec) && chunk.len() > 0 {
                    exists|resampled: Seq<M::Sample>, outcome: Result<TranscriptionResult, AsrError>|
                        {
                            &&& is_resampled(
                                chunk,
                                config.input_sample_rate,
                                WHISPER_SAMPLE_RATE,
                                *lerp,
                                resampled,
                            )
                            &&& #[trigger] old(self).spec_model().answers(resampled, outcome)
                            &&& delivered(
                                outcome,
                                chunk_start(buffer_duration, chunk.len(), config.input_sample_rate),
                                result,
                            )
                            &&& final(self).spec_last_processed_time() == watermark_after(
                                outcome,
                                buffer_duration,
                                watermark,
                            )
                        }
                } else {
                    &&& result matches Ok(None)
                    &&& final(self).spec_last_processed_time() == watermark
                }
            }),
            final(self).spec_last_processed_time().micros >= old(
                self,
            ).spec_last_processed_time().micros,
    {
        let buffer_duration = buffer.duration_sec(self.config.input_sample_rate);
        if !self.should_process(buffer_duration) {
            return Ok(None);
        }
        let chunk = buffer.get_chunk(self.config.chunk_duration, self.config.input_sample_rate);
        if chunk.len() == 0 {
            return Ok(None);
        }
        proof {
            if self.config.input_sample_rate == 0 {
                assert(samples_in(self.config.chunk_duration.micros as nat, 0) == 0)
                    by (nonlinear_arith);
            }
            lemma_resampled_len_monotonic(
                chunk@.len(),
                buffer@.len(),
                self.config.input_sample_rate as nat,
                WHISPER_SAMPLE_RATE as nat,
            );
        }
        let resampled = resample_for_whisper(
            chunk.as_slice(),
            self.config.input_sample_rate,
            lerp,
        );
        let outcome = self.model.transcribe(resampled.as_slice());
        self.finish_chunk(buffer_duration, chunk.len(), outcome)
    }

    /// Puts the watermark back to the start of the timeline; the buffer is
    /// not touched.
    pub fn reset(&mut self)
        ensures
            final(self).spec_last_processed_time().micros == 0,
            final(self).spec_config() == old(self).spec_config(),
            final(self).spec_model() == old(self).spec_model(),
    {
        self.last_processed_time = Seconds { micros: 0 };
    }
}

} // verus!
