//! What the scheduler and a speech recogniser say to each other.

use vstd::prelude::*;
use vstd::string::StringExecFns;
use crate::time::Seconds;

verus! {

/// Why a recogniser could not do what was asked.
#[derive(Debug)]
pub enum AsrError {
    /// A transcription was asked of a model that is not loaded.
    ModelNotLoaded,
    /// A file of the model is missing; the field is its path.
    ModelNotFound(String),
    /// The inference engine failed; the field says how.
    InferenceFailed(String),
    /// The audio could not be prepared; the field says why.
    AudioProcessing(String),
    /// Reading the model failed; the field is the system's message.
    Io(String),
}

impl AsrError {
    /// The text of the error, as it is shown to a user.
    pub open spec fn spec_message(&self) -> Seq<char> {
        match self {
            AsrError::ModelNotLoaded => "Model not loaded"@,
            AsrError::ModelNotFound(path) => "Model file not found: "@ + path@,
            AsrError::InferenceFailed(why) => "Inference failed: "@ + why@,
            AsrError::AudioProcessing(why) => "Audio processing error: "@ + why@,
            AsrError::Io(why) => "IO error: "@ + why@,
        }
    }

    /// The text of the error, as it is shown to a user.
    pub fn message(&self) -> (text: String)
        ensures
            text@ == self.spec_message(),
    {
        match self {
            AsrError::ModelNotLoaded => String::from_str("Model not loaded"),
            AsrError::ModelNotFound(path) => String::from_str("Model file not found: ").concat(
                path.as_str(),
            ),
            AsrError::InferenceFailed(why) => String::from_str("Inference failed: ").concat(
                why.as_str(),
            ),
            AsrError::AudioProcessing(why) => String::from_str("Audio processing error: ").concat(
                why.as_str(),
            ),
            AsrError::Io(why) => String::from_str("IO error: ").concat(why.as_str()),
        }
    }
}

/// One stretch of recognised speech.
#[derive(Debug, Clone)]
pub struct TranscriptionSegment {
    /// Where the stretch begins.
    pub start: Seconds,
    /// Where the stretch ends.
    pub end: Seconds,
    /// What was said.
    pub text: String,
    /// How sure the recogniser is, in thousandths: 0 to 1000.
    pub confidence: u16,
    /// Who spoke, where that is known.
    pub speaker: Option<String>,
}

impl TranscriptionSegment {
    /// The same stretch, `offset` later on the timeline; a time that would
    /// pass the end of the timeline stays at its end.
    pub open spec fn shifted(self, offset: Seconds) -> TranscriptionSegment {
        TranscriptionSegment {
            start: Seconds {
                micros: crate::time::least(
                    self.start.micros as nat + offset.micros as nat,
                    u64::MAX as nat,
                ) as u64,
            },
            end: Seconds {
                micros: crate::time::least(
                    self.end.micros as nat + offset.micros as nat,
                    u64::MAX as nat,
                ) as u64,
            },
            text: self.text,
            confidence: self.confidence,
            speaker: self.speaker,
        }
    }

    /// Moves the stretch `offset` later on the timeline.
    pub fn shift(self, offset: Seconds) -> (moved: TranscriptionSegment)
        ensures
            moved == self.shifted(offset),
    {
        TranscriptionSegment {
            start: self.start.saturating_add(offset),
            end: self.end.saturating_add(offset),
            text: self.text,
            confidence: self.confidence,
            speaker: self.speaker,
        }
    }
}

/// What a recogniser made of one window of audio.
#[derive(Debug, Clone)]
pub struct TranscriptionResult {
    /// The stretches of speech, timed from the start of the window.
    pub segments: Vec<TranscriptionSegment>,
    /// All of the text.
    pub full_text: String,
    /// How long the recogniser took.
    pub processing_time: Seconds,
}

/// How sure a recogniser that gives no measure of its own is taken to be,
/// in thousandths.
pub const DEFAULT_CONFIDENCE: u16 = 700;

impl TranscriptionResult {
    /// The result of a recogniser that gives one text for the whole window:
    /// one segment from the start of the window to its end, `samples` samples
    /// at `sample_rate` later, at [`DEFAULT_CONFIDENCE`] and with no speaker.
    pub fn from_text(
        text: String,
        samples: usize,
        sample_rate: u32,
        processing_time: Seconds,
    ) -> (result: TranscriptionResult)
        ensures
            result.segments@.len() == 1,
            result.segments@[0].start.micros == 0,
            result.segments@[0].end == Seconds::spec_of_samples(samples, sample_rate),
            result.segments@[0].text == text,
            result.segments@[0].confidence == DEFAULT_CONFIDENCE,
            result.segments@[0].speaker is None,
            result.full_text == text,
            result.processing_time == processing_time,
    {
        let segment = TranscriptionSegment {
            start: Seconds::zero(),
            end: Seconds::of_samples(samples, sample_rate),
            text: text.clone(),
            confidence: DEFAULT_CONFIDENCE,
            speaker: None,
        };
        let mut segments: Vec<TranscriptionSegment> = Vec::new();
        segments.push(segment);
        TranscriptionResult { segments, full_text: text, processing_time }
    }
}

/// A speech recogniser.
pub trait AsrModel {
    /// The kind of sample the recogniser takes.
    type Sample: Copy;

    /// Whether `outcome` is an answer that the recogniser may give to
    /// `audio`. A recogniser that says nothing of its answers may give any;
    /// one that says more is held to it. The scheduler promises to hand on
    /// an answer to the audio it cut.
    open spec fn answers(
        &self,
        audio: Seq<Self::Sample>,
        outcome: Result<TranscriptionResult, AsrError>,
    ) -> bool {
        true
    }

    /// Loads the model found at `model_path`.
    fn initialize(&mut self, model_path: &str) -> Result<(), AsrError>;

    /// Turns mono audio at [`crate::audio::resample::WHISPER_SAMPLE_RATE`]
    /// into text, with times counted from the start of `audio`.
    fn transcribe(&self, audio: &[Self::Sample]) -> (outcome: Result<TranscriptionResult, AsrError>)
        ensures
            self.answers(audio@, outcome),
    ;

    /// Whether a model is loaded.
    fn is_loaded(&self) -> bool;

    /// Lets the model go.
    fn unload(&mut self);
}

} // verus!
