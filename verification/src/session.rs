//! The states of a recording session and what each command does to it.

use chrono::Utc;
use uuid::Uuid;
use vstd::prelude::*;

verus! {

/// `Uuid::new_v4` of the uuid crate, written out by `to_string`: a fresh
/// random identifier in its hyphenated form, which has 36 characters.
/// Nothing is claimed of which identifier comes. The call fails only where
/// the system has no source of randomness.
#[verifier::external_body]
fn new_meeting_id() -> (id: String)
    ensures
        id@.len() == 36,
{
    Uuid::new_v4().to_string()
}

/// `Utc::now` of the chrono crate, as `timestamp_micros` counts it: the
/// instant of the call, in microseconds since the start of 1970. Nothing is
/// claimed of the instant. The call fails only where the system's clock
/// stands before 1970.
#[verifier::external_body]
fn now_micros() -> (micros: i64) {
    Utc::now().timestamp_micros()
}

/// What a recording session is doing.
#[derive(Debug, Clone, Copy, PartialEq, Eq, Structural)]
pub enum RecordingStatus {
    /// No meeting is being recorded.
    Idle,
    /// Audio is being captured.
    Recording,
    /// A meeting is open, capture is held.
    Paused,
    /// The recording is being worked on.
    Processing,
}

impl RecordingStatus {
    /// The name of the state, as it is given to a user interface.
    pub fn name(&self) -> (name: &'static str)
        ensures
            name@ == match self {
                RecordingStatus::Idle => "idle"@,
                RecordingStatus::Recording => "recording"@,
                RecordingStatus::Paused => "paused"@,
                RecordingStatus::Processing => "processing"@,
            },
    {
        match self {
            RecordingStatus::Idle => "idle",
            RecordingStatus::Recording => "recording",
            RecordingStatus::Paused => "paused",
            RecordingStatus::Processing => "processing",
        }
    }
}

/// What a user can ask of a running session.
#[derive(Debug, Clone, Copy, PartialEq, Eq, Structural)]
pub enum RecordingCommand {
    /// End the meeting and keep its audio.
    Stop,
    /// Hold capture and recognition.
    Pause,
    /// Take capture and recognition up again.
    Resume,
}

/// What is done to the capture stream.
#[derive(Debug, Clone, Copy, PartialEq, Eq, Structural)]
pub enum CaptureAction {
    /// The stream is started.
    Start,
    /// The stream is stopped.
    Stop,
}

/// One thing that is done to a session when a command is carried out.
#[derive(Debug, Clone, Copy, PartialEq, Eq, Structural)]
pub enum SessionStep {
    /// Recognition is switched on or off.
    SetTranscription(bool),
    /// The capture stream is started or stopped.
    Capture(CaptureAction),
    /// Everything in the buffer is copied and stored as the meeting's audio,
    /// at the rate of the capture.
    SaveAudio,
    /// The meeting ends.
    EndMeeting,
    /// The meeting is held.
    PauseMeeting,
    /// The meeting is taken up again.
    ResumeMeeting,
    /// The session is over: no further command is taken.
    Finish,
}

/// What a command has done to a session once all its steps are taken; the
/// steps and their order are [`RecordingCommand::steps`].
#[derive(Debug, Clone, Copy, PartialEq, Eq, Structural)]
pub struct CommandEffect {
    /// Whether recognition runs from now on.
    pub transcription_enabled: bool,
    /// What is done to the capture stream.
    pub capture: CaptureAction,
    /// Whether everything in the buffer is stored as the meeting's audio.
    pub save_audio: bool,
    /// The state of the session afterwards.
    pub status: RecordingStatus,
    /// Whether the session ends, so that no further command is taken.
    pub finished: bool,
}

impl RecordingCommand {
    /// What the command does to a session.
    pub open spec fn spec_effect(self) -> CommandEffect {
        match self {
            RecordingCommand::Stop => CommandEffect {
                transcription_enabled: false,
                capture: CaptureAction::Stop,
                save_audio: true,
                status: RecordingStatus::Idle,
                finished: true,
            },
            RecordingCommand::Pause => CommandEffect {
                transcription_enabled: false,
                capture: CaptureAction::Stop,
                save_audio: false,
                status: RecordingStatus::Paused,
                finished: false,
            },
            RecordingCommand::Resume => CommandEffect {
                transcription_enabled: true,
                capture: CaptureAction::Start,
                save_audio: false,
                status: RecordingStatus::Recording,
                finished: false,
            },
        }
    }

    /// The steps in which the command is carried out, in their order.
    ///
    /// To stop, recognition is switched off, then the capture stream is
    /// stopped, so that nothing is written any more, then the audio is
    /// stored, then the meeting ends, and then the session is over. To pause
    /// and to resume, recognition is switched, then the capture stream, then
    /// the meeting's state.
    pub open spec fn spec_steps(self) -> Seq<SessionStep> {
        match self {
            RecordingCommand::Stop => seq![
                SessionStep::SetTranscription(false),
                SessionStep::Capture(CaptureAction::Stop),
                SessionStep::SaveAudio,
                SessionStep::EndMeeting,
                SessionStep::Finish,
            ],
            RecordingCommand::Pause => seq![
                SessionStep::SetTranscription(false),
                SessionStep::Capture(CaptureAction::Stop),
                SessionStep::PauseMeeting,
            ],
            RecordingCommand::Resume => seq![
                SessionStep::SetTranscription(true),
                SessionStep::Capture(CaptureAction::Start),
                SessionStep::ResumeMeeting,
            ],
        }
    }

    /// The steps in which the command is carried out, in their order.
    pub fn steps(self) -> (steps: Vec<SessionStep>)
        ensures
            steps@ == self.spec_steps(),
    {
        let mut steps: Vec<SessionStep> = Vec::new();
        match self {
            RecordingCommand::Stop => {
                steps.push(SessionStep::SetTranscription(false));
                steps.push(SessionStep::Capture(CaptureAction::Stop));
                steps.push(SessionStep::SaveAudio);
                steps.push(SessionStep::EndMeeting);
                steps.push(SessionStep::Finish);
            },
            RecordingCommand::Pause => {
                steps.push(SessionStep::SetTranscription(false));
                steps.push(SessionStep::Capture(CaptureAction::Stop));
                steps.push(SessionStep::PauseMeeting);
            },
            RecordingCommand::Resume => {
                steps.push(SessionStep::SetTranscription(true));
                steps.push(SessionStep::Capture(CaptureAction::Start));
                steps.push(SessionStep::ResumeMeeting);
            },
        }
        assert(steps@ =~= self.spec_steps());
        steps
    }

    /// What the command does to a session.
    pub fn effect(self) -> (effect: CommandEffect)
        ensures
            effect == self.spec_effect(),
    {
        match self {
            RecordingCommand::Stop => CommandEffect {
                transcription_enabled: false,
                capture: CaptureAction::Stop,
                save_audio: true,
                status: RecordingStatus::Idle,
                finished: true,
            },
            RecordingCommand::Pause => CommandEffect {
                transcription_enabled: false,
                capture: CaptureAction::Stop,
                save_audio: false,
                status: RecordingStatus::Paused,
                finished: false,
            },
            RecordingCommand::Resume => CommandEffect {
                transcription_enabled: true,
                capture: CaptureAction::Start,
                save_audio: false,
                status: RecordingStatus::Recording,
                finished: false,
            },
        }
    }
}

/// The steps of a command and its effect say the same: the steps switch
/// recognition and the capture stream to what the effect names, they store
/// the audio exactly where the effect says so, and the session is over,
/// with nothing after it, exactly where the effect says so. On stop the
/// capture stream is stopped before the audio is stored, and the audio is
/// stored before the meeting ends.
pub proof fn lemma_steps_match_effect(command: RecordingCommand)
    ensures
        command.spec_steps()[0] == SessionStep::SetTranscription(
            command.spec_effect().transcription_enabled,
        ),
        command.spec_steps()[1] == SessionStep::Capture(command.spec_effect().capture),
        command.spec_steps().contains(SessionStep::SaveAudio) <==> command.spec_effect().save_audio,
        command.spec_steps().last() == SessionStep::Finish <==> command.spec_effect().finished,
        command == RecordingCommand::Stop ==> command.spec_steps().index_of(
            SessionStep::Capture(CaptureAction::Stop),
        ) < command.spec_steps().index_of(SessionStep::SaveAudio) < command.spec_steps().index_of(
            SessionStep::EndMeeting,
        ) < command.spec_steps().index_of(SessionStep::Finish),
{
    let steps = command.spec_steps();
    match command {
        RecordingCommand::Stop => {
            assert(steps[2] == SessionStep::SaveAudio);
            assert(steps[1] == SessionStep::Capture(CaptureAction::Stop));
            assert(steps[3] == SessionStep::EndMeeting);
            assert(steps[4] == SessionStep::Finish);
            assert(steps.contains(SessionStep::SaveAudio));
            steps.index_of_first_ensures(SessionStep::SaveAudio);
        },
        RecordingCommand::Pause => {
            assert(!steps.contains(SessionStep::SaveAudio));
        },
        RecordingCommand::Resume => {
            assert(!steps.contains(SessionStep::SaveAudio));
        },
    }
}

/// Microseconds in one second.
pub const MICROS_PER_SECOND: u64 = 1_000_000;

/// What is known of a meeting. Instants are on the UTC clock, in
/// microseconds since the start of 1970.
#[derive(Debug, Clone)]
pub struct MeetingMetadata {
    /// The meeting's id.
    pub id: String,
    /// The meeting's title.
    pub title: String,
    /// When the meeting began.
    pub started_at: i64,
    /// When the meeting ended, once it has.
    pub ended_at: Option<i64>,
    /// How long the meeting took in whole seconds, once it has ended.
    pub duration_seconds: Option<u64>,
}

/// The whole seconds from `started_at` to `ended_at`. Where the end lies
/// before the start the count is taken modulo 2^64, as `u64` holds it.
pub open spec fn elapsed_seconds(started_at: i64, ended_at: i64) -> u64 {
    if ended_at >= started_at {
        ((ended_at - started_at) / 1_000_000) as u64
    } else if (started_at - ended_at) / 1_000_000 == 0 {
        0
    } else {
        (0x1_0000_0000_0000_0000 - (started_at - ended_at) / 1_000_000) as u64
    }
}

/// `meeting` once it has ended at `ended_at`: the same meeting, with its
/// end and the whole seconds it took.
pub open spec fn ended(meeting: MeetingMetadata, ended_at: i64) -> Option<MeetingMetadata> {
    Some(
        MeetingMetadata {
            id: meeting.id,
            title: meeting.title,
            started_at: meeting.started_at,
            ended_at: Some(ended_at),
            duration_seconds: Some(elapsed_seconds(meeting.started_at, ended_at)),
        },
    )
}

/// The state of the recorder: whether it records, which meeting, and the
/// text recognised so far.
#[derive(Debug, Clone)]
pub struct MeetingState {
    /// What the recorder is doing.
    pub status: RecordingStatus,
    /// The meeting that is open, or the last one that was.
    pub current_meeting: Option<MeetingMetadata>,
    /// The text recognised so far, in the order in which it came.
    pub transcript_buffer: Vec<String>,
}

impl MeetingState {
    /// A recorder with no meeting and no text.
    pub fn new() -> (state: MeetingState)
        ensures
            state.status == RecordingStatus::Idle,
            state.current_meeting is None,
            state.transcript_buffer@ == Seq::<String>::empty(),
    {
        MeetingState {
            status: RecordingStatus::Idle,
            current_meeting: None,
            transcript_buffer: Vec::new(),
        }
    }

    /// Opens a meeting with `title` now, under a fresh id, and begins to
    /// record. The text recognised so far stays.
    pub fn start_meeting(&mut self, title: String)
        ensures
            final(self).status == RecordingStatus::Recording,
            final(self).current_meeting matches Some(meeting) && meeting.title == title
                && meeting.id@.len() == 36 && meeting.ended_at is None
                && meeting.duration_seconds is None,
            final(self).transcript_buffer == old(self).transcript_buffer,
    {
        let id = new_meeting_id();
        let started_at = now_micros();
        self.start_meeting_as(id, title, started_at);
    }

    /// Opens the meeting `id` with `title` at `started_at` and begins to
    /// record. The text recognised so far stays.
    pub fn start_meeting_as(&mut self, id: String, title: String, started_at: i64)
        ensures
            final(self).status == RecordingStatus::Recording,
            final(self).current_meeting == Some(
                MeetingMetadata { id, title, started_at, ended_at: None, duration_seconds: None },
            ),
            final(self).transcript_buffer == old(self).transcript_buffer,
    {
        self.current_meeting = Some(
            MeetingMetadata { id, title, started_at, ended_at: None, duration_seconds: None },
        );
        self.status = RecordingStatus::Recording;
    }

    /// Ends the open meeting now, noting how long it took, and stops
    /// recording. With no meeting only the recording stops.
    pub fn end_meeting(&mut self)
        ensures
            final(self).status == RecordingStatus::Idle,
            final(self).transcript_buffer == old(self).transcript_buffer,
            match old(self).current_meeting {
                Some(meeting) => exists|ended_at: i64| #[trigger]
                    ended(meeting, ended_at) == final(self).current_meeting,
                None => final(self).current_meeting is None,
            },
    {
        let ended_at = now_micros();
        self.end_meeting_at(ended_at);
        proof {
            if let Some(meeting) = old(self).current_meeting {
                assert(ended(meeting, ended_at) == self.current_meeting);
            }
        }
    }

    /// Ends the open meeting at `ended_at`, noting how long it took, and
    /// stops recording. With no meeting only the recording stops.
    pub fn end_meeting_at(&mut self, ended_at: i64)
        ensures
            final(self).status == RecordingStatus::Idle,
            final(self).transcript_buffer == old(self).transcript_buffer,
            match old(self).current_meeting {
                Some(meeting) => final(self).current_meeting == ended(meeting, ended_at),
                None => final(self).current_meeting is None,
            },
    {
        let mut current: Option<MeetingMetadata> = None;
        core::mem::swap(&mut self.current_meeting, &mut current);
        if let Some(meeting) = current {
            let duration = Self::seconds_between(meeting.started_at, ended_at);
            self.current_meeting = Some(
                MeetingMetadata {
                    id: meeting.id,
                    title: meeting.title,
                    started_at: meeting.started_at,
                    ended_at: Some(ended_at),
                    duration_seconds: Some(duration),
                },
            );
        }
        self.status = RecordingStatus::Idle;
    }

    /// The whole seconds from `started_at` to `ended_at`.
    pub fn seconds_between(started_at: i64, ended_at: i64) -> (seconds: u64)
        ensures
            seconds == elapsed_seconds(started_at, ended_at),
    {
        if ended_at >= started_at {
            let forward: u64 = (ended_at as i128 - started_at as i128) as u64;
            forward / MICROS_PER_SECOND
        } else {
            let backward: u64 = (started_at as i128 - ended_at as i128) as u64;
            let whole: u64 = backward / MICROS_PER_SECOND;
            if whole == 0 {
                0
            } else {
                u64::MAX - whole + 1
            }
        }
    }

    /// Holds the recording.
    pub fn pause(&mut self)
        ensures
            final(self).status == RecordingStatus::Paused,
            final(self).current_meeting == old(self).current_meeting,
            final(self).transcript_buffer == old(self).transcript_buffer,
    {
        self.status = RecordingStatus::Paused;
    }

    /// Takes the recording up again.
    pub fn resume(&mut self)
        ensures
            final(self).status == RecordingStatus::Recording,
            final(self).current_meeting == old(self).current_meeting,
            final(self).transcript_buffer == old(self).transcript_buffer,
    {
        self.status = RecordingStatus::Recording;
    }

    /// What the recorder is doing.
    pub fn get_status(&self) -> (status: RecordingStatus)
        ensures
            status == self.status,
    {
        self.status
    }

    /// The meeting that is open, or the last one that was.
    pub fn get_current_meeting(&self) -> (meeting: &Option<MeetingMetadata>)
        ensures
            *meeting == self.current_meeting,
    {
        &self.current_meeting
    }

    /// Notes `text` as recognised after all text so far.
    pub fn add_transcript(&mut self, text: String)
        ensures
            final(self).transcript_buffer@ == old(self).transcript_buffer@.push(text),
            final(self).status == old(self).status,
            final(self).current_meeting == old(self).current_meeting,
    {
        self.transcript_buffer.push(text);
    }

    /// Forgets the text recognised so far.
    pub fn clear_transcript(&mut self)
        ensures
            final(self).transcript_buffer@ == Seq::<String>::empty(),
            final(self).status == old(self).status,
            final(self).current_meeting == old(self).current_meeting,
    {
        self.transcript_buffer = Vec::new();
    }

    /// The text recognised so far, in the order in which it came.
    pub fn get_transcript(&self) -> (transcript: &Vec<String>)
        ensures
            *transcript == self.transcript_buffer,
    {
        &self.transcript_buffer
    }
}

} // verus!
