//! Where a meeting's files lie, and how a meeting reads as a document.

use chrono::DateTime;
use vstd::prelude::*;
use vstd::string::StringExecFns;
use crate::text::two_digit_text;
use crate::text::two_digits;
use crate::time::Seconds;

verus! {

/// `SampleFormat` of the hound crate, with its two variants: samples are
/// floating-point or integer values.
#[verifier::external_type_specification]
pub struct ExSampleFormat(hound::SampleFormat);

/// `WavSpec` of the hound crate, with its four public fields: the number of
/// channels, the sample rate, the bits of a sample, and the sample format.
#[verifier::external_type_specification]
pub struct ExWavSpec(hound::WavSpec);

/// The width of a stored sample, in bits.
pub const PCM_BITS: u16 = 16;

/// The layout of the meetings below one directory: every meeting has a
/// directory of its own, named by its id.
///
/// A location is given as the names to follow from the base directory, the
/// base directory first. Nothing here touches the file system.
#[derive(Debug, Clone)]
pub struct MeetingStorage {
    base_dir: String,
}

impl MeetingStorage {
    /// The base directory.
    pub closed spec fn spec_base_dir(&self) -> Seq<char> {
        self.base_dir@
    }

    /// The layout below `base_dir`.
    pub fn new(base_dir: &str) -> (storage: MeetingStorage)
        ensures
            storage.spec_base_dir() == base_dir@,
    {
        MeetingStorage { base_dir: String::from_str(base_dir) }
    }

    /// The base directory.
    pub fn base_dir(&self) -> (base_dir: &str)
        ensures
            base_dir@ == self.spec_base_dir(),
    {
        self.base_dir.as_str()
    }

    /// The directory of meeting `meeting_id`: the base directory, then the id.
    pub fn meeting_dir(&self, meeting_id: &str) -> (path: Vec<String>)
        ensures
            path@.len() == 2,
            path@[0]@ == self.spec_base_dir(),
            path@[1]@ == meeting_id@,
    {
        let mut path: Vec<String> = Vec::new();
        path.push(String::from_str(self.base_dir.as_str()));
        path.push(String::from_str(meeting_id));
        path
    }

    /// The format in which a meeting's audio is stored: one channel of
    /// 16-bit integer samples at the rate at which it was captured.
    pub fn audio_format(sample_rate: u32) -> (format: hound::WavSpec)
        ensures
            format.channels == 1,
            format.sample_rate == sample_rate,
            format.bits_per_sample == 16,
            format.sample_format == hound::SampleFormat::Int,
    {
        hound::WavSpec {
            channels: 1,
            sample_rate,
            bits_per_sample: PCM_BITS,
            sample_format: hound::SampleFormat::Int,
        }
    }

    /// The audio file of meeting `meeting_id`: `audio.wav` in its directory.
    pub fn audio_file_path(&self, meeting_id: &str) -> (path: Vec<String>)
        ensures
            path@.len() == 3,
            path@[0]@ == self.spec_base_dir(),
            path@[1]@ == meeting_id@,
            path@[2]@ == "audio.wav"@,
    {
        let mut path = self.meeting_dir(meeting_id);
        path.push(String::from_str("audio.wav"));
        path
    }
}

/// Why a meeting could not be stored or read.
#[derive(Debug)]
pub enum StorageError {
    /// The file system failed; the field is its message.
    Io(String),
    /// The meeting's record could not be written or understood; the field
    /// says why.
    Serialization(String),
    /// There is no meeting of this id.
    NotFound(String),
    /// The place to store meetings could not be made out; the field says why.
    InvalidPath(String),
}

impl StorageError {
    /// The text of the error, as it is shown to a user.
    pub open spec fn spec_message(&self) -> Seq<char> {
        match self {
            StorageError::Io(why) => "IO error: "@ + why@,
            StorageError::Serialization(why) => "Serialization error: "@ + why@,
            StorageError::NotFound(id) => "Meeting not found: "@ + id@,
            StorageError::InvalidPath(why) => "Invalid path: "@ + why@,
        }
    }

    /// The text of the error, as it is shown to a user.
    pub fn message(&self) -> (text: String)
        ensures
            text@ == self.spec_message(),
    {
        match self {
            StorageError::Io(why) => String::from_str("IO error: ").concat(why.as_str()),
            StorageError::Serialization(why) => String::from_str("Serialization error: ").concat(
                why.as_str(),
            ),
            StorageError::NotFound(id) => String::from_str("Meeting not found: ").concat(
                id.as_str(),
            ),
            StorageError::InvalidPath(why) => String::from_str("Invalid path: ").concat(
                why.as_str(),
            ),
        }
    }
}

/// One line of a meeting's transcript.
#[derive(Debug, Clone)]
pub struct TranscriptSegment {
    /// When it was said, from the start of the recording.
    pub timestamp: Seconds,
    /// What was said.
    pub text: String,
    /// Who said it, where that is known.
    pub speaker: Option<String>,
}

/// A meeting as it is stored. Instants are on the UTC clock, in microseconds
/// since the start of 1970.
#[derive(Debug, Clone)]
pub struct MeetingData {
    /// The meeting's id.
    pub id: String,
    /// The meeting's title.
    pub title: String,
    /// When the meeting began.
    pub started_at: i64,
    /// When the meeting ended, if it has.
    pub ended_at: Option<i64>,
    /// What was said.
    pub transcript: Vec<TranscriptSegment>,
    /// A summary, if one was made.
    pub summary: Option<String>,
    /// The name of the audio file, if the audio was kept.
    pub audio_file: Option<String>,
}

/// How a meeting's document shows an instant: year, month and day, then
/// hour and minute, in the notation of chrono's `format`.
pub open spec fn date_pattern() -> Seq<char> {
    "%Y年%m月%d日 %H:%M"@
}

/// An instant of the UTC clock, given in microseconds since the start of
/// 1970, as chrono's `format` writes it for `pattern`. There is none for an
/// instant that chrono's `DateTime` cannot hold.
pub uninterp spec fn instant_text(micros: i64, pattern: Seq<char>) -> Option<Seq<char>>;

/// `DateTime::format` of the chrono crate with `pattern`, on the UTC
/// instant that `DateTime::from_timestamp_micros` makes of `micros`, or
/// nothing where that instant is out of chrono's range. Only the pattern of
/// [`date_pattern`] is admitted: its items are all known to chrono, so the
/// text can always be written. The text depends on `micros` and the
/// pattern alone: UTC has no time zone to look up, and the pattern names no
/// locale.
#[verifier::external_body]
fn format_instant(micros: i64, pattern: &str) -> (text: Option<String>)
    requires
        pattern@ == date_pattern(),
    ensures
        instant_text(micros, pattern@) == match text {
            Some(shown) => Some(shown@),
            None => None,
        },
{
    match DateTime::from_timestamp_micros(micros) {
        Some(at) => Some(at.format(pattern).to_string()),
        None => None,
    }
}

/// The whole minutes in `t`, as far as 32 bits count.
pub open spec fn minutes_of(t: Seconds) -> nat {
    if t.micros / 1_000_000 / 60 <= u32::MAX {
        (t.micros / 1_000_000 / 60) as nat
    } else {
        u32::MAX as nat
    }
}

/// The whole seconds in `t` past its last whole minute.
pub open spec fn seconds_of(t: Seconds) -> nat {
    (t.micros / 1_000_000 % 60) as nat
}

/// A time as it stands before a line of transcript: minutes and seconds,
/// two digits each at least, with a colon between.
pub open spec fn timestamp_text(t: Seconds) -> Seq<char> {
    two_digit_text(minutes_of(t)) + ":"@ + two_digit_text(seconds_of(t))
}

/// `document` with one line of transcript after it: the time in square
/// brackets, the speaker in bold where there is one, the text, and an empty
/// line.
pub open spec fn with_segment(document: Seq<char>, segment: TranscriptSegment) -> Seq<char> {
    let timed = document + "["@ + timestamp_text(segment.timestamp) + "] "@;
    let spoken = match segment.speaker {
        Some(speaker) => timed + "**"@ + speaker@ + "**: "@ + segment.text@,
        None => timed + segment.text@,
    };
    spoken + "\n\n"@
}

/// `document` with every line of `transcript` after it, in order.
pub open spec fn with_transcript(document: Seq<char>, transcript: Seq<TranscriptSegment>) -> Seq<
    char,
>
    decreases transcript.len(),
{
    if transcript.len() == 0 {
        document
    } else {
        with_segment(with_transcript(document, transcript.drop_last()), transcript.last())
    }
}

/// The head of a meeting's document: its title, when it began, when it
/// ended if it has, and its summary if it has one.
pub open spec fn document_head(
    title: Seq<char>,
    started_at: Seq<char>,
    ended_at: Option<Seq<char>>,
    summary: Option<Seq<char>>,
) -> Seq<char> {
    let titled = "# "@ + title + "\n\n"@;
    let started = titled + "**開始時刻**: "@ + started_at + "\n\n"@;
    let ended = match ended_at {
        Some(at) => started + "**終了時刻**: "@ + at + "\n\n"@,
        None => started,
    };
    match summary {
        Some(text) => ended + "## 要約\n\n"@ + text + "\n\n"@,
        None => ended,
    }
}

/// A meeting as a Markdown document: the head, then the transcript under a
/// heading of its own.
pub open spec fn markdown_text(
    meeting: MeetingData,
    started_at: Seq<char>,
    ended_at: Option<Seq<char>>,
) -> Seq<char> {
    with_transcript(
        document_head(
            meeting.title@,
            started_at,
            ended_at,
            match meeting.summary {
                Some(text) => Some(text@),
                None => None,
            },
        ) + "## 文字起こし\n\n"@,
        meeting.transcript@,
    )
}

/// A time as it stands before a line of transcript, such as `07:05`.
pub fn format_timestamp(t: Seconds) -> (text: String)
    ensures
        text@ == timestamp_text(t),
{
    let whole: u64 = t.micros / 1_000_000;
    let minutes: u64 = if whole / 60 <= 0xffff_ffff { whole / 60 } else { 0xffff_ffff };
    let seconds: u64 = whole % 60;
    let tail = two_digits(seconds);
    two_digits(minutes).concat(":").concat(tail.as_str())
}

/// Whether `result` is what exporting `meeting` comes to, `started_at` and
/// `ended_at` being what the meeting's instants are shown as: the document
/// where both can be shown, else the failure that says so.
pub open spec fn exported(
    meeting: MeetingData,
    started_at: Option<Seq<char>>,
    ended_at: Option<Option<Seq<char>>>,
    result: Result<String, StorageError>,
) -> bool {
    match (started_at, ended_at) {
        (Some(started), Some(ended)) => result matches Ok(document) && document@ == markdown_text(
            meeting,
            started,
            ended,
        ),
        _ => result matches Err(StorageError::Serialization(why)) && why@
            == "Instant out of range"@,
    }
}

/// What the end of a meeting is shown as: nothing for a meeting that has
/// not ended, and no such thing where the end cannot be shown.
pub open spec fn end_text(ended_at: Option<i64>) -> Option<Option<Seq<char>>> {
    match ended_at {
        None => Some(None),
        Some(at) => match instant_text(at, date_pattern()) {
            Some(shown) => Some(Some(shown)),
            None => None,
        },
    }
}

impl MeetingStorage {
    /// The meeting as a Markdown document, with its instants shown in UTC.
    /// It fails where an instant of the meeting is too far from our time to
    /// be shown.
    pub fn export_markdown(&self, meeting: &MeetingData) -> (result: Result<String, StorageError>)
        ensures
            exported(
                *meeting,
                instant_text(meeting.started_at, date_pattern()),
                end_text(meeting.ended_at),
                result,
            ),
    {
        let started_at = format_instant(meeting.started_at, "%Y年%m月%d日 %H:%M");
        let ended_at = match meeting.ended_at {
            None => Some(None),
            Some(at) => match format_instant(at, "%Y年%m月%d日 %H:%M") {
                Some(shown) => Some(Some(shown)),
                None => None,
            },
        };
        match (started_at, ended_at) {
            (Some(started), Some(None)) => Ok(self.render_markdown(meeting, started.as_str(), None)),
            (Some(started), Some(Some(ended))) => Ok(
                self.render_markdown(meeting, started.as_str(), Some(ended.as_str())),
            ),
            _ => Err(StorageError::Serialization(String::from_str("Instant out of range"))),
        }
    }

    /// The meeting as a Markdown document. `started_at` and `ended_at` are
    /// the meeting's instants as they are to be read.
    pub fn render_markdown(&self, meeting: &MeetingData, started_at: &str, ended_at: Option<&str>) -> (document:
        String)
        ensures
            document@ == markdown_text(
                *meeting,
                started_at@,
                match ended_at {
                    Some(at) => Some(at@),
                    None => None,
                },
            ),
    {
        let mut md = String::from_str("# ");
        md.append(meeting.title.as_str());
        md.append("\n\n");
        md.append("**開始時刻**: ");
        md.append(started_at);
        md.append("\n\n");
        if let Some(at) = ended_at {
            md.append("**終了時刻**: ");
            md.append(at);
            md.append("\n\n");
        }
        if let Some(summary) = &meeting.summary {
            md.append("## 要約\n\n");
            md.append(summary.as_str());
            md.append("\n\n");
        }
        md.append("## 文字起こし\n\n");
        let ghost head = md@;
        let mut i: usize = 0;
        while i < meeting.transcript.len()
            invariant
                i <= meeting.transcript@.len(),
                md@ == with_transcript(head, meeting.transcript@.take(i as int)),
            decreases meeting.transcript@.len() - i,
        {
            let segment = &meeting.transcript[i];
            let timestamp = format_timestamp(segment.timestamp);
            md.append("[");
            md.append(timestamp.as_str());
            md.append("] ");
            if let Some(speaker) = &segment.speaker {
                md.append("**");
                md.append(speaker.as_str());
                md.append("**: ");
                md.append(segment.text.as_str());
            } else {
                md.append(segment.text.as_str());
            }
            md.append("\n\n");
            proof {
                let next = meeting.transcript@.take(i + 1);
                assert(next.drop_last() == meeting.transcript@.take(i as int));
                assert(next.last() == meeting.transcript@[i as int]);
            }
            i += 1;
        }
        assert(meeting.transcript@.take(i as int) == meeting.transcript@);
        md
    }
}

} // verus!
