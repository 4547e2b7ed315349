use gijiroku21_core::storage::{
    format_timestamp, MeetingData, MeetingStorage, StorageError, TranscriptSegment,
};
use gijiroku21_core::text::{decimal, digit, two_digits};
use gijiroku21_core::time::Seconds;

fn line(secs_tenths: u64, text: &str, speaker: Option<&str>) -> TranscriptSegment {
    TranscriptSegment {
        timestamp: Seconds::from_millis(secs_tenths * 100),
        text: text.to_string(),
        speaker: speaker.map(|s| s.to_string()),
    }
}

fn meeting(summary: Option<&str>, transcript: Vec<TranscriptSegment>) -> MeetingData {
    MeetingData {
        id: "m-1".to_string(),
        title: "Weekly sync".to_string(),
        started_at: 1_700_000_000_000_000,
        ended_at: None,
        transcript,
        summary: summary.map(|s| s.to_string()),
        audio_file: None,
    }
}

#[test]
fn decimal_numerals() {
    for (d, text) in ["0", "1", "2", "3", "4", "5", "6", "7", "8", "9"].iter().enumerate() {
        assert_eq!(digit(d as u64), *text);
    }
    assert_eq!(decimal(0), "0");
    assert_eq!(decimal(7), "7");
    assert_eq!(decimal(10), "10");
    assert_eq!(decimal(1234567890), "1234567890");
    assert_eq!(decimal(u64::MAX), "18446744073709551615");
    assert_eq!(two_digits(0), "00");
    assert_eq!(two_digits(9), "09");
    assert_eq!(two_digits(10), "10");
    assert_eq!(two_digits(123), "123");
}

#[test]
fn timestamps_are_minutes_and_seconds() {
    assert_eq!(format_timestamp(Seconds::zero()), "00:00");
    assert_eq!(format_timestamp(Seconds::from_millis(5_900)), "00:05");
    assert_eq!(format_timestamp(Seconds::from_secs(59)), "00:59");
    assert_eq!(format_timestamp(Seconds::from_secs(60)), "01:00");
    assert_eq!(format_timestamp(Seconds::from_secs(425)), "07:05");
    assert_eq!(format_timestamp(Seconds::from_secs(3_600)), "60:00");
    assert_eq!(format_timestamp(Seconds::from_secs(6_000 + 59)), "100:59");
}

#[test]
fn timestamp_minutes_stop_at_32_bits() {
    assert_eq!(
        format_timestamp(Seconds::from_secs(u32::MAX as u64 * 60 + 61)),
        "4294967295:01"
    );
    assert_eq!(format_timestamp(Seconds::from_micros(u64::MAX)), "4294967295:49");
}

#[test]
fn markdown_of_a_bare_meeting() {
    let storage = MeetingStorage::new("/data");
    let md = storage.render_markdown(&meeting(None, Vec::new()), "2024年01月02日 03:04", None);
    assert_eq!(md, "# Weekly sync\n\n**開始時刻**: 2024年01月02日 03:04\n\n## 文字起こし\n\n");
}

#[test]
fn exported_markdown_shows_the_instants_in_utc() {
    let storage = MeetingStorage::new("/data");
    // 2023-11-14 22:13:20 UTC.
    let mut data = meeting(None, vec![line(10, "Hello.", None)]);
    let md = storage.export_markdown(&data).unwrap();
    assert_eq!(
        md,
        "# Weekly sync\n\n**開始時刻**: 2023年11月14日 22:13\n\n## 文字起こし\n\n[00:01] Hello.\n\n"
    );
    data.ended_at = Some(data.started_at + 4_000_000_000);
    data.summary = Some("Short.".to_string());
    let md = storage.export_markdown(&data).unwrap();
    assert_eq!(
        md,
        "# Weekly sync\n\n\
         **開始時刻**: 2023年11月14日 22:13\n\n\
         **終了時刻**: 2023年11月14日 23:20\n\n\
         ## 要約\n\nShort.\n\n\
         ## 文字起こし\n\n\
         [00:01] Hello.\n\n"
    );
    data.started_at = 0;
    data.ended_at = Some(-1);
    let md = storage.export_markdown(&data).unwrap();
    assert!(md.contains("**開始時刻**: 1970年01月01日 00:00\n\n"));
    assert!(md.contains("**終了時刻**: 1969年12月31日 23:59\n\n"));
}

#[test]
fn export_fails_for_an_instant_that_cannot_be_shown() {
    let storage = MeetingStorage::new("/data");
    let mut data = meeting(None, Vec::new());
    data.started_at = i64::MAX;
    match storage.export_markdown(&data) {
        Err(StorageError::Serialization(why)) => assert_eq!(why, "Instant out of range"),
        other => panic!("unexpected {:?}", other),
    }
    data.started_at = 0;
    data.ended_at = Some(i64::MIN);
    assert!(matches!(storage.export_markdown(&data), Err(StorageError::Serialization(_))));
}

#[test]
fn markdown_of_a_full_meeting() {
    let storage = MeetingStorage::new("/data");
    let data = meeting(
        Some("All agreed."),
        vec![
            line(0, "Hello.", None),
            line(654, "Shall we start?", Some("Aki")),
            line(6000, "Done.", Some("Ben")),
        ],
    );
    let md = storage.render_markdown(&data, "2024年01月02日 03:04", Some("2024年01月02日 04:05"));
    assert_eq!(
        md,
        "# Weekly sync\n\n\
         **開始時刻**: 2024年01月02日 03:04\n\n\
         **終了時刻**: 2024年01月02日 04:05\n\n\
         ## 要約\n\nAll agreed.\n\n\
         ## 文字起こし\n\n\
         [00:00] Hello.\n\n\
         [01:05] **Aki**: Shall we start?\n\n\
         [10:00] **Ben**: Done.\n\n"
    );
}

#[test]
fn storage_error_messages() {
    assert_eq!(StorageError::Io("denied".to_string()).message(), "IO error: denied");
    assert_eq!(
        StorageError::Serialization("eof".to_string()).message(),
        "Serialization error: eof"
    );
    assert_eq!(StorageError::NotFound("m-9".to_string()).message(), "Meeting not found: m-9");
    assert_eq!(
        StorageError::InvalidPath("Could not determine data directory".to_string()).message(),
        "Invalid path: Could not determine data directory"
    );
}

#[test]
fn audio_is_stored_as_16_bit_mono_pcm() {
    let format = MeetingStorage::audio_format(48000);
    assert_eq!(
        format,
        hound::WavSpec {
            channels: 1,
            sample_rate: 48000,
            bits_per_sample: 16,
            sample_format: hound::SampleFormat::Int,
        }
    );
    assert_eq!(MeetingStorage::audio_format(16000).sample_rate, 16000);

    // A writer takes the format as it is.
    let mut bytes = std::io::Cursor::new(Vec::new());
    let mut writer = hound::WavWriter::new(&mut bytes, format).unwrap();
    writer.write_sample(i16::MAX).unwrap();
    writer.write_sample(i16::MIN).unwrap();
    writer.finalize().unwrap();
    let reader = hound::WavReader::new(std::io::Cursor::new(bytes.into_inner())).unwrap();
    assert_eq!(reader.spec(), format);
    assert_eq!(reader.len(), 2);
}
