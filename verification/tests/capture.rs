use gijiroku21_core::audio::capture::{downmix, BUFFER_CAPACITY, DEFAULT_SAMPLE_RATE};
use gijiroku21_core::audio::AudioCaptureError;

#[test]
fn downmix_averages_each_frame() {
    let stereo: Vec<f32> = vec![0.5, -0.5, 1.0, 0.0, 0.25, 0.75];
    let channels = 2;
    let mono = downmix(&stereo, channels, &|frame: &[f32]| {
        frame.iter().sum::<f32>() / channels as f32
    });
    assert_eq!(mono, vec![0.0, 0.5, 0.5]);
}

#[test]
fn downmix_of_one_channel_is_a_copy() {
    let data: Vec<i32> = vec![4, 5, 6];
    let mono = downmix(&data, 1, &|frame: &[i32]| {
        assert_eq!(frame.len(), 1);
        frame[0]
    });
    assert_eq!(mono, data);
}

#[test]
fn downmix_hands_out_frames_in_order_and_a_short_last_frame() {
    let data: Vec<i32> = vec![1, 2, 3, 4, 5, 6, 7];
    let mono = downmix(&data, 3, &|frame: &[i32]| frame.iter().fold(0, |acc, s| acc * 10 + s));
    assert_eq!(mono, vec![123, 456, 7]);
}

#[test]
fn downmix_of_nothing_is_nothing() {
    let mono = downmix(&[], 2, &|_frame: &[i32]| -> i32 { panic!("no frame to mix") });
    assert!(mono.is_empty());
}

#[test]
fn capture_error_messages() {
    assert_eq!(
        AudioCaptureError::DeviceError("Device not initialized".to_string()).message(),
        "Audio device error: Device not initialized"
    );
    assert_eq!(
        AudioCaptureError::StreamError("closed".to_string()).message(),
        "Stream error: closed"
    );
    assert_eq!(AudioCaptureError::NoDefaultDevice.message(), "No default input device found");
    assert_eq!(
        AudioCaptureError::ConfigError("Unsupported sample format".to_string()).message(),
        "Configuration error: Unsupported sample format"
    );
}

#[test]
fn capture_buffer_holds_one_minute() {
    assert_eq!(DEFAULT_SAMPLE_RATE, 48000);
    assert_eq!(BUFFER_CAPACITY, 48000 * 60);
}
