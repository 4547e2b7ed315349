use gijiroku21_core::audio::AudioBuffer;
use gijiroku21_core::time::Seconds;

#[test]
fn new_buffer_is_empty() {
    let buffer: AudioBuffer<f32> = AudioBuffer::new(8);
    assert_eq!(buffer.len(), 0);
    assert!(buffer.is_empty());
    assert_eq!(buffer.capacity(), 8);
    assert_eq!(buffer.get_all(), Vec::<f32>::new());
}

#[test]
fn push_within_capacity_appends() {
    let mut buffer: AudioBuffer<f32> = AudioBuffer::new(8);
    buffer.push(&[1.0, 2.0, 3.0]);
    buffer.push(&[4.0]);
    assert_eq!(buffer.get_all(), vec![1.0, 2.0, 3.0, 4.0]);
    assert_eq!(buffer.len(), 4);
    assert!(!buffer.is_empty());
}

#[test]
fn push_over_capacity_evicts_oldest() {
    let mut buffer: AudioBuffer<i32> = AudioBuffer::new(5);
    buffer.push(&[1, 2, 3, 4]);
    buffer.push(&[5, 6, 7]);
    assert_eq!(buffer.get_all(), vec![3, 4, 5, 6, 7]);
    assert_eq!(buffer.len(), 5);
}

#[test]
fn push_to_exactly_full_evicts_nothing() {
    let mut buffer: AudioBuffer<i32> = AudioBuffer::new(5);
    buffer.push(&[1, 2]);
    buffer.push(&[3, 4, 5]);
    assert_eq!(buffer.get_all(), vec![1, 2, 3, 4, 5]);
}

#[test]
fn push_longer_than_capacity_keeps_its_tail() {
    let mut buffer: AudioBuffer<i32> = AudioBuffer::new(3);
    buffer.push(&[9, 9]);
    buffer.push(&[1, 2, 3, 4, 5, 6, 7]);
    assert_eq!(buffer.get_all(), vec![5, 6, 7]);
}

#[test]
fn push_into_zero_capacity_keeps_nothing() {
    let mut buffer: AudioBuffer<i32> = AudioBuffer::new(0);
    buffer.push(&[1, 2, 3]);
    assert!(buffer.is_empty());
    assert_eq!(buffer.capacity(), 0);
}

#[test]
fn push_of_nothing_changes_nothing() {
    let mut buffer: AudioBuffer<i32> = AudioBuffer::new(4);
    buffer.push(&[1, 2]);
    buffer.push(&[]);
    assert_eq!(buffer.get_all(), vec![1, 2]);
}

#[test]
fn buffer_holds_most_recent_of_everything_pushed() {
    let capacity = 7;
    let mut buffer: AudioBuffer<u32> = AudioBuffer::new(capacity);
    let mut history: Vec<u32> = Vec::new();
    let mut next = 0u32;
    for size in [3usize, 0, 5, 1, 12, 2, 7, 4] {
        let block: Vec<u32> = (0..size as u32).map(|k| next + k).collect();
        next += size as u32;
        buffer.push(&block);
        history.extend_from_slice(&block);
        let kept = history.len().min(capacity);
        assert!(buffer.len() <= capacity);
        assert_eq!(buffer.len(), kept);
        assert_eq!(buffer.get_all(), history[history.len() - kept..].to_vec());
    }
}

#[test]
fn push_blocking_writes_like_push() {
    let mut a: AudioBuffer<i32> = AudioBuffer::new(4);
    let mut b: AudioBuffer<i32> = AudioBuffer::new(4);
    for block in [vec![1, 2, 3], vec![4, 5], vec![6, 7, 8, 9, 10]] {
        a.push(&block);
        b.push_blocking(&block);
        assert_eq!(a.get_all(), b.get_all());
    }
    assert_eq!(b.get_all(), vec![7, 8, 9, 10]);
}

#[test]
fn clear_empties_and_keeps_capacity() {
    let mut buffer: AudioBuffer<i32> = AudioBuffer::new(4);
    buffer.push(&[1, 2, 3]);
    buffer.clear();
    assert!(buffer.is_empty());
    assert_eq!(buffer.capacity(), 4);
    buffer.push(&[4, 5, 6, 7, 8]);
    assert_eq!(buffer.get_all(), vec![5, 6, 7, 8]);
}

#[test]
fn get_chunk_of_short_buffer_is_everything() {
    let mut buffer: AudioBuffer<i32> = AudioBuffer::new(100);
    buffer.push(&[1, 2, 3, 4, 5]);
    // 1 s at 10 Hz asks for 10 samples; 5 are there.
    assert_eq!(buffer.get_chunk(Seconds::from_secs(1), 10), vec![1, 2, 3, 4, 5]);
    // Exactly as many as are held.
    assert_eq!(buffer.get_chunk(Seconds::from_millis(500), 10), vec![1, 2, 3, 4, 5]);
}

#[test]
fn get_chunk_of_long_buffer_is_its_tail() {
    let mut buffer: AudioBuffer<i32> = AudioBuffer::new(100);
    buffer.push(&[1, 2, 3, 4, 5, 6, 7, 8, 9, 10, 11, 12]);
    // 0.3 s at 10 Hz is 3 samples.
    assert_eq!(buffer.get_chunk(Seconds::from_millis(300), 10), vec![10, 11, 12]);
    // 0.35 s at 10 Hz is 3.5 samples, rounded down.
    assert_eq!(buffer.get_chunk(Seconds::from_millis(350), 10), vec![10, 11, 12]);
    assert_eq!(buffer.get_chunk(Seconds::zero(), 10), Vec::<i32>::new());
    assert_eq!(buffer.get_chunk(Seconds::from_secs(1), 0), Vec::<i32>::new());
}

#[test]
fn get_chunk_five_seconds_at_48k() {
    let mut buffer: AudioBuffer<f32> = AudioBuffer::new(48000 * 60);
    buffer.push(&vec![0.25; 48000 * 10]);
    let chunk = buffer.get_chunk(Seconds::from_secs(5), 48000);
    assert_eq!(chunk.len(), 240_000);
}

#[test]
fn get_chunk_range_clamps_to_what_is_held() {
    let mut buffer: AudioBuffer<i32> = AudioBuffer::new(100);
    buffer.push(&[0, 1, 2, 3, 4, 5, 6, 7, 8, 9]);
    let at = |tenths: u64| Seconds::from_millis(tenths * 100);
    assert_eq!(buffer.get_chunk_range(at(2), at(5), 10), vec![2, 3, 4]);
    assert_eq!(buffer.get_chunk_range(at(0), at(10), 10), vec![0, 1, 2, 3, 4, 5, 6, 7, 8, 9]);
    assert_eq!(buffer.get_chunk_range(at(7), at(50), 10), vec![7, 8, 9]);
    assert_eq!(buffer.get_chunk_range(at(20), at(50), 10), Vec::<i32>::new());
    assert_eq!(buffer.get_chunk_range(at(5), at(5), 10), Vec::<i32>::new());
    assert_eq!(buffer.get_chunk_range(at(6), at(3), 10), Vec::<i32>::new());
    assert_eq!(buffer.get_chunk_range(at(0), at(5), 0), Vec::<i32>::new());
}

#[test]
fn get_chunk_range_of_empty_buffer_is_empty() {
    let buffer: AudioBuffer<i32> = AudioBuffer::new(10);
    assert_eq!(
        buffer.get_chunk_range(Seconds::zero(), Seconds::from_secs(1), 10),
        Vec::<i32>::new()
    );
}

#[test]
fn duration_is_length_over_rate() {
    let mut buffer: AudioBuffer<f32> = AudioBuffer::new(48000 * 60);
    assert_eq!(buffer.duration_sec(48000), Seconds::zero());
    buffer.push(&vec![0.0; 48000 * 10]);
    assert_eq!(buffer.duration_sec(48000), Seconds::from_secs(10));
    buffer.push(&vec![0.0; 24000]);
    assert_eq!(buffer.duration_sec(48000), Seconds::from_millis(10_500));
    // One sample at 48 kHz is 20.83 microseconds, rounded down.
    buffer.clear();
    buffer.push(&[0.0]);
    assert_eq!(buffer.duration_sec(48000), Seconds::from_micros(20));
}

#[test]
fn duration_at_rate_zero_never_ends() {
    let mut buffer: AudioBuffer<i32> = AudioBuffer::new(4);
    assert_eq!(buffer.duration_sec(0), Seconds::zero());
    buffer.push(&[1]);
    assert_eq!(buffer.duration_sec(0), Seconds::from_micros(u64::MAX));
}

#[test]
fn latest_counts_in_samples() {
    let mut buffer: AudioBuffer<i32> = AudioBuffer::new(100);
    buffer.push(&[1, 2, 3, 4, 5]);
    assert_eq!(buffer.latest(0), Vec::<i32>::new());
    assert_eq!(buffer.latest(2), vec![4, 5]);
    assert_eq!(buffer.latest(5), vec![1, 2, 3, 4, 5]);
    assert_eq!(buffer.latest(usize::MAX), vec![1, 2, 3, 4, 5]);
}

#[test]
fn range_counts_in_samples() {
    let mut buffer: AudioBuffer<i32> = AudioBuffer::new(100);
    buffer.push(&[0, 1, 2, 3, 4]);
    assert_eq!(buffer.range(1, 3), vec![1, 2]);
    assert_eq!(buffer.range(0, usize::MAX), vec![0, 1, 2, 3, 4]);
    assert_eq!(buffer.range(3, 3), Vec::<i32>::new());
    assert_eq!(buffer.range(4, 2), Vec::<i32>::new());
    assert_eq!(buffer.range(9, 12), Vec::<i32>::new());
}

#[test]
fn a_third_of_a_second_at_48k_is_16000_samples_when_counted_in_samples() {
    let mut buffer: AudioBuffer<f32> = AudioBuffer::new(48000 * 60);
    buffer.push(&vec![0.0; 48000]);
    let count = ((1.0f32 / 3.0) * 48000 as f32) as usize;
    assert_eq!(count, 16000);
    assert_eq!(buffer.latest(count).len(), 16000);
}
