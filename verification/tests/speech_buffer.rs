use peeches::speech::{
    threshold_for, SpeechBuffer, CAPACITY, DEFAULT_BATCH_FRAMES, FLOOR_SAMPLES, LEAD_SAMPLES,
    READY_SAMPLES, SAMPLE_RATE,
};

/// A chunk of `len` samples of a 440 Hz tone starting at sample `start`.
fn tone(start: usize, len: usize) -> Vec<u32> {
    (start..start + len)
        .map(|i| {
            let t = i as f32 / 16000.0;
            (t * 440.0 * 2.0 * std::f32::consts::PI).sin().to_bits()
        })
        .collect()
}

/// `len` samples that count up from `start`, so that each is recognisable.
fn ramp(start: u32, len: u32) -> Vec<u32> {
    (start..start + len).collect()
}

#[test]
fn constants_describe_sixteen_kilohertz_audio() {
    assert_eq!(SAMPLE_RATE, 16000);
    assert_eq!(CAPACITY, 3 * SAMPLE_RATE);
    assert_eq!(READY_SAMPLES, 17600);
    assert_eq!(FLOOR_SAMPLES, SAMPLE_RATE);
    assert_eq!(LEAD_SAMPLES, 9600);
    assert_eq!(DEFAULT_BATCH_FRAMES, 320);
}

#[test]
fn threshold_is_the_lead_in_batches_rounded_up() {
    assert_eq!(threshold_for(320), 30);
    assert_eq!(threshold_for(1024), 10);
    assert_eq!(threshold_for(1), 9600);
    assert_eq!(threshold_for(9600), 1);
    assert_eq!(threshold_for(9599), 2);
    assert_eq!(threshold_for(9601), 1);
    assert_eq!(threshold_for(usize::MAX), 1);
}

#[test]
fn new_buffer_is_empty_and_not_ready() {
    let mut buffer = SpeechBuffer::new(320);
    assert_eq!(buffer.len(), 0);
    assert_eq!(buffer.counter(), 0);
    assert_eq!(buffer.batch_frames(), 320);
    assert!(!buffer.can_transcribe());
    assert_eq!(buffer.take_utterance(), None);
}

#[test]
fn push_appends_in_order_and_counts_batches() {
    let mut buffer = SpeechBuffer::new(4);
    buffer.push(&[1, 2, 3, 4]);
    buffer.push(&[5, 6]);
    buffer.push(&[]);
    assert_eq!(buffer.len(), 6);
    assert_eq!(buffer.counter(), 3);
    // Pad up to the floor so that the content can be read back.
    buffer.push(&ramp(7, FLOOR_SAMPLES as u32 - 6));
    let content = buffer.take_utterance().unwrap();
    assert_eq!(content, ramp(1, FLOOR_SAMPLES as u32));
}

#[test]
fn length_never_exceeds_capacity() {
    let mut buffer = SpeechBuffer::new(320);
    let mut pushed = 0;
    for k in 0..400 {
        let len = 1 + (k * 37) % 700;
        buffer.push(&tone(pushed, len));
        pushed += len;
        assert!(buffer.len() <= CAPACITY);
        assert_eq!(buffer.len(), pushed.min(CAPACITY));
    }
    assert_eq!(buffer.len(), CAPACITY);
}

#[test]
fn oldest_samples_are_evicted_first() {
    let mut buffer = SpeechBuffer::new(320);
    buffer.push(&ramp(0, 40000));
    buffer.push(&ramp(40000, 10000));
    assert_eq!(buffer.len(), CAPACITY);
    let content = buffer.take_utterance().unwrap();
    assert_eq!(content, ramp(2000, 48000));
    buffer.push(&[7]);
    let content = buffer.take_utterance().unwrap();
    assert_eq!(content[0], 2001);
    assert_eq!(content[CAPACITY - 2], 49999);
    assert_eq!(content[CAPACITY - 1], 7);
}

#[test]
fn batch_longer_than_capacity_leaves_its_newest_part() {
    let mut buffer = SpeechBuffer::new(320);
    buffer.push(&ramp(0, 100));
    buffer.push(&ramp(1000, 50000));
    assert_eq!(buffer.len(), CAPACITY);
    assert_eq!(buffer.counter(), 2);
    let content = buffer.take_utterance().unwrap();
    assert_eq!(content, ramp(3000, 48000));
}

#[test]
fn batch_of_exactly_the_capacity_replaces_everything() {
    let mut buffer = SpeechBuffer::new(320);
    buffer.push(&ramp(0, 500));
    buffer.push(&ramp(9000, 48000));
    assert_eq!(buffer.take_utterance().unwrap(), ramp(9000, 48000));
}

#[test]
fn not_ready_until_more_batches_than_the_threshold() {
    // Large batches: the content condition is met long before the counter's.
    let mut buffer = SpeechBuffer::new(320);
    for k in 0..30 {
        buffer.push(&tone(k * 1600, 1600));
        assert!(!buffer.can_transcribe(), "ready after {} batches", k + 1);
    }
    assert_eq!(buffer.counter(), 30);
    assert!(buffer.len() > READY_SAMPLES);
    buffer.push(&tone(48000, 1600));
    assert_eq!(buffer.counter(), 31);
    assert!(buffer.can_transcribe());
}

#[test]
fn not_ready_until_more_than_the_ready_length() {
    for (len, ready) in [(17599, false), (17600, false), (17601, true)] {
        let mut buffer = SpeechBuffer::new(320);
        buffer.push(&tone(0, len - 40));
        for k in 0..40 {
            buffer.push(&tone(len - 40 + k, 1));
        }
        assert_eq!(buffer.len(), len);
        assert_eq!(buffer.counter(), 41);
        assert_eq!(buffer.can_transcribe(), ready, "with {} samples", len);
    }
}

#[test]
fn can_transcribe_is_false_right_after_a_reset() {
    let mut buffer = SpeechBuffer::new(320);
    for k in 0..60 {
        buffer.push(&tone(k * 320, 320));
    }
    assert!(buffer.can_transcribe());
    assert!(buffer.take_utterance().is_some());
    assert_eq!(buffer.counter(), 0);
    assert!(!buffer.can_transcribe());
    // The content is still there: only the batches are missing.
    assert_eq!(buffer.len(), 60 * 320);
    for k in 0..30 {
        buffer.push(&tone((60 + k) * 320, 320));
        assert!(!buffer.can_transcribe());
    }
    buffer.push(&tone(90 * 320, 320));
    assert!(buffer.can_transcribe());
}

#[test]
fn readiness_check_changes_nothing() {
    let mut buffer = SpeechBuffer::new(320);
    for k in 0..60 {
        buffer.push(&tone(k * 320, 320));
    }
    for _ in 0..3 {
        assert!(buffer.can_transcribe());
        assert_eq!(buffer.counter(), 60);
        assert_eq!(buffer.len(), 60 * 320);
    }
}

#[test]
fn floor_guard_is_independent_of_the_counter() {
    // 0.9 s of audio in 45 batches: the counter is above the threshold.
    let mut buffer = SpeechBuffer::new(320);
    for k in 0..45 {
        buffer.push(&tone(k * 320, 320));
    }
    assert_eq!(buffer.len(), 14400);
    assert!(buffer.counter() > threshold_for(320));
    assert_eq!(buffer.take_utterance(), None);
    // Refused, so nothing was reset.
    assert_eq!(buffer.counter(), 45);
    assert_eq!(buffer.len(), 14400);
    assert!(!buffer.can_transcribe());
}

#[test]
fn floor_is_one_second_exactly() {
    let mut buffer = SpeechBuffer::new(320);
    buffer.push(&tone(0, 15999));
    assert_eq!(buffer.take_utterance(), None);
    assert_eq!(buffer.counter(), 1);
    buffer.push(&tone(15999, 1));
    let utterance = buffer.take_utterance().unwrap();
    assert_eq!(utterance, tone(0, 16000));
    assert_eq!(buffer.counter(), 0);
}

#[test]
fn utterance_is_the_whole_content_and_content_is_retained() {
    let mut buffer = SpeechBuffer::new(320);
    for k in 0..70 {
        buffer.push(&tone(k * 320, 320));
    }
    let first = buffer.take_utterance().unwrap();
    assert_eq!(first, tone(0, 70 * 320));
    assert_eq!(buffer.len(), 70 * 320);
    // Windows overlap: the next utterance starts with the same audio.
    buffer.push(&tone(70 * 320, 320));
    let second = buffer.take_utterance().unwrap();
    assert_eq!(second, tone(0, 71 * 320));
}

#[test]
fn synthetic_stream_in_chunks_of_320() {
    let mut buffer = SpeechBuffer::new(320);
    let mut first_ready = None;
    for k in 0..100 {
        buffer.push(&tone(k * 320, 320));
        if buffer.can_transcribe() && first_ready.is_none() {
            first_ready = Some(k + 1);
        }
    }
    // More than 30 chunks and more than 1.1 s of audio: the 56th chunk.
    assert_eq!(first_ready, Some(56));
    assert!(buffer.can_transcribe());
    let utterance = buffer.take_utterance();
    assert_eq!(utterance, Some(tone(0, 32000)));
    assert_eq!(buffer.counter(), 0);
    assert_eq!(buffer.len(), 32000);
}

#[test]
fn other_batch_sizes_move_the_threshold() {
    let mut buffer = SpeechBuffer::new(1024);
    for k in 0..10 {
        buffer.push(&tone(k * 2048, 2048));
        assert!(!buffer.can_transcribe());
    }
    buffer.push(&tone(20480, 2048));
    assert!(buffer.can_transcribe());
}
