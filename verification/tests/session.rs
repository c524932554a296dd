use peeches::capture::{DeviceError, SampleFormat};
use peeches::event::Caption;
use peeches::gate::EngineKind;
use peeches::pipeline::{CollectOutcome, Phase, PipelineRun, TranscriberWork, TranslatorWork};
use peeches::speech::SpeechBuffer;
use peeches::state::{AppState, StartOutcome};

fn chunk(index: usize) -> Vec<u32> {
    (index * 320..(index + 1) * 320).map(|i| (i as f32 / 16000.0).to_bits()).collect()
}

fn launched() -> AppState {
    AppState::new(Some(SampleFormat::F32)).unwrap()
}

fn ready() -> AppState {
    let mut state = launched();
    state.set_model(EngineKind::Recognition);
    state.set_model(EngineKind::Translation);
    state
}

fn recording() -> AppState {
    let mut state = ready();
    assert_eq!(state.start_recording(), StartOutcome::Started);
    state
}

/// Feeds chunks until the readiness signal is raised; returns how many.
fn feed_until_signalled(state: &mut AppState, from: usize) -> usize {
    let mut index = from;
    loop {
        let outcome = state.on_audio(&chunk(index));
        index += 1;
        match outcome {
            CollectOutcome::Buffered => {}
            CollectOutcome::Signalled => return index - from,
            other => panic!("unexpected {:?}", other),
        }
    }
}

/// Brings a recording session to the point where `text` waits for the
/// translator.
fn with_text_waiting(text: &str) -> AppState {
    let mut state = recording();
    feed_until_signalled(&mut state, 0);
    assert!(matches!(state.transcriber_step(), TranscriberWork::Recognize(_)));
    state.recognized(Some(text.to_string()));
    assert_eq!(state.transcriber_step(), TranscriberWork::Forwarded);
    state
}

#[test]
fn launch_fails_without_a_device() {
    assert!(matches!(AppState::new(None), Err(DeviceError::Unavailable)));
    match AppState::new(Some(SampleFormat::Other("u8".to_string()))) {
        Err(error) => assert_eq!(error.message(), "Unsupported sample format 'u8'"),
        Ok(_) => panic!("an unsupported format was accepted"),
    }
}

#[test]
fn launched_state_is_idle_and_not_ready() {
    let state = launched();
    assert!(!state.is_ready());
    assert!(state.is_stopped());
    assert_eq!(state.phase(), Phase::Idle);
    assert_eq!(state.buffered(), 0);
    assert_eq!(state.batches(), 0);
    assert!(!state.can_transcribe());
}

#[test]
fn start_is_refused_without_engines() {
    for installed in [None, Some(EngineKind::Recognition), Some(EngineKind::Translation)] {
        let mut state = launched();
        if let Some(kind) = installed {
            assert!(state.set_model(kind));
        }
        let outcome = state.start_recording();
        assert_eq!(outcome, StartOutcome::NotReady);
        assert!(!outcome.is_accepted());
        assert_eq!(state.phase(), Phase::Idle);
        assert!(state.is_stopped());
        // No stage runs: audio is dropped and no engine call is asked for.
        for index in 0..80 {
            assert_eq!(state.on_audio(&chunk(index)), CollectOutcome::Ignored);
        }
        assert_eq!(state.buffered(), 0);
        assert_eq!(state.transcriber_step(), TranscriberWork::Exited);
        assert_eq!(state.translator_step(), TranslatorWork::Exited);
        state.recognized(Some("stray".to_string()));
        assert_eq!(state.translated(Some("stray".to_string())), None);
        assert_eq!(state.transcriber_step(), TranscriberWork::Exited);
        assert_eq!(state.translator_step(), TranslatorWork::Exited);
        assert!(!state.stop_recording());
    }
}

#[test]
fn start_is_accepted_with_both_engines() {
    let mut state = ready();
    assert!(state.is_ready());
    let outcome = state.start_recording();
    assert_eq!(outcome, StartOutcome::Started);
    assert!(outcome.is_accepted());
    assert_eq!(state.phase(), Phase::Recording);
    assert!(!state.is_stopped());
    assert_eq!(state.transcriber_step(), TranscriberWork::Idle);
    assert_eq!(state.translator_step(), TranslatorWork::Idle);
}

#[test]
fn second_start_is_refused_without_side_effects() {
    let mut state = recording();
    feed_until_signalled(&mut state, 0);
    let buffered = state.buffered();
    let batches = state.batches();
    let outcome = state.start_recording();
    assert_eq!(outcome, StartOutcome::AlreadyActive);
    assert!(!outcome.is_accepted());
    assert_eq!(state.phase(), Phase::Recording);
    assert_eq!(state.buffered(), buffered);
    assert_eq!(state.batches(), batches);
    // The signal raised before is still there.
    assert!(matches!(state.transcriber_step(), TranscriberWork::Recognize(_)));
}

#[test]
fn start_is_refused_while_stopping() {
    let mut state = recording();
    assert!(state.stop_recording());
    assert_eq!(state.phase(), Phase::Stopping);
    assert_eq!(state.start_recording(), StartOutcome::AlreadyActive);
    assert_eq!(state.phase(), Phase::Stopping);
}

#[test]
fn signal_is_raised_on_the_56th_chunk() {
    let mut state = recording();
    assert_eq!(feed_until_signalled(&mut state, 0), 56);
    assert!(state.can_transcribe());
    assert_eq!(state.buffered(), 56 * 320);
    assert_eq!(state.batches(), 56);
}

#[test]
fn pending_signal_is_not_duplicated() {
    let mut state = recording();
    feed_until_signalled(&mut state, 0);
    for index in 56..60 {
        assert_eq!(state.on_audio(&chunk(index)), CollectOutcome::Coalesced);
    }
    // One signal, one utterance; then the channel is empty.
    assert!(matches!(state.transcriber_step(), TranscriberWork::Recognize(_)));
    state.recognized(None);
    assert_eq!(state.transcriber_step(), TranscriberWork::Idle);
}

#[test]
fn transcribe_takes_the_whole_buffer_and_resets_the_counter() {
    let mut state = recording();
    feed_until_signalled(&mut state, 0);
    state.on_audio(&chunk(56));
    match state.transcriber_step() {
        TranscriberWork::Recognize(utterance) => {
            let expected: Vec<u32> = (0..57).flat_map(chunk).collect();
            assert_eq!(utterance, expected);
        }
        other => panic!("unexpected {:?}", other),
    }
    assert_eq!(state.batches(), 0);
    assert_eq!(state.buffered(), 57 * 320);
    assert!(!state.can_transcribe());
    // While the call is in flight the transcriber does nothing else.
    assert_eq!(state.transcriber_step(), TranscriberWork::Busy);
    // Audio keeps arriving meanwhile, and the next signal needs 31 batches.
    assert_eq!(feed_until_signalled(&mut state, 57), 31);
}

#[test]
fn signal_without_enough_audio_is_skipped() {
    // A session on a buffer that lost its content cannot occur through the
    // application state, so the run is driven directly.
    let mut run = PipelineRun::started();
    let mut full = SpeechBuffer::new(320);
    for index in 0..56 {
        run.collect(&mut full, &chunk(index));
    }
    let mut short = SpeechBuffer::new(320);
    for index in 0..45 {
        short.push(&chunk(index));
    }
    assert_eq!(run.transcriber_step(&mut short), TranscriberWork::Skipped);
    assert_eq!(short.counter(), 45);
    assert_eq!(run.transcriber_step(&mut short), TranscriberWork::Idle);
}

#[test]
fn recognised_text_is_translated_and_emitted() {
    let mut state = with_text_waiting(" Hello there.");
    assert_eq!(state.translator_step(), TranslatorWork::Translate(" Hello there.".to_string()));
    assert_eq!(state.translator_step(), TranslatorWork::Busy);
    let caption = state.translated(Some("你好。".to_string()));
    assert_eq!(
        caption,
        Some(Caption::Utterance {
            original: " Hello there.".to_string(),
            translated: "你好。".to_string()
        })
    );
    assert_eq!(state.translator_step(), TranslatorWork::Idle);
    assert_eq!(state.phase(), Phase::Recording);
}

#[test]
fn blank_marker_is_answered_without_translation() {
    let mut state = with_text_waiting(" [BLANK_AUDIO]");
    assert_eq!(state.translator_step(), TranslatorWork::Emit(Caption::Blank));
    // No call is in flight: a stray result yields nothing.
    assert_eq!(state.translated(Some("空白".to_string())), None);
    assert_eq!(state.translator_step(), TranslatorWork::Idle);
}

#[test]
fn text_around_the_marker_is_an_utterance() {
    let mut state = with_text_waiting(" [BLANK_AUDIO] hm");
    assert_eq!(
        state.translator_step(),
        TranslatorWork::Translate(" [BLANK_AUDIO] hm".to_string())
    );
}

#[test]
fn failed_translation_costs_the_utterance_not_the_session() {
    let mut state = with_text_waiting(" First.");
    assert!(matches!(state.translator_step(), TranslatorWork::Translate(_)));
    assert_eq!(state.translated(None), None);
    assert_eq!(state.phase(), Phase::Recording);
    assert_eq!(state.translator_step(), TranslatorWork::Idle);
    // The next utterance is processed as usual.
    feed_until_signalled(&mut state, 56);
    assert!(matches!(state.transcriber_step(), TranscriberWork::Recognize(_)));
    state.recognized(Some(" Second.".to_string()));
    assert_eq!(state.transcriber_step(), TranscriberWork::Forwarded);
    assert_eq!(state.translator_step(), TranslatorWork::Translate(" Second.".to_string()));
    assert_eq!(
        state.translated(Some("第二。".to_string())),
        Some(Caption::Utterance {
            original: " Second.".to_string(),
            translated: "第二。".to_string()
        })
    );
}

#[test]
fn failed_recognition_is_skipped() {
    let mut state = recording();
    feed_until_signalled(&mut state, 0);
    assert!(matches!(state.transcriber_step(), TranscriberWork::Recognize(_)));
    state.recognized(None);
    assert_eq!(state.transcriber_step(), TranscriberWork::Idle);
    assert_eq!(state.translator_step(), TranslatorWork::Idle);
    assert_eq!(state.phase(), Phase::Recording);
}

#[test]
fn occupied_channel_holds_the_transcriber_back() {
    let mut state = with_text_waiting(" One.");
    feed_until_signalled(&mut state, 56);
    assert!(matches!(state.transcriber_step(), TranscriberWork::Recognize(_)));
    state.recognized(Some(" Two.".to_string()));
    // " One." has not been taken yet.
    assert_eq!(state.transcriber_step(), TranscriberWork::Blocked);
    assert_eq!(state.transcriber_step(), TranscriberWork::Blocked);
    assert_eq!(state.translator_step(), TranslatorWork::Translate(" One.".to_string()));
    assert_eq!(state.transcriber_step(), TranscriberWork::Forwarded);
    // The translator is busy with " One."; " Two." waits its turn.
    assert_eq!(state.translator_step(), TranslatorWork::Busy);
    assert!(state.translated(Some("一。".to_string())).is_some());
    assert_eq!(state.translator_step(), TranslatorWork::Translate(" Two.".to_string()));
}

#[test]
fn stop_makes_every_stage_exit() {
    let mut state = recording();
    assert!(state.stop_recording());
    assert_eq!(state.phase(), Phase::Stopping);
    assert!(state.is_stopped());
    state.capture_ended();
    assert_eq!(state.transcriber_step(), TranscriberWork::Exited);
    assert_eq!(state.phase(), Phase::Stopping);
    assert_eq!(state.translator_step(), TranslatorWork::Emit(Caption::SessionEnd));
    assert_eq!(state.phase(), Phase::Idle);
    // Nothing follows the end of the session.
    for _ in 0..3 {
        assert_eq!(state.translator_step(), TranslatorWork::Exited);
        assert_eq!(state.transcriber_step(), TranscriberWork::Exited);
        assert_eq!(state.on_audio(&chunk(0)), CollectOutcome::Ignored);
        assert_eq!(state.translated(Some("late".to_string())), None);
        assert!(!state.stop_recording());
    }
}

#[test]
fn stop_is_seen_by_the_collector_at_the_next_batch() {
    let mut state = recording();
    state.on_audio(&chunk(0));
    assert!(state.stop_recording());
    assert_eq!(state.on_audio(&chunk(1)), CollectOutcome::Exited);
    assert_eq!(state.buffered(), 320);
    assert_eq!(state.on_audio(&chunk(2)), CollectOutcome::Ignored);
    assert_eq!(state.buffered(), 320);
}

#[test]
fn stop_lets_calls_in_flight_complete() {
    let mut state = with_text_waiting(" One.");
    assert!(matches!(state.translator_step(), TranslatorWork::Translate(_)));
    feed_until_signalled(&mut state, 56);
    assert!(matches!(state.transcriber_step(), TranscriberWork::Recognize(_)));
    // Both engines are busy when the stop arrives.
    assert!(state.stop_recording());
    assert_eq!(state.transcriber_step(), TranscriberWork::Busy);
    assert_eq!(state.translator_step(), TranslatorWork::Busy);
    state.capture_ended();
    // The translation completes and is shown; the recognised text is dropped.
    assert_eq!(
        state.translated(Some("一。".to_string())),
        Some(Caption::Utterance { original: " One.".to_string(), translated: "一。".to_string() })
    );
    state.recognized(Some(" Two.".to_string()));
    assert_eq!(state.transcriber_step(), TranscriberWork::Exited);
    assert_eq!(state.translator_step(), TranslatorWork::Emit(Caption::SessionEnd));
    assert_eq!(state.phase(), Phase::Idle);
    assert_eq!(state.translator_step(), TranslatorWork::Exited);
}

#[test]
fn stop_drops_work_that_was_only_queued() {
    let mut state = with_text_waiting(" Queued.");
    feed_until_signalled(&mut state, 56);
    assert!(state.stop_recording());
    assert_eq!(state.transcriber_step(), TranscriberWork::Exited);
    assert_eq!(state.translator_step(), TranslatorWork::Emit(Caption::SessionEnd));
    assert_eq!(state.on_audio(&chunk(200)), CollectOutcome::Exited);
    assert_eq!(state.phase(), Phase::Idle);
}

#[test]
fn second_stop_changes_nothing() {
    let mut state = recording();
    assert!(state.stop_recording());
    assert!(!state.stop_recording());
    assert_eq!(state.phase(), Phase::Stopping);
}

#[test]
fn lost_capture_drains_the_queue_and_ends_the_session() {
    let mut state = with_text_waiting(" Last words.");
    feed_until_signalled(&mut state, 56);
    state.capture_ended();
    assert!(state.is_stopped());
    assert_eq!(state.phase(), Phase::Recording);
    // The queued signal and the queued text are still processed, in order.
    assert!(matches!(state.transcriber_step(), TranscriberWork::Recognize(_)));
    assert_eq!(state.translator_step(), TranslatorWork::Translate(" Last words.".to_string()));
    state.recognized(Some(" Really.".to_string()));
    assert_eq!(state.transcriber_step(), TranscriberWork::Forwarded);
    assert_eq!(state.transcriber_step(), TranscriberWork::Exited);
    assert!(state.translated(Some("遗言。".to_string())).is_some());
    assert_eq!(state.translator_step(), TranslatorWork::Translate(" Really.".to_string()));
    assert!(state.translated(Some("真的。".to_string())).is_some());
    assert_eq!(state.translator_step(), TranslatorWork::Emit(Caption::SessionEnd));
    assert_eq!(state.phase(), Phase::Idle);
    assert!(!state.stop_recording());
}

#[test]
fn new_session_after_the_end_keeps_the_buffer() {
    let mut state = recording();
    for index in 0..10 {
        state.on_audio(&chunk(index));
    }
    assert!(state.stop_recording());
    state.capture_ended();
    state.transcriber_step();
    state.translator_step();
    assert_eq!(state.phase(), Phase::Idle);
    assert_eq!(state.start_recording(), StartOutcome::Started);
    assert_eq!(state.phase(), Phase::Recording);
    assert!(!state.is_stopped());
    assert_eq!(state.buffered(), 3200);
    assert_eq!(state.batches(), 10);
    assert_eq!(state.on_audio(&chunk(10)), CollectOutcome::Buffered);
}

#[test]
fn stray_results_are_ignored() {
    let mut state = recording();
    state.recognized(Some("nobody asked".to_string()));
    assert_eq!(state.transcriber_step(), TranscriberWork::Idle);
    assert_eq!(state.translated(Some("nobody asked".to_string())), None);
    assert_eq!(state.translator_step(), TranslatorWork::Idle);
}

#[test]
fn run_reports_its_phase() {
    let mut run = PipelineRun::ended();
    assert!(run.is_idle());
    assert_eq!(run.phase(), Phase::Idle);
    assert!(!run.request_stop());
    assert!(!run.stop_requested());
    let mut run = PipelineRun::started();
    assert!(!run.is_idle());
    assert_eq!(run.phase(), Phase::Recording);
    assert!(run.request_stop());
    assert!(run.stop_requested());
    assert_eq!(run.phase(), Phase::Stopping);
    run.capture_ended();
    let mut buffer = SpeechBuffer::new(320);
    assert_eq!(run.transcriber_step(&mut buffer), TranscriberWork::Exited);
    assert_eq!(run.translator_step(), TranslatorWork::Emit(Caption::SessionEnd));
    assert_eq!(run.phase(), Phase::Idle);
}
