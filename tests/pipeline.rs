use rust_core::params::{ENGINE_THREADS, GREEDY_BEST_OF, PCM_SCALE};
use rust_core::{Action, DecodeParams, Event, ModelParams, Stage, Transcription, TranscriptionError};

/// Drives a run up to the point where inference is requested, handing over
/// `samples` as the reader's items.
fn run_to_inference(samples: &[Option<i16>]) -> Transcription {
    let (mut t, first) = Transcription::new();
    assert_eq!(first, Action::CheckModel { path: "./models/ggml-base.en.bin".to_string() });
    assert_eq!(
        t.step(Event::ModelChecked { exists: true }),
        Action::LoadModel { path: "./models/ggml-base.en.bin".to_string(), params: ModelParams::cpu_only() }
    );
    assert_eq!(t.step(Event::ModelLoaded(Ok(()))), Action::OpenAudio);
    assert_eq!(t.step(Event::AudioOpened(Ok(()))), Action::ReadSample);
    for s in samples {
        assert_eq!(t.step(Event::SampleRead(*s)), Action::ReadSample);
    }
    assert_eq!(t.step(Event::AudioEnded), Action::CreateSession);
    assert_eq!(
        t.step(Event::SessionCreated(Ok(()))),
        Action::RunInference { decoding: DecodeParams::greedy_english() }
    );
    assert_eq!(t.stage(), Stage::RunningInference);
    t
}

fn transcribe_segments(texts: &[&str]) -> Action {
    let mut t = run_to_inference(&[Some(1), Some(2)]);
    let mut action = t.step(Event::InferenceFinished(Ok(texts.len() as i32)));
    for (i, text) in texts.iter().enumerate() {
        assert_eq!(action, Action::FetchSegment { index: i as i32 });
        action = t.step(Event::SegmentText(Some(text.to_string())));
    }
    assert_eq!(t.stage(), Stage::Finished);
    action
}

#[test]
fn one_segment_gives_its_text_exactly() {
    assert_eq!(transcribe_segments(&["hello world"]), Action::Complete { text: "hello world".to_string() });
}

#[test]
fn segments_are_joined_in_order_without_separator() {
    assert_eq!(
        transcribe_segments(&[" hello", " world", "!"]),
        Action::Complete { text: " hello world!".to_string() }
    );
}

#[test]
fn zero_segments_give_empty_text() {
    let mut t = run_to_inference(&[Some(0), Some(0), Some(0)]);
    assert_eq!(t.step(Event::InferenceFinished(Ok(0))), Action::Complete { text: String::new() });
    assert_eq!(t.stage(), Stage::Finished);
}

#[test]
fn negative_segment_count_gives_empty_text() {
    let mut t = run_to_inference(&[]);
    assert_eq!(t.step(Event::InferenceFinished(Ok(-3))), Action::Complete { text: String::new() });
}

#[test]
fn undecodable_samples_are_skipped() {
    let t = run_to_inference(&[Some(5), None, Some(-7), None, Some(i16::MIN), Some(i16::MAX)]);
    assert_eq!(t.samples(), &vec![5, -7, i16::MIN, i16::MAX]);
}

#[test]
fn missing_model_is_model_not_found() {
    let (mut t, _) = Transcription::new();
    assert_eq!(
        t.step(Event::ModelChecked { exists: false }),
        Action::Fail { error: TranscriptionError::ModelNotFound }
    );
    assert_eq!(t.stage(), Stage::Finished);
    assert!(!t.accepts(&Event::ModelLoaded(Ok(()))));
    assert!(!t.accepts(&Event::AudioOpened(Err("x".to_string()))));
}

#[test]
fn model_load_failure_carries_detail() {
    let (mut t, _) = Transcription::new();
    t.step(Event::ModelChecked { exists: true });
    assert_eq!(
        t.step(Event::ModelLoaded(Err("bad magic".to_string()))),
        Action::Fail { error: TranscriptionError::ModelLoadError { detail: "bad magic".to_string() } }
    );
    assert_eq!(t.stage(), Stage::Finished);
}

#[test]
fn missing_audio_is_audio_open_error() {
    let (mut t, _) = Transcription::new();
    t.step(Event::ModelChecked { exists: true });
    t.step(Event::ModelLoaded(Ok(())));
    assert_eq!(
        t.step(Event::AudioOpened(Err("No such file or directory".to_string()))),
        Action::Fail {
            error: TranscriptionError::AudioOpenError { detail: "No such file or directory".to_string() }
        }
    );
    assert_eq!(t.stage(), Stage::Finished);
    assert!(!t.accepts(&Event::SessionCreated(Ok(()))));
    assert!(!t.accepts(&Event::AudioEnded));
}

#[test]
fn malformed_audio_fails_before_session() {
    let (mut t, _) = Transcription::new();
    let mut actions = Vec::new();
    actions.push(t.step(Event::ModelChecked { exists: true }));
    actions.push(t.step(Event::ModelLoaded(Ok(()))));
    actions.push(t.step(Event::AudioOpened(Err("no RIFF tag found".to_string()))));
    assert_eq!(
        actions.last().unwrap(),
        &Action::Fail { error: TranscriptionError::AudioOpenError { detail: "no RIFF tag found".to_string() } }
    );
    assert!(!actions.iter().any(|a| matches!(a, Action::CreateSession | Action::RunInference { .. })));
}

#[test]
fn session_failure_is_session_error() {
    let (mut t, _) = Transcription::new();
    t.step(Event::ModelChecked { exists: true });
    t.step(Event::ModelLoaded(Ok(())));
    t.step(Event::AudioOpened(Ok(())));
    t.step(Event::AudioEnded);
    assert_eq!(
        t.step(Event::SessionCreated(Err("out of memory".to_string()))),
        Action::Fail { error: TranscriptionError::SessionError { detail: "out of memory".to_string() } }
    );
}

#[test]
fn inference_failure_is_inference_error() {
    let mut t = run_to_inference(&[Some(1)]);
    assert_eq!(
        t.step(Event::InferenceFinished(Err("failed to encode".to_string()))),
        Action::Fail { error: TranscriptionError::InferenceError { detail: "failed to encode".to_string() } }
    );
    assert_eq!(t.stage(), Stage::Finished);
}

#[test]
fn unavailable_segment_is_extraction_error() {
    let mut t = run_to_inference(&[Some(1)]);
    assert_eq!(t.step(Event::InferenceFinished(Ok(3))), Action::FetchSegment { index: 0 });
    assert_eq!(t.step(Event::SegmentText(Some("a".to_string()))), Action::FetchSegment { index: 1 });
    assert_eq!(
        t.step(Event::SegmentText(None)),
        Action::Fail { error: TranscriptionError::SegmentExtractionError { index: 1 } }
    );
    assert_eq!(t.stage(), Stage::Finished);
}

#[test]
fn accepts_only_the_awaited_event() {
    let (t, _) = Transcription::new();
    assert!(t.accepts(&Event::ModelChecked { exists: true }));
    assert!(!t.accepts(&Event::AudioEnded));
    assert!(!t.accepts(&Event::SegmentText(None)));
    let mut t = run_to_inference(&[]);
    assert!(t.accepts(&Event::InferenceFinished(Ok(1))));
    t.step(Event::InferenceFinished(Ok(1)));
    assert!(t.accepts(&Event::SegmentText(None)));
    assert!(!t.accepts(&Event::InferenceFinished(Ok(1))));
}

#[test]
fn interleaved_runs_do_not_share_state() {
    let mut a = run_to_inference(&[Some(1), Some(2)]);
    let mut b = run_to_inference(&[Some(3)]);
    assert_eq!(a.step(Event::InferenceFinished(Ok(2))), Action::FetchSegment { index: 0 });
    assert_eq!(b.step(Event::InferenceFinished(Ok(1))), Action::FetchSegment { index: 0 });
    assert_eq!(a.step(Event::SegmentText(Some("first ".to_string()))), Action::FetchSegment { index: 1 });
    assert_eq!(
        b.step(Event::SegmentText(Some("other".to_string()))),
        Action::Complete { text: "other".to_string() }
    );
    assert_eq!(
        a.step(Event::SegmentText(Some("run".to_string()))),
        Action::Complete { text: "first run".to_string() }
    );
    assert_eq!(a.samples(), &vec![1, 2]);
    assert_eq!(b.samples(), &vec![3]);
}

#[test]
fn engine_parameters_are_fixed() {
    let m = ModelParams::cpu_only();
    assert!(!m.use_gpu);
    assert!(!m.flash_attn);
    assert_eq!(m.gpu_device, 0);
    let d = DecodeParams::greedy_english();
    assert_eq!(d.best_of, 1);
    assert_eq!(d.n_threads, 4);
    assert_eq!(d.language, "en");
    assert_eq!(GREEDY_BEST_OF, 1);
    assert_eq!(ENGINE_THREADS, 4);
    assert_eq!(rust_core::params::model_path(), "./models/ggml-base.en.bin");
}

#[test]
fn normalized_amplitudes_stay_within_full_scale() {
    assert_eq!(PCM_SCALE, 32768);
    for s in [i16::MIN, -16384, -1, 0, 1, 16384, i16::MAX] {
        let a = s as f32 / PCM_SCALE as f32;
        assert!(a >= -1.0 && a < 1.0);
    }
    assert_eq!(i16::MIN as f32 / PCM_SCALE as f32, -1.0);
    assert_eq!(i16::MAX as f32 / PCM_SCALE as f32, 32767.0 / 32768.0);
    assert_eq!(16384i16 as f32 / PCM_SCALE as f32, 0.5);
}
