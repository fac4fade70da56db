use voice_pipeline::pipeline::{
    begin_start_run, begin_stop_run, step_run, AppStatus, PipelineAction, PipelineEffect,
    PipelineStage, RunEvent, RunPhase, SessionGate, StatusNotifier,
};
use voice_pipeline::session::SessionCounter;
use voice_pipeline::transcription::transcription_result_from_raw_text;

#[test]
fn later_session_invalidates_previous_session() {
    let mut runtime = SessionCounter::new();

    let first = runtime.begin_session();
    let second = runtime.begin_session();

    assert!(!runtime.is_session_active(first));
    assert!(runtime.is_session_active(second));
}

#[test]
fn stop_trigger_without_recording_only_acknowledges_failure() {
    let (phase, action, effects) = begin_stop_run(false);

    assert!(matches!(phase, RunPhase::Complete));
    assert!(matches!(action, PipelineAction::Finish));
    assert_eq!(effects.len(), 1);
    assert!(matches!(effects[0], PipelineEffect::AckStopped(false)));
}

#[test]
fn start_run_reports_listening_on_success() {
    let (phase, action) = begin_start_run();
    assert!(matches!(phase, RunPhase::StartingCapture));
    assert!(matches!(action, PipelineAction::StartCapture));

    let (phase, action, effects) = step_run(phase, RunEvent::CaptureStarted(Ok(())));
    assert!(matches!(phase, RunPhase::Complete));
    assert!(matches!(action, PipelineAction::Finish));
    assert_eq!(effects.len(), 2);
    assert!(matches!(effects[0], PipelineEffect::SetStatus(AppStatus::Listening)));
    assert!(matches!(effects[1], PipelineEffect::AckStarted(true)));
}

#[test]
fn start_run_reports_capture_stage_on_failure() {
    let (phase, _) = begin_start_run();
    let (_, _, effects) = step_run(phase, RunEvent::CaptureStarted(Err("mic busy".to_string())));

    assert_eq!(effects.len(), 3);
    match &effects[0] {
        PipelineEffect::EmitError(error) => {
            assert!(matches!(error.stage, PipelineStage::Capture));
            assert_eq!(error.message, "mic busy");
            assert_eq!(error.stage.as_str(), "capture");
        }
        other => panic!("expected an error effect, got {:?}", effect_name(other)),
    }
    assert!(matches!(effects[1], PipelineEffect::SetStatus(AppStatus::Error)));
    assert!(matches!(effects[2], PipelineEffect::AckStarted(false)));
}

fn effect_name(effect: &PipelineEffect) -> &'static str {
    match effect {
        PipelineEffect::SetStatus(_) => "SetStatus",
        PipelineEffect::EmitTranscript(_) => "EmitTranscript",
        PipelineEffect::EmitError(_) => "EmitError",
        PipelineEffect::AckStarted(_) => "AckStarted",
        PipelineEffect::AckStopped(_) => "AckStopped",
    }
}

#[test]
fn full_stop_run_delivers_normalized_transcript() {
    let audio: Vec<u8> = vec![1, 2, 3];

    let (phase, action, effects) = begin_stop_run(true);
    assert!(matches!(phase, RunPhase::StoppingCapture));
    assert!(matches!(action, PipelineAction::StopCapture));
    assert!(effects.is_empty());

    let (phase, action, effects) = step_run(phase, RunEvent::CaptureStopped(Ok(audio.clone())));
    assert!(matches!(phase, RunPhase::AwaitingTranscript));
    match &action {
        PipelineAction::Transcribe(bytes) => assert_eq!(bytes, &audio),
        _ => panic!("expected a transcribe action"),
    }
    assert_eq!(effects.len(), 2);
    assert!(matches!(effects[0], PipelineEffect::AckStopped(true)));
    assert!(matches!(effects[1], PipelineEffect::SetStatus(AppStatus::Transcribing)));

    // The provider returns raw text; the library normalizes it.
    let result = transcription_result_from_raw_text("  hello   world ");
    assert_eq!(result.text, "hello world");

    let (phase, action, effects) =
        step_run(phase, RunEvent::TranscriptProduced(Ok(result.text.clone())));
    assert!(matches!(phase, RunPhase::AwaitingInsertion(_)));
    match &action {
        PipelineAction::InsertText(text) => assert_eq!(text, "hello world"),
        _ => panic!("expected an insert action"),
    }
    assert!(effects.is_empty());

    let (phase, action, effects) = step_run(phase, RunEvent::TextInserted(Ok(())));
    assert!(matches!(phase, RunPhase::Complete));
    assert!(matches!(action, PipelineAction::Finish));
    assert_eq!(effects.len(), 2);
    match &effects[0] {
        PipelineEffect::EmitTranscript(text) => assert_eq!(text, "hello world"),
        _ => panic!("expected a transcript effect"),
    }
    assert!(matches!(effects[1], PipelineEffect::SetStatus(AppStatus::Idle)));
}

#[test]
fn transcription_failure_reports_transcription_stage() {
    let (phase, _, _) = begin_stop_run(true);
    let (phase, _, _) = step_run(phase, RunEvent::CaptureStopped(Ok(vec![9])));
    let (phase, action, effects) =
        step_run(phase, RunEvent::TranscriptProduced(Err("rate limited".to_string())));

    assert!(matches!(phase, RunPhase::Complete));
    assert!(matches!(action, PipelineAction::Finish));
    assert_eq!(effects.len(), 2);
    match &effects[0] {
        PipelineEffect::EmitError(error) => {
            assert!(matches!(error.stage, PipelineStage::Transcription));
            assert_eq!(error.message, "rate limited");
        }
        _ => panic!("expected an error effect"),
    }
    assert!(matches!(effects[1], PipelineEffect::SetStatus(AppStatus::Error)));
}

#[test]
fn queued_second_stop_run_is_the_only_observable_one() {
    // Two stop triggers fired back to back: the first run's session is
    // superseded while it is still queued behind the lock, so only the
    // second run's status, transcript and error effects reach observers.
    let mut runtime = SessionCounter::new();

    let first_session = runtime.begin_session();
    let first_gate = SessionGate::for_session(first_session);
    let second_session = runtime.begin_session();
    let second_gate = SessionGate::for_session(second_session);

    let first_effects = vec![
        PipelineEffect::EmitTranscript("stale".to_string()),
        PipelineEffect::SetStatus(AppStatus::Idle),
    ];
    let delivered = first_gate.deliver(&runtime, first_effects);
    assert!(delivered.is_empty());

    let second_effects = vec![
        PipelineEffect::EmitTranscript("fresh".to_string()),
        PipelineEffect::SetStatus(AppStatus::Idle),
    ];
    let delivered = second_gate.deliver(&runtime, second_effects);
    assert_eq!(delivered.len(), 2);
    match &delivered[0] {
        PipelineEffect::EmitTranscript(text) => assert_eq!(text, "fresh"),
        _ => panic!("expected the second run's transcript"),
    }
}

#[test]
fn ungated_delivery_always_passes() {
    let mut runtime = SessionCounter::new();
    runtime.begin_session();

    let gate = SessionGate::ungated();
    let delivered = gate.deliver(&runtime, vec![PipelineEffect::SetStatus(AppStatus::Error)]);
    assert_eq!(delivered.len(), 1);
}

#[test]
fn direct_requests_share_the_stage_error_path() {
    let effects =
        voice_pipeline::pipeline::direct_request_effects(&Ok("hello".to_string()));
    assert_eq!(effects.len(), 1);
    assert!(matches!(effects[0], PipelineEffect::SetStatus(AppStatus::Idle)));

    let effects =
        voice_pipeline::pipeline::direct_request_effects(&Err("quota".to_string()));
    assert_eq!(effects.len(), 2);
    match &effects[0] {
        PipelineEffect::EmitError(error) => {
            assert!(matches!(error.stage, PipelineStage::Transcription));
            assert_eq!(error.message, "quota");
        }
        _ => panic!("expected an error effect"),
    }
    assert!(matches!(effects[1], PipelineEffect::SetStatus(AppStatus::Error)));
}

#[test]
fn status_notifier_tracks_the_last_status() {
    let mut notifier = StatusNotifier::new();
    assert!(matches!(notifier.current(), AppStatus::Idle));
    notifier.set(AppStatus::Transcribing);
    assert!(matches!(notifier.current(), AppStatus::Transcribing));
}
