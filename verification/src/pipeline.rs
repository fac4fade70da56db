//! The pipeline orchestrator: one end-to-end recording, transcription and
//! insertion cycle per hotkey trigger, expressed as a state machine over the
//! results of the external collaborator calls. The surrounding application
//! performs each returned action (capture, provider call, insertion) and
//! feeds the outcome back in; every observable effect passes through a
//! session gate so that superseded runs are no-ops.

use vstd::prelude::*;

use crate::session::SessionCounter;

verus! {

/// The externally visible status of the pipeline.
#[derive(Clone, Copy, PartialEq, Eq, Structural, Debug)]
pub enum AppStatus {
    Idle,
    Listening,
    Transcribing,
    Error,
}

/// The pipeline phase at which a failure occurred, used for error reporting.
#[derive(Clone, Copy, PartialEq, Eq, Structural, Debug)]
pub enum PipelineStage {
    Capture,
    Transcription,
    Insertion,
}

impl PipelineStage {
    pub open spec fn name_spec(&self) -> Seq<char> {
        match self {
            PipelineStage::Capture => "capture"@,
            PipelineStage::Transcription => "transcription"@,
            PipelineStage::Insertion => "insertion"@,
        }
    }

    pub fn as_str(&self) -> (r: &'static str)
        ensures
            r@ == self.name_spec(),
    {
        match self {
            PipelineStage::Capture => "capture",
            PipelineStage::Transcription => "transcription",
            PipelineStage::Insertion => "insertion",
        }
    }
}

/// A stage-tagged failure report.
pub struct PipelineError {
    pub stage: PipelineStage,
    pub message: String,
}

/// An observable side effect of a run. Every one of these goes through the
/// delegate and is subject to the session gate.
pub enum PipelineEffect {
    SetStatus(AppStatus),
    EmitTranscript(String),
    EmitError(PipelineError),
    AckStarted(bool),
    AckStopped(bool),
}

/// The next external call the application must perform for a run.
pub enum PipelineAction {
    StartCapture,
    StopCapture,
    Transcribe(Vec<u8>),
    InsertText(String),
    Finish,
}

/// Where a run stands between external calls.
pub enum RunPhase {
    StartingCapture,
    StoppingCapture,
    AwaitingTranscript,
    AwaitingInsertion(String),
    Complete,
}

/// The outcome of the external call a run was waiting for.
pub enum RunEvent {
    CaptureStarted(Result<(), String>),
    CaptureStopped(Result<Vec<u8>, String>),
    TranscriptProduced(Result<String, String>),
    TextInserted(Result<(), String>),
}

/// Whether `event` answers what `phase` is waiting for.
pub open spec fn event_fits(phase: RunPhase, event: RunEvent) -> bool {
    match (phase, event) {
        (RunPhase::StartingCapture, RunEvent::CaptureStarted(_)) => true,
        (RunPhase::StoppingCapture, RunEvent::CaptureStopped(_)) => true,
        (RunPhase::AwaitingTranscript, RunEvent::TranscriptProduced(_)) => true,
        (RunPhase::AwaitingInsertion(_), RunEvent::TextInserted(_)) => true,
        _ => false,
    }
}

/// How a start-trigger run begins: wait for the capture start outcome.
pub open spec fn begin_start_spec() -> (RunPhase, PipelineAction) {
    (RunPhase::StartingCapture, PipelineAction::StartCapture)
}

/// How a stop-trigger run begins. With no active recording the run completes
/// at once: the only effect is a failed-stop acknowledgment, and neither the
/// provider nor insertion is ever requested.
pub open spec fn begin_stop_spec(recording_active: bool) -> (RunPhase, PipelineAction, Seq<
    PipelineEffect,
>) {
    if recording_active {
        (RunPhase::StoppingCapture, PipelineAction::StopCapture, Seq::empty())
    } else {
        (RunPhase::Complete, PipelineAction::Finish, seq![PipelineEffect::AckStopped(false)])
    }
}

/// One transition of a run: what the next phase is, which external call to
/// make next, and which effects to deliver (through the session gate), given
/// the outcome of the call the run was waiting for.
pub open spec fn step_spec(phase: RunPhase, event: RunEvent) -> (RunPhase, PipelineAction, Seq<
    PipelineEffect,
>) {
    match (phase, event) {
        (RunPhase::StartingCapture, RunEvent::CaptureStarted(outcome)) => match outcome {
            Result::Ok(_) => (
                RunPhase::Complete,
                PipelineAction::Finish,
                seq![
                    PipelineEffect::SetStatus(AppStatus::Listening),
                    PipelineEffect::AckStarted(true),
                ],
            ),
            Result::Err(message) => (
                RunPhase::Complete,
                PipelineAction::Finish,
                seq![
                    PipelineEffect::EmitError(
                        PipelineError { stage: PipelineStage::Capture, message },
                    ),
                    PipelineEffect::SetStatus(AppStatus::Error),
                    PipelineEffect::AckStarted(false),
                ],
            ),
        },
        (RunPhase::StoppingCapture, RunEvent::CaptureStopped(outcome)) => match outcome {
            Result::Ok(audio) => (
                RunPhase::AwaitingTranscript,
                PipelineAction::Transcribe(audio),
                seq![
                    PipelineEffect::AckStopped(true),
                    PipelineEffect::SetStatus(AppStatus::Transcribing),
                ],
            ),
            Result::Err(message) => (
                RunPhase::Complete,
                PipelineAction::Finish,
                seq![
                    PipelineEffect::AckStopped(false),
                    PipelineEffect::EmitError(
                        PipelineError { stage: PipelineStage::Capture, message },
                    ),
                    PipelineEffect::SetStatus(AppStatus::Error),
                ],
            ),
        },
        (RunPhase::AwaitingTranscript, RunEvent::TranscriptProduced(outcome)) => match outcome {
            Result::Ok(text) => (
                RunPhase::AwaitingInsertion(text),
                PipelineAction::InsertText(text),
                Seq::empty(),
            ),
            Result::Err(message) => (
                RunPhase::Complete,
                PipelineAction::Finish,
                seq![
                    PipelineEffect::EmitError(
                        PipelineError { stage: PipelineStage::Transcription, message },
                    ),
                    PipelineEffect::SetStatus(AppStatus::Error),
                ],
            ),
        },
        (RunPhase::AwaitingInsertion(text), RunEvent::TextInserted(outcome)) => match outcome {
            Result::Ok(_) => (
                RunPhase::Complete,
                PipelineAction::Finish,
                seq![
                    PipelineEffect::EmitTranscript(text),
                    PipelineEffect::SetStatus(AppStatus::Idle),
                ],
            ),
            Result::Err(message) => (
                RunPhase::Complete,
                PipelineAction::Finish,
                seq![
                    PipelineEffect::EmitError(
                        PipelineError { stage: PipelineStage::Insertion, message },
                    ),
                    PipelineEffect::SetStatus(AppStatus::Error),
                ],
            ),
        },
        _ => (phase, PipelineAction::Finish, Seq::empty()),
    }
}

/// Begins a start-trigger run.
pub fn begin_start_run() -> (r: (RunPhase, PipelineAction))
    ensures
        r == begin_start_spec(),
{
    (RunPhase::StartingCapture, PipelineAction::StartCapture)
}

/// Begins a stop-trigger run. `recording_active` reports whether a recording
/// is currently in progress; without one the run acknowledges failure and
/// completes with no further side effects.
pub fn begin_stop_run(recording_active: bool) -> (r: (RunPhase, PipelineAction, Vec<
    PipelineEffect,
>))
    ensures
        (r.0, r.1, r.2@) == begin_stop_spec(recording_active),
{
    if recording_active {
        (RunPhase::StoppingCapture, PipelineAction::StopCapture, Vec::new())
    } else {
        let mut effects: Vec<PipelineEffect> = Vec::new();
        effects.push(PipelineEffect::AckStopped(false));
        proof {
            assert(effects@ =~= seq![PipelineEffect::AckStopped(false)]);
        }
        (RunPhase::Complete, PipelineAction::Finish, effects)
    }
}

/// Advances a run by the outcome of the external call it was waiting for.
pub fn step_run(phase: RunPhase, event: RunEvent) -> (r: (RunPhase, PipelineAction, Vec<
    PipelineEffect,
>))
    requires
        event_fits(phase, event),
    ensures
        (r.0, r.1, r.2@) == step_spec(phase, event),
{
    match (phase, event) {
        (RunPhase::StartingCapture, RunEvent::CaptureStarted(outcome)) => match outcome {
            Result::Ok(_) => {
                let mut effects: Vec<PipelineEffect> = Vec::new();
                effects.push(PipelineEffect::SetStatus(AppStatus::Listening));
                effects.push(PipelineEffect::AckStarted(true));
                proof {
                    assert(effects@ =~= step_spec(phase, event).2);
                }
                (RunPhase::Complete, PipelineAction::Finish, effects)
            },
            Result::Err(message) => {
                let mut effects: Vec<PipelineEffect> = Vec::new();
                effects.push(
                    PipelineEffect::EmitError(
                        PipelineError { stage: PipelineStage::Capture, message },
                    ),
                );
                effects.push(PipelineEffect::SetStatus(AppStatus::Error));
                effects.push(PipelineEffect::AckStarted(false));
                proof {
                    assert(effects@ =~= step_spec(phase, event).2);
                }
                (RunPhase::Complete, PipelineAction::Finish, effects)
            },
        },
        (RunPhase::StoppingCapture, RunEvent::CaptureStopped(outcome)) => match outcome {
            Result::Ok(audio) => {
                let mut effects: Vec<PipelineEffect> = Vec::new();
                effects.push(PipelineEffect::AckStopped(true));
                effects.push(PipelineEffect::SetStatus(AppStatus::Transcribing));
                proof {
                    assert(effects@ =~= step_spec(phase, event).2);
                }
                (RunPhase::AwaitingTranscript, PipelineAction::Transcribe(audio), effects)
            },
            Result::Err(message) => {
                let mut effects: Vec<PipelineEffect> = Vec::new();
                effects.push(PipelineEffect::AckStopped(false));
                effects.push(
                    PipelineEffect::EmitError(
                        PipelineError { stage: PipelineStage::Capture, message },
                    ),
                );
                effects.push(PipelineEffect::SetStatus(AppStatus::Error));
                proof {
                    assert(effects@ =~= step_spec(phase, event).2);
                }
                (RunPhase::Complete, PipelineAction::Finish, effects)
            },
        },
        (RunPhase::AwaitingTranscript, RunEvent::TranscriptProduced(outcome)) => match outcome {
            Result::Ok(text) => {
                let text_for_action = text.clone();
                (
                    RunPhase::AwaitingInsertion(text),
                    PipelineAction::InsertText(text_for_action),
                    Vec::new(),
                )
            },
            Result::Err(message) => {
                let mut effects: Vec<PipelineEffect> = Vec::new();
                effects.push(
                    PipelineEffect::EmitError(
                        PipelineError { stage: PipelineStage::Transcription, message },
                    ),
                );
                effects.push(PipelineEffect::SetStatus(AppStatus::Error));
                proof {
                    assert(effects@ =~= step_spec(phase, event).2);
                }
                (RunPhase::Complete, PipelineAction::Finish, effects)
            },
        },
        (RunPhase::AwaitingInsertion(text), RunEvent::TextInserted(outcome)) => match outcome {
            Result::Ok(_) => {
                let mut effects: Vec<PipelineEffect> = Vec::new();
                effects.push(PipelineEffect::EmitTranscript(text));
                effects.push(PipelineEffect::SetStatus(AppStatus::Idle));
                proof {
                    assert(effects@ =~= step_spec(phase, event).2);
                }
                (RunPhase::Complete, PipelineAction::Finish, effects)
            },
            Result::Err(message) => {
                let mut effects: Vec<PipelineEffect> = Vec::new();
                effects.push(
                    PipelineEffect::EmitError(
                        PipelineError { stage: PipelineStage::Insertion, message },
                    ),
                );
                effects.push(PipelineEffect::SetStatus(AppStatus::Error));
                proof {
                    assert(effects@ =~= step_spec(phase, event).2);
                }
                (RunPhase::Complete, PipelineAction::Finish, effects)
            },
        },
        _ => unreached(),
    }
}

/// The session check every delegate callback performs before producing an
/// observable effect. A gate bound to a session delivers only while that
/// session is still the active one; an unbound gate (used by direct,
/// non-triggered transcription requests) always delivers.
pub struct SessionGate {
    session_id: Option<u64>,
}

impl SessionGate {
    pub closed spec fn session(&self) -> Option<u64> {
        self.session_id
    }

    /// Whether effects behind this gate reach observers under `counter`.
    pub open spec fn observes(&self, counter: &SessionCounter) -> bool {
        match self.session() {
            Option::Some(id) => counter.is_active_spec(id),
            Option::None => true,
        }
    }

    pub fn for_session(session_id: u64) -> (g: SessionGate)
        ensures
            g.session() == Option::Some(session_id),
    {
        SessionGate { session_id: Option::Some(session_id) }
    }

    pub fn ungated() -> (g: SessionGate)
        ensures
            g.session() is None,
    {
        SessionGate { session_id: Option::None }
    }

    /// Applies the session check: while this gate's session is still the
    /// active one, every effect is delivered; afterwards none is.
    pub fn deliver(&self, counter: &SessionCounter, effects: Vec<PipelineEffect>) -> (r: Vec<
        PipelineEffect,
    >)
        ensures
            self.observes(counter) ==> r@ == effects@,
            !self.observes(counter) ==> r@ == Seq::<PipelineEffect>::empty(),
    {
        let pass = match self.session_id {
            Option::Some(id) => counter.is_session_active(id),
            Option::None => true,
        };
        if pass {
            effects
        } else {
            Vec::new()
        }
    }
}

/// The effects of a direct transcription request (one made outside the
/// hotkey path, which runs ungated): on success the status returns to idle;
/// on failure the error is reported on the transcription stage and the
/// status becomes the error state, the same path the triggered runs use.
pub fn direct_request_effects(outcome: &Result<String, String>) -> (r: Vec<PipelineEffect>)
    ensures
        match outcome {
            Result::Ok(_) => r@ == seq![PipelineEffect::SetStatus(AppStatus::Idle)],
            Result::Err(message) => r@ == seq![
                PipelineEffect::EmitError(
                    PipelineError { stage: PipelineStage::Transcription, message: *message },
                ),
                PipelineEffect::SetStatus(AppStatus::Error),
            ],
        },
{
    let mut effects: Vec<PipelineEffect> = Vec::new();
    match outcome {
        Result::Ok(_) => {
            effects.push(PipelineEffect::SetStatus(AppStatus::Idle));
            proof {
                assert(effects@ =~= seq![PipelineEffect::SetStatus(AppStatus::Idle)]);
            }
        },
        Result::Err(message) => {
            effects.push(
                PipelineEffect::EmitError(
                    PipelineError {
                        stage: PipelineStage::Transcription,
                        message: message.clone(),
                    },
                ),
            );
            effects.push(PipelineEffect::SetStatus(AppStatus::Error));
            proof {
                assert(effects@ =~= seq![
                    PipelineEffect::EmitError(
                        PipelineError {
                            stage: PipelineStage::Transcription,
                            message: *message,
                        },
                    ),
                    PipelineEffect::SetStatus(AppStatus::Error),
                ]);
            }
        },
    }
    effects
}

/// Tracks the externally visible status between runs.
pub struct StatusNotifier {
    status: AppStatus,
}

impl StatusNotifier {
    pub closed spec fn current_spec(&self) -> AppStatus {
        self.status
    }

    pub fn new() -> (r: StatusNotifier)
        ensures
            r.current_spec() == AppStatus::Idle,
    {
        StatusNotifier { status: AppStatus::Idle }
    }

    pub fn current(&self) -> (r: AppStatus)
        ensures
            r == self.current_spec(),
    {
        self.status
    }

    pub fn set(&mut self, status: AppStatus)
        ensures
            final(self).current_spec() == status,
    {
        self.status = status;
    }
}

/// Law: a stop trigger with no active recording never reaches the provider
/// or insertion. The run completes immediately and its only effect is the
/// failed-stop acknowledgment.
pub proof fn lemma_stop_without_recording_is_inert()
    ensures
        begin_stop_spec(false).0 is Complete,
        begin_stop_spec(false).1 is Finish,
        begin_stop_spec(false).2 =~= seq![PipelineEffect::AckStopped(false)],
{
}

/// Law: a gate bound to a superseded session observes nothing, so every
/// effect of that session's run is discarded by `deliver`.
pub proof fn lemma_superseded_gate_observes_nothing(gate: SessionGate, counter: SessionCounter)
    requires
        gate.session() matches Option::Some(id) && !counter.is_active_spec(id),
    ensures
        !gate.observes(&counter),
{
}

/// Law: beginning session n+1 invalidates session n. Whatever sequence of
/// triggers issued `session_id` (so it is at most the pre-state's issue
/// counter), after one more `begin_session` a gate bound to it observes
/// nothing, and by `deliver`'s contract its run's delegate calls are no-ops.
pub proof fn lemma_superseded_run_is_noop(
    pre: SessionCounter,
    post: SessionCounter,
    session_id: u64,
    gate: SessionGate,
)
    requires
        pre.wf(),
        session_id <= pre.next(),
        post.next() == pre.next() + 1,
        post.active() == pre.next() + 1,
        gate.session() == Option::Some(session_id),
    ensures
        !gate.observes(&post),
{
    crate::session::lemma_begin_session_invalidates(pre, post, session_id);
}

} // verus!
