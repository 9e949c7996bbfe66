//! The orchestrator of a single capture-and-transcribe run.
//!
//! The run is a state machine: the driver performs the outside work
//! (starting the capture thread, awaiting the hand-off channel, calling the
//! transcription service) and feeds each outcome back as a [`PipelineEvent`];
//! [`step`] decides the next state and the next [`PipelineAction`].

use vstd::prelude::*;
use vstd::string::StringExecFns;

use crate::wav;

verus! {

/// The capture configuration, fixed for the whole session once it starts.
pub struct CaptureConfig {
    /// Samples per second.
    pub sample_rate: u32,
    /// Interleaved channels per frame.
    pub channels: u16,
    /// Bits per encoded sample.
    pub bits_per_sample: u16,
    /// Wall-clock budget of one capture run, in seconds.
    pub capture_seconds: u64,
    /// Bound of the hand-off channel.
    pub channel_capacity: usize,
}

impl CaptureConfig {
    /// A configuration the sample encoder can serve: mono 16-bit audio at
    /// the encoder's fixed rate, with a positive time budget and a
    /// positive channel bound.
    pub open spec fn wf(self) -> bool {
        &&& self.sample_rate == wav::SAMPLE_RATE
        &&& self.channels == wav::CHANNELS
        &&& self.bits_per_sample == wav::BITS_PER_SAMPLE
        &&& self.capture_seconds >= 1
        &&& self.channel_capacity >= 1
    }

    /// The standard session: 44100 Hz mono 16-bit, a ten-second budget,
    /// and room for thirty-two chunks in flight.
    pub fn standard() -> (r: CaptureConfig)
        ensures
            r.wf(),
            r.sample_rate == 44100,
            r.channels == 1,
            r.bits_per_sample == 16,
            r.capture_seconds == 10,
            r.channel_capacity == 32,
    {
        CaptureConfig {
            sample_rate: 44100,
            channels: 1,
            bits_per_sample: 16,
            capture_seconds: 10,
            channel_capacity: 32,
        }
    }
}

/// The terminal failure taxonomy of a pipeline run.
#[derive(Debug, PartialEq, Eq)]
pub enum PipelineError {
    /// No default input device exists.
    DeviceUnavailable,
    /// The device refused to negotiate a capture configuration.
    ConfigurationError,
    /// A sample buffer could not be packaged into a container.
    EncodingError,
    /// The hand-off channel closed before any chunk arrived.
    NoAudioReceived,
    /// The transcription service failed; the cause is carried verbatim.
    ServiceError(String),
}

/// What the driver observed since the last step.
#[derive(Debug)]
pub enum PipelineEvent {
    /// The driver was asked to begin a run.
    Start,
    /// The capture stream is up and producing.
    CaptureStarted,
    /// Capture could not be set up, or encoding a buffer failed.
    CaptureFailed(PipelineError),
    /// One encoded container arrived on the hand-off channel.
    ChunkReceived(Vec<u8>),
    /// The channel closed before delivering any chunk.
    ChannelClosed,
    /// The transcription service answered with text.
    TranscriptReceived(String),
    /// The transcription service failed; the cause is carried verbatim.
    TranscriptionFailed(String),
}

/// What the driver must do next.
#[derive(Debug, PartialEq, Eq)]
pub enum PipelineAction {
    /// Spawn the capture session on its dedicated thread.
    StartCapture,
    /// Await the next item from the hand-off channel.
    AwaitChunk,
    /// Issue one transcription request for this payload.
    Transcribe(Vec<u8>),
    /// The run is over; tear everything down.
    Stop,
}

/// The orchestrator's state. `Done` and `Failed` are terminal.
#[derive(Debug, PartialEq, Eq)]
pub enum PipelineState {
    Idle,
    Capturing,
    AwaitingChunk,
    Transcribing,
    Done(String),
    Failed(PipelineError),
}

impl PipelineState {
    /// A run neither succeeded nor failed yet.
    pub open spec fn is_terminal(self) -> bool {
        self is Done || self is Failed
    }
}

/// Package one buffer of converted samples as a complete container.
///
/// This is the computing half of the capture callback: the driver turns
/// the backend's float buffer into scaled amplitudes and this function
/// packages them. It fails with `EncodingError` exactly when the buffer
/// describes more samples than one container can hold.
pub fn encode_chunk(samples: &Vec<i16>) -> (r: Result<Vec<u8>, PipelineError>)
    ensures
        samples@.len() <= wav::MAX_WAV_SAMPLES ==> (r matches Ok(out) && out@ == wav::wav_bytes(
            samples@,
        )),
        samples@.len() > wav::MAX_WAV_SAMPLES ==> (r matches Err(e) && e
            == PipelineError::EncodingError),
{
    if samples.len() > wav::MAX_WAV_SAMPLES {
        return Err(PipelineError::EncodingError);
    }
    Ok(wav::encode_wav(samples))
}

/// One request to the transcription collaborator: a named,
/// container-formatted payload and the model that should transcribe it.
pub struct TranscriptionRequest {
    /// The name the payload travels under.
    pub filename: String,
    /// The identifier of the transcription model.
    pub model: String,
    /// The complete audio container.
    pub payload: Vec<u8>,
}

/// Assemble the single transcription request of a run.
///
/// The payload travels verbatim, under the fixed name and model the
/// service expects for one WAV container.
pub fn make_transcription_request(chunk: Vec<u8>) -> (r: TranscriptionRequest)
    ensures
        r.filename@ == "audio.wav"@,
        r.model@ == "whisper-1"@,
        r.payload@ == chunk@,
{
    TranscriptionRequest {
        filename: String::from_str("audio.wav"),
        model: String::from_str("whisper-1"),
        payload: chunk,
    }
}

/// The transition relation of the run, one event at a time.
///
/// An event that the current state does not expect is a protocol violation
/// by the driver: the state is kept and the run is stopped.
pub open spec fn step_spec(state: PipelineState, event: PipelineEvent) -> (PipelineState, PipelineAction) {
    match (state, event) {
        (PipelineState::Idle, PipelineEvent::Start) =>
            (PipelineState::Capturing, PipelineAction::StartCapture),
        (PipelineState::Capturing, PipelineEvent::CaptureStarted) =>
            (PipelineState::AwaitingChunk, PipelineAction::AwaitChunk),
        (PipelineState::Capturing, PipelineEvent::CaptureFailed(e)) =>
            (PipelineState::Failed(e), PipelineAction::Stop),
        (PipelineState::AwaitingChunk, PipelineEvent::CaptureFailed(e)) =>
            (PipelineState::Failed(e), PipelineAction::Stop),
        (PipelineState::AwaitingChunk, PipelineEvent::ChunkReceived(c)) =>
            (PipelineState::Transcribing, PipelineAction::Transcribe(c)),
        (PipelineState::AwaitingChunk, PipelineEvent::ChannelClosed) =>
            (PipelineState::Failed(PipelineError::NoAudioReceived), PipelineAction::Stop),
        (PipelineState::Transcribing, PipelineEvent::TranscriptReceived(t)) =>
            (PipelineState::Done(t), PipelineAction::Stop),
        (PipelineState::Transcribing, PipelineEvent::TranscriptionFailed(cause)) =>
            (PipelineState::Failed(PipelineError::ServiceError(cause)), PipelineAction::Stop),
        (s, _) => (s, PipelineAction::Stop),
    }
}

/// Advance the run by one observed event.
pub fn step(state: PipelineState, event: PipelineEvent) -> (r: (PipelineState, PipelineAction))
    ensures
        r == step_spec(state, event),
{
    match (state, event) {
        (PipelineState::Idle, PipelineEvent::Start) =>
            (PipelineState::Capturing, PipelineAction::StartCapture),
        (PipelineState::Capturing, PipelineEvent::CaptureStarted) =>
            (PipelineState::AwaitingChunk, PipelineAction::AwaitChunk),
        (PipelineState::Capturing, PipelineEvent::CaptureFailed(e)) =>
            (PipelineState::Failed(e), PipelineAction::Stop),
        (PipelineState::AwaitingChunk, PipelineEvent::CaptureFailed(e)) =>
            (PipelineState::Failed(e), PipelineAction::Stop),
        (PipelineState::AwaitingChunk, PipelineEvent::ChunkReceived(c)) =>
            (PipelineState::Transcribing, PipelineAction::Transcribe(c)),
        (PipelineState::AwaitingChunk, PipelineEvent::ChannelClosed) =>
            (PipelineState::Failed(PipelineError::NoAudioReceived), PipelineAction::Stop),
        (PipelineState::Transcribing, PipelineEvent::TranscriptReceived(t)) =>
            (PipelineState::Done(t), PipelineAction::Stop),
        (PipelineState::Transcribing, PipelineEvent::TranscriptionFailed(cause)) =>
            (PipelineState::Failed(PipelineError::ServiceError(cause)), PipelineAction::Stop),
        (s, _) => (s, PipelineAction::Stop),
    }
}

/// The state after a whole sequence of events.
pub open spec fn run_state(state: PipelineState, events: Seq<PipelineEvent>) -> PipelineState
    decreases events.len(),
{
    if events.len() == 0 {
        state
    } else {
        run_state(step_spec(state, events[0]).0, events.drop_first())
    }
}

/// Whether any step of the event sequence asks the driver to transcribe.
pub open spec fn run_transcribes(state: PipelineState, events: Seq<PipelineEvent>) -> bool
    decreases events.len(),
{
    if events.len() == 0 {
        false
    } else {
        step_spec(state, events[0]).1 is Transcribe
            || run_transcribes(step_spec(state, events[0]).0, events.drop_first())
    }
}

/// A terminal state absorbs every further event, and never asks the driver
/// to transcribe again.
pub proof fn lemma_terminal_absorbs(state: PipelineState, events: Seq<PipelineEvent>)
    requires
        state.is_terminal(),
    ensures
        run_state(state, events) == state,
        !run_transcribes(state, events),
    decreases events.len(),
{
    if events.len() > 0 {
        assert(step_spec(state, events[0]) == (state, PipelineAction::Stop));
        lemma_terminal_absorbs(state, events.drop_first());
    }
}

/// If the capture device is unavailable, the run fails with
/// `DeviceUnavailable`, and no transcription is ever attempted afterwards:
/// whatever events follow, the state stays `Failed(DeviceUnavailable)` and
/// no step yields a `Transcribe` action.
pub proof fn lemma_device_unavailable_never_transcribes(later: Seq<PipelineEvent>)
    ensures
        ({
            let (s, a) = step_spec(
                PipelineState::Capturing,
                PipelineEvent::CaptureFailed(PipelineError::DeviceUnavailable),
            );
            s == PipelineState::Failed(PipelineError::DeviceUnavailable)
                && a == PipelineAction::Stop
                && run_state(s, later) == s
                && !run_transcribes(s, later)
        }),
{
    let s = PipelineState::Failed(PipelineError::DeviceUnavailable);
    lemma_terminal_absorbs(s, later);
}

/// If the transcription service fails, the run fails with `ServiceError`
/// carrying the cause, and the chunk is not retried: whatever events follow,
/// no step yields a `Transcribe` action.
pub proof fn lemma_service_error_not_retried(cause: String, later: Seq<PipelineEvent>)
    ensures
        ({
            let (s, a) = step_spec(
                PipelineState::Transcribing,
                PipelineEvent::TranscriptionFailed(cause),
            );
            s == PipelineState::Failed(PipelineError::ServiceError(cause))
                && a == PipelineAction::Stop
                && run_state(s, later) == s
                && !run_transcribes(s, later)
        }),
{
    lemma_terminal_absorbs(PipelineState::Failed(PipelineError::ServiceError(cause)), later);
}

/// If the channel closes before delivering any chunk, the run fails with
/// `NoAudioReceived` instead of waiting forever.
pub proof fn lemma_closed_channel_fails_run()
    ensures
        step_spec(PipelineState::AwaitingChunk, PipelineEvent::ChannelClosed)
            == (PipelineState::Failed(PipelineError::NoAudioReceived), PipelineAction::Stop),
{
}

} // verus!
