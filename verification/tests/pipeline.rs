use voicepipe::channel::TransferChannel;
use voicepipe::pipeline::{
    encode_chunk, make_transcription_request, step, CaptureConfig, PipelineAction, PipelineError,
    PipelineEvent, PipelineState,
};
use voicepipe::wav::{decode_wav, saturate_amplitude, HEADER_LEN};

/// The conversion the capture driver applies to one float sample.
fn convert(sample: f32) -> i16 {
    saturate_amplitude((sample as f64 * 32767.0).round() as i64)
}

/// One second of a 440 Hz sine wave at 44100 samples per second.
fn sine_second() -> Vec<i16> {
    let mut samples: Vec<i16> = Vec::with_capacity(44100);
    for t in 0..44100u32 {
        let phase = 2.0 * std::f64::consts::PI * 440.0 * (t as f64) / 44100.0;
        samples.push(convert(phase.sin() as f32));
    }
    samples
}

#[test]
fn standard_configuration_matches_the_encoder() {
    let cfg = CaptureConfig::standard();
    assert_eq!(cfg.sample_rate, 44100);
    assert_eq!(cfg.channels, 1);
    assert_eq!(cfg.bits_per_sample, 16);
    assert_eq!(cfg.capture_seconds, 10);
    assert_eq!(cfg.channel_capacity, 32);
}

#[test]
fn request_carries_the_fixed_name_and_model() {
    let chunk = vec![1u8, 2, 3, 4];
    let req = make_transcription_request(chunk.clone());
    assert_eq!(req.filename, "audio.wav");
    assert_eq!(req.model, "whisper-1");
    assert_eq!(req.payload, chunk);
}

#[test]
fn unavailable_device_fails_the_run_without_transcribing() {
    let (state, action) = step(PipelineState::Idle, PipelineEvent::Start);
    assert_eq!(state, PipelineState::Capturing);
    assert_eq!(action, PipelineAction::StartCapture);

    let (state, action) = step(
        state,
        PipelineEvent::CaptureFailed(PipelineError::DeviceUnavailable),
    );
    assert_eq!(state, PipelineState::Failed(PipelineError::DeviceUnavailable));
    assert_eq!(action, PipelineAction::Stop);

    // Whatever arrives later, the failed run never asks to transcribe.
    let (state, action) = step(state, PipelineEvent::ChunkReceived(vec![1u8, 2]));
    assert_eq!(state, PipelineState::Failed(PipelineError::DeviceUnavailable));
    assert_eq!(action, PipelineAction::Stop);
}

#[test]
fn configuration_and_encoding_failures_are_terminal() {
    let (state, action) = step(
        PipelineState::Capturing,
        PipelineEvent::CaptureFailed(PipelineError::ConfigurationError),
    );
    assert_eq!(state, PipelineState::Failed(PipelineError::ConfigurationError));
    assert_eq!(action, PipelineAction::Stop);

    let (state, action) = step(
        PipelineState::AwaitingChunk,
        PipelineEvent::CaptureFailed(PipelineError::EncodingError),
    );
    assert_eq!(state, PipelineState::Failed(PipelineError::EncodingError));
    assert_eq!(action, PipelineAction::Stop);
}

#[test]
fn service_error_propagates_and_the_chunk_is_not_retried() {
    let (state, action) = step(
        PipelineState::AwaitingChunk,
        PipelineEvent::ChunkReceived(vec![7u8, 8, 9]),
    );
    assert_eq!(state, PipelineState::Transcribing);
    assert_eq!(action, PipelineAction::Transcribe(vec![7u8, 8, 9]));

    let (state, action) = step(
        state,
        PipelineEvent::TranscriptionFailed(String::from("upstream said no")),
    );
    assert_eq!(
        state,
        PipelineState::Failed(PipelineError::ServiceError(String::from("upstream said no")))
    );
    assert_eq!(action, PipelineAction::Stop);

    // A late chunk does not restart the transcription.
    let (state, action) = step(state, PipelineEvent::ChunkReceived(vec![7u8, 8, 9]));
    assert!(matches!(state, PipelineState::Failed(_)));
    assert_eq!(action, PipelineAction::Stop);
}

#[test]
fn closed_channel_with_no_chunks_means_no_audio_received() {
    let (state, action) = step(PipelineState::AwaitingChunk, PipelineEvent::ChannelClosed);
    assert_eq!(state, PipelineState::Failed(PipelineError::NoAudioReceived));
    assert_eq!(action, PipelineAction::Stop);
}

#[test]
fn end_to_end_synthetic_capture_yields_the_stub_transcript() {
    // A synthetic device delivers one buffer: a second of a 440 Hz sine.
    let samples = sine_second();
    assert_eq!(samples.len(), 44100);

    // The capture callback encodes the buffer and hands it off.
    let chunk = encode_chunk(&samples).unwrap();
    assert_eq!(chunk.len(), HEADER_LEN + 2 * 44100);
    let mut ch = TransferChannel::new(32);
    assert!(ch.try_send(chunk).is_ok());
    ch.close();

    // The orchestrator drives the run.
    let (state, action) = step(PipelineState::Idle, PipelineEvent::Start);
    assert_eq!(action, PipelineAction::StartCapture);
    let (state, action) = step(state, PipelineEvent::CaptureStarted);
    assert_eq!(action, PipelineAction::AwaitChunk);

    let received = ch.recv().expect("one chunk was queued");
    let (state, action) = step(state, PipelineEvent::ChunkReceived(received));

    // The run asks for exactly one transcription of the container, which
    // still decodes back to the captured samples.
    let payload = match action {
        PipelineAction::Transcribe(payload) => payload,
        other => panic!("expected a transcription request, got {:?}", other),
    };
    assert_eq!(payload.len(), HEADER_LEN + 2 * 44100);
    assert_eq!(decode_wav(&payload), Some(samples));

    // A stub collaborator echoes a fixed string.
    let stub_transcript = String::from("four forty for one second");
    let (state, action) = step(state, PipelineEvent::TranscriptReceived(stub_transcript.clone()));
    assert_eq!(state, PipelineState::Done(stub_transcript));
    assert_eq!(action, PipelineAction::Stop);
}
