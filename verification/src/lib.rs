//! A verified capture-to-transcription pipeline core.
//!
//! The library holds the logic of a small voice-transcription pipeline: a
//! sample encoder that packages 16-bit PCM audio into a WAV container, a
//! bounded FIFO hand-off channel model, and the orchestrator state machine
//! that drives one capture-and-transcribe run. The surrounding binary does
//! the outside work — the audio device, the threads, the network call — and
//! feeds plain values in and out of these verified pieces.

pub mod channel;
pub mod pipeline;
pub mod wav;
