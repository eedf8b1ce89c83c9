//! A speech-to-text bridge: the decisions of a single, blocking transcription
//! run (model resolution, audio decoding, inference, segment extraction),
//! stated as a verified state machine that a host drives step by step.
pub mod error;
pub mod greeting;
pub mod laws;
pub mod params;
pub mod pipeline;

pub use error::{Failure, TranscriptionError};
pub use greeting::say_hello;
pub use params::{DecodeParams, ModelParams};
pub use pipeline::{Action, Event, Stage, Transcription};
