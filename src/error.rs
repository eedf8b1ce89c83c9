use vstd::prelude::*;

verus! {

/// Why a transcription run stopped. Each stage of the run fails with a kind
/// of its own; the engine's and the decoder's diagnostics travel along.
#[derive(Debug, Clone, PartialEq, Eq)]
pub enum TranscriptionError {
    /// The configured model file does not exist.
    ModelNotFound,
    /// The engine could not parse or initialise the model.
    ModelLoadError { detail: String },
    /// The audio file is missing, unreadable or not a WAV file.
    AudioOpenError { detail: String },
    /// The engine could not allocate its inference state.
    SessionError { detail: String },
    /// The engine failed while decoding the audio.
    InferenceError { detail: String },
    /// The text of the segment at `index` could not be retrieved.
    SegmentExtractionError { index: i32 },
}

/// The mathematical value of a [`TranscriptionError`].
pub enum Failure {
    ModelNotFound,
    ModelLoad(Seq<char>),
    AudioOpen(Seq<char>),
    Session(Seq<char>),
    Inference(Seq<char>),
    SegmentExtraction(i32),
}

impl View for TranscriptionError {
    type V = Failure;

    open spec fn view(&self) -> Failure {
        match self {
            TranscriptionError::ModelNotFound => Failure::ModelNotFound,
            TranscriptionError::ModelLoadError { detail } => Failure::ModelLoad(detail@),
            TranscriptionError::AudioOpenError { detail } => Failure::AudioOpen(detail@),
            TranscriptionError::SessionError { detail } => Failure::Session(detail@),
            TranscriptionError::InferenceError { detail } => Failure::Inference(detail@),
            TranscriptionError::SegmentExtractionError { index } => Failure::SegmentExtraction(
                *index,
            ),
        }
    }
}

} // verus!
