use vstd::prelude::*;

use crate::error::{Failure, TranscriptionError};
use crate::params::{
    language_spec, model_path, model_path_spec, DecodeParams, ModelParams, ENGINE_THREADS,
    GREEDY_BEST_OF,
};

verus! {

/// Where a transcription run stands. The stages follow each other in this
/// order; every failure ends the run at once.
#[derive(Debug, Clone, Copy, PartialEq, Eq, Structural)]
pub enum Stage {
    /// Waiting to hear whether the model file exists.
    ResolvingModel,
    /// Waiting for the engine to load the model.
    LoadingModel,
    /// Waiting for the audio file to be opened as a WAV reader.
    OpeningAudio,
    /// Collecting decoded samples until the reader is exhausted.
    ReadingAudio,
    /// Waiting for the engine to allocate its inference state.
    CreatingSession,
    /// Waiting for inference over all samples to finish.
    RunningInference,
    /// Collecting the text of segment `next` out of `count`.
    Extracting { count: i32, next: i32 },
    /// The run has completed or failed; nothing more is awaited.
    Finished,
}

/// What the host reports back after performing an [`Action`].
#[derive(Debug, PartialEq, Eq)]
pub enum Event {
    /// Whether the model file exists.
    ModelChecked { exists: bool },
    /// The engine loaded the model, or its diagnostic.
    ModelLoaded(Result<(), String>),
    /// The audio file opened as a WAV reader, or the decoder's diagnostic.
    AudioOpened(Result<(), String>),
    /// The next sample item of the reader: `None` where it failed to decode.
    SampleRead(Option<i16>),
    /// The reader has no samples left.
    AudioEnded,
    /// The engine allocated its inference state, or its diagnostic.
    SessionCreated(Result<(), String>),
    /// Inference finished with this many segments, or the engine's diagnostic.
    InferenceFinished(Result<i32, String>),
    /// The text of the requested segment, `None` where it is unavailable.
    SegmentText(Option<String>),
}

/// What the host is asked to do next.
#[derive(Debug, Clone, PartialEq, Eq)]
pub enum Action {
    /// Check that the model file at `path` exists.
    CheckModel { path: String },
    /// Load the model at `path` with `params`.
    LoadModel { path: String, params: ModelParams },
    /// Open the audio file as a WAV reader.
    OpenAudio,
    /// Read the next sample item from the reader.
    ReadSample,
    /// Allocate the engine's inference state.
    CreateSession,
    /// Run inference over [`Transcription::samples`], each scaled by
    /// `1 / PCM_SCALE`, as `decoding` says.
    RunInference { decoding: DecodeParams },
    /// Fetch the text of segment `index`.
    FetchSegment { index: i32 },
    /// The run is over: this is the transcript.
    Complete { text: String },
    /// The run is over: it failed.
    Fail { error: TranscriptionError },
}

/// The mathematical value of an [`Action`].
pub enum Reply {
    CheckModel { path: Seq<char> },
    LoadModel { path: Seq<char>, params: ModelParams },
    OpenAudio,
    ReadSample,
    CreateSession,
    RunInference { best_of: i32, n_threads: i32, language: Seq<char> },
    FetchSegment { index: i32 },
    Complete { text: Seq<char> },
    Fail { failure: Failure },
}

impl View for Action {
    type V = Reply;

    open spec fn view(&self) -> Reply {
        match self {
            Action::CheckModel { path } => Reply::CheckModel { path: path@ },
            Action::LoadModel { path, params } => Reply::LoadModel { path: path@, params: *params },
            Action::OpenAudio => Reply::OpenAudio,
            Action::ReadSample => Reply::ReadSample,
            Action::CreateSession => Reply::CreateSession,
            Action::RunInference { decoding } => Reply::RunInference {
                best_of: decoding.best_of,
                n_threads: decoding.n_threads,
                language: decoding.language@,
            },
            Action::FetchSegment { index } => Reply::FetchSegment { index: *index },
            Action::Complete { text } => Reply::Complete { text: text@ },
            Action::Fail { error } => Reply::Fail { failure: error@ },
        }
    }
}

/// The mathematical value of a [`Transcription`]: its stage, the samples
/// decoded so far, and the text of the segments extracted so far.
pub struct RunView {
    pub stage: Stage,
    pub samples: Seq<i16>,
    pub text: Seq<char>,
}

/// The state of a run before anything has been done.
pub open spec fn fresh_run() -> RunView {
    RunView { stage: Stage::ResolvingModel, samples: Seq::empty(), text: Seq::empty() }
}

/// Whether a run at `stage` takes event `e` next.
pub open spec fn awaits(stage: Stage, e: Event) -> bool {
    match e {
        Event::ModelChecked { .. } => stage == Stage::ResolvingModel,
        Event::ModelLoaded(_) => stage == Stage::LoadingModel,
        Event::AudioOpened(_) => stage == Stage::OpeningAudio,
        Event::SampleRead(_) => stage == Stage::ReadingAudio,
        Event::AudioEnded => stage == Stage::ReadingAudio,
        Event::SessionCreated(_) => stage == Stage::CreatingSession,
        Event::InferenceFinished(_) => stage == Stage::RunningInference,
        Event::SegmentText(_) => stage is Extracting,
    }
}

/// Whether segment `next` is the last of `count`.
pub open spec fn is_last_segment(count: i32, next: i32) -> bool {
    next + 1 >= count
}

/// The run after it takes event `e`.
pub open spec fn advance(v: RunView, e: Event) -> RunView {
    match e {
        Event::ModelChecked { exists } => RunView {
            stage: if exists { Stage::LoadingModel } else { Stage::Finished },
            ..v
        },
        Event::ModelLoaded(r) => RunView {
            stage: if r is Ok { Stage::OpeningAudio } else { Stage::Finished },
            ..v
        },
        Event::AudioOpened(r) => RunView {
            stage: if r is Ok { Stage::ReadingAudio } else { Stage::Finished },
            ..v
        },
        Event::SampleRead(s) => RunView {
            samples: match s {
                Some(x) => v.samples.push(x),
                None => v.samples,
            },
            ..v
        },
        Event::AudioEnded => RunView { stage: Stage::CreatingSession, ..v },
        Event::SessionCreated(r) => RunView {
            stage: if r is Ok { Stage::RunningInference } else { Stage::Finished },
            ..v
        },
        Event::InferenceFinished(r) => RunView {
            stage: match r {
                Ok(n) => if n > 0 { Stage::Extracting { count: n, next: 0 } } else { Stage::Finished },
                Err(_) => Stage::Finished,
            },
            ..v
        },
        Event::SegmentText(t) => match v.stage {
            Stage::Extracting { count, next } => match t {
                Some(s) => if is_last_segment(count, next) {
                    RunView { stage: Stage::Finished, text: Seq::empty(), ..v }
                } else {
                    RunView {
                        stage: Stage::Extracting { count, next: (next + 1) as i32 },
                        text: v.text + s@,
                        ..v
                    }
                },
                None => RunView { stage: Stage::Finished, text: Seq::empty(), ..v },
            },
            // Segment texts are awaited only while extracting.
            _ => v,
        },
    }
}

/// What a run asks for after it takes event `e`.
pub open spec fn reply(v: RunView, e: Event) -> Reply {
    match e {
        Event::ModelChecked { exists } => if exists {
            Reply::LoadModel { path: model_path_spec(), params: ModelParams::cpu_only_spec() }
        } else {
            Reply::Fail { failure: Failure::ModelNotFound }
        },
        Event::ModelLoaded(r) => match r {
            Ok(_) => Reply::OpenAudio,
            Err(d) => Reply::Fail { failure: Failure::ModelLoad(d@) },
        },
        Event::AudioOpened(r) => match r {
            Ok(_) => Reply::ReadSample,
            Err(d) => Reply::Fail { failure: Failure::AudioOpen(d@) },
        },
        Event::SampleRead(_) => Reply::ReadSample,
        Event::AudioEnded => Reply::CreateSession,
        Event::SessionCreated(r) => match r {
            Ok(_) => Reply::RunInference {
                best_of: GREEDY_BEST_OF,
                n_threads: ENGINE_THREADS,
                language: language_spec(),
            },
            Err(d) => Reply::Fail { failure: Failure::Session(d@) },
        },
        Event::InferenceFinished(r) => match r {
            Ok(n) => if n > 0 {
                Reply::FetchSegment { index: 0 }
            } else {
                Reply::Complete { text: Seq::empty() }
            },
            Err(d) => Reply::Fail { failure: Failure::Inference(d@) },
        },
        Event::SegmentText(t) => match v.stage {
            Stage::Extracting { count, next } => match t {
                Some(s) => if is_last_segment(count, next) {
                    Reply::Complete { text: v.text + s@ }
                } else {
                    Reply::FetchSegment { index: (next + 1) as i32 }
                },
                None => Reply::Fail { failure: Failure::SegmentExtraction(next) },
            },
            // Segment texts are awaited only while extracting.
            _ => Reply::ReadSample,
        },
    }
}

/// A single transcription run, driven by the host: each call of
/// [`Transcription::step`] takes the outcome of the last action and names
/// the next one.
pub struct Transcription {
    stage: Stage,
    samples: Vec<i16>,
    text: String,
}

impl View for Transcription {
    type V = RunView;

    closed spec fn view(&self) -> RunView {
        RunView { stage: self.stage, samples: self.samples@, text: self.text@ }
    }
}

impl Transcription {
    /// The segment counter stays in range while extracting; text is
    /// collected only while extracting.
    pub open spec fn wf(&self) -> bool {
        run_wf(self@)
    }

    /// Starts a run; its first action checks that the model file exists.
    pub fn new() -> (r: (Transcription, Action))
        ensures
            r.0@ == fresh_run(),
            r.0.wf(),
            r.1@ == (Reply::CheckModel { path: model_path_spec() }),
    {
        let t = Transcription { stage: Stage::ResolvingModel, samples: Vec::new(), text: String::new() };
        proof {
            assert(t@.samples =~= Seq::empty());
        }
        (t, Action::CheckModel { path: model_path() })
    }

    /// Where the run stands.
    pub fn stage(&self) -> (r: Stage)
        ensures
            r == self@.stage,
    {
        self.stage
    }

    /// The samples decoded so far, in the order the reader gave them.
    pub fn samples(&self) -> (r: &Vec<i16>)
        ensures
            r@ == self@.samples,
    {
        &self.samples
    }

    /// Whether the run takes `event` next.
    pub fn accepts(&self, event: &Event) -> (r: bool)
        ensures
            r == awaits(self@.stage, *event),
    {
        match event {
            Event::ModelChecked { .. } => self.stage == Stage::ResolvingModel,
            Event::ModelLoaded(_) => self.stage == Stage::LoadingModel,
            Event::AudioOpened(_) => self.stage == Stage::OpeningAudio,
            Event::SampleRead(_) => self.stage == Stage::ReadingAudio,
            Event::AudioEnded => self.stage == Stage::ReadingAudio,
            Event::SessionCreated(_) => self.stage == Stage::CreatingSession,
            Event::InferenceFinished(_) => self.stage == Stage::RunningInference,
            Event::SegmentText(_) => match self.stage {
                Stage::Extracting { .. } => true,
                _ => false,
            },
        }
    }

    /// Takes the outcome of the last action and names the next one.
    pub fn step(&mut self, event: Event) -> (action: Action)
        requires
            old(self).wf(),
            awaits(old(self)@.stage, event),
        ensures
            final(self).wf(),
            final(self)@ == advance(old(self)@, event),
            action@ == reply(old(self)@, event),
    {
        match event {
            Event::ModelChecked { exists } => {
                if exists {
                    self.stage = Stage::LoadingModel;
                    Action::LoadModel { path: model_path(), params: ModelParams::cpu_only() }
                } else {
                    self.stage = Stage::Finished;
                    Action::Fail { error: TranscriptionError::ModelNotFound }
                }
            },
            Event::ModelLoaded(r) => match r {
                Ok(_) => {
                    self.stage = Stage::OpeningAudio;
                    Action::OpenAudio
                },
                Err(detail) => {
                    self.stage = Stage::Finished;
                    Action::Fail { error: TranscriptionError::ModelLoadError { detail } }
                },
            },
            Event::AudioOpened(r) => match r {
                Ok(_) => {
                    self.stage = Stage::ReadingAudio;
                    Action::ReadSample
                },
                Err(detail) => {
                    self.stage = Stage::Finished;
                    Action::Fail { error: TranscriptionError::AudioOpenError { detail } }
                },
            },
            Event::SampleRead(s) => {
                match s {
                    Some(x) => self.samples.push(x),
                    None => {},
                }
                Action::ReadSample
            },
            Event::AudioEnded => {
                self.stage = Stage::CreatingSession;
                Action::CreateSession
            },
            Event::SessionCreated(r) => match r {
                Ok(_) => {
                    self.stage = Stage::RunningInference;
                    Action::RunInference { decoding: DecodeParams::greedy_english() }
                },
                Err(detail) => {
                    self.stage = Stage::Finished;
                    Action::Fail { error: TranscriptionError::SessionError { detail } }
                },
            },
            Event::InferenceFinished(r) => match r {
                Ok(n) => {
                    if n > 0 {
                        self.stage = Stage::Extracting { count: n, next: 0 };
                        Action::FetchSegment { index: 0 }
                    } else {
                        self.stage = Stage::Finished;
                        Action::Complete { text: String::new() }
                    }
                },
                Err(detail) => {
                    self.stage = Stage::Finished;
                    Action::Fail { error: TranscriptionError::InferenceError { detail } }
                },
            },
            Event::SegmentText(t) => {
                let (count, next) = match self.stage {
                    Stage::Extracting { count, next } => (count, next),
                    _ => (0, 0),
                };
                match t {
                    Some(s) => {
                        if next + 1 >= count {
                            let text = self.text.clone().concat(s.as_str());
                            self.text = String::new();
                            self.stage = Stage::Finished;
                            Action::Complete { text }
                        } else {
                            self.text.append(s.as_str());
                            self.stage = Stage::Extracting { count, next: next + 1 };
                            Action::FetchSegment { index: next + 1 }
                        }
                    },
                    None => {
                        self.text = String::new();
                        self.stage = Stage::Finished;
                        Action::Fail { error: TranscriptionError::SegmentExtractionError { index: next } }
                    },
                }
            },
        }
    }
}

/// The segment counter stays in range while extracting; text is collected
/// only while extracting.
pub open spec fn run_wf(v: RunView) -> bool {
    match v.stage {
        Stage::Extracting { count, next } => 0 <= next < count,
        _ => v.text == Seq::<char>::empty(),
    }
}

} // verus!
