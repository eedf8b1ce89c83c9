use vstd::prelude::*;

verus! {

/// Full scale of a signed 16-bit PCM sample: the engine receives each sample
/// `s` as the amplitude `s / PCM_SCALE`.
pub const PCM_SCALE: i32 = 32768;

/// Worker threads that the engine is asked to use.
pub const ENGINE_THREADS: i32 = 4;

/// Candidates kept by greedy decoding.
pub const GREEDY_BEST_OF: i32 = 1;

/// Every 16-bit sample `s` lies in `[-PCM_SCALE, PCM_SCALE)`, and only the
/// lowest sample reaches the bottom: its amplitude `s / PCM_SCALE` is thus in
/// `[-1, 1)`, and `-1` for the lowest sample alone.
pub proof fn lemma_sample_within_scale(s: i16)
    ensures
        -PCM_SCALE <= s < PCM_SCALE,
        (s == -PCM_SCALE) <==> (s == i16::MIN),
{
}

/// Where the speech model is read from.
pub open spec fn model_path_spec() -> Seq<char> {
    "./models/ggml-base.en.bin"@
}

/// The language that decoding is forced to.
pub open spec fn language_spec() -> Seq<char> {
    "en"@
}

/// The configured location of the speech model.
pub fn model_path() -> (r: String)
    ensures
        r@ == model_path_spec(),
{
    String::from_str("./models/ggml-base.en.bin")
}

/// How the engine loads the model.
#[derive(Debug, Clone, Copy, PartialEq, Eq, Structural)]
pub struct ModelParams {
    pub use_gpu: bool,
    pub flash_attn: bool,
    pub gpu_device: i32,
}

impl ModelParams {
    /// Plain CPU inference: no hardware acceleration, no flash attention,
    /// device 0.
    pub fn cpu_only() -> (r: ModelParams)
        ensures
            r == ModelParams::cpu_only_spec(),
    {
        ModelParams { use_gpu: false, flash_attn: false, gpu_device: 0 }
    }

    pub open spec fn cpu_only_spec() -> ModelParams {
        ModelParams { use_gpu: false, flash_attn: false, gpu_device: 0 }
    }
}

/// How the engine decodes the audio.
#[derive(Debug, Clone, PartialEq, Eq)]
pub struct DecodeParams {
    /// Greedy decoding keeps this many candidates.
    pub best_of: i32,
    /// Worker threads inside the engine.
    pub n_threads: i32,
    /// The language the engine is told the audio is in.
    pub language: String,
}

impl DecodeParams {
    /// Greedy, best of one, English, on four threads.
    pub fn greedy_english() -> (r: DecodeParams)
        ensures
            r.best_of == GREEDY_BEST_OF,
            r.n_threads == ENGINE_THREADS,
            r.language@ == language_spec(),
    {
        DecodeParams {
            best_of: GREEDY_BEST_OF,
            n_threads: ENGINE_THREADS,
            language: String::from_str("en"),
        }
    }
}

} // verus!
