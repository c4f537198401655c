//! Construction parameters of an inference context, and the runner that
//! fixes the ones this server uses.
use vstd::prelude::*;

verus! {

/// The engine's default context parameters, from which a configuration
/// starts.
pub struct ContextDefaults {
    pub n_ctx: i32,
    pub n_gpu_layers: i32,
    pub seed: i32,
    pub f16_kv: bool,
    pub logits_all: bool,
    pub vocab_only: bool,
    pub use_mlock: bool,
    pub use_mmap: bool,
    pub embedding: bool,
}

/// Parameters an inference context is built from.
pub struct LContextConfig {
    pub model_path: String,
    pub n_ctx: i32,
    pub n_gpu_layers: i32,
    pub seed: i32,
    pub f16_kv: bool,
    pub logits_all: bool,
    pub vocab_only: bool,
    pub use_mlock: bool,
    pub use_mmap: bool,
    pub embedding: bool,
}

impl LContextConfig {
    /// A configuration for the model file at `path`, with the engine's
    /// defaults for everything else.
    pub fn new(path: &str, defaults: &ContextDefaults) -> (r: LContextConfig)
        ensures
            r.model_path@ == path@,
            r.n_ctx == defaults.n_ctx,
            r.n_gpu_layers == defaults.n_gpu_layers,
            r.seed == defaults.seed,
            r.f16_kv == defaults.f16_kv,
            r.logits_all == defaults.logits_all,
            r.vocab_only == defaults.vocab_only,
            r.use_mlock == defaults.use_mlock,
            r.use_mmap == defaults.use_mmap,
            r.embedding == defaults.embedding,
    {
        LContextConfig {
            model_path: String::from_str(path),
            n_ctx: defaults.n_ctx,
            n_gpu_layers: defaults.n_gpu_layers,
            seed: defaults.seed,
            f16_kv: defaults.f16_kv,
            logits_all: defaults.logits_all,
            vocab_only: defaults.vocab_only,
            use_mlock: defaults.use_mlock,
            use_mmap: defaults.use_mmap,
            embedding: defaults.embedding,
        }
    }
}

/// Context length the server runs with.
pub const RUNNER_N_CTX: i32 = 1024;

/// Worker threads handed to the engine.
pub const RUNNER_THREADS: i32 = 8;

/// Tokens requested per generation.
pub const RUNNER_GENERATE_TOKENS: usize = 1024;

/// Top-k bound of the server's sampling.
pub const RUNNER_TOP_K: i32 = 40;

/// Repetition window of the server's sampling.
pub const RUNNER_REPEAT_LAST_N: i32 = 64;

/// The fixed choices with which the server runs generations.
pub struct LlmRunner {}

impl LlmRunner {
    pub fn new() -> (r: LlmRunner) {
        LlmRunner {  }
    }

    /// The context configuration for one generation: the model at `path`,
    /// a 1024-token context and the given seed; the rest from `defaults`.
    pub fn context_config(&self, path: &str, defaults: &ContextDefaults, seed: u32) -> (r:
        LContextConfig)
        ensures
            r.model_path@ == path@,
            r.n_ctx == RUNNER_N_CTX,
            r.seed == seed as i32,
            r.n_gpu_layers == defaults.n_gpu_layers,
            r.f16_kv == defaults.f16_kv,
            r.logits_all == defaults.logits_all,
            r.vocab_only == defaults.vocab_only,
            r.use_mlock == defaults.use_mlock,
            r.use_mmap == defaults.use_mmap,
            r.embedding == defaults.embedding,
    {
        let mut config = LContextConfig::new(path, defaults);
        config.n_ctx = RUNNER_N_CTX;
        config.seed = seed as i32;
        config
    }
}

} // verus!
