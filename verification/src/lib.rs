//! Verified core of an OpenAI-compatible inference gateway: model
//! descriptors, prompt assembly, generation bookkeeping, streaming envelope,
//! embeddings resolution, configuration, and proxy header policy.
pub mod bun_target;
pub mod cache;
pub mod chat;
pub mod config;
pub mod device;
pub mod embed;
pub mod gemma;
pub mod gen;
pub mod json;
pub mod llama;
pub mod loader;
pub mod metrics;
pub mod model;
pub mod penalty;
pub mod prompt;
pub mod proxy;
pub mod sampler;
pub mod sse;
pub mod text;
pub mod tokstream;
