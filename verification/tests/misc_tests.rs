use predict_otron::bun_target::{BunTarget, BunTargetError};
use predict_otron::gemma;
use predict_otron::llama;
use predict_otron::loader::{dedup_shards, repo_not_found_error};
use predict_otron::metrics::EndpointMetrics;
use predict_otron::model::Which;

#[test]
fn metrics_accumulate() {
    let mut m = EndpointMetrics::default();
    m.add_response_time(10);
    m.add_response_time(30);
    m.add_response_time(20);
    assert_eq!(m.count, 3);
    assert_eq!(m.total_time_ms, 60);
    assert_eq!(m.min_time_ms, 10);
    assert_eq!(m.max_time_ms, 30);
    assert_eq!(m.summary(), "requests: 3, avg: 20.00ms, min: 10ms, max: 30ms");
}

#[test]
fn metrics_summary_empty() {
    let m = EndpointMetrics::default();
    assert_eq!(m.summary(), "requests: 0, avg: 0.00ms, min: 0ms, max: 0ms");
}

#[test]
fn metrics_fractional_average() {
    let mut m = EndpointMetrics::default();
    m.add_response_time(1);
    m.add_response_time(2);
    assert_eq!(m.summary(), "requests: 2, avg: 1.50ms, min: 1ms, max: 2ms");
}

#[test]
fn bun_flags() {
    assert_eq!(BunTarget::LinuxX64Glibc.as_bun_flag(), "bun-linux-x64");
    assert_eq!(BunTarget::MacArm64.as_bun_flag(), "bun-darwin-arm64");
    assert_eq!(
        BunTarget::LinuxX64Glibc.rust_triples(),
        vec!["x86_64-unknown-linux-gnu", "x86_64-unknown-linux-gnu.2.17"]
    );
    assert_eq!(BunTarget::WindowsArm64.rust_triples(), vec!["aarch64-pc-windows-msvc"]);
}

#[test]
fn bun_from_rust_target() {
    assert_eq!(
        BunTarget::from_rust_target("x86_64-unknown-linux-gnu"),
        Some(BunTarget::LinuxX64Glibc)
    );
    assert_eq!(
        BunTarget::from_rust_target("  aarch64-unknown-linux-musl  "),
        Some(BunTarget::LinuxArm64Musl)
    );
    assert_eq!(
        BunTarget::from_rust_target("x86_64-unknown-linux-gnu.2.17"),
        Some(BunTarget::LinuxX64Glibc)
    );
    assert_eq!(BunTarget::from_rust_target("aarch64-apple-darwin"), Some(BunTarget::MacArm64));
    assert_eq!(BunTarget::from_rust_target("wasm32-unknown-unknown"), None);
    let err = BunTargetError::UnknownTriple("wasm32-unknown-unknown".to_string());
    assert_eq!(err.message(), "unrecognized Rust target triple: wasm32-unknown-unknown");
}

#[test]
fn shard_deduplication() {
    let names = vec![
        "model-00001.safetensors".to_string(),
        "model-00002.safetensors".to_string(),
        "model-00001.safetensors".to_string(),
        "model-00003.safetensors".to_string(),
        "model-00002.safetensors".to_string(),
    ];
    let deduped = dedup_shards(&names);
    assert_eq!(
        deduped,
        vec![
            "model-00001.safetensors".to_string(),
            "model-00002.safetensors".to_string(),
            "model-00003.safetensors".to_string(),
        ]
    );
}

#[test]
fn repo_error_names_repo_and_revision() {
    assert_eq!(
        repo_not_found_error("google/gemma-3-1b-it", "main"),
        "repository not found: google/gemma-3-1b-it (revision main)"
    );
}

#[test]
fn runner_model_mapping() {
    assert_eq!(gemma::gemma_model_of(Which::InstructV3_1B), Some(gemma::WhichModel::InstructV3_1B));
    assert_eq!(gemma::gemma_model_of(Which::Llama32_1B), None);
    assert_eq!(
        llama::llama_model_of(Which::Llama32_3BInstruct),
        Some(llama::WhichModel::Llama32_3BInstruct)
    );
    assert_eq!(llama::llama_model_of(Which::Base2B), None);
    assert_eq!(gemma::WhichModel::InstructV3_1B.repo_id(), "google/gemma-3-1b-it");
    assert_eq!(llama::WhichModel::TinyLlama1_1BChat.repo_id(), "TinyLlama/TinyLlama-1.1B-Chat-v1.0");
}

#[test]
fn gemma_v3_prompt_wrapping() {
    assert_eq!(
        gemma::wrap_prompt(gemma::WhichModel::InstructV3_1B, "Say hi."),
        "<start_of_turn>user\nSay hi.<end_of_turn>\n<start_of_turn>model\n"
    );
    assert_eq!(gemma::wrap_prompt(gemma::WhichModel::Base2B, "Say hi."), "Say hi.");
}

#[test]
fn weight_file_layout() {
    assert!(gemma::WhichModel::BaseV3_1B.single_weight_file());
    assert!(!gemma::WhichModel::Base2B.single_weight_file());
    assert!(llama::WhichModel::Llama32_3B.sharded_weights());
    assert!(!llama::WhichModel::Llama32_1B.sharded_weights());
}

#[test]
fn gemma_runner_names_round_trip() {
    assert_eq!(
        gemma::WhichModel::from_name("gemma-3-1b-it").unwrap(),
        gemma::WhichModel::InstructV3_1B
    );
    assert_eq!(gemma::WhichModel::InstructV3_1B.name(), "gemma-3-1b-it");
    assert_eq!(
        gemma::WhichModel::from_name("gemma-9000").unwrap_err(),
        "Unknown model: gemma-9000"
    );
}
