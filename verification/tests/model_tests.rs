use predict_otron::model::{model_id_to_which, normalize_model_id, Family, Which};

#[test]
fn test_which_model_id() {
    assert_eq!(Which::Base2B.to_model_id(), "google/gemma-2b");
    assert_eq!(Which::Instruct7B.to_model_id(), "google/gemma-7b-it");
}

#[test]
fn test_which_is_instruct() {
    assert!(!Which::Base2B.is_instruct_model());
    assert!(Which::Instruct7B.is_instruct_model());
}

#[test]
fn test_which_is_v3() {
    assert!(!Which::Base2B.is_v3_model());
    assert!(Which::BaseV3_1B.is_v3_model());
}

#[test]
fn test_normalize_model_id() {
    assert_eq!(normalize_model_id("Gemma_3_1B_IT"), "gemma-3-1b-it");
    assert_eq!(normalize_model_id("llama-3.2-1b"), "llama-3.2-1b");
    assert_eq!(normalize_model_id("google/Gemma-3-1b-it"), "gemma-3-1b-it");
    assert_eq!(normalize_model_id("meta-llama/Llama-3.2-1B"), "llama-3.2-1b");
    // Normalization is idempotent: a normalized id normalizes to itself.
    let once = normalize_model_id("HuggingFaceTB/SmolLM2_135M");
    assert_eq!(normalize_model_id(&once), once);
}

#[test]
fn test_model_id_lookup() {
    assert_eq!(model_id_to_which("gemma-3-1b-it"), Some(Which::InstructV3_1B));
    assert_eq!(model_id_to_which("GEMMA_3_1B_IT"), Some(Which::InstructV3_1B));
    assert_eq!(model_id_to_which("llama-3.2-3b-instruct"), Some(Which::Llama32_3BInstruct));
    assert_eq!(model_id_to_which("google/gemma-3-1b-it"), Some(Which::InstructV3_1B));
    assert_eq!(model_id_to_which("smollm2-1.7b-instruct"), Some(Which::SmolLM2_1_7BInstruct));
    assert_eq!(
        model_id_to_which("HuggingFaceTB/SmolLM2-135M"),
        Some(Which::SmolLM2_135M)
    );
    assert_eq!(model_id_to_which("tinyllama-1.1b-chat"), Some(Which::TinyLlama1_1BChat));
    assert_eq!(model_id_to_which("gpt-5-ultra"), None);
}

#[test]
fn test_meta_family() {
    assert_eq!(Which::BaseV2_9B.meta().family, Family::GemmaV2);
    assert_eq!(Which::SmolLM2_360M.meta().family, Family::SmolLM);
    assert_eq!(Which::TinyLlama1_1BChat.meta().family, Family::TinyLlama);
    assert!(Which::TinyLlama1_1BChat.is_instruct_model());
    assert!(Which::Llama32_1B.is_llama_model());
    assert!(Which::SmolLM2_135M.is_llama_model());
    assert!(Which::TinyLlama1_1BChat.is_llama_model());
    assert!(!Which::CodeBase2B.is_llama_model());
    assert_eq!(
        Which::SmolLM2_1_7BInstruct.to_model_id(),
        "HuggingFaceTB/SmolLM2-1.7B-Instruct"
    );
}

#[test]
fn test_catalog_owners() {
    assert_eq!(Which::Base2B.owned_by(), "google");
    assert_eq!(Which::Llama32_1B.owned_by(), "meta-llama");
    assert_eq!(Which::SmolLM2_135M.owned_by(), "HuggingFaceTB");
    assert_eq!(Which::TinyLlama1_1BChat.owned_by(), "TinyLlama");
    assert_eq!(Which::Base2B.api_id(), "gemma-2b");
    assert_eq!(Which::SmolLM2_135M.api_id(), "smollm2-135m");
    assert_eq!(Which::TinyLlama1_1BChat.api_id(), "tinyllama-1.1b-chat");
    let all = predict_otron::model::all_chat_models();
    assert_eq!(all.len(), 27);
}
