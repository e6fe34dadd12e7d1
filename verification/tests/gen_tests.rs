use predict_otron::device::{
    default_dtype, effective_device, parse_dtype, select_device, DeviceKind, DtypeKind,
};
use predict_otron::gen::{resolve_stop_tokens, should_fallback_to_cpu, GenSession};
use predict_otron::model::Family;
use predict_otron::sampler::{choose_mode, SamplerMode, SamplerOptions};

#[test]
fn test_text_generation_constructor() {
    let session = GenSession::new(vec![10, 11, 12], 1, 107, 8);
    assert_eq!(session.tokens, vec![10, 11, 12]);
    assert_eq!(session.generated, 0);
    assert!(!session.done);
}

#[test]
fn test_logits_processor() {
    let opts = SamplerOptions {
        seed: 42,
        temperature_bits: 0.8f64.to_bits(),
        top_k: None,
        top_p_bits: Some(0.9f64.to_bits()),
    };
    let mode = choose_mode(&opts);
    assert_eq!(
        mode,
        SamplerMode::TopP { p_bits: 0.9f64.to_bits(), temperature_bits: 0.8f64.to_bits() }
    );
}

#[test]
fn sampler_mode_selection() {
    let argmax = SamplerOptions {
        seed: 0,
        temperature_bits: 0.0f64.to_bits(),
        top_k: Some(5),
        top_p_bits: Some(0.9f64.to_bits()),
    };
    assert_eq!(choose_mode(&argmax), SamplerMode::ArgMax);
    let neg = SamplerOptions {
        seed: 0,
        temperature_bits: (-1.0f64).to_bits(),
        top_k: None,
        top_p_bits: None,
    };
    assert_eq!(choose_mode(&neg), SamplerMode::ArgMax);
    let all = SamplerOptions {
        seed: 0,
        temperature_bits: 0.7f64.to_bits(),
        top_k: None,
        top_p_bits: None,
    };
    assert_eq!(choose_mode(&all), SamplerMode::All { temperature_bits: 0.7f64.to_bits() });
    let both = SamplerOptions {
        seed: 0,
        temperature_bits: 0.7f64.to_bits(),
        top_k: Some(50),
        top_p_bits: Some(0.95f64.to_bits()),
    };
    assert_eq!(
        choose_mode(&both),
        SamplerMode::TopKThenTopP {
            k: 50,
            p_bits: 0.95f64.to_bits(),
            temperature_bits: 0.7f64.to_bits()
        }
    );
}

#[test]
fn sampler_mode_deterministic() {
    let opts = SamplerOptions {
        seed: 42,
        temperature_bits: 0.8f64.to_bits(),
        top_k: Some(3),
        top_p_bits: None,
    };
    assert_eq!(choose_mode(&opts), choose_mode(&opts));
}

#[test]
fn generation_stops_at_cap() {
    let mut session = GenSession::new(vec![1, 2], 99, 100, 3);
    assert!(session.record_token(5));
    assert!(!session.done);
    assert!(session.record_token(6));
    assert!(!session.done);
    assert!(session.record_token(7));
    assert!(session.done);
    assert_eq!(session.generated, 3);
    assert_eq!(session.tokens, vec![1, 2, 5, 6, 7]);
}

#[test]
fn generation_stops_on_eos_without_emitting() {
    let mut session = GenSession::new(vec![1], 99, 100, 10);
    assert!(session.record_token(5));
    let emit = session.record_token(99);
    assert!(!emit);
    assert!(session.done);
    let mut other = GenSession::new(vec![1], 99, 100, 10);
    let emit_eot = other.record_token(100);
    assert!(!emit_eot);
    assert!(other.done);
}

#[test]
fn next_input_follows_kv_policy() {
    let mut session = GenSession::new(vec![7, 8, 9], 99, 100, 4);
    assert_eq!(session.next_input_range(), (0, 3));
    session.record_token(5);
    assert_eq!(session.next_input_range(), (3, 4));
}

#[test]
fn stop_token_resolution() {
    assert!(resolve_stop_tokens(None, Some(3)).is_err());
    assert_eq!(resolve_stop_tokens(Some(2), Some(3)).unwrap(), (2, 3));
    assert_eq!(resolve_stop_tokens(Some(2), None).unwrap(), (2, 2));
}

#[test]
fn device_selection_order() {
    assert_eq!(select_device(true, true, true), DeviceKind::Cpu);
    assert_eq!(select_device(false, true, true), DeviceKind::Cuda);
    assert_eq!(select_device(false, false, true), DeviceKind::Metal);
    assert_eq!(select_device(false, false, false), DeviceKind::Cpu);
}

#[test]
fn dtype_defaults_and_overrides() {
    assert_eq!(default_dtype(DeviceKind::Cuda), DtypeKind::BF16);
    assert_eq!(default_dtype(DeviceKind::Cpu), DtypeKind::F16);
    assert_eq!(parse_dtype("f16").unwrap(), DtypeKind::F16);
    assert_eq!(parse_dtype("bf16").unwrap(), DtypeKind::BF16);
    assert_eq!(parse_dtype("f32").unwrap(), DtypeKind::F32);
    let err = parse_dtype("f8").unwrap_err();
    assert_eq!(err, "Unsupported dtype f8");
}

#[test]
fn gemma_v3_leaves_metal() {
    assert_eq!(effective_device(Family::GemmaV3, DeviceKind::Metal), DeviceKind::Cpu);
    assert_eq!(effective_device(Family::GemmaV3, DeviceKind::Cuda), DeviceKind::Cuda);
    assert_eq!(effective_device(Family::GemmaV2, DeviceKind::Metal), DeviceKind::Metal);
}

#[test]
fn cpu_fallback_matches_known_errors() {
    assert!(should_fallback_to_cpu("no metal implementation for rotary-emb", true));
    assert!(should_fallback_to_cpu("no cuda implementation for conv1d", true));
    assert!(should_fallback_to_cpu("shape mismatch in broadcast", true));
    assert!(should_fallback_to_cpu("failed broadcast_add op", true));
    assert!(!should_fallback_to_cpu("no metal implementation for x", false));
    assert!(!should_fallback_to_cpu("out of memory", true));
}
