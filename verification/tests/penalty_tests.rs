use predict_otron::penalty::{
    apply_cached_repeat_penalty, fresh_targets, PenaltyCache, NEUTRAL_PENALTY_BITS,
};

fn bits(v: &[f32]) -> Vec<u32> {
    v.iter().map(|x| x.to_bits()).collect()
}

fn floats(v: &[u32]) -> Vec<f32> {
    v.iter().map(|x| f32::from_bits(*x)).collect()
}

/// The one floating-point step the library leaves to its caller: the
/// penalized value of a logit, sign preserved.
fn penalize(logit_bits: u32, penalty: f32) -> u32 {
    let score = f32::from_bits(logit_bits);
    let sign = if score < 0.0 { -1.0f32 } else { 1.0f32 };
    (sign * score.abs() / penalty).to_bits()
}

fn run_penalty(
    cache: &mut PenaltyCache,
    logits: &[f32],
    tokens: &[u32],
    repeat_last_n: usize,
    penalty: f32,
) -> Vec<f32> {
    let logit_bits = bits(logits);
    let token_vec: Vec<u32> = tokens.to_vec();
    let penalty_bits = penalty.to_bits();
    let (targets, fresh) = if penalty_bits == NEUTRAL_PENALTY_BITS {
        (Vec::new(), Vec::new())
    } else {
        let targets = fresh_targets(cache, logit_bits.len(), &token_vec, repeat_last_n);
        let fresh: Vec<u32> =
            targets.iter().map(|id| penalize(logit_bits[*id as usize], penalty)).collect();
        (targets, fresh)
    };
    let out = apply_cached_repeat_penalty(
        cache,
        &logit_bits,
        &token_vec,
        repeat_last_n,
        penalty_bits,
        &targets,
        &fresh,
    );
    floats(&out)
}

#[test]
fn test_apply_cached_repeat_penalty_no_penalty() {
    let logits_data = vec![1.0f32, 2.0, 3.0, 4.0, 5.0];
    let tokens = vec![1u32, 2u32, 3u32];
    let mut cache = PenaltyCache::new();
    let result = run_penalty(&mut cache, &logits_data, &tokens, 3, 1.0);
    assert_eq!(result, logits_data);
}

#[test]
fn test_apply_cached_repeat_penalty_with_penalty() {
    let logits_data = vec![1.0f32, 2.0, 3.0, 4.0, 5.0];
    let tokens = vec![1u32, 2u32, 3u32];
    let mut cache = PenaltyCache::new();
    let result = run_penalty(&mut cache, &logits_data, &tokens, 3, 2.0);
    let expected = vec![1.0f32, 1.0, 1.5, 2.0, 5.0];
    assert_eq!(result, expected);
}

#[test]
fn test_apply_cached_repeat_penalty_caching() {
    let logits_data = vec![1.0f32, 2.0, 3.0, 4.0, 5.0];
    let tokens = vec![1u32, 1u32, 1u32];
    let mut cache = PenaltyCache::new();
    let _result = run_penalty(&mut cache, &logits_data, &tokens, 3, 2.0);
    assert_eq!(cache.get(1), Some(1.0f32.to_bits()));
}

#[test]
fn test_apply_cached_repeat_penalty_empty_tokens() {
    let logits_data = vec![1.0f32, 2.0, 3.0, 4.0, 5.0];
    let tokens: Vec<u32> = vec![];
    let mut cache = PenaltyCache::new();
    let result = run_penalty(&mut cache, &logits_data, &tokens, 3, 2.0);
    assert_eq!(result, logits_data);
}

#[test]
fn test_apply_cached_repeat_penalty_out_of_bounds() {
    let logits_data = vec![1.0f32, 2.0, 3.0];
    let tokens = vec![1u32, 5u32, 10u32];
    let mut cache = PenaltyCache::new();
    let result = run_penalty(&mut cache, &logits_data, &tokens, 3, 2.0);
    let expected = vec![1.0f32, 1.0, 3.0];
    assert_eq!(result, expected);
}

#[test]
fn test_actual_apply_cached_repeat_penalty_implementation() {
    let logits_data = vec![1.0f32, 2.0, 3.0, 4.0, 5.0];
    let tokens = vec![1u32, 2u32, 3u32];
    let mut cache = PenaltyCache::new();
    let result = run_penalty(&mut cache, &logits_data, &tokens, 3, 2.0);
    assert_eq!(result.len(), logits_data.len());
}

#[test]
fn test_apply_cached_repeat_penalty_usage_pattern() {
    let logits_data = vec![1.5f32, 2.5, 3.5, 4.5, 5.5];
    let tokens = vec![1u32, 2u32, 1u32, 3u32];
    let mut cache = PenaltyCache::new();
    let _result = run_penalty(&mut cache, &logits_data, &tokens, 3, 1.2);
    assert!(cache.get(1).is_some());
    assert!(cache.get(2).is_some());
    assert!(cache.get(3).is_some());
}

#[test]
fn penalty_preserves_signs() {
    let logits_data = vec![-1.0f32, 2.0, -3.0, 4.0];
    let tokens = vec![0u32, 1u32, 2u32, 3u32];
    let mut cache = PenaltyCache::new();
    let result = run_penalty(&mut cache, &logits_data, &tokens, 4, 2.0);
    for (before, after) in logits_data.iter().zip(result.iter()) {
        assert_eq!(before.is_sign_negative(), after.is_sign_negative());
    }
    assert_eq!(result, vec![-0.5f32, 1.0, -1.5, 2.0]);
}

#[test]
fn penalty_memo_survives_new_logits() {
    // The memo keeps the value computed for an id even when later logits
    // at that id differ.
    let tokens = vec![1u32];
    let mut cache = PenaltyCache::new();
    let first = run_penalty(&mut cache, &[1.0f32, 2.0], &tokens, 1, 2.0);
    assert_eq!(first, vec![1.0f32, 1.0]);
    let second = run_penalty(&mut cache, &[9.0f32, 9.0], &tokens, 1, 2.0);
    assert_eq!(second, vec![9.0f32, 1.0]);
}
