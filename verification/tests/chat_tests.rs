use predict_otron::chat::{
    effective_max_tokens, fresh_request_id, render_completion_response, render_error_json,
    usage_counts, validate_chat_model,
};
use predict_otron::model::Which;

#[test]
fn unknown_model_rejected() {
    let err = validate_chat_model("gpt-5-ultra").unwrap_err();
    let v: serde_json::Value = serde_json::from_str(&err).unwrap();
    assert_eq!(v["error"]["message"], "Unsupported model: gpt-5-ultra");
    assert_eq!(v["error"]["type"], "model_not_supported");
    assert!(v["error"]["message"].as_str().unwrap().contains("Unsupported model"));
}

#[test]
fn known_model_accepted() {
    assert_eq!(validate_chat_model("gemma-3-1b-it").unwrap(), Which::InstructV3_1B);
    assert_eq!(validate_chat_model("GEMMA_3_1B_IT").unwrap(), Which::InstructV3_1B);
}

#[test]
fn non_streaming_chat_response() {
    let body = render_completion_response(
        "chatcmpl-test",
        1686935002,
        "gemma-3-1b-it",
        "Hi there.",
        40,
        9,
    );
    let v: serde_json::Value = serde_json::from_str(&body).unwrap();
    assert_eq!(v["object"], "chat.completion");
    assert_eq!(v["choices"][0]["message"]["role"], "assistant");
    assert_eq!(v["choices"][0]["finish_reason"], "stop");
    let content = v["choices"][0]["message"]["content"].as_str().unwrap();
    assert!(!content.is_empty());
    assert_eq!(content, "Hi there.");
    let usage = &v["usage"];
    assert_eq!(
        usage["total_tokens"].as_u64().unwrap(),
        usage["prompt_tokens"].as_u64().unwrap() + usage["completion_tokens"].as_u64().unwrap()
    );
    assert_eq!(usage["prompt_tokens"], 10u64);
    assert_eq!(usage["completion_tokens"], 2u64);
}

#[test]
fn usage_is_byte_quarters() {
    let (p, c, t) = usage_counts(10, 7);
    assert_eq!((p, c, t), (2, 1, 3));
    assert_eq!(usage_counts(0, 0), (0, 0, 0));
}

#[test]
fn max_tokens_defaulting() {
    assert_eq!(effective_max_tokens(None), 1000);
    assert_eq!(effective_max_tokens(Some(8)), 8);
}

#[test]
fn request_id_shape() {
    let id = fresh_request_id();
    assert_eq!(id.len(), 41);
    assert!(id.starts_with("chatcmpl-"));
    assert!(id[9..].chars().all(|c| c.is_ascii_hexdigit() && !c.is_ascii_uppercase()));
}

#[test]
fn error_envelope_escapes() {
    let body = render_error_json("a \"bad\" thing\nhappened", "oops");
    let v: serde_json::Value = serde_json::from_str(&body).unwrap();
    assert_eq!(v["error"]["message"], "a \"bad\" thing\nhappened");
    assert_eq!(v["error"]["type"], "oops");
}
