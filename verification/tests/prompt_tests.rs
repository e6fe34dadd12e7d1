use predict_otron::prompt::{build_gemma_prompt, build_llama_prompt, Message};

fn msg(role: &str, content: &str) -> Message {
    Message { role: role.to_string(), content: Some(content.to_string()) }
}

#[test]
fn test_build_gemma_prompt() {
    let messages = vec![
        msg("system", "System message"),
        msg("user", "Knock knock."),
        msg("assistant", "Who's there?"),
        msg("user", "Gemma."),
    ];

    let prompt = build_gemma_prompt(&messages);

    let expected = "<start_of_turn>user\nSystem message\n\nKnock knock.<end_of_turn>\n\
                    <start_of_turn>model\nWho's there?<end_of_turn>\n\
                    <start_of_turn>user\nGemma.<end_of_turn>\n\
                    <start_of_turn>model\n";

    assert_eq!(prompt, expected);
}

#[test]
fn test_empty_messages() {
    let messages: Vec<Message> = vec![];
    let prompt = build_gemma_prompt(&messages);
    assert_eq!(prompt, "<start_of_turn>model\n");
}

#[test]
fn test_missing_content() {
    let messages = vec![Message { role: "user".to_string(), content: None }];

    let prompt = build_gemma_prompt(&messages);
    assert_eq!(prompt, "<start_of_turn>user\n<end_of_turn>\n<start_of_turn>model\n");
}

#[test]
fn gemma_prompt_template_exact() {
    let messages = vec![
        msg("system", "S"),
        msg("user", "U1"),
        msg("assistant", "A1"),
        msg("user", "U2"),
    ];
    let prompt = build_gemma_prompt(&messages);
    assert_eq!(
        prompt,
        "<start_of_turn>user\nS\n\nU1<end_of_turn>\n<start_of_turn>model\nA1<end_of_turn>\n<start_of_turn>user\nU2<end_of_turn>\n<start_of_turn>model\n"
    );
}

#[test]
fn gemma_prompt_shape() {
    let cases: Vec<Vec<Message>> = vec![
        vec![],
        vec![msg("user", "hi")],
        vec![msg("weird-role", "x")],
        vec![msg("system", "only system")],
    ];
    for messages in cases {
        let prompt = build_gemma_prompt(&messages);
        assert!(prompt.starts_with("<start_of_turn>"));
        assert!(prompt.ends_with("<start_of_turn>model\n"));
    }
}

#[test]
fn gemma_prompt_deterministic() {
    let messages = vec![msg("user", "same input")];
    assert_eq!(build_gemma_prompt(&messages), build_gemma_prompt(&messages));
}

#[test]
fn llama_prompt_last_user() {
    let messages = vec![
        msg("user", "first"),
        msg("assistant", "reply"),
        msg("user", "second"),
        msg("assistant", "trailing"),
    ];
    assert_eq!(build_llama_prompt(&messages), "second");
    let none: Vec<Message> = vec![msg("assistant", "only")];
    assert_eq!(build_llama_prompt(&none), "");
}
