use predict_otron::tokstream::TokenOutputStream;

#[test]
fn test_token_output_stream() {
    let tokenizer = small_tokenizer();
    let mut token_stream = TokenOutputStream::new(tokenizer);

    let text = "Hello, world!";
    let encoded = token_stream.tokenizer().encode(text, true).unwrap();
    let token_ids = encoded.get_ids().to_vec();

    for token_id in token_ids {
        token_stream.next_token(token_id).unwrap();
    }

    let decoded = token_stream.decode_all().unwrap();
    assert_eq!(decoded.trim(), text);
}

#[test]
fn stream_fidelity_concat_equals_batch_decode() {
    let tokenizer = small_tokenizer();
    let mut stream = TokenOutputStream::new(tokenizer);
    let ids = stream.tokenizer().encode("alpha beta gamma alpha", true).unwrap().get_ids().to_vec();

    let mut fragments: Vec<String> = Vec::new();
    for id in ids {
        if let Some(frag) = stream.next_token(id).unwrap() {
            fragments.push(frag);
        }
    }
    if let Some(rest) = stream.decode_rest().unwrap() {
        fragments.push(rest);
    }

    let concat: String = fragments.concat();
    let batch = stream.decode_all().unwrap();
    assert_eq!(concat, batch);
    for frag in &fragments {
        assert!(std::str::from_utf8(frag.as_bytes()).is_ok());
    }
}

#[test]
fn stream_clear_resets() {
    let tokenizer = small_tokenizer();
    let mut stream = TokenOutputStream::new(tokenizer);
    let ids = stream.tokenizer().encode("alpha beta", true).unwrap().get_ids().to_vec();
    for id in ids {
        stream.next_token(id).unwrap();
    }
    stream.clear();
    assert_eq!(stream.tokens.len(), 0);
    assert_eq!(stream.emitted, "");
    assert_eq!(stream.decode_all().unwrap(), "");
}

#[test]
fn special_token_lookup() {
    let tokenizer = small_tokenizer();
    let stream = TokenOutputStream::new(tokenizer);
    assert!(stream.get_token("<eos>").is_some());
    assert!(stream.get_token("<no_such_token>").is_none());
}

fn small_tokenizer() -> tokenizers::Tokenizer {
    let json = r#"{
        "version": "1.0",
        "truncation": null,
        "padding": null,
        "added_tokens": [
            {"id": 6, "content": "<eos>", "single_word": false, "lstrip": false,
             "rstrip": false, "normalized": false, "special": true}
        ],
        "normalizer": null,
        "pre_tokenizer": {"type": "WhitespaceSplit"},
        "post_processor": null,
        "decoder": null,
        "model": {
            "type": "WordLevel",
            "vocab": {
                "Hello,": 0,
                "world!": 1,
                "alpha": 2,
                "beta": 3,
                "gamma": 4,
                "[UNK]": 5,
                "<eos>": 6
            },
            "unk_token": "[UNK]"
        }
    }"#;
    tokenizers::Tokenizer::from_bytes(json.as_bytes()).unwrap()
}
