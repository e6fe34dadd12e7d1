use predict_otron::cache::ModelCache;
use predict_otron::embed::{
    all_zero_bits, get_model_dimensions, invalid_model_error, models_list, number_shaped,
    parse_embedding_model, render_embeddings_response, unsupported_input_error, EmbeddingModel,
};

#[test]
fn embedding_model_parsing() {
    assert_eq!(
        parse_embedding_model("nomic-embed-text-v1.5").unwrap(),
        EmbeddingModel::NomicEmbedTextV15
    );
    assert_eq!(
        parse_embedding_model("nomic-ai/nomic-embed-text-v1.5").unwrap(),
        EmbeddingModel::NomicEmbedTextV15
    );
    assert_eq!(
        parse_embedding_model("nomic-text-embed").unwrap(),
        EmbeddingModel::NomicEmbedTextV15
    );
    assert_eq!(
        parse_embedding_model("BAAI/bge-small-en-v1.5").unwrap(),
        EmbeddingModel::BGESmallENV15
    );
    let err = parse_embedding_model("not-a-model").unwrap_err();
    assert_eq!(err, "Unsupported embedding model: not-a-model");
}

#[test]
fn embedding_dimensions() {
    assert_eq!(get_model_dimensions(&EmbeddingModel::NomicEmbedTextV15), 768);
    assert_eq!(get_model_dimensions(&EmbeddingModel::AllMiniLML6V2), 384);
    assert_eq!(get_model_dimensions(&EmbeddingModel::BGELargeENV15), 1024);
    assert_eq!(get_model_dimensions(&EmbeddingModel::ClipVitB32), 512);
}

#[test]
fn embedding_models_catalog() {
    let catalog = models_list();
    assert_eq!(catalog.object, "list");
    assert_eq!(catalog.data.len(), 30);
    for entry in &catalog.data {
        assert_eq!(entry.object, "model");
        let parsed = parse_embedding_model(&entry.id).unwrap();
        assert_eq!(get_model_dimensions(&parsed), entry.dimensions);
    }
}

#[test]
fn zero_vector_detection() {
    let zeros: Vec<u32> = vec![0.0f32.to_bits(), (-0.0f32).to_bits(), 0.0f32.to_bits()];
    assert!(all_zero_bits(&zeros));
    let not_zero: Vec<u32> = vec![0.0f32.to_bits(), 0.25f32.to_bits()];
    assert!(!all_zero_bits(&not_zero));
    let empty: Vec<u32> = vec![];
    assert!(all_zero_bits(&empty));
}

#[test]
fn embeddings_happy_path_response() {
    let dims = 768usize;
    let numbers: Vec<String> = (0..dims).map(|i| format!("0.{}", (i % 9) + 1)).collect();
    for n in &numbers {
        assert!(number_shaped(n));
    }
    let body = render_embeddings_response("nomic-embed-text-v1.5", &vec![numbers]);
    let v: serde_json::Value = serde_json::from_str(&body).unwrap();
    assert_eq!(v["object"], "list");
    assert_eq!(v["data"].as_array().unwrap().len(), 1);
    assert_eq!(v["data"][0]["object"], "embedding");
    assert_eq!(v["data"][0]["index"], 0);
    assert_eq!(v["data"][0]["embedding"].as_array().unwrap().len(), 768);
    assert_eq!(v["model"], "nomic-embed-text-v1.5");
    assert_eq!(v["usage"]["prompt_tokens"], 0);
    assert_eq!(v["usage"]["total_tokens"], 0);
}

#[test]
fn embeddings_batch_response_indexes_inputs() {
    let first: Vec<String> = vec!["0.1".to_string(), "0.2".to_string()];
    let second: Vec<String> = vec!["-0.5".to_string(), "1.5e-3".to_string()];
    let third: Vec<String> = vec!["0.25".to_string()];
    let body = render_embeddings_response(
        "nomic-embed-text-v1.5",
        &vec![first, second, third],
    );
    let v: serde_json::Value = serde_json::from_str(&body).unwrap();
    let data = v["data"].as_array().unwrap();
    assert_eq!(data.len(), 3);
    for (i, entry) in data.iter().enumerate() {
        assert_eq!(entry["object"], "embedding");
        assert_eq!(entry["index"], i as u64);
    }
    assert_eq!(data[1]["embedding"][0], -0.5);
    assert_eq!(data[2]["embedding"].as_array().unwrap().len(), 1);
}

#[test]
fn number_shape_check() {
    assert!(number_shaped("-1.5e-3"));
    assert!(!number_shaped(""));
    assert!(!number_shaped("1,5"));
    assert!(!number_shaped("\"quoted\""));
}

#[test]
fn embedding_error_bodies() {
    let invalid: serde_json::Value =
        serde_json::from_str(&invalid_model_error("Unsupported embedding model: zzz")).unwrap();
    assert_eq!(invalid["error"]["type"], "invalid_model");
    assert_eq!(
        invalid["error"]["message"],
        "Invalid model: Unsupported embedding model: zzz"
    );
    let unsupported: serde_json::Value =
        serde_json::from_str(&unsupported_input_error()).unwrap();
    assert_eq!(unsupported["error"]["type"], "unsupported_input");
}

#[test]
fn model_cache_single_construction() {
    let mut cache = ModelCache::new();
    let mut constructions = 0u32;

    let key = EmbeddingModel::NomicEmbedTextV15;
    let handle = match cache.lookup(key) {
        Some(h) => h,
        None => {
            constructions += 1;
            let (h, inserted) = cache.get_or_insert(key, 7);
            assert!(inserted);
            h
        }
    };
    assert_eq!(handle, 7);

    // A second request for the same descriptor finds the cached instance.
    let handle2 = match cache.lookup(key) {
        Some(h) => h,
        None => {
            constructions += 1;
            cache.get_or_insert(key, 8).0
        }
    };
    assert_eq!(handle2, 7);
    assert_eq!(constructions, 1);

    // get_or_insert on a present key neither grows the table nor rebinds.
    let (h3, inserted3) = cache.get_or_insert(key, 9);
    assert_eq!(h3, 7);
    assert!(!inserted3);
    assert_eq!(cache.entries.len(), 1);
}
