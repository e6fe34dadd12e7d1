use predict_otron::proxy::{
    forward_response_headers, is_streaming_request, should_forward_header,
    should_forward_response_header, streaming_extra_headers,
};

#[test]
fn test_should_forward_header() {
    assert!(should_forward_header("content-type"));
    assert!(should_forward_header("authorization"));
    assert!(!should_forward_header("host"));
    assert!(!should_forward_header("connection"));
}

#[test]
fn test_should_forward_response_header() {
    assert!(should_forward_response_header("content-type"));
    assert!(should_forward_response_header("cache-control"));
    assert!(!should_forward_response_header("server"));
    assert!(!should_forward_response_header("date"));
}

#[test]
fn proxy_test_should_forward_header() {
    assert!(should_forward_header("content-type"));
    assert!(should_forward_header("authorization"));
    assert!(!should_forward_header("host"));
    assert!(!should_forward_header("connection"));
}

#[test]
fn proxy_test_should_forward_response_header() {
    assert!(should_forward_response_header("content-type"));
    assert!(should_forward_response_header("cache-control"));
    assert!(!should_forward_response_header("server"));
    assert!(!should_forward_response_header("date"));
}

#[test]
fn header_filter_is_case_insensitive() {
    assert!(!should_forward_header("Host"));
    assert!(!should_forward_header("CONNECTION"));
    assert!(!should_forward_response_header("Server"));
    assert!(!should_forward_response_header("Date"));
}

#[test]
fn response_passthrough_drops_only_forbidden() {
    let upstream = vec![
        ("content-type".to_string(), "application/json".to_string()),
        ("server".to_string(), "upstream/1.0".to_string()),
        ("cache-control".to_string(), "no-cache".to_string()),
        ("date".to_string(), "today".to_string()),
        ("x-custom".to_string(), "kept".to_string()),
    ];
    let filtered = forward_response_headers(&upstream);
    let names: Vec<&str> = filtered.iter().map(|p| p.0.as_str()).collect();
    assert_eq!(names, vec!["content-type", "cache-control", "x-custom"]);
    assert_eq!(filtered[0].1, "application/json");
    assert_eq!(filtered[2].1, "kept");
}

#[test]
fn streaming_headers_added() {
    let extra = streaming_extra_headers();
    assert_eq!(extra.len(), 3);
    assert_eq!(extra[0], ("content-type".to_string(), "text/event-stream".to_string()));
    assert_eq!(extra[1], ("cache-control".to_string(), "no-cache".to_string()));
    assert_eq!(extra[2], ("connection".to_string(), "keep-alive".to_string()));
}

#[test]
fn stream_flag_peek() {
    let body: serde_json::Value =
        serde_json::from_str(r#"{"model":"m","stream":true}"#).unwrap();
    let flag = body.get("stream").and_then(|v| v.as_bool());
    assert!(is_streaming_request(flag));
    assert!(!is_streaming_request(Some(false)));
    assert!(!is_streaming_request(None));
}
