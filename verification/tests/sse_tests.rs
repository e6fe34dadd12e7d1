use predict_otron::sse::{
    plan_contents, render_chunk, sse_event_payloads, ChunkKind, Fragment, RepetitionWatchdog,
};

fn text(s: &str) -> Fragment {
    Fragment::Text(s.to_string())
}

#[test]
fn streaming_chat_ordering() {
    let fragments = vec![text("Hel"), text("lo"), text(""), text("!")];
    let events = sse_event_payloads("chatcmpl-abc", 1686935002, "gemma-3-1b-it", &fragments);
    assert_eq!(events.len(), 6);

    let first: serde_json::Value = serde_json::from_str(&events[0]).unwrap();
    assert_eq!(first["choices"][0]["delta"]["role"], "assistant");
    assert!(first["choices"][0]["delta"].get("content").is_none());
    assert!(first["choices"][0]["finish_reason"].is_null());
    assert_eq!(first["object"], "chat.completion.chunk");
    assert_eq!(first["id"], "chatcmpl-abc");
    assert_eq!(first["created"], 1686935002u64);
    assert_eq!(first["model"], "gemma-3-1b-it");

    let c1: serde_json::Value = serde_json::from_str(&events[1]).unwrap();
    assert_eq!(c1["choices"][0]["delta"]["content"], "Hel");
    let c2: serde_json::Value = serde_json::from_str(&events[2]).unwrap();
    assert_eq!(c2["choices"][0]["delta"]["content"], "lo");
    let c3: serde_json::Value = serde_json::from_str(&events[3]).unwrap();
    assert_eq!(c3["choices"][0]["delta"]["content"], "!");

    let stop: serde_json::Value = serde_json::from_str(&events[4]).unwrap();
    assert_eq!(stop["choices"][0]["finish_reason"], "stop");
    assert!(stop["choices"][0]["delta"].as_object().unwrap().is_empty());

    assert_eq!(events[5], "[DONE]");
}

#[test]
fn sse_envelope_done_is_unique_and_last() {
    let fragments = vec![text("a"), text("b")];
    let events = sse_event_payloads("id", 0, "m", &fragments);
    let done_count = events.iter().filter(|e| e.as_str() == "[DONE]").count();
    assert_eq!(done_count, 1);
    assert_eq!(events.last().unwrap(), "[DONE]");
    let stop: serde_json::Value = serde_json::from_str(&events[events.len() - 2]).unwrap();
    assert_eq!(stop["choices"][0]["finish_reason"], "stop");
    let roles = events[..events.len() - 1]
        .iter()
        .filter(|e| {
            let v: serde_json::Value = serde_json::from_str(e).unwrap();
            v["choices"][0]["delta"].get("role").is_some()
        })
        .count();
    assert_eq!(roles, 1);
}

#[test]
fn repetition_watchdog_trips_after_five() {
    let fragments = vec![
        text("loop"),
        text("loop"),
        text("loop"),
        text("loop"),
        text("loop"),
        text("loop"),
        text("tail"),
    ];
    let contents = plan_contents(&fragments);
    assert_eq!(contents, vec!["loop", "loop", "loop", "loop"]);

    let events = sse_event_payloads("id", 0, "m", &fragments);
    assert_eq!(events.len(), 4 + 3);
    let stop: serde_json::Value = serde_json::from_str(&events[events.len() - 2]).unwrap();
    assert_eq!(stop["choices"][0]["finish_reason"], "stop");
    assert_eq!(events.last().unwrap(), "[DONE]");
}

#[test]
fn watchdog_resets_on_change() {
    let mut wd = RepetitionWatchdog::new();
    for _ in 0..4 {
        assert!(!wd.observe("x"));
    }
    assert!(!wd.observe("y"));
    for _ in 0..3 {
        assert!(!wd.observe("y"));
    }
    assert!(wd.observe("y"));
}

#[test]
fn error_fragment_ends_stream() {
    let fragments = vec![text("ok"), Fragment::Error("backend failed".to_string()), text("late")];
    let contents = plan_contents(&fragments);
    assert_eq!(contents, vec!["ok"]);
    let events = sse_event_payloads("id", 0, "m", &fragments);
    assert_eq!(events.len(), 4);
    assert_eq!(events.last().unwrap(), "[DONE]");
}

#[test]
fn empty_fragments_are_dropped() {
    let fragments = vec![text(""), text(""), text("only")];
    let contents = plan_contents(&fragments);
    assert_eq!(contents, vec!["only"]);
}

#[test]
fn chunk_rendering_escapes_content() {
    let kind = ChunkKind::Content("line\n\"quoted\" \\ tab\t".to_string());
    let payload = render_chunk("id-1", 7, "model \"x\"", &kind);
    let v: serde_json::Value = serde_json::from_str(&payload).unwrap();
    assert_eq!(v["choices"][0]["delta"]["content"], "line\n\"quoted\" \\ tab\t");
    assert_eq!(v["model"], "model \"x\"");
    assert_eq!(v["created"], 7u64);
}
