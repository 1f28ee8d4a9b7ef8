use httpmcp_rust::stream::SseEvent;

#[test]
fn test_sse_event_format() {
    let event = SseEvent {
        id: Some("123".to_string()),
        event: Some("message".to_string()),
        data: "test data".to_string(),
    };

    let text = event.to_bytes();

    assert!(text.contains("id: 123\n"));
    assert!(text.contains("event: message\n"));
    assert!(text.contains("data: test data\n"));
}

#[test]
fn test_sse_event_exact_text() {
    let event = SseEvent {
        id: Some("abc".to_string()),
        event: Some("message".to_string()),
        data: "{}".to_string(),
    };
    assert_eq!(event.to_bytes(), "id: abc\nevent: message\ndata: {}\n\n");

    let bare = SseEvent { id: None, event: None, data: "x".to_string() };
    assert_eq!(bare.to_bytes(), "data: x\n\n");
}

#[test]
fn test_sse_event_new_and_with_event() {
    let event = SseEvent::new("payload".to_string());
    assert_eq!(event.event, Some("message".to_string()));
    assert_eq!(event.data, "payload");
    assert_eq!(event.id.as_ref().unwrap().chars().count(), 36);

    let renamed = event.with_event("ping");
    assert_eq!(renamed.event, Some("ping".to_string()));
    assert_eq!(renamed.data, "payload");
}
