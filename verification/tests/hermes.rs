use eventsource_stream::Eventsource;
use futures_util::StreamExt;
use hermes_dms::hermes::client::{check_status, health_ok, status_failure};
use hermes_dms::hermes::sse::{event_from, parse_event, stream_event, ChatEvent, StreamItem};
use hermes_dms::hermes::{HermesClient, HermesError};
use hermes_dms::http::Method;
use hermes_dms::json::JsonField;

#[test]
fn delta_uses_delta_field_not_content() {
    let ev = parse_event("assistant.delta", r#"{"message_id":"m","delta":"Hello"}"#);
    assert_eq!(ev, ChatEvent::Delta("Hello".into()));
}

#[test]
fn tool_events_carry_name_and_status() {
    let ev = parse_event(
        "tool.started",
        r#"{"tool_name":"desktop_launch_app","preview":null}"#,
    );
    assert_eq!(
        ev,
        ChatEvent::ToolProgress {
            tool_name: "desktop_launch_app".into(),
            status: "tool.started".into()
        }
    );
}

#[test]
fn assistant_completed_extracts_content() {
    let ev = parse_event(
        "assistant.completed",
        r#"{"content":"Done. Firefox is open.","completed":true}"#,
    );
    assert_eq!(
        ev,
        ChatEvent::AssistantCompleted {
            content: "Done. Firefox is open.".into()
        }
    );
}

#[test]
fn run_completed_captures_usage() {
    let ev = parse_event("run.completed", r#"{"usage":{"input_tokens":5}}"#);
    match ev {
        ChatEvent::RunCompleted { usage: Some(u) } => {
            let u: serde_json::Value = serde_json::from_str(&u).unwrap();
            assert_eq!(u["input_tokens"], 5);
        }
        other => panic!("expected RunCompleted with usage, got {other:?}"),
    }
}

#[test]
fn error_event_extracts_message() {
    let ev = parse_event("error", r#"{"message":"boom"}"#);
    assert_eq!(ev, ChatEvent::Error("boom".into()));
}

#[test]
fn done_is_terminal() {
    assert_eq!(parse_event("done", "{}"), ChatEvent::Done);
}

#[test]
fn unknown_event_is_other() {
    assert_eq!(
        parse_event("something.weird", "{}"),
        ChatEvent::Other("something.weird".into())
    );
}

#[test]
fn malformed_json_degrades_to_empty() {
    assert_eq!(
        parse_event("assistant.delta", "not json"),
        ChatEvent::Delta(String::new())
    );
}

#[test]
fn other_event_names() {
    assert_eq!(parse_event("run.started", "{}"), ChatEvent::RunStarted);
    assert_eq!(parse_event("message.started", "[]"), ChatEvent::MessageStarted);
    for name in ["tool.completed", "tool.failed", "tool.progress"] {
        assert_eq!(
            parse_event(name, "{}"),
            ChatEvent::ToolProgress { tool_name: "unknown".into(), status: name.into() }
        );
    }
    assert_eq!(parse_event("error", "{}"), ChatEvent::Error("unknown error".into()));
    assert_eq!(
        parse_event("run.completed", "{}"),
        ChatEvent::RunCompleted { usage: None }
    );
}

/// A payload that is JSON but no object, and a member that is no string, count
/// as missing.
#[test]
fn wrong_types_degrade_to_empty() {
    assert_eq!(
        parse_event("assistant.delta", "[\"delta\"]"),
        ChatEvent::Delta(String::new())
    );
    assert_eq!(
        parse_event("assistant.delta", r#"{"delta":7}"#),
        ChatEvent::Delta(String::new())
    );
    assert_eq!(
        parse_event("error", r#"{"message":null}"#),
        ChatEvent::Error("unknown error".into())
    );
    assert_eq!(
        parse_event("run.completed", r#"{"usage":null}"#),
        ChatEvent::RunCompleted { usage: Some("null".into()) }
    );
}

#[test]
fn escapes_in_strings_are_read() {
    assert_eq!(
        parse_event("assistant.delta", r#"{"delta":"a\né\""}"#),
        ChatEvent::Delta("a\né\"".into())
    );
}

#[test]
fn event_from_members() {
    let fields = vec![(
        "delta".to_string(),
        JsonField { text: Some("x".into()), json: "\"x\"".into() },
    )];
    assert_eq!(event_from("assistant.delta", &fields), ChatEvent::Delta("x".into()));
    assert_eq!(
        event_from("assistant.completed", &fields),
        ChatEvent::AssistantCompleted { content: String::new() }
    );
}

#[test]
fn broken_stream_is_an_error_event() {
    assert_eq!(
        stream_event(&StreamItem::Broken("reset".into())),
        ChatEvent::Error("SSE stream error: reset".into())
    );
}

#[test]
fn chat_stream_parses_sse_event_sequence() {
    let sse_body = [
        "event: run.started\ndata: {\"user_message\":{}}\n\n",
        "event: assistant.delta\ndata: {\"delta\":\"Hel\"}\n\n",
        "event: assistant.delta\ndata: {\"delta\":\"lo\"}\n\n",
        ": keepalive\n\n",
        "event: tool.started\ndata: {\"tool_name\":\"desktop_launch_app\"}\n\n",
        "event: assistant.completed\ndata: {\"content\":\"Hello\"}\n\n",
        "event: run.completed\ndata: {\"usage\":{\"input_tokens\":3}}\n\n",
        "event: done\ndata: {}\n\n",
    ]
    .concat();
    let client = HermesClient::new("http://h", "k");
    let req = client.chat_stream("desktop_1", "hi");
    assert_eq!(req.method, Method::Post);
    assert_eq!(req.url, "http://h/api/sessions/desktop_1/chat/stream");
    assert_eq!(check_status(200, None), Ok(()));

    let bytes = futures_util::stream::iter(vec![Ok::<_, String>(sse_body.into_bytes())]);
    let stream = bytes.eventsource().map(|res| {
        stream_event(&match res {
            Ok(ev) => StreamItem::Frame { event: ev.event, data: ev.data },
            Err(e) => StreamItem::Broken(e.to_string()),
        })
    });
    let runtime = tokio::runtime::Builder::new_current_thread().build().unwrap();
    let events: Vec<ChatEvent> = runtime.block_on(stream.collect());

    // Deltas concatenate to the streamed text.
    let text: String = events
        .iter()
        .filter_map(|e| match e {
            ChatEvent::Delta(d) => Some(d.clone()),
            _ => None,
        })
        .collect();
    assert_eq!(text, "Hello");
    // The keepalive comment produced no event.
    assert!(events.contains(&ChatEvent::AssistantCompleted { content: "Hello".into() }));
    assert!(events.contains(&ChatEvent::Done));
    assert!(events.iter().any(|e| matches!(e, ChatEvent::ToolProgress { .. })));
}

#[test]
fn health_true_on_200_false_on_500() {
    let req = HermesClient::new("http://h", "k").health();
    assert_eq!(req.method, Method::Get);
    assert_eq!(req.url, "http://h/health");
    assert_eq!(req.bearer, None);
    assert_eq!(req.timeout_secs, Some(5));
    assert!(health_ok(Some(200)));
    assert!(!health_ok(Some(500)));
    assert!(health_ok(Some(299)));
    assert!(!health_ok(Some(199)));
    assert!(!health_ok(Some(300)));
    assert!(!health_ok(None));
}

#[test]
fn create_session_sends_bearer() {
    let client = HermesClient::new("http://h/", "secret");
    let req = client.create_session(Some("desktop_1_abcd"), Some("[Desktop] test"));
    assert_eq!(req.method, Method::Post);
    assert_eq!(req.url, "http://h/api/sessions");
    assert_eq!(req.bearer.as_deref(), Some("secret"));
    assert_eq!(req.timeout_secs, Some(15));
    assert_eq!(
        req.body.as_deref(),
        Some(r#"{"id":"desktop_1_abcd","title":"[Desktop] test"}"#)
    );
    assert_eq!(check_status(201, None), Ok(()));
}

#[test]
fn create_session_leaves_out_what_is_missing() {
    let client = HermesClient::new("http://h", "k");
    assert_eq!(client.create_session(None, None).body.as_deref(), Some("{}"));
    assert_eq!(
        client.create_session(None, Some("a\"b")).body.as_deref(),
        Some(r#"{"title":"a\"b"}"#)
    );
}

#[test]
fn auth_failure_maps_to_auth_error() {
    let req = HermesClient::new("http://h", "bad").list_sessions();
    assert_eq!(req.method, Method::Get);
    assert_eq!(req.url, "http://h/api/sessions");
    let body = r#"{"error": {"message": "Invalid API key"}}"#;
    assert!(matches!(check_status(401, Some(body.into())), Err(HermesError::Auth)));
}

#[test]
fn chat_on_missing_session_maps_to_not_found() {
    let req = HermesClient::new("http://h", "k").chat_stream("desktop_gone", "hi");
    assert_eq!(req.url, "http://h/api/sessions/desktop_gone/chat/stream");
    assert_eq!(req.body.as_deref(), Some(r#"{"message":"hi"}"#));
    assert_eq!(req.timeout_secs, None);
    let body = r#"{"error": {"message": "no session"}}"#;
    assert!(matches!(
        check_status(404, Some(body.into())),
        Err(HermesError::SessionNotFound)
    ));
}

#[test]
fn other_statuses_keep_their_body() {
    assert_eq!(
        check_status(503, Some("busy".into())),
        Err(HermesError::Status { status: 503, body: "busy".into() })
    );
    assert_eq!(status_failure(401, None), HermesError::Auth);
    assert_eq!(
        check_status(302, None),
        Err(HermesError::Status { status: 302, body: String::new() })
    );
}

#[test]
fn messages_request_names_the_session() {
    let req = HermesClient::new("http://h///", "k").get_messages("s1");
    assert_eq!(req.url, "http://h/api/sessions/s1/messages");
    assert_eq!(req.bearer.as_deref(), Some("k"));
}

#[test]
fn hermes_errors_in_words() {
    assert_eq!(
        HermesError::Transport("timed out".into()).message(),
        "HTTP transport error: timed out"
    );
    assert_eq!(
        HermesError::Auth.message(),
        "authentication failed (401): check the Hermes API key"
    );
    assert_eq!(HermesError::SessionNotFound.message(), "session not found (404)");
    assert_eq!(
        HermesError::Status { status: 500, body: "oops".into() }.message(),
        "Hermes returned 500: oops"
    );
}
