use chat_gateway::assemble::{
    create_completion_body, create_frame, frame_for_event, generate_completion_id,
};
use chat_gateway::chat::{ChatRequestInput, MessageInput, TranslatedRequest};
use chat_gateway::chat::translate_request;
use chat_gateway::errors::{error_envelope, GatewayError};
use chat_gateway::relay::RelayEvent;
use chat_gateway::session::{parse_requirements, session_failure, Requirements, RequirementsInput};
use chat_gateway::upstream::{build_messages, render_conversation_body, UpstreamMessage};

#[test]
fn content_frame_renders_exactly() {
    let frame = create_frame("chatcmpl-x", 1700000000, "Hi", false);
    assert_eq!(
        frame,
        "data: {\"id\":\"chatcmpl-x\",\"object\":\"chat.completion.chunk\",\"created\":1700000000,\"model\":\"gpt-3.5-turbo\",\"choices\":[{\"index\":0,\"delta\":{\"content\":\"Hi\"},\"finish_reason\":null}]}\n\n"
    );
}

#[test]
fn empty_content_frame_announces_the_role() {
    let frame = create_frame("chatcmpl-x", 1, "", false);
    assert!(frame.contains("\"delta\":{\"role\":\"assistant\",\"content\":\"\"}"));
    assert!(frame.contains("\"finish_reason\":null"));
}

#[test]
fn terminal_frame_carries_stop_usage_and_sentinel() {
    let frame = create_frame("chatcmpl-x", 2, "", true);
    assert_eq!(
        frame,
        "data: {\"id\":\"chatcmpl-x\",\"object\":\"chat.completion.chunk\",\"created\":2,\"model\":\"gpt-3.5-turbo\",\"choices\":[{\"index\":0,\"delta\":{},\"finish_reason\":\"stop\"}],\"usage\":{\"prompt_tokens\":0,\"completion_tokens\":0,\"total_tokens\":0}}\n\ndata: [DONE]\n\n"
    );
}

#[test]
fn frame_content_is_json_escaped() {
    let frame = create_frame("id", 0, "a\"b\\c\nd", false);
    assert!(frame.contains("\"content\":\"a\\\"b\\\\c\\nd\""));
    let body = create_completion_body("id", 0, "tab\there");
    assert!(body.contains("\"content\":\"tab\\there\""));
}

#[test]
fn streaming_scenario_frames() {
    // a normally completing upstream: N content frames, then exactly one
    // terminal frame with finish_reason "stop" followed by the sentinel
    let events = vec![
        RelayEvent::Text("Hel".to_string()),
        RelayEvent::Text("lo".to_string()),
        RelayEvent::Done,
    ];
    let frames: Vec<String> =
        events.iter().filter_map(|e| frame_for_event("chatcmpl-y", 42, e)).collect();
    assert_eq!(frames.len(), 3);
    assert!(frames[0].contains("\"delta\":{\"content\":\"Hel\"}"));
    assert!(frames[1].contains("\"delta\":{\"content\":\"lo\"}"));
    assert!(!frames[0].contains("\"finish_reason\":\"stop\""));
    assert!(!frames[1].contains("\"finish_reason\":\"stop\""));
    let stops = frames.iter().filter(|f| f.contains("\"finish_reason\":\"stop\"")).count();
    assert_eq!(stops, 1);
    assert!(frames[2].ends_with("data: [DONE]\n\n"));
    // the consumed First event contributes no frame
    assert!(frame_for_event("chatcmpl-y", 42, &RelayEvent::First(None)).is_none());
}

#[test]
fn completion_body_renders_exactly() {
    let body = create_completion_body("chatcmpl-z", 1700000001, "Hello");
    assert_eq!(
        body,
        "{\"id\":\"chatcmpl-z\",\"object\":\"chat.completion\",\"created\":1700000001,\"model\":\"gpt-3.5-turbo\",\"choices\":[{\"index\":0,\"message\":{\"role\":\"assistant\",\"content\":\"Hello\"},\"finish_reason\":\"stop\"}],\"usage\":{\"prompt_tokens\":0,\"completion_tokens\":0,\"total_tokens\":0}}"
    );
    let parsed: serde_json::Value = serde_json::from_str(&body).unwrap();
    assert_eq!(parsed["choices"][0]["message"]["content"].as_str(), Some("Hello"));
}

#[test]
fn negative_created_timestamp_renders_with_sign() {
    let body = create_completion_body("id", -5, "x");
    assert!(body.contains("\"created\":-5,"));
}

#[test]
fn error_envelope_renders_and_escapes() {
    assert_eq!(
        error_envelope("plain"),
        "{\"status\":false,\"error\":{\"message\":\"plain\",\"type\":\"invalid_request_error\"}}"
    );
    let body = error_envelope("say \"hi\"\n");
    assert_eq!(
        body,
        "{\"status\":false,\"error\":{\"message\":\"say \\\"hi\\\"\\n\",\"type\":\"invalid_request_error\"}}"
    );
    let parsed: serde_json::Value = serde_json::from_str(&body).unwrap();
    assert_eq!(parsed["error"]["message"].as_str(), Some("say \"hi\"\n"));
}

#[test]
fn completion_id_has_the_documented_shape() {
    let id = generate_completion_id();
    assert_eq!(id.len(), 25);
    assert!(id.starts_with("chatcmpl-"));
    assert!(id[9..].chars().all(|c| c.is_ascii_alphanumeric()));
}

#[test]
fn requirements_parse_succeeds_only_when_complete() {
    let ok = parse_requirements(
        "device-1".to_string(),
        RequirementsInput {
            token: Some("tok".to_string()),
            seed: Some("seed".to_string()),
            difficulty: Some("0fff".to_string()),
        },
        "{}",
    );
    match ok {
        Ok(Requirements { oai_device_id, token, seed, difficulty }) => {
            assert_eq!(oai_device_id, "device-1");
            assert_eq!(token, "tok");
            assert_eq!(seed, "seed");
            assert_eq!(difficulty, "0fff");
        }
        Err(_) => panic!("a complete payload must parse"),
    }

    let missing = parse_requirements(
        "device-1".to_string(),
        RequirementsInput {
            token: Some("tok".to_string()),
            seed: None,
            difficulty: Some("0fff".to_string()),
        },
        "{\"token\":\"tok\"}",
    );
    match missing {
        Err(GatewayError::UpstreamSession(m)) => {
            assert_eq!(m, "Invalid data, {\"token\":\"tok\"}");
        }
        _ => panic!("an incomplete payload must fail with a session error"),
    }
}

#[test]
fn session_failure_is_prefixed() {
    // a requirements fetch that failed on the network is surfaced with the
    // session-negotiation failure indicator, before any stream is opened
    let e = session_failure("error sending request");
    match e {
        GatewayError::UpstreamSession(m) => {
            assert!(m.starts_with("Failed to meet chat requirements, "));
            assert_eq!(m, "Failed to meet chat requirements, error sending request");
        }
        _ => panic!("wrong error variant"),
    }
    let body = session_failure("x").error_body();
    assert!(body.contains("Failed to meet chat requirements"));
}

#[test]
fn conversation_body_renders_exactly() {
    let t = TranslatedRequest { system_prompt: None, combined: "hi".to_string() };
    let messages = build_messages(t, "sid".to_string(), "uid".to_string());
    assert_eq!(messages.len(), 1);
    let body = render_conversation_body(&messages, "pid", "wid");
    assert_eq!(
        body,
        "{\"action\":\"next\",\"messages\":[{\"id\":\"uid\",\"author\":{\"role\":\"user\"},\"content\":{\"content_type\":\"text\",\"parts\":[\"hi\"]},\"metadata\":{}}],\"parent_message_id\":\"pid\",\"model\":\"text-davinci-002-render-sha\",\"timezone_offset_min\":0,\"suggestions\":[],\"history_and_training_disabled\":true,\"conversation_mode\":{\"kind\":\"primary_assistant\"},\"force_paragen\":false,\"force_paragen_model_slug\":\"\",\"force_nulligen\":false,\"force_rate_limit\":false,\"websocket_request_id\":\"wid\"}"
    );
    let parsed: serde_json::Value = serde_json::from_str(&body).unwrap();
    assert_eq!(parsed["messages"][0]["content"]["parts"][0].as_str(), Some("hi"));
}

#[test]
fn conversation_body_with_system_prompt_has_two_messages() {
    let req = ChatRequestInput {
        messages: Some(vec![
            MessageInput {
                role: Some("system".to_string()),
                content_text: Some("be kind".to_string()),
                content_parts: None,
            },
            MessageInput {
                role: Some("user".to_string()),
                content_text: Some("hello".to_string()),
                content_parts: None,
            },
        ]),
        stream: true,
    };
    let t = translate_request(&req).unwrap();
    let messages = build_messages(t, "sid".to_string(), "uid".to_string());
    assert_eq!(messages.len(), 2);
    let UpstreamMessage { id, role, text } = &messages[0];
    assert_eq!((id.as_str(), role.as_str(), text.as_str()), ("sid", "system", "be kind"));
    let body = render_conversation_body(&messages, "pid", "wid");
    let parsed: serde_json::Value = serde_json::from_str(&body).unwrap();
    assert_eq!(parsed["messages"][0]["author"]["role"].as_str(), Some("system"));
    assert_eq!(parsed["messages"][1]["content"]["parts"][0].as_str(), Some("hello"));
}
