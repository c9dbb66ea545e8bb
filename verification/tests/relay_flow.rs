use chat_gateway::assemble::{assemble_content, commit_decision};
use chat_gateway::errors::GatewayError;
use chat_gateway::relay::{
    classify_message_data, relay_step, BodyFetch, MessageView, RelayEvent, RelayState,
    TransportFailure, UpstreamSignal,
};

fn assistant(text: &str) -> UpstreamSignal {
    UpstreamSignal::Message(MessageView::Assistant(text.to_string()))
}

fn texts(events: &[RelayEvent]) -> Vec<String> {
    events
        .iter()
        .filter_map(|e| match e {
            RelayEvent::Text(t) => Some(t.clone()),
            _ => None,
        })
        .collect()
}

#[test]
fn open_emits_first_none_once() {
    let mut state = RelayState::new();
    let events = relay_step(&mut state, UpstreamSignal::Opened);
    assert!(matches!(events.as_slice(), [RelayEvent::First(None)]));
    let events = relay_step(&mut state, UpstreamSignal::Opened);
    assert!(events.is_empty());
}

#[test]
fn cumulative_snapshots_become_deltas() {
    let mut state = RelayState::new();
    relay_step(&mut state, UpstreamSignal::Opened);
    let e1 = relay_step(&mut state, assistant("H"));
    let e2 = relay_step(&mut state, assistant("Hello"));
    assert_eq!(texts(&e1), vec!["H"]);
    assert_eq!(texts(&e2), vec!["ello"]);
}

#[test]
fn first_snapshot_is_forwarded_even_if_empty() {
    let mut state = RelayState::new();
    let events = relay_step(&mut state, assistant(""));
    assert!(matches!(events.as_slice(), [RelayEvent::First(None), RelayEvent::Text(t)] if t.is_empty()));
}

#[test]
fn unchanged_snapshot_is_dropped() {
    let mut state = RelayState::new();
    relay_step(&mut state, assistant("Hi"));
    let events = relay_step(&mut state, assistant("Hi"));
    assert!(events.is_empty());
}

#[test]
fn shrunk_snapshot_is_dropped_and_count_kept() {
    let mut state = RelayState::new();
    relay_step(&mut state, assistant("Hello"));
    let events = relay_step(&mut state, assistant("He"));
    assert!(events.is_empty());
    let events = relay_step(&mut state, assistant("Hello!"));
    assert_eq!(texts(&events), vec!["!"]);
}

#[test]
fn deltas_count_characters_not_bytes() {
    let mut state = RelayState::new();
    relay_step(&mut state, assistant("né"));
    let events = relay_step(&mut state, assistant("némo"));
    assert_eq!(texts(&events), vec!["mo"]);
}

#[test]
fn sentinel_emits_done_and_finishes() {
    let mut state = RelayState::new();
    relay_step(&mut state, UpstreamSignal::Opened);
    let events = relay_step(&mut state, UpstreamSignal::Message(MessageView::Sentinel));
    assert!(matches!(events.as_slice(), [RelayEvent::Done]));
    // nothing more after a terminal observation
    let events = relay_step(&mut state, assistant("more"));
    assert!(events.is_empty());
}

#[test]
fn status_failure_before_first_reports_the_body() {
    let mut state = RelayState::new();
    let events = relay_step(
        &mut state,
        UpstreamSignal::Failed(TransportFailure::BadStatus(403, BodyFetch::Got("denied".to_string()))),
    );
    assert!(
        matches!(events.as_slice(), [RelayEvent::First(Some(m))] if m == "Invalid response code 403, denied")
    );
}

#[test]
fn status_failure_with_unreadable_body_reports_the_read_error() {
    let mut state = RelayState::new();
    let events = relay_step(
        &mut state,
        UpstreamSignal::Failed(TransportFailure::BadStatus(
            502,
            BodyFetch::FetchFailed("timed out".to_string()),
        )),
    );
    assert!(
        matches!(events.as_slice(), [RelayEvent::First(Some(m))] if m == "Invalid response, code 502, timed out")
    );
}

#[test]
fn content_type_failure_before_first_is_reported() {
    let mut state = RelayState::new();
    let events = relay_step(
        &mut state,
        UpstreamSignal::Failed(TransportFailure::BadContentType("<html>".to_string())),
    );
    assert!(matches!(
        events.as_slice(),
        [RelayEvent::First(Some(m))]
            if m == "The chatgpt api should return data as 'text/event-stream', but it isn't. <html>"
    ));
}

#[test]
fn failure_after_first_is_absorbed() {
    let mut state = RelayState::new();
    relay_step(&mut state, assistant("partial"));
    let events = relay_step(
        &mut state,
        UpstreamSignal::Failed(TransportFailure::Other("connection reset".to_string())),
    );
    assert!(events.is_empty());
}

#[test]
fn stream_end_is_not_an_error() {
    let mut state = RelayState::new();
    let events = relay_step(&mut state, UpstreamSignal::Failed(TransportFailure::StreamEnded));
    assert!(events.is_empty());
}

#[test]
fn classification_of_data_events() {
    assert!(matches!(
        classify_message_data("[DONE]", Some("assistant"), Some("x".to_string())),
        MessageView::Sentinel
    ));
    assert!(matches!(
        classify_message_data("{}", Some("assistant"), Some("cumulative".to_string())),
        MessageView::Assistant(t) if t == "cumulative"
    ));
    assert!(matches!(
        classify_message_data("{}", Some("user"), Some("x".to_string())),
        MessageView::Unrelated
    ));
    assert!(matches!(classify_message_data("{}", Some("assistant"), None), MessageView::Unrelated));
    assert!(matches!(classify_message_data("{}", None, None), MessageView::Unrelated));
}

#[test]
fn commit_point_fails_only_on_a_first_error() {
    match commit_decision(Some(RelayEvent::First(Some("boom".to_string())))) {
        Err(GatewayError::UpstreamTransport(m)) => assert_eq!(m, "boom"),
        _ => panic!("a first-event error must fail the call"),
    }
    assert!(commit_decision(Some(RelayEvent::First(None))).is_ok());
    assert!(commit_decision(None).is_ok());
}

#[test]
fn buffered_content_concatenates_deltas_in_order() {
    let events = vec![
        RelayEvent::Text("Hel".to_string()),
        RelayEvent::Text("lo ".to_string()),
        RelayEvent::Text("world".to_string()),
        RelayEvent::Done,
    ];
    assert_eq!(assemble_content(&events), "Hello world");
}

#[test]
fn buffered_content_stops_at_done() {
    let events = vec![
        RelayEvent::Text("kept".to_string()),
        RelayEvent::Done,
        RelayEvent::Text("dropped".to_string()),
    ];
    assert_eq!(assemble_content(&events), "kept");
}

#[test]
fn buffered_scenario_hello() {
    // request {"messages":[{"role":"user","content":"hi"}],"stream":false},
    // upstream snapshots "H" then "Hello" then the sentinel
    let mut state = RelayState::new();
    let mut collected: Vec<RelayEvent> = Vec::new();
    let mut all = Vec::new();
    all.extend(relay_step(&mut state, UpstreamSignal::Opened));
    all.extend(relay_step(&mut state, assistant("H")));
    all.extend(relay_step(&mut state, assistant("Hello")));
    all.extend(relay_step(&mut state, UpstreamSignal::Message(MessageView::Sentinel)));
    let mut iter = all.into_iter();
    let first = iter.next();
    assert!(commit_decision(first).is_ok());
    collected.extend(iter);
    assert_eq!(assemble_content(&collected), "Hello");
}
