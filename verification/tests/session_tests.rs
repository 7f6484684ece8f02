//! The session state machine end to end: the scenarios, the append-only log,
//! completion-order interleaving, render purity and the display toggle.

use coap_browse::{Message, ProtocolError, State, StateMessage, ViewNode};

fn message(format_options: Vec<u16>, payload: &[u8], raw: &str) -> Message {
    Message { format_options, payload: payload.to_vec(), raw: raw.to_string() }
}

fn children<A>(n: &ViewNode<A>) -> &Vec<ViewNode<A>> {
    match n {
        ViewNode::Container { children, .. } => children,
        _ => panic!("expected a container node"),
    }
}

fn class<A>(n: &ViewNode<A>) -> &str {
    match n {
        ViewNode::Container { class, .. } => class,
        _ => panic!("expected a container node"),
    }
}

fn text<A>(n: &ViewNode<A>) -> &str {
    match n {
        ViewNode::Text(s) => s,
        _ => panic!("expected a text node"),
    }
}

/// The log entries of a rendered session tree, newest first, unwrapped from
/// their per-entry containers.
fn entries<A>(session: &ViewNode<A>) -> Vec<&ViewNode<A>> {
    let top = children(session);
    assert!(matches!(top[0], ViewNode::Input { .. }));
    top[1..].iter().map(|e| &children(e)[0]).collect()
}

fn response_payload_text<A>(entry: &ViewNode<A>) -> &str {
    assert_eq!(class(entry), "response good");
    let parts = children(entry);
    let body = &parts[3];
    assert_eq!(class(body), "payload");
    text(&children(body)[1])
}

#[test]
fn scenario_json_response() {
    let mut state = State::default();
    state.update(StateMessage::UrlChange("coap://x/1".to_string()));
    let effect = state.update(StateMessage::SubmitUrl);
    assert!(effect.should_render);
    assert_eq!(effect.dispatch, Some("coap://x/1".to_string()));

    state.update(StateMessage::Response {
        request: "coap://x/1".to_string(),
        response: Ok(message(vec![50], b"{\"a\":1}", "raw message")),
    });

    let tree = state.view_nodes();
    let log = entries(&tree);
    assert_eq!(log.len(), 2);
    // newest first: the response, then the request that caused it
    assert_eq!(text(&log[1]), "Request to coap://x/1");
    let parts = children(&log[0]);
    assert_eq!(text(&parts[0]), "Response for coap://x/1");
    assert_eq!(text(&parts[1]), "content format: application/json");
    assert_eq!(response_payload_text(&log[0]), "{\n  \"a\": 1\n}");
}

#[test]
fn scenario_cbor_response() {
    let mut state = State::default();
    state.update(StateMessage::UrlChange("coap://x/2".to_string()));
    state.update(StateMessage::SubmitUrl);
    state.update(StateMessage::Response {
        request: "coap://x/2".to_string(),
        response: Ok(message(vec![60], &[0x01], "raw message")),
    });

    let tree = state.view_nodes();
    let log = entries(&tree);
    assert_eq!(response_payload_text(&log[0]), "1");
}

#[test]
fn scenario_unspecified_format_dumps_bytes() {
    let mut state = State::default();
    state.update(StateMessage::UrlChange("coap://x/3".to_string()));
    state.update(StateMessage::SubmitUrl);
    state.update(StateMessage::Response {
        request: "coap://x/3".to_string(),
        response: Ok(message(vec![], b"hello", "raw message")),
    });

    let tree = state.view_nodes();
    let log = entries(&tree);
    let parts = children(&log[0]);
    assert_eq!(text(&parts[1]), "unspecified content format");
    let payload = response_payload_text(&log[0]);
    assert_eq!(payload, "[\n    104,\n    101,\n    108,\n    108,\n    111,\n]");
    assert_ne!(payload, "hello");
}

#[test]
fn scenario_concurrent_completions_in_completion_order() {
    let mut state = State::default();
    state.update(StateMessage::UrlChange("coap://x/1".to_string()));
    state.update(StateMessage::SubmitUrl);
    state.update(StateMessage::UrlChange("coap://x/2".to_string()));
    state.update(StateMessage::SubmitUrl);

    // the second dispatched request completes first
    state.update(StateMessage::Response {
        request: "coap://x/2".to_string(),
        response: Ok(message(vec![0], b"two", "raw")),
    });
    state.update(StateMessage::Response {
        request: "coap://x/1".to_string(),
        response: Ok(message(vec![0], b"one", "raw")),
    });

    let tree = state.view_nodes();
    let log = entries(&tree);
    assert_eq!(log.len(), 4);
    // newest first: completion for /1 (arrived last), completion for /2,
    // then the two request entries
    let newest = children(&log[0]);
    assert_eq!(text(&newest[0]), "Response for coap://x/1");
    assert_eq!(response_payload_text(&log[0]), "one");
    let second = children(&log[1]);
    assert_eq!(text(&second[0]), "Response for coap://x/2");
    assert_eq!(response_payload_text(&log[1]), "two");
    assert_eq!(text(&log[2]), "Request to coap://x/2");
    assert_eq!(text(&log[3]), "Request to coap://x/1");
}

#[test]
fn each_submission_logs_one_request_entry() {
    let mut state = State::default();
    let urls = ["coap://a", "coap://b", "coap://c"];
    for url in &urls {
        state.update(StateMessage::UrlChange(url.to_string()));
        state.update(StateMessage::SubmitUrl);
    }
    assert_eq!(state.log_len(), 3);
    // completions arrive in a different order than submission
    for url in ["coap://c", "coap://a", "coap://b"] {
        state.update(StateMessage::Response {
            request: url.to_string(),
            response: Err(ProtocolError { description: "unreachable".to_string() }),
        });
    }
    let tree = state.view_nodes();
    let log = entries(&tree);
    let requests = log
        .iter()
        .filter(|e| matches!(e, ViewNode::Text(s) if s.starts_with("Request to ")))
        .count();
    let outcomes = log.len() - requests;
    assert_eq!(requests, 3);
    assert_eq!(outcomes, 3);
}

#[test]
fn failed_request_shows_error_entry() {
    let mut state = State::default();
    state.update(StateMessage::UrlChange("coap://down".to_string()));
    state.update(StateMessage::SubmitUrl);
    state.update(StateMessage::Response {
        request: "coap://down".to_string(),
        response: Err(ProtocolError { description: "host unreachable".to_string() }),
    });
    let tree = state.view_nodes();
    let log = entries(&tree);
    assert_eq!(class(&log[0]), "response bad");
    let parts = children(&log[0]);
    assert_eq!(text(&parts[0]), "Error requesting coap://down");
    assert_eq!(text(&parts[1]), "host unreachable");
}

#[test]
fn render_is_pure() {
    let mut state = State::default();
    state.update(StateMessage::UrlChange("coap://x".to_string()));
    state.update(StateMessage::SubmitUrl);
    state.update(StateMessage::Response {
        request: "coap://x".to_string(),
        response: Ok(message(vec![50], b"[1,2]", "raw")),
    });
    let first = state.view_nodes();
    let second = state.view_nodes();
    assert_eq!(first, second);
}

#[test]
fn url_keystrokes_replace_buffer_without_logging() {
    let mut state = State::default();
    let effect = state.update(StateMessage::UrlChange("co".to_string()));
    assert!(effect.should_render);
    assert_eq!(effect.dispatch, None);
    state.update(StateMessage::UrlChange("coap://x".to_string()));
    assert_eq!(state.url(), "coap://x");
    assert_eq!(state.log_len(), 0);
}

#[test]
fn display_toggle_switches_to_raw_and_back() {
    let mut state = State::default();
    state.update(StateMessage::UrlChange("coap://x".to_string()));
    state.update(StateMessage::SubmitUrl);
    state.update(StateMessage::Response {
        request: "coap://x".to_string(),
        response: Ok(message(vec![0], b"body text", "whole raw message")),
    });

    // the response entry sits at log position 1 (after the request entry)
    state.update(StateMessage::LogMsg {
        index: 1,
        msg: coap_browse::log::Msg::Response(coap_browse::response::Msg::SwitchDisplay(
            coap_browse::DisplayType::Raw,
        )),
    });
    let tree = state.view_nodes();
    let log = entries(&tree);
    let parts = children(&log[0]);
    assert_eq!(text(&parts[3]), "whole raw message");

    state.update(StateMessage::LogMsg {
        index: 1,
        msg: coap_browse::log::Msg::Response(coap_browse::response::Msg::SwitchDisplay(
            coap_browse::DisplayType::Rendered,
        )),
    });
    let tree = state.view_nodes();
    let log = entries(&tree);
    assert_eq!(response_payload_text(&log[0]), "body text");
}

#[test]
fn pending_request_tracking() {
    let mut state = State::default();
    let url = "coap://x".to_string();
    state.update(StateMessage::UrlChange(url.clone()));
    assert!(!state.has_pending_request(&url));
    state.update(StateMessage::SubmitUrl);
    assert!(state.has_pending_request(&url));
    assert!(!state.entry_is_response(0));
    state.update(StateMessage::Response {
        request: url.clone(),
        response: Err(ProtocolError { description: "e".to_string() }),
    });
    assert!(!state.has_pending_request(&url));
    assert!(!state.entry_is_response(1));
    assert!(!state.has_pending_request(&"coap://other".to_string()));
}

#[test]
fn duplicate_content_format_degrades_with_note() {
    let mut state = State::default();
    state.update(StateMessage::UrlChange("coap://x".to_string()));
    state.update(StateMessage::SubmitUrl);
    state.update(StateMessage::Response {
        request: "coap://x".to_string(),
        response: Ok(message(vec![50, 50], b"{\"a\":1}", "raw")),
    });
    let tree = state.view_nodes();
    let log = entries(&tree);
    let parts = children(&log[0]);
    assert_eq!(
        text(&parts[1]),
        "unspecified content format; invalid content-format options"
    );
    // degraded to absent: dumped, not parsed as JSON
    assert!(response_payload_text(&log[0]).starts_with("[\n"));
}
