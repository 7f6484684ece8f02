//! The outbound wire: JSON string escaping and the snapshot envelope.

use coap_browse::{
    encode_node, encode_snapshot, quote_text, DisplayType, StateMessage, ViewNode,
};

#[test]
fn quoting_escapes_specials() {
    assert_eq!(quote_text("plain"), "\"plain\"");
    assert_eq!(quote_text("a\"b\\c\nd"), "\"a\\\"b\\\\c\\nd\"");
    assert_eq!(quote_text("\r\t"), "\"\\r\\t\"");
    assert_eq!(quote_text("\u{1}\u{1f}"), "\"\\u0001\\u001f\"");
    assert_eq!(quote_text(""), "\"\"");
}

#[test]
fn snapshot_envelope_shape() {
    let tree: ViewNode<StateMessage> = ViewNode::Container {
        class: "c".to_string(),
        children: vec![
            ViewNode::Text("x".to_string()),
            ViewNode::Input { value: "u".to_string() },
            ViewNode::Button { label: "l".to_string(), action: StateMessage::SubmitUrl },
        ],
    };
    assert_eq!(
        encode_snapshot(&tree),
        "{\"tree\":{\"type\":\"container\",\"class\":\"c\",\"children\":[\
         {\"type\":\"text\",\"text\":\"x\"},\
         {\"type\":\"input\",\"value\":\"u\"},\
         {\"type\":\"button\",\"label\":\"l\",\"action\":{\"tag\":\"SubmitUrl\"}}]}}"
    );
}

#[test]
fn toggle_button_action_shape() {
    let node: ViewNode<StateMessage> = ViewNode::Button {
        label: "raw".to_string(),
        action: StateMessage::LogMsg {
            index: 3,
            msg: coap_browse::log::Msg::Response(coap_browse::response::Msg::SwitchDisplay(
                DisplayType::Raw,
            )),
        },
    };
    assert_eq!(
        encode_node(&node),
        "{\"type\":\"button\",\"label\":\"raw\",\"action\":\
         {\"tag\":\"ToggleDisplay\",\"index\":3,\"raw\":true}}"
    );
}

#[test]
fn snapshot_is_valid_json() {
    let mut state = coap_browse::State::default();
    state.update(StateMessage::UrlChange("coap://x/\"quoted\"".to_string()));
    state.update(StateMessage::SubmitUrl);
    state.update(StateMessage::Response {
        request: "coap://x/\"quoted\"".to_string(),
        response: Ok(coap_browse::Message {
            format_options: vec![0],
            payload: b"line\nbreak".to_vec(),
            raw: "raw \\ with specials\t".to_string(),
        }),
    });
    let json = encode_snapshot(&state.view_nodes());
    let parsed: serde_json::Value = serde_json::from_str(&json).expect("snapshot must be JSON");
    assert!(parsed.get("tree").is_some());
}
