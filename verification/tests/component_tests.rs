//! The counter component, the render hand-off coalescing, and the wire-side
//! decisions of the action sink.

use coap_browse::component::Component;
use coap_browse::{
    classify_incoming, protocol_accepted, protocol_name, Action, RenderSlot, Root, ViewNode,
    WireIncoming, WireStep,
};

#[test]
fn counter_updates_and_renders() {
    let mut root = Root::new();
    assert!(root.update(Action::Increment));
    assert!(root.update(Action::Increment));
    assert!(root.update(Action::Decrement));
    assert_eq!(root.count, 1);

    let tree = root.render();
    match tree {
        ViewNode::Container { class, children } => {
            assert_eq!(class, "counter");
            assert_eq!(children.len(), 3);
            assert_eq!(children[0], ViewNode::Text("1".to_string()));
            assert_eq!(
                children[1],
                ViewNode::Button { label: "increment".to_string(), action: Action::Increment }
            );
            assert_eq!(
                children[2],
                ViewNode::Button { label: "decrement".to_string(), action: Action::Decrement }
            );
        },
        _ => panic!("expected a container"),
    }
}

#[test]
fn render_slot_coalesces_to_latest() {
    let mut slot: RenderSlot<u32> = RenderSlot::new();
    assert_eq!(slot.take(), None);
    slot.offer(1);
    slot.offer(2);
    slot.offer(3);
    assert_eq!(slot.take(), Some(3));
    assert_eq!(slot.take(), None);
}

#[test]
fn classify_text_delivers() {
    match classify_incoming(WireIncoming::Text("{\"tag\":\"SubmitUrl\"}".to_string())) {
        WireStep::Deliver(s) => assert_eq!(s, "{\"tag\":\"SubmitUrl\"}"),
        _ => panic!("text frames must be delivered"),
    }
}

#[test]
fn classify_close_terminates() {
    assert!(matches!(classify_incoming(WireIncoming::Close), WireStep::Terminate));
}

#[test]
fn classify_noise_is_ignored() {
    assert!(matches!(classify_incoming(WireIncoming::Ping(vec![1])), WireStep::Ignore));
    assert!(matches!(classify_incoming(WireIncoming::Pong(vec![])), WireStep::Ignore));
    assert!(matches!(classify_incoming(WireIncoming::Binary(vec![0])), WireStep::Ignore));
}

#[test]
fn protocol_check() {
    assert_eq!(protocol_name(), "coap-browse");
    assert!(protocol_accepted(&vec!["coap-browse".to_string()]));
    assert!(protocol_accepted(&vec!["other".to_string(), "coap-browse".to_string()]));
    assert!(!protocol_accepted(&vec![]));
    assert!(!protocol_accepted(&vec!["http".to_string()]));
}
