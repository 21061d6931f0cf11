use mcp_bridge::events::{
    broadcast_message, element_picked_message, element_pointed_message, ELEMENT_PICKED_EVENT,
    ELEMENT_POINTED_EVENT,
};
use serde_json::Value;

fn value(text: &str) -> Value {
    serde_json::from_str(text).unwrap()
}

#[test]
fn a_picked_element_is_broadcast_with_its_payload() {
    let text = element_picked_message(r##"{"selector":"#a","tag":"div"}"##);
    assert_eq!(
        value(&text),
        value(r##"{"type":"element_picked","payload":{"selector":"#a","tag":"div"}}"##)
    );
    assert_eq!(text, r##"{"payload":{"selector":"#a","tag":"div"},"type":"element_picked"}"##);
}

#[test]
fn a_pointed_element_is_broadcast_with_its_payload() {
    let text = element_pointed_message("[1,2,3]");
    assert_eq!(value(&text), value(r#"{"type":"element_pointed","payload":[1,2,3]}"#));
}

#[test]
fn a_payload_that_is_no_json_is_broadcast_as_null() {
    let text = broadcast_message("element_picked", "not json");
    assert_eq!(value(&text), value(r#"{"type":"element_picked","payload":null}"#));
    let empty = broadcast_message("element_picked", "");
    assert_eq!(value(&empty), value(r#"{"type":"element_picked","payload":null}"#));
}

#[test]
fn the_page_events_have_their_names() {
    assert_eq!(ELEMENT_PICKED_EVENT, "__element_picked");
    assert_eq!(ELEMENT_POINTED_EVENT, "__element_pointed");
}
