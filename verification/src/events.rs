//! The messages that are broadcast to every connection when the user picks
//! or points at an element of a page.

use crate::json;
use crate::json::{json_parse, json_text, Json};
use crate::response::no_members;
use vstd::prelude::*;

verus! {

/// The application event that the page emits when an element was picked.
pub const ELEMENT_PICKED_EVENT: &'static str = "__element_picked";

/// The application event that the page emits when an element was pointed at.
pub const ELEMENT_POINTED_EVENT: &'static str = "__element_pointed";

/// The type of the broadcast message for a picked element.
pub const ELEMENT_PICKED: &'static str = "element_picked";

/// The type of the broadcast message for an element pointed at.
pub const ELEMENT_POINTED: &'static str = "element_pointed";

/// A broadcast message: its type, and the payload of the event, which is
/// null where the payload text is no JSON.
pub open spec fn broadcast_model(kind: Seq<char>, payload: Seq<char>) -> Json {
    Json::Object(
        no_members().insert("type"@, Json::Str(kind)).insert(
            "payload"@,
            Json::or_null(json_parse(payload)),
        ),
    )
}

/// Writes the broadcast message of type `kind` for an event with the given
/// payload text.
pub fn broadcast_message(kind: &str, payload: &str) -> (r: String)
    ensures
        r@ == json_text(broadcast_model(kind@, payload@)),
{
    let mut m = json::new_object();
    json::put(&mut m, "type", json::text(kind));
    json::put(&mut m, "payload", json::or_null(json::parse(payload)));
    json::to_text(&json::object(m))
}

/// Writes the broadcast message for a picked element.
pub fn element_picked_message(payload: &str) -> (r: String)
    ensures
        r@ == json_text(broadcast_model(ELEMENT_PICKED@, payload@)),
{
    broadcast_message(ELEMENT_PICKED, payload)
}

/// Writes the broadcast message for an element pointed at.
pub fn element_pointed_message(payload: &str) -> (r: String)
    ensures
        r@ == json_text(broadcast_model(ELEMENT_POINTED@, payload@)),
{
    broadcast_message(ELEMENT_POINTED, payload)
}

} // verus!
