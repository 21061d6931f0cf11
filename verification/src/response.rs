//! The response objects of the command protocol.

use crate::json;
use crate::json::{json_model, Json, JsonNumber};
use crate::script_registry::{entry_models, EntryModel, ScriptEntry, ScriptType};
use crate::window::{ContextModel, WindowContext};
use vstd::prelude::*;

verus! {

/// An object without members.
pub open spec fn no_members() -> Map<Seq<char>, Json> {
    Map::empty()
}

/// The response that reports success with `data`.
pub open spec fn success_model(id: Seq<char>, data: Json) -> Json {
    Json::Object(
        no_members().insert("id"@, Json::Str(id)).insert("success"@, Json::Bool(true)).insert(
            "data"@,
            data,
        ),
    )
}

/// The response that reports failure with the text `error`.
pub open spec fn error_model(id: Seq<char>, error: Seq<char>) -> Json {
    Json::Object(
        no_members().insert("id"@, Json::Str(id)).insert("success"@, Json::Bool(false)).insert(
            "error"@,
            Json::Str(error),
        ),
    )
}

/// A window context as it is written into a response.
pub open spec fn context_model(context: ContextModel) -> Json {
    Json::Object(
        no_members().insert("windowLabel"@, Json::Str(context.window_label)).insert(
            "totalWindows"@,
            Json::Number(JsonNumber::PosInt(context.total_windows as u64)),
        ).insert("warning"@, Json::text_or_null(context.warning)),
    )
}

/// A response with success flag, data and the window context.
pub open spec fn data_in_context_model(
    id: Seq<char>,
    success: bool,
    data: Json,
    context: ContextModel,
) -> Json {
    Json::Object(
        no_members().insert("id"@, Json::Str(id)).insert("success"@, Json::Bool(success)).insert(
            "data"@,
            data,
        ).insert("windowContext"@, context_model(context)),
    )
}

/// A failure that still names the window it concerned.
pub open spec fn error_in_context_model(
    id: Seq<char>,
    error: Seq<char>,
    context: ContextModel,
) -> Json {
    Json::Object(
        no_members().insert("id"@, Json::Str(id)).insert("success"@, Json::Bool(false)).insert(
            "error"@,
            Json::Str(error),
        ).insert("windowContext"@, context_model(context)),
    )
}

/// A response with success flag, data, an error member that may be null,
/// and the window context.
pub open spec fn full_model(
    id: Seq<char>,
    success: bool,
    data: Json,
    error: Json,
    context: ContextModel,
) -> Json {
    Json::Object(
        no_members().insert("id"@, Json::Str(id)).insert("success"@, Json::Bool(success)).insert(
            "data"@,
            data,
        ).insert("error"@, error).insert("windowContext"@, context_model(context)),
    )
}

/// A response with success flag, data and an error member that may be
/// null, without a window context.
pub open spec fn data_and_error_model(id: Seq<char>, success: bool, data: Json, error: Json) -> Json {
    Json::Object(
        no_members().insert("id"@, Json::Str(id)).insert("success"@, Json::Bool(success)).insert(
            "data"@,
            data,
        ).insert("error"@, error),
    )
}

/// Builds the response that reports success with `data`.
pub fn success_response(id: &str, data: serde_json::Value) -> (r: serde_json::Value)
    ensures
        json_model(r) == success_model(id@, json_model(data)),
{
    let mut m = json::new_object();
    json::put(&mut m, "id", json::text(id));
    json::put(&mut m, "success", json::boolean(true));
    json::put(&mut m, "data", data);
    json::object(m)
}

/// Builds the response that reports failure with the text `error`.
pub fn error_response(id: &str, error: &str) -> (r: serde_json::Value)
    ensures
        json_model(r) == error_model(id@, error@),
{
    let mut m = json::new_object();
    json::put(&mut m, "id", json::text(id));
    json::put(&mut m, "success", json::boolean(false));
    json::put(&mut m, "error", json::text(error));
    json::object(m)
}

/// Writes a window context as a JSON object.
pub fn context_json(context: &WindowContext) -> (r: serde_json::Value)
    ensures
        json_model(r) == context_model(context@),
{
    let mut m = json::new_object();
    json::put(&mut m, "windowLabel", json::text(context.window_label.as_str()));
    json::put(&mut m, "totalWindows", json::number(context.total_windows as u64));
    json::put(&mut m, "warning", json::text_or_null(&context.warning));
    json::object(m)
}

/// Builds a response with success flag, data and the window context.
pub fn data_in_context(
    id: &str,
    success: bool,
    data: serde_json::Value,
    context: &WindowContext,
) -> (r: serde_json::Value)
    ensures
        json_model(r) == data_in_context_model(id@, success, json_model(data), context@),
{
    let mut m = json::new_object();
    json::put(&mut m, "id", json::text(id));
    json::put(&mut m, "success", json::boolean(success));
    json::put(&mut m, "data", data);
    json::put(&mut m, "windowContext", context_json(context));
    json::object(m)
}

/// Builds a failure that still names the window it concerned.
pub fn error_in_context(id: &str, error: &str, context: &WindowContext) -> (r: serde_json::Value)
    ensures
        json_model(r) == error_in_context_model(id@, error@, context@),
{
    let mut m = json::new_object();
    json::put(&mut m, "id", json::text(id));
    json::put(&mut m, "success", json::boolean(false));
    json::put(&mut m, "error", json::text(error));
    json::put(&mut m, "windowContext", context_json(context));
    json::object(m)
}

/// Builds a response with success flag, data, an error member that may be
/// null, and the window context.
pub fn full_response(
    id: &str,
    success: bool,
    data: serde_json::Value,
    error: serde_json::Value,
    context: &WindowContext,
) -> (r: serde_json::Value)
    ensures
        json_model(r) == full_model(id@, success, json_model(data), json_model(error), context@),
{
    let mut m = json::new_object();
    json::put(&mut m, "id", json::text(id));
    json::put(&mut m, "success", json::boolean(success));
    json::put(&mut m, "data", data);
    json::put(&mut m, "error", error);
    json::put(&mut m, "windowContext", context_json(context));
    json::object(m)
}

/// Builds a response with success flag, data and an error member that may
/// be null, without a window context.
pub fn data_and_error(
    id: &str,
    success: bool,
    data: serde_json::Value,
    error: serde_json::Value,
) -> (r: serde_json::Value)
    ensures
        json_model(r) == data_and_error_model(id@, success, json_model(data), json_model(error)),
{
    let mut m = json::new_object();
    json::put(&mut m, "id", json::text(id));
    json::put(&mut m, "success", json::boolean(success));
    json::put(&mut m, "data", data);
    json::put(&mut m, "error", error);
    json::object(m)
}

/// What a registration reports.
pub open spec fn registered_model(script_id: Seq<char>) -> Json {
    Json::Object(
        no_members().insert("registered"@, Json::Bool(true)).insert(
            "scriptId"@,
            Json::Str(script_id),
        ),
    )
}

/// What a removal reports: whether the registry held the script.
pub open spec fn removed_model(removed: bool, script_id: Seq<char>) -> Json {
    Json::Object(
        no_members().insert("removed"@, Json::Bool(removed)).insert(
            "scriptId"@,
            Json::Str(script_id),
        ),
    )
}

/// What a clearing reports: how many scripts the registry held.
pub open spec fn cleared_model(count: nat) -> Json {
    Json::Object(no_members().insert("cleared"@, Json::Number(JsonNumber::PosInt(count as u64))))
}

/// The name under which a script type goes over the wire.
pub open spec fn script_type_name(script_type: ScriptType) -> Seq<char> {
    match script_type {
        ScriptType::Inline => "inline"@,
        ScriptType::Url => "url"@,
    }
}

/// One registry entry as it is listed.
pub open spec fn entry_model_json(entry: EntryModel) -> Json {
    Json::Object(
        no_members().insert("id"@, Json::Str(entry.id)).insert(
            "type"@,
            Json::Str(script_type_name(entry.script_type)),
        ).insert("content"@, Json::Str(entry.content)),
    )
}

/// The listing of the registry: its entries in registry order.
pub open spec fn scripts_model(entries: Seq<EntryModel>) -> Json {
    Json::Object(
        no_members().insert(
            "scripts"@,
            Json::Array(Seq::new(entries.len(), |i: int| entry_model_json(entries[i]))),
        ),
    )
}

/// Builds what a registration reports.
pub fn registered_data(script_id: &str) -> (r: serde_json::Value)
    ensures
        json_model(r) == registered_model(script_id@),
{
    let mut m = json::new_object();
    json::put(&mut m, "registered", json::boolean(true));
    json::put(&mut m, "scriptId", json::text(script_id));
    json::object(m)
}

/// Builds what a removal reports.
pub fn removed_data(removed: bool, script_id: &str) -> (r: serde_json::Value)
    ensures
        json_model(r) == removed_model(removed, script_id@),
{
    let mut m = json::new_object();
    json::put(&mut m, "removed", json::boolean(removed));
    json::put(&mut m, "scriptId", json::text(script_id));
    json::object(m)
}

/// Builds what a clearing reports.
pub fn cleared_data(count: usize) -> (r: serde_json::Value)
    ensures
        json_model(r) == cleared_model(count as nat),
{
    let mut m = json::new_object();
    json::put(&mut m, "cleared", json::number(count as u64));
    json::object(m)
}

/// Writes one registry entry as it is listed.
pub fn entry_json(entry: &ScriptEntry) -> (r: serde_json::Value)
    ensures
        json_model(r) == entry_model_json(entry@),
{
    let mut m = json::new_object();
    json::put(&mut m, "id", json::text(entry.id.as_str()));
    let name = match entry.script_type {
        ScriptType::Inline => "inline",
        ScriptType::Url => "url",
    };
    json::put(&mut m, "type", json::text(name));
    json::put(&mut m, "content", json::text(entry.content.as_str()));
    json::object(m)
}

/// Builds the listing of `entries`.
pub fn scripts_data(entries: &Vec<ScriptEntry>) -> (r: serde_json::Value)
    ensures
        json_model(r) == scripts_model(entry_models(entries@)),
{
    let mut items: Vec<serde_json::Value> = Vec::new();
    let mut i: usize = 0;
    while i < entries.len()
        invariant
            i <= entries.len(),
            items.len() == i,
            forall|j: int| 0 <= j < i ==> json_model(items[j]) == entry_model_json(entries[j]@),
        decreases entries.len() - i,
    {
        items.push(entry_json(&entries[i]));
        i += 1;
    }
    assert(json::json_models(items@) =~= Seq::new(
        entries.len() as nat,
        |i: int| entry_model_json(entry_models(entries@)[i]),
    ));
    let mut m = json::new_object();
    json::put(&mut m, "scripts", json::array(items));
    json::object(m)
}

/// The id that a response carries.
pub open spec fn response_id(response: Json) -> Option<Seq<char>> {
    response.str_member("id"@)
}

/// The names of the members of a response differ from one another.
pub proof fn lemma_member_names_differ()
    ensures
        "id"@ != "success"@,
        "id"@ != "data"@,
        "id"@ != "error"@,
        "id"@ != "windowContext"@,
{
    reveal_strlit("id");
    reveal_strlit("success");
    reveal_strlit("data");
    reveal_strlit("error");
    reveal_strlit("windowContext");
    assert("id"@.len() == 2);
    assert("success"@.len() == 7);
    assert("data"@.len() == 4);
    assert("error"@.len() == 5);
    assert("windowContext"@.len() == 13);
}

/// Every response built here carries the id it was built with.
pub proof fn lemma_response_ids(
    id: Seq<char>,
    success: bool,
    data: Json,
    error: Seq<char>,
    error_member: Json,
    context: ContextModel,
)
    ensures
        response_id(success_model(id, data)) == Some(id),
        response_id(error_model(id, error)) == Some(id),
        response_id(data_in_context_model(id, success, data, context)) == Some(id),
        response_id(error_in_context_model(id, error, context)) == Some(id),
        response_id(full_model(id, success, data, error_member, context)) == Some(id),
        response_id(data_and_error_model(id, success, data, error_member)) == Some(id),
{
    lemma_member_names_differ();
}

} // verus!
