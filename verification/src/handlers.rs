//! The first half of every command: from the arguments to a ready response
//! or to a call of the host.

use crate::host::{HostCall, HostCallModel, Pending, PendingModel, Step, StepModel};
use crate::injection::{
    clear_scripts, clearing_kept, clearing_kept_text, inject_script, injection_kept,
    injection_kept_text, injection_script, removal_kept, removal_kept_text, removal_script,
    remove_script, CLEAR_ALL,
};
use crate::json;
use crate::json::{json_model, Json};
use crate::response::{
    cleared_data, cleared_model, data_and_error, data_and_error_model, error_model,
    error_response, registered_data, registered_model, removed_data, removed_model,
    scripts_data, scripts_model, success_model, success_response,
};
use crate::script_registry::{
    lookup, registered, unregistered, EntryModel, ScriptEntry, ScriptRegistry, ScriptType,
};
use crate::text::{join2, same_text};
use crate::window::{choose_window, chosen};
use vstd::prelude::*;
use vstd::string::StringExecFns;

verus! {

/// What `invoke_tauri` leads to.
///
/// The nested command name selects one of the host operations that may be
/// reached this way; any other name is refused by name. The window of a
/// window-scoped operation is resolved among `targets`, and the monitor is
/// told through the first live window.
pub open spec fn invoke_tauri_step(id: Seq<char>, args: Json, targets: Seq<Seq<char>>) -> StepModel {
    match args.str_member("command"@) {
        None => StepModel::Reply(error_model(id, "Missing command in args"@)),
        Some(name) => {
            let plain = PendingModel::Plain { id };
            if name == "plugin:mcp-bridge|get_window_info"@ {
                match chosen(args.nested_str("args"@, "windowLabel"@), targets) {
                    Ok(context) => StepModel::Ask {
                        call: HostCallModel::GetWindowInfo { window: context.window_label },
                        pending: plain,
                    },
                    Err(e) => StepModel::Reply(error_model(id, e)),
                }
            } else if name == "plugin:mcp-bridge|get_backend_state"@ {
                StepModel::Ask { call: HostCallModel::GetBackendState, pending: plain }
            } else if name == "plugin:mcp-bridge|start_ipc_monitor"@ {
                if targets.len() == 0 {
                    StepModel::Reply(error_model(id, "No window available"@))
                } else {
                    StepModel::Ask {
                        call: HostCallModel::StartIpcMonitor { window: targets[0] },
                        pending: plain,
                    }
                }
            } else if name == "plugin:mcp-bridge|stop_ipc_monitor"@ {
                if targets.len() == 0 {
                    StepModel::Reply(error_model(id, "No window available"@))
                } else {
                    StepModel::Ask {
                        call: HostCallModel::StopIpcMonitor { window: targets[0] },
                        pending: plain,
                    }
                }
            } else if name == "plugin:mcp-bridge|get_ipc_events"@ {
                StepModel::Ask { call: HostCallModel::GetIpcEvents, pending: plain }
            } else if name == "plugin:mcp-bridge|emit_event"@ {
                match args.nested_str("args"@, "eventName"@) {
                    None => StepModel::Reply(error_model(id, "Missing eventName in args"@)),
                    Some(event_name) => StepModel::Ask {
                        call: HostCallModel::EmitEvent {
                            event_name,
                            payload: Json::or_null(args.nested_member("args"@, "payload"@)),
                        },
                        pending: plain,
                    },
                }
            } else {
                StepModel::Reply(error_model(id, "Unsupported Tauri command: "@ + name))
            }
        },
    }
}

fn refuse(id: &str, error: &str) -> (r: Step)
    ensures
        r@ == StepModel::Reply(error_model(id@, error@)),
{
    Step::Reply(error_response(id, error))
}

fn ask_plain(id: &str, call: HostCall) -> (r: Step)
    ensures
        r@ == (StepModel::Ask { call: call@, pending: PendingModel::Plain { id: id@ } }),
{
    Step::Ask { call, pending: Pending::Plain { id: String::from_str(id) } }
}

/// Handles `invoke_tauri`, which reaches a fixed set of host operations by
/// name.
pub fn handle_invoke_tauri(id: &str, args: &serde_json::Value, targets: &Vec<String>) -> (r: Step)
    ensures
        r@ == invoke_tauri_step(id@, json_model(*args), targets.deep_view()),
{
    let Some(name) = json::str_member(args, "command") else {
        return refuse(id, "Missing command in args");
    };
    if same_text(name, "plugin:mcp-bridge|get_window_info") {
        let window_label = json::nested_str(args, "args", "windowLabel");
        match choose_window(targets, window_label) {
            Ok(context) => ask_plain(id, HostCall::GetWindowInfo { window: context.window_label }),
            Err(e) => refuse(id, e.as_str()),
        }
    } else if same_text(name, "plugin:mcp-bridge|get_backend_state") {
        ask_plain(id, HostCall::GetBackendState)
    } else if same_text(name, "plugin:mcp-bridge|start_ipc_monitor") {
        if targets.len() == 0 {
            refuse(id, "No window available")
        } else {
            ask_plain(id, HostCall::StartIpcMonitor { window: targets[0].clone() })
        }
    } else if same_text(name, "plugin:mcp-bridge|stop_ipc_monitor") {
        if targets.len() == 0 {
            refuse(id, "No window available")
        } else {
            ask_plain(id, HostCall::StopIpcMonitor { window: targets[0].clone() })
        }
    } else if same_text(name, "plugin:mcp-bridge|get_ipc_events") {
        ask_plain(id, HostCall::GetIpcEvents)
    } else if same_text(name, "plugin:mcp-bridge|emit_event") {
        let Some(event_name) = json::nested_str(args, "args", "eventName") else {
            return refuse(id, "Missing eventName in args");
        };
        let payload = json::or_null(json::nested_copy(args, "args", "payload"));
        ask_plain(id, HostCall::EmitEvent { event_name: String::from_str(event_name), payload })
    } else {
        refuse(id, join2("Unsupported Tauri command: ", name).as_str())
    }
}

/// What `list_windows` leads to: the host lists its windows.
pub open spec fn list_windows_step(id: Seq<char>) -> StepModel {
    StepModel::Ask { call: HostCallModel::ListWindows, pending: PendingModel::Plain { id } }
}

/// Handles `list_windows`.
pub fn handle_list_windows(id: &str) -> (r: Step)
    ensures
        r@ == list_windows_step(id@),
{
    ask_plain(id, HostCall::ListWindows)
}

/// What `get_window_info` leads to: the window named by `args.windowId` is
/// resolved and the host describes it.
pub open spec fn get_window_info_step(
    id: Seq<char>,
    command: Json,
    targets: Seq<Seq<char>>,
) -> StepModel {
    match chosen(command.nested_str("args"@, "windowId"@), targets) {
        Ok(context) => StepModel::Ask {
            call: HostCallModel::GetWindowInfo { window: context.window_label },
            pending: PendingModel::Plain { id },
        },
        Err(e) => StepModel::Reply(error_model(id, e)),
    }
}

/// Handles `get_window_info`.
pub fn handle_get_window_info(
    id: &str,
    command: &serde_json::Value,
    targets: &Vec<String>,
) -> (r: Step)
    ensures
        r@ == get_window_info_step(id@, json_model(*command), targets.deep_view()),
{
    let window_id = json::nested_str(command, "args", "windowId");
    match choose_window(targets, window_id) {
        Ok(context) => ask_plain(id, HostCall::GetWindowInfo { window: context.window_label }),
        Err(e) => refuse(id, e.as_str()),
    }
}

/// What `execute_js` leads to: the script runs in the resolved window, and
/// the context of the resolution is kept for the response.
pub open spec fn execute_js_step(id: Seq<char>, args: Json, targets: Seq<Seq<char>>) -> StepModel {
    match args.str_member("script"@) {
        None => StepModel::Reply(error_model(id, "Missing script argument"@)),
        Some(script) => match chosen(args.str_member("windowLabel"@), targets) {
            Ok(context) => StepModel::Ask {
                call: HostCallModel::ExecuteJs { window: context.window_label, script },
                pending: PendingModel::ExecuteJs { id, context },
            },
            Err(e) => StepModel::Reply(error_model(id, e)),
        },
    }
}

/// Handles `execute_js`.
pub fn handle_execute_js(id: &str, args: &serde_json::Value, targets: &Vec<String>) -> (r: Step)
    ensures
        r@ == execute_js_step(id@, json_model(*args), targets.deep_view()),
{
    let Some(script) = json::str_member(args, "script") else {
        return refuse(id, "Missing script argument");
    };
    let window_label = json::str_member(args, "windowLabel");
    match choose_window(targets, window_label) {
        Ok(context) => Step::Ask {
            call: HostCall::ExecuteJs {
                window: context.window_label.clone(),
                script: String::from_str(script),
            },
            pending: Pending::ExecuteJs { id: String::from_str(id), context },
        },
        Err(e) => refuse(id, e.as_str()),
    }
}

/// A quality as the protocol reads it from a number: its low eight bits.
pub open spec fn quality_of(n: Option<u64>) -> Option<u8> {
    match n {
        Some(q) => Some((q % 256) as u8),
        None => None,
    }
}

/// A width or height as the protocol reads it from a number: its low 32
/// bits.
pub open spec fn pixels_of(n: Option<u64>) -> Option<u32> {
    match n {
        Some(w) => Some((w % 0x1_0000_0000) as u32),
        None => None,
    }
}

fn read_quality(n: Option<u64>) -> (r: Option<u8>)
    ensures
        r == quality_of(n),
{
    match n {
        Some(q) => Some((q % 256) as u8),
        None => None,
    }
}

fn read_pixels(n: Option<u64>) -> (r: Option<u32>)
    ensures
        r == pixels_of(n),
{
    match n {
        Some(w) => Some((w % 0x1_0000_0000) as u32),
        None => None,
    }
}

/// What `capture_native_screenshot` leads to: the resolved window is
/// captured with the options that the arguments give, all of them optional.
pub open spec fn capture_screenshot_step(
    id: Seq<char>,
    command: Json,
    targets: Seq<Seq<char>>,
) -> StepModel {
    match chosen(command.nested_str("args"@, "windowLabel"@), targets) {
        Ok(context) => StepModel::Ask {
            call: HostCallModel::CaptureScreenshot {
                window: context.window_label,
                format: command.nested_str("args"@, "format"@),
                quality: quality_of(command.nested_u64("args"@, "quality"@)),
                max_width: pixels_of(command.nested_u64("args"@, "maxWidth"@)),
            },
            pending: PendingModel::Screenshot { id, context },
        },
        Err(e) => StepModel::Reply(error_model(id, e)),
    }
}

/// Handles `capture_native_screenshot`.
pub fn handle_capture_screenshot(
    id: &str,
    command: &serde_json::Value,
    targets: &Vec<String>,
) -> (r: Step)
    ensures
        r@ == capture_screenshot_step(id@, json_model(*command), targets.deep_view()),
{
    let format = match json::nested_str(command, "args", "format") {
        Some(f) => Some(String::from_str(f)),
        None => None,
    };
    let quality = read_quality(json::nested_u64(command, "args", "quality"));
    let max_width = read_pixels(json::nested_u64(command, "args", "maxWidth"));
    let window_label = json::nested_str(command, "args", "windowLabel");
    match choose_window(targets, window_label) {
        Ok(context) => Step::Ask {
            call: HostCall::CaptureScreenshot {
                window: context.window_label.clone(),
                format,
                quality,
                max_width,
            },
            pending: Pending::Screenshot { id: String::from_str(id), context },
        },
        Err(e) => refuse(id, e.as_str()),
    }
}

/// What `resize_window` leads to: an error where width or height is
/// missing, and a resize by the host otherwise. Sizes are logical unless
/// the arguments say otherwise.
pub open spec fn resize_window_step(id: Seq<char>, args: Json) -> StepModel {
    match (pixels_of(args.u64_member("width"@)), pixels_of(args.u64_member("height"@))) {
        (Some(width), Some(height)) => StepModel::Ask {
            call: HostCallModel::ResizeWindow {
                width,
                height,
                window_id: args.str_member("windowId"@),
                logical: match args.bool_member("logical"@) {
                    Some(b) => b,
                    None => true,
                },
            },
            pending: PendingModel::Resize { id },
        },
        _ => StepModel::Reply(error_model(id, "Missing width or height argument"@)),
    }
}

/// Handles `resize_window`.
pub fn handle_resize_window(id: &str, args: &serde_json::Value) -> (r: Step)
    ensures
        r@ == resize_window_step(id@, json_model(*args)),
{
    let width = read_pixels(json::u64_member(args, "width"));
    let height = read_pixels(json::u64_member(args, "height"));
    let window_id = json::string_member(args, "windowId");
    let logical = match json::bool_member(args, "logical") {
        Some(b) => b,
        None => true,
    };
    match (width, height) {
        (Some(w), Some(h)) => Step::Ask {
            call: HostCall::ResizeWindow { width: w, height: h, window_id, logical },
            pending: Pending::Resize { id: String::from_str(id) },
        },
        _ => refuse(id, "Missing width or height argument"),
    }
}

/// The entry that the arguments of `register_script` describe: id, type
/// and content must all be texts, and any type but `url` is inline.
pub open spec fn described_entry(args: Json) -> Option<EntryModel> {
    match (args.str_member("id"@), args.str_member("type"@), args.str_member("content"@)) {
        (Some(id), Some(kind), Some(content)) => Some(
            EntryModel {
                id,
                script_type: if kind == "url"@ {
                    ScriptType::Url
                } else {
                    ScriptType::Inline
                },
                content,
            },
        ),
        _ => None,
    }
}

/// What `register_script` leads to: the entry is injected into the
/// resolved window. A window that cannot be resolved does not undo the
/// registration: the response still reports it, with the error beside it.
pub open spec fn register_script_step(
    id: Seq<char>,
    args: Json,
    targets: Seq<Seq<char>>,
) -> StepModel {
    match described_entry(args) {
        None => StepModel::Reply(error_model(id, "Missing required args: id, type, content"@)),
        Some(entry) => match chosen(args.str_member("windowLabel"@), targets) {
            Ok(context) => StepModel::Ask {
                call: HostCallModel::Eval {
                    window: context.window_label,
                    script: injection_script(entry),
                },
                pending: PendingModel::Registered { id, script_id: entry.id, context },
            },
            Err(e) => StepModel::Reply(
                data_and_error_model(
                    id,
                    true,
                    registered_model(entry.id),
                    Json::Str(injection_kept_text(e)),
                ),
            ),
        },
    }
}

/// The registry after `register_script`: the described entry is registered
/// whether or not a window is found for it.
pub open spec fn register_script_registry(args: Json, registry: Seq<EntryModel>) -> Seq<
    EntryModel,
> {
    match described_entry(args) {
        None => registry,
        Some(entry) => registered(registry, entry),
    }
}

/// Handles `register_script`.
pub fn handle_register_script(
    id: &str,
    args: &serde_json::Value,
    targets: &Vec<String>,
    registry: &mut ScriptRegistry,
) -> (r: Step)
    ensures
        r@ == register_script_step(id@, json_model(*args), targets.deep_view()),
        final(registry)@ == register_script_registry(json_model(*args), old(registry)@),
{
    let script_id = json::str_member(args, "id");
    let kind = json::str_member(args, "type");
    let content = json::str_member(args, "content");
    let (Some(id_str), Some(kind_str), Some(content_str)) = (script_id, kind, content) else {
        return refuse(id, "Missing required args: id, type, content");
    };
    let script_type = if same_text(kind_str, "url") {
        ScriptType::Url
    } else {
        ScriptType::Inline
    };
    let entry = ScriptEntry {
        id: String::from_str(id_str),
        script_type,
        content: String::from_str(content_str),
    };
    let script = inject_script(&entry);
    registry.add(entry);
    let window_label = json::str_member(args, "windowLabel");
    match choose_window(targets, window_label) {
        Ok(context) => Step::Ask {
            call: HostCall::Eval { window: context.window_label.clone(), script },
            pending: Pending::Registered {
                id: String::from_str(id),
                script_id: String::from_str(id_str),
                context,
            },
        },
        Err(e) => {
            let error = injection_kept(e.as_str());
            Step::Reply(
                data_and_error(id, true, registered_data(id_str), json::text(error.as_str())),
            )
        },
    }
}

/// What `remove_script` leads to: the page is asked to drop the script. A
/// window that cannot be resolved does not undo the removal from the
/// registry: the response still reports it, with the error beside it.
pub open spec fn remove_script_step(
    id: Seq<char>,
    args: Json,
    targets: Seq<Seq<char>>,
    registry: Seq<EntryModel>,
) -> StepModel {
    match args.str_member("id"@) {
        None => StepModel::Reply(error_model(id, "Missing script id"@)),
        Some(script_id) => {
            let removed = lookup(registry, script_id).is_some();
            match chosen(args.str_member("windowLabel"@), targets) {
                Ok(context) => StepModel::Ask {
                    call: HostCallModel::Eval {
                        window: context.window_label,
                        script: removal_script(script_id),
                    },
                    pending: PendingModel::Removed { id, removed, script_id, context },
                },
                Err(e) => StepModel::Reply(
                    data_and_error_model(
                        id,
                        true,
                        removed_model(removed, script_id),
                        Json::Str(removal_kept_text(e)),
                    ),
                ),
            }
        },
    }
}

/// The registry after `remove_script`.
pub open spec fn remove_script_registry(args: Json, registry: Seq<EntryModel>) -> Seq<EntryModel> {
    match args.str_member("id"@) {
        None => registry,
        Some(script_id) => unregistered(registry, script_id),
    }
}

/// Handles `remove_script`.
pub fn handle_remove_script(
    id: &str,
    args: &serde_json::Value,
    targets: &Vec<String>,
    registry: &mut ScriptRegistry,
) -> (r: Step)
    ensures
        r@ == remove_script_step(id@, json_model(*args), targets.deep_view(), old(registry)@),
        final(registry)@ == remove_script_registry(json_model(*args), old(registry)@),
{
    let Some(script_id) = json::str_member(args, "id") else {
        return refuse(id, "Missing script id");
    };
    let removed = registry.remove(script_id).is_some();
    let window_label = json::str_member(args, "windowLabel");
    match choose_window(targets, window_label) {
        Ok(context) => Step::Ask {
            call: HostCall::Eval {
                window: context.window_label.clone(),
                script: remove_script(script_id),
            },
            pending: Pending::Removed {
                id: String::from_str(id),
                removed,
                script_id: String::from_str(script_id),
                context,
            },
        },
        Err(e) => {
            let error = removal_kept(e.as_str());
            Step::Reply(
                data_and_error(
                    id,
                    true,
                    removed_data(removed, script_id),
                    json::text(error.as_str()),
                ),
            )
        },
    }
}

/// What `clear_scripts` leads to: the page is asked to drop every tagged
/// script. A window that cannot be resolved does not undo the clearing.
pub open spec fn clear_scripts_step(
    id: Seq<char>,
    command: Json,
    targets: Seq<Seq<char>>,
    registry: Seq<EntryModel>,
) -> StepModel {
    match chosen(command.nested_str("args"@, "windowLabel"@), targets) {
        Ok(context) => StepModel::Ask {
            call: HostCallModel::Eval { window: context.window_label, script: CLEAR_ALL@ },
            pending: PendingModel::Cleared { id, count: registry.len(), context },
        },
        Err(e) => StepModel::Reply(
            data_and_error_model(
                id,
                true,
                cleared_model(registry.len()),
                Json::Str(clearing_kept_text(e)),
            ),
        ),
    }
}

/// Handles `clear_scripts`.
pub fn handle_clear_scripts(
    id: &str,
    command: &serde_json::Value,
    targets: &Vec<String>,
    registry: &mut ScriptRegistry,
) -> (r: Step)
    ensures
        r@ == clear_scripts_step(id@, json_model(*command), targets.deep_view(), old(registry)@),
        final(registry)@ == Seq::<EntryModel>::empty(),
{
    let count = registry.len();
    registry.clear();
    let window_label = json::nested_str(command, "args", "windowLabel");
    match choose_window(targets, window_label) {
        Ok(context) => Step::Ask {
            call: HostCall::Eval { window: context.window_label.clone(), script: clear_scripts() },
            pending: Pending::Cleared { id: String::from_str(id), count, context },
        },
        Err(e) => {
            let error = clearing_kept(e.as_str());
            Step::Reply(
                data_and_error(id, true, cleared_data(count), json::text(error.as_str())),
            )
        },
    }
}

/// What `get_scripts` leads to: the listing of the registry.
pub open spec fn get_scripts_step(id: Seq<char>, registry: Seq<EntryModel>) -> StepModel {
    StepModel::Reply(success_model(id, scripts_model(registry)))
}

/// Handles `get_scripts`.
pub fn handle_get_scripts(id: &str, registry: &ScriptRegistry) -> (r: Step)
    ensures
        r@ == get_scripts_step(id@, registry@),
{
    let entries = registry.get_all();
    Step::Reply(success_response(id, scripts_data(&entries)))
}

} // verus!
