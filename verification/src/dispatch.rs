//! The command table: from a request to its handler, and from the host's
//! answer to the response.

use crate::handlers::{
    capture_screenshot_step, clear_scripts_step, execute_js_step, get_scripts_step,
    get_window_info_step, handle_capture_screenshot, handle_clear_scripts, handle_execute_js,
    handle_get_scripts, handle_get_window_info, handle_invoke_tauri, handle_list_windows,
    handle_register_script, handle_remove_script, handle_resize_window, invoke_tauri_step,
    list_windows_step, register_script_registry, register_script_step, remove_script_registry,
    remove_script_step, resize_window_step,
};
use crate::host::{outcome_model, Pending, PendingModel, Step, StepModel};
use crate::injection::{
    clear_failure, clear_failure_text, clearing_kept, clearing_kept_text, inject_failure,
    inject_failure_text, injection_kept, injection_kept_text, removal_kept, removal_kept_text,
    remove_failure, remove_failure_text,
};
use crate::json;
use crate::json::{json_model, Json};
use crate::monitor::{lock_error, lock_error_text};
use crate::response::{
    cleared_data, cleared_model, data_and_error, data_and_error_model, data_in_context,
    data_in_context_model, error_in_context, error_in_context_model, error_model,
    error_response, full_model, full_response, lemma_member_names_differ, registered_data,
    registered_model, removed_data, removed_model, response_id, success_model, success_response,
};
use crate::script_registry::{EntryModel, ScriptRegistry};
use crate::text::{join2, same_text};
use vstd::prelude::*;

verus! {

/// The commands of the protocol.
#[derive(Clone, Debug, PartialEq, Eq)]
pub enum CommandKind {
    InvokeTauri,
    ListWindows,
    GetWindowInfo,
    ExecuteJs,
    CaptureNativeScreenshot,
    ResizeWindow,
    RegisterScript,
    RemoveScript,
    ClearScripts,
    GetScripts,
    /// A name that stands for no command; the name is kept for the error.
    Unsupported(String),
}

/// The content of a [`CommandKind`].
pub enum CommandKindModel {
    InvokeTauri,
    ListWindows,
    GetWindowInfo,
    ExecuteJs,
    CaptureNativeScreenshot,
    ResizeWindow,
    RegisterScript,
    RemoveScript,
    ClearScripts,
    GetScripts,
    Unsupported(Seq<char>),
}

impl View for CommandKind {
    type V = CommandKindModel;

    open spec fn view(&self) -> CommandKindModel {
        match self {
            CommandKind::InvokeTauri => CommandKindModel::InvokeTauri,
            CommandKind::ListWindows => CommandKindModel::ListWindows,
            CommandKind::GetWindowInfo => CommandKindModel::GetWindowInfo,
            CommandKind::ExecuteJs => CommandKindModel::ExecuteJs,
            CommandKind::CaptureNativeScreenshot => CommandKindModel::CaptureNativeScreenshot,
            CommandKind::ResizeWindow => CommandKindModel::ResizeWindow,
            CommandKind::RegisterScript => CommandKindModel::RegisterScript,
            CommandKind::RemoveScript => CommandKindModel::RemoveScript,
            CommandKind::ClearScripts => CommandKindModel::ClearScripts,
            CommandKind::GetScripts => CommandKindModel::GetScripts,
            CommandKind::Unsupported(name) => CommandKindModel::Unsupported(name@),
        }
    }
}

/// The command that a name stands for.
pub open spec fn command_kind(name: Seq<char>) -> CommandKindModel {
    if name == "invoke_tauri"@ {
        CommandKindModel::InvokeTauri
    } else if name == "list_windows"@ {
        CommandKindModel::ListWindows
    } else if name == "get_window_info"@ {
        CommandKindModel::GetWindowInfo
    } else if name == "execute_js"@ {
        CommandKindModel::ExecuteJs
    } else if name == "capture_native_screenshot"@ {
        CommandKindModel::CaptureNativeScreenshot
    } else if name == "resize_window"@ {
        CommandKindModel::ResizeWindow
    } else if name == "register_script"@ {
        CommandKindModel::RegisterScript
    } else if name == "remove_script"@ {
        CommandKindModel::RemoveScript
    } else if name == "clear_scripts"@ {
        CommandKindModel::ClearScripts
    } else if name == "get_scripts"@ {
        CommandKindModel::GetScripts
    } else {
        CommandKindModel::Unsupported(name)
    }
}

/// Reads a command name.
pub fn classify(name: &str) -> (r: CommandKind)
    ensures
        r@ == command_kind(name@),
{
    if same_text(name, "invoke_tauri") {
        CommandKind::InvokeTauri
    } else if same_text(name, "list_windows") {
        CommandKind::ListWindows
    } else if same_text(name, "get_window_info") {
        CommandKind::GetWindowInfo
    } else if same_text(name, "execute_js") {
        CommandKind::ExecuteJs
    } else if same_text(name, "capture_native_screenshot") {
        CommandKind::CaptureNativeScreenshot
    } else if same_text(name, "resize_window") {
        CommandKind::ResizeWindow
    } else if same_text(name, "register_script") {
        CommandKind::RegisterScript
    } else if same_text(name, "remove_script") {
        CommandKind::RemoveScript
    } else if same_text(name, "clear_scripts") {
        CommandKind::ClearScripts
    } else if same_text(name, "get_scripts") {
        CommandKind::GetScripts
    } else {
        CommandKind::Unsupported(name.to_owned())
    }
}

/// The id of a request: its `id` member where that is a text, the empty
/// text otherwise.
pub open spec fn request_id(command: Json) -> Seq<char> {
    match command.str_member("id"@) {
        Some(id) => id,
        None => ""@,
    }
}

/// The command name of a request: its `command` member where that is a
/// text, `unknown` otherwise.
pub open spec fn request_command(command: Json) -> Seq<char> {
    match command.str_member("command"@) {
        Some(name) => name,
        None => "unknown"@,
    }
}

/// The handler's step where the request has arguments, the given error
/// where it has none.
pub open spec fn with_args(command: Json, step: StepModel, missing: Seq<char>) -> StepModel {
    if command.member("args"@) is Some {
        step
    } else {
        StepModel::Reply(error_model(request_id(command), missing))
    }
}

/// What a request leads to.
///
/// A command that cannot do without arguments is refused where it has
/// none, and a name that stands for no command is refused by name.
pub open spec fn dispatch_step(
    command: Json,
    targets: Seq<Seq<char>>,
    registry: Seq<EntryModel>,
) -> StepModel {
    let id = request_id(command);
    let args = Json::or_null(command.member("args"@));
    match command_kind(request_command(command)) {
        CommandKindModel::InvokeTauri => with_args(
            command,
            invoke_tauri_step(id, args, targets),
            "Missing args for invoke_tauri"@,
        ),
        CommandKindModel::ListWindows => list_windows_step(id),
        CommandKindModel::GetWindowInfo => get_window_info_step(id, command, targets),
        CommandKindModel::ExecuteJs => with_args(
            command,
            execute_js_step(id, args, targets),
            "Missing args"@,
        ),
        CommandKindModel::CaptureNativeScreenshot => capture_screenshot_step(
            id,
            command,
            targets,
        ),
        CommandKindModel::ResizeWindow => with_args(
            command,
            resize_window_step(id, args),
            "Missing args for resize_window"@,
        ),
        CommandKindModel::RegisterScript => with_args(
            command,
            register_script_step(id, args, targets),
            "Missing args for register_script"@,
        ),
        CommandKindModel::RemoveScript => with_args(
            command,
            remove_script_step(id, args, targets, registry),
            "Missing args for remove_script"@,
        ),
        CommandKindModel::ClearScripts => clear_scripts_step(id, command, targets, registry),
        CommandKindModel::GetScripts => get_scripts_step(id, registry),
        CommandKindModel::Unsupported(name) => StepModel::Reply(
            error_model(id, "Unknown command: "@ + name),
        ),
    }
}

/// The registry after a request was dispatched.
pub open spec fn dispatch_registry(command: Json, registry: Seq<EntryModel>) -> Seq<EntryModel> {
    let args = command.member("args"@);
    match command_kind(request_command(command)) {
        CommandKindModel::RegisterScript => match args {
            Some(a) => register_script_registry(a, registry),
            None => registry,
        },
        CommandKindModel::RemoveScript => match args {
            Some(a) => remove_script_registry(a, registry),
            None => registry,
        },
        CommandKindModel::ClearScripts => Seq::empty(),
        _ => registry,
    }
}

/// Routes a request to the handler of its command.
///
/// `targets` holds the labels of the live windows in the order in which the
/// host lists them.
pub fn dispatch_command(
    command: &serde_json::Value,
    targets: &Vec<String>,
    registry: &mut ScriptRegistry,
) -> (r: Step)
    ensures
        r@ == dispatch_step(json_model(*command), targets.deep_view(), old(registry)@),
        final(registry)@ == dispatch_registry(json_model(*command), old(registry)@),
{
    let id = match json::str_member(command, "id") {
        Some(s) => s,
        None => "",
    };
    let name = match json::str_member(command, "command") {
        Some(s) => s,
        None => "unknown",
    };
    let args = json::get(command, "args");
    match classify(name) {
        CommandKind::InvokeTauri => match args {
            Some(a) => handle_invoke_tauri(id, a, targets),
            None => Step::Reply(error_response(id, "Missing args for invoke_tauri")),
        },
        CommandKind::ListWindows => handle_list_windows(id),
        CommandKind::GetWindowInfo => handle_get_window_info(id, command, targets),
        CommandKind::ExecuteJs => match args {
            Some(a) => handle_execute_js(id, a, targets),
            None => Step::Reply(error_response(id, "Missing args")),
        },
        CommandKind::CaptureNativeScreenshot => handle_capture_screenshot(id, command, targets),
        CommandKind::ResizeWindow => match args {
            Some(a) => handle_resize_window(id, a),
            None => Step::Reply(error_response(id, "Missing args for resize_window")),
        },
        CommandKind::RegisterScript => match args {
            Some(a) => handle_register_script(id, a, targets, registry),
            None => Step::Reply(error_response(id, "Missing args for register_script")),
        },
        CommandKind::RemoveScript => match args {
            Some(a) => handle_remove_script(id, a, targets, registry),
            None => Step::Reply(error_response(id, "Missing args for remove_script")),
        },
        CommandKind::ClearScripts => handle_clear_scripts(id, command, targets, registry),
        CommandKind::GetScripts => handle_get_scripts(id, registry),
        CommandKind::Unsupported(other) => Step::Reply(
            error_response(id, join2("Unknown command: ", other.as_str()).as_str()),
        ),
    }
}

/// Whether a request reads or changes the script registry.
pub open spec fn needs_registry(command: Json) -> bool {
    match command_kind(request_command(command)) {
        CommandKindModel::RegisterScript => true,
        CommandKindModel::RemoveScript => true,
        CommandKindModel::ClearScripts => true,
        CommandKindModel::GetScripts => true,
        _ => false,
    }
}

/// What a request leads to while the script registry cannot be had,
/// because the lock that guards it failed with `reason`: a request that
/// needs the registry fails with that error, and any other request is
/// served as ever.
pub open spec fn dispatch_step_unlocked(
    command: Json,
    targets: Seq<Seq<char>>,
    reason: Seq<char>,
) -> StepModel {
    if needs_registry(command) {
        StepModel::Reply(error_model(request_id(command), lock_error_text(reason)))
    } else {
        dispatch_step(command, targets, Seq::empty())
    }
}

/// Routes a request while the script registry cannot be had.
pub fn dispatch_without_registry(
    command: &serde_json::Value,
    targets: &Vec<String>,
    reason: &str,
) -> (r: Step)
    ensures
        r@ == dispatch_step_unlocked(json_model(*command), targets.deep_view(), reason@),
{
    let name = match json::str_member(command, "command") {
        Some(s) => s,
        None => "unknown",
    };
    match classify(name) {
        CommandKind::RegisterScript
        | CommandKind::RemoveScript
        | CommandKind::ClearScripts
        | CommandKind::GetScripts => {
            let id = match json::str_member(command, "id") {
                Some(s) => s,
                None => "",
            };
            Step::Reply(error_response(id, lock_error(reason).as_str()))
        },
        _ => {
            let mut none = ScriptRegistry::new();
            dispatch_command(command, targets, &mut none)
        },
    }
}

/// The response that the host's answer completes.
///
/// An error of the host fails the request, except after a registration, a
/// removal or a clearing: the registry has changed by then, so the response
/// reports success with the error beside it.
pub open spec fn completion(pending: PendingModel, outcome: Result<Json, Seq<char>>) -> Json {
    match pending {
        PendingModel::Plain { id } => match outcome {
            Ok(data) => success_model(id, data),
            Err(e) => error_model(id, e),
        },
        PendingModel::ExecuteJs { id, context } => match outcome {
            Ok(result) => full_model(
                id,
                match result.bool_member("success"@) {
                    Some(b) => b,
                    None => true,
                },
                Json::or_null(result.member("data"@)),
                Json::text_or_null(result.str_member("error"@)),
                context,
            ),
            Err(e) => error_in_context_model(id, e, context),
        },
        PendingModel::Screenshot { id, context } => match outcome {
            Ok(data) => data_in_context_model(id, true, data, context),
            Err(e) => error_in_context_model(id, e, context),
        },
        PendingModel::Resize { id } => match outcome {
            Ok(result) => data_and_error_model(
                id,
                match result.bool_member("success"@) {
                    Some(b) => b,
                    None => false,
                },
                result,
                Json::text_or_null(result.str_member("error"@)),
            ),
            Err(e) => error_model(id, e),
        },
        PendingModel::Registered { id, script_id, context } => match outcome {
            Ok(_) => data_in_context_model(id, true, registered_model(script_id), context),
            Err(e) => data_and_error_model(
                id,
                true,
                registered_model(script_id),
                Json::Str(injection_kept_text(inject_failure_text(e))),
            ),
        },
        PendingModel::Removed { id, removed, script_id, context } => match outcome {
            Ok(_) => data_in_context_model(id, true, removed_model(removed, script_id), context),
            Err(e) => data_and_error_model(
                id,
                true,
                removed_model(removed, script_id),
                Json::Str(removal_kept_text(remove_failure_text(e))),
            ),
        },
        PendingModel::Cleared { id, count, context } => match outcome {
            Ok(_) => data_in_context_model(id, true, cleared_model(count), context),
            Err(e) => data_and_error_model(
                id,
                true,
                cleared_model(count),
                Json::Str(clearing_kept_text(clear_failure_text(e))),
            ),
        },
    }
}

/// Builds the response to a request from what the host made of its call.
pub fn complete(pending: Pending, outcome: Result<serde_json::Value, String>) -> (r:
    serde_json::Value)
    ensures
        json_model(r) == completion(pending@, outcome_model(outcome)),
{
    match pending {
        Pending::Plain { id } => match outcome {
            Ok(data) => success_response(id.as_str(), data),
            Err(e) => error_response(id.as_str(), e.as_str()),
        },
        Pending::ExecuteJs { id, context } => match outcome {
            Ok(result) => {
                let success = match json::bool_member(&result, "success") {
                    Some(b) => b,
                    None => true,
                };
                let data = json::or_null(json::member_copy(&result, "data"));
                let error = json::text_or_null(&json::string_member(&result, "error"));
                full_response(id.as_str(), success, data, error, &context)
            },
            Err(e) => error_in_context(id.as_str(), e.as_str(), &context),
        },
        Pending::Screenshot { id, context } => match outcome {
            Ok(data) => data_in_context(id.as_str(), true, data, &context),
            Err(e) => error_in_context(id.as_str(), e.as_str(), &context),
        },
        Pending::Resize { id } => match outcome {
            Ok(result) => {
                let success = match json::bool_member(&result, "success") {
                    Some(b) => b,
                    None => false,
                };
                let error = json::text_or_null(&json::string_member(&result, "error"));
                data_and_error(id.as_str(), success, result, error)
            },
            Err(e) => error_response(id.as_str(), e.as_str()),
        },
        Pending::Registered { id, script_id, context } => match outcome {
            Ok(_) => data_in_context(
                id.as_str(),
                true,
                registered_data(script_id.as_str()),
                &context,
            ),
            Err(e) => {
                let error = injection_kept(inject_failure(e.as_str()).as_str());
                data_and_error(
                    id.as_str(),
                    true,
                    registered_data(script_id.as_str()),
                    json::text(error.as_str()),
                )
            },
        },
        Pending::Removed { id, removed, script_id, context } => match outcome {
            Ok(_) => data_in_context(
                id.as_str(),
                true,
                removed_data(removed, script_id.as_str()),
                &context,
            ),
            Err(e) => {
                let error = removal_kept(remove_failure(e.as_str()).as_str());
                data_and_error(
                    id.as_str(),
                    true,
                    removed_data(removed, script_id.as_str()),
                    json::text(error.as_str()),
                )
            },
        },
        Pending::Cleared { id, count, context } => match outcome {
            Ok(_) => data_in_context(id.as_str(), true, cleared_data(count), &context),
            Err(e) => {
                let error = clearing_kept(clear_failure(e.as_str()).as_str());
                data_and_error(
                    id.as_str(),
                    true,
                    cleared_data(count),
                    json::text(error.as_str()),
                )
            },
        },
    }
}

/// The id that a step answers to: the id carried by a ready response, and
/// the id kept while the host works.
pub open spec fn step_id(step: StepModel) -> Option<Seq<char>> {
    match step {
        StepModel::Reply(response) => response_id(response),
        StepModel::Ask { pending, .. } => Some(pending.request_id()),
    }
}

/// Whatever a request leads to carries the id of the request.
pub proof fn lemma_dispatch_keeps_id(
    command: Json,
    targets: Seq<Seq<char>>,
    registry: Seq<EntryModel>,
)
    ensures
        step_id(dispatch_step(command, targets, registry)) == Some(request_id(command)),
{
    lemma_member_names_differ();
}

/// Whatever a request leads to while the registry cannot be had carries the
/// id of the request.
pub proof fn lemma_dispatch_unlocked_keeps_id(
    command: Json,
    targets: Seq<Seq<char>>,
    reason: Seq<char>,
)
    ensures
        step_id(dispatch_step_unlocked(command, targets, reason)) == Some(request_id(command)),
{
    lemma_member_names_differ();
    lemma_dispatch_keeps_id(command, targets, Seq::empty());
}

/// The response that completes a request carries the id that was kept for
/// it.
pub proof fn lemma_completion_keeps_id(pending: PendingModel, outcome: Result<Json, Seq<char>>)
    ensures
        response_id(completion(pending, outcome)) == Some(pending.request_id()),
{
    lemma_member_names_differ();
}

} // verus!
