//! What the bridge asks of the host application, and what it keeps while
//! the host works.
//!
//! A command that needs the host is handled in two halves. The first half
//! decides what to ask and what to remember; the host's answer and what was
//! remembered then make the response.

use crate::json::{json_model, Json};
use crate::window::{ContextModel, WindowContext};
use vstd::prelude::*;

verus! {

/// One operation of the host application.
#[derive(Clone, Debug, PartialEq, Eq)]
pub enum HostCall {
    /// Describe the window with this label.
    GetWindowInfo { window: String },
    /// Describe the state of the host process.
    GetBackendState,
    /// Start recording invocations, and tell the page in this window.
    StartIpcMonitor { window: String },
    /// Tell the page in this window, and stop recording invocations.
    StopIpcMonitor { window: String },
    /// Hand out the recorded invocations.
    GetIpcEvents,
    /// Emit an application event.
    EmitEvent { event_name: String, payload: serde_json::Value },
    /// Describe all live windows.
    ListWindows,
    /// Evaluate a script in a window and wait for its result.
    ExecuteJs { window: String, script: String },
    /// Capture the viewport of a window and render it.
    CaptureScreenshot {
        window: String,
        format: Option<String>,
        quality: Option<u8>,
        max_width: Option<u32>,
    },
    /// Resize a window.
    ResizeWindow { width: u32, height: u32, window_id: Option<String>, logical: bool },
    /// Evaluate a script in a window without waiting for a result.
    Eval { window: String, script: String },
}

/// The content of a [`HostCall`].
pub enum HostCallModel {
    GetWindowInfo { window: Seq<char> },
    GetBackendState,
    StartIpcMonitor { window: Seq<char> },
    StopIpcMonitor { window: Seq<char> },
    GetIpcEvents,
    EmitEvent { event_name: Seq<char>, payload: Json },
    ListWindows,
    ExecuteJs { window: Seq<char>, script: Seq<char> },
    CaptureScreenshot {
        window: Seq<char>,
        format: Option<Seq<char>>,
        quality: Option<u8>,
        max_width: Option<u32>,
    },
    ResizeWindow { width: u32, height: u32, window_id: Option<Seq<char>>, logical: bool },
    Eval { window: Seq<char>, script: Seq<char> },
}

impl View for HostCall {
    type V = HostCallModel;

    open spec fn view(&self) -> HostCallModel {
        match self {
            HostCall::GetWindowInfo { window } => HostCallModel::GetWindowInfo { window: window@ },
            HostCall::GetBackendState => HostCallModel::GetBackendState,
            HostCall::StartIpcMonitor { window } => HostCallModel::StartIpcMonitor {
                window: window@,
            },
            HostCall::StopIpcMonitor { window } => HostCallModel::StopIpcMonitor {
                window: window@,
            },
            HostCall::GetIpcEvents => HostCallModel::GetIpcEvents,
            HostCall::EmitEvent { event_name, payload } => HostCallModel::EmitEvent {
                event_name: event_name@,
                payload: json_model(*payload),
            },
            HostCall::ListWindows => HostCallModel::ListWindows,
            HostCall::ExecuteJs { window, script } => HostCallModel::ExecuteJs {
                window: window@,
                script: script@,
            },
            HostCall::CaptureScreenshot {
                window,
                format,
                quality,
                max_width,
            } => HostCallModel::CaptureScreenshot {
                window: window@,
                format: format.deep_view(),
                quality: *quality,
                max_width: *max_width,
            },
            HostCall::ResizeWindow {
                width,
                height,
                window_id,
                logical,
            } => HostCallModel::ResizeWindow {
                width: *width,
                height: *height,
                window_id: window_id.deep_view(),
                logical: *logical,
            },
            HostCall::Eval { window, script } => HostCallModel::Eval {
                window: window@,
                script: script@,
            },
        }
    }
}

/// What is kept of a request while the host works on it.
#[derive(Clone, Debug, PartialEq, Eq)]
pub enum Pending {
    /// The host's data, or its error, is the whole answer.
    Plain { id: String },
    /// A script runs in the window of `context`.
    ExecuteJs { id: String, context: WindowContext },
    /// The window of `context` is captured.
    Screenshot { id: String, context: WindowContext },
    /// A window is resized.
    Resize { id: String },
    /// A script was registered and is injected into the window of `context`.
    Registered { id: String, script_id: String, context: WindowContext },
    /// A script was taken from the registry and is removed from the page.
    Removed { id: String, removed: bool, script_id: String, context: WindowContext },
    /// The registry was emptied and the page is cleared.
    Cleared { id: String, count: usize, context: WindowContext },
}

/// The content of a [`Pending`].
pub enum PendingModel {
    Plain { id: Seq<char> },
    ExecuteJs { id: Seq<char>, context: ContextModel },
    Screenshot { id: Seq<char>, context: ContextModel },
    Resize { id: Seq<char> },
    Registered { id: Seq<char>, script_id: Seq<char>, context: ContextModel },
    Removed { id: Seq<char>, removed: bool, script_id: Seq<char>, context: ContextModel },
    Cleared { id: Seq<char>, count: nat, context: ContextModel },
}

impl View for Pending {
    type V = PendingModel;

    open spec fn view(&self) -> PendingModel {
        match self {
            Pending::Plain { id } => PendingModel::Plain { id: id@ },
            Pending::ExecuteJs { id, context } => PendingModel::ExecuteJs {
                id: id@,
                context: context@,
            },
            Pending::Screenshot { id, context } => PendingModel::Screenshot {
                id: id@,
                context: context@,
            },
            Pending::Resize { id } => PendingModel::Resize { id: id@ },
            Pending::Registered { id, script_id, context } => PendingModel::Registered {
                id: id@,
                script_id: script_id@,
                context: context@,
            },
            Pending::Removed { id, removed, script_id, context } => PendingModel::Removed {
                id: id@,
                removed: *removed,
                script_id: script_id@,
                context: context@,
            },
            Pending::Cleared { id, count, context } => PendingModel::Cleared {
                id: id@,
                count: *count as nat,
                context: context@,
            },
        }
    }
}

impl PendingModel {
    /// The id of the request that is being worked on.
    pub open spec fn request_id(self) -> Seq<char> {
        match self {
            PendingModel::Plain { id } => id,
            PendingModel::ExecuteJs { id, .. } => id,
            PendingModel::Screenshot { id, .. } => id,
            PendingModel::Resize { id } => id,
            PendingModel::Registered { id, .. } => id,
            PendingModel::Removed { id, .. } => id,
            PendingModel::Cleared { id, .. } => id,
        }
    }
}

/// What a command leads to at once.
#[derive(Clone, Debug, PartialEq, Eq)]
pub enum Step {
    /// The response is ready.
    Reply(serde_json::Value),
    /// The host has to work first.
    Ask { call: HostCall, pending: Pending },
}

/// The content of a [`Step`].
pub enum StepModel {
    Reply(Json),
    Ask { call: HostCallModel, pending: PendingModel },
}

impl View for Step {
    type V = StepModel;

    open spec fn view(&self) -> StepModel {
        match self {
            Step::Reply(v) => StepModel::Reply(json_model(*v)),
            Step::Ask { call, pending } => StepModel::Ask { call: call@, pending: pending@ },
        }
    }
}

/// What the host made of a call: data, or the text of an error.
pub open spec fn outcome_model(outcome: Result<serde_json::Value, String>) -> Result<
    Json,
    Seq<char>,
> {
    match outcome {
        Ok(v) => Ok(json_model(v)),
        Err(e) => Err(e@),
    }
}

} // verus!
