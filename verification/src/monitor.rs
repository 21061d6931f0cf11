//! The invocation monitor: a capture buffer that is switched on and off,
//! and that never records the commands by which it is itself controlled.

use crate::json;
use crate::json::{json_model, json_model_opt, Json, JsonNumber};
use crate::response::no_members;
use crate::text::{ends_with, ends_with_text, join2, same_text};
use vstd::prelude::*;

verus! {

/// The page script that starts the interception of invocations.
pub const START_HOOK: &'static str =
    "window.__MCP_START_IPC_MONITOR__ && window.__MCP_START_IPC_MONITOR__();";

/// The page script that stops the interception of invocations.
pub const STOP_HOOK: &'static str =
    "window.__MCP_STOP_IPC_MONITOR__ && window.__MCP_STOP_IPC_MONITOR__();";

/// One observed invocation.
#[derive(Clone, Debug, PartialEq, Eq)]
pub struct IPCEvent {
    /// When the invocation was reported, in milliseconds since the epoch.
    pub timestamp: u64,
    /// The name of the command that was invoked.
    pub command: String,
    pub args: serde_json::Value,
    pub result: Option<serde_json::Value>,
    pub error: Option<String>,
    /// How long the invocation took, as the JSON number that reported it.
    pub duration_ms: Option<serde_json::Value>,
}

/// The content of an [`IPCEvent`].
pub struct EventModel {
    pub timestamp: u64,
    pub command: Seq<char>,
    pub args: Json,
    pub result: Option<Json>,
    pub error: Option<Seq<char>>,
    pub duration_ms: Option<Json>,
}

impl View for IPCEvent {
    type V = EventModel;

    open spec fn view(&self) -> EventModel {
        EventModel {
            timestamp: self.timestamp,
            command: self.command@,
            args: json_model(self.args),
            result: json_model_opt(self.result),
            error: self.error.deep_view(),
            duration_ms: json_model_opt(self.duration_ms),
        }
    }
}

fn copy_opt(v: &Option<serde_json::Value>) -> (r: Option<serde_json::Value>)
    ensures
        json_model_opt(r) == json_model_opt(*v),
{
    match v {
        Some(j) => Some(j.clone()),
        None => None,
    }
}

impl IPCEvent {
    /// A copy of the event.
    pub fn duplicate(&self) -> (r: IPCEvent)
        ensures
            r@ == self@,
    {
        IPCEvent {
            timestamp: self.timestamp,
            command: self.command.clone(),
            args: self.args.clone(),
            result: copy_opt(&self.result),
            error: match &self.error {
                Some(e) => Some(e.clone()),
                None => None,
            },
            duration_ms: copy_opt(&self.duration_ms),
        }
    }
}

/// Whether `command` is the command `name`: the bare name, or the name
/// behind the prefix of a plugin, which ends in `|`. `prefixed` is `|`
/// followed by `name`.
pub open spec fn names_command(command: Seq<char>, name: Seq<char>, prefixed: Seq<char>) -> bool {
    command == name || ends_with(command, prefixed)
}

/// Whether a command name is one of the monitor's own: the reporting, the
/// starting, the stopping or the querying of the monitor, bare or behind a
/// plugin prefix. A name that only contains one of these is none of them.
pub open spec fn is_control(command: Seq<char>) -> bool {
    names_command(command, "report_ipc_event"@, "|report_ipc_event"@) || names_command(
        command,
        "start_ipc_monitor"@,
        "|start_ipc_monitor"@,
    ) || names_command(command, "stop_ipc_monitor"@, "|stop_ipc_monitor"@) || names_command(
        command,
        "get_ipc_events"@,
        "|get_ipc_events"@,
    )
}

fn names(command: &str, name: &str, prefixed: &str) -> (r: bool)
    ensures
        r == names_command(command@, name@, prefixed@),
{
    same_text(command, name) || ends_with_text(command, prefixed)
}

/// Tells the monitor's own commands from all others.
pub fn is_control_command(command: &str) -> (r: bool)
    ensures
        r == is_control(command@),
{
    names(command, "report_ipc_event", "|report_ipc_event") || names(
        command,
        "start_ipc_monitor",
        "|start_ipc_monitor",
    ) || names(command, "stop_ipc_monitor", "|stop_ipc_monitor") || names(
        command,
        "get_ipc_events",
        "|get_ipc_events",
    )
}

/// The content of an [`IPCMonitor`].
pub struct MonitorModel {
    /// Whether the monitor records.
    pub enabled: bool,
    /// What it has recorded since it was last started, oldest first.
    pub events: Seq<EventModel>,
}

impl MonitorModel {
    /// The monitor after a start: recording, with nothing recorded.
    pub open spec fn started(self) -> MonitorModel {
        MonitorModel { enabled: true, events: Seq::empty() }
    }

    /// The monitor after a stop: not recording, with what it had recorded.
    pub open spec fn stopped(self) -> MonitorModel {
        MonitorModel { enabled: false, events: self.events }
    }

    /// The monitor after `event` was reported: the event comes last where
    /// the monitor records and the event is none of its own commands;
    /// nothing changes otherwise.
    pub open spec fn reported(self, event: EventModel) -> MonitorModel {
        if self.enabled && !is_control(event.command) {
            MonitorModel { enabled: true, events: self.events.push(event) }
        } else {
            self
        }
    }

    /// The monitor after each of `events` was reported, in order.
    pub open spec fn reported_all(self, events: Seq<EventModel>) -> MonitorModel
        decreases events.len(),
    {
        if events.len() == 0 {
            self
        } else {
            self.reported_all(events.drop_last()).reported(events.last())
        }
    }

    /// None of the recorded events is one of the monitor's own commands.
    pub open spec fn self_filtered(self) -> bool {
        forall|i: int| 0 <= i < self.events.len() ==> !is_control(#[trigger] self.events[i].command)
    }
}

/// Those of `events` that are none of the monitor's own commands, in order.
pub open spec fn foreign(events: Seq<EventModel>) -> Seq<EventModel> {
    events.filter(|e: EventModel| !is_control(e.command))
}

/// A monitor that records holds, after any reports, what it held before
/// followed by the reported events that are none of its own commands.
pub proof fn lemma_recording_appends(m: MonitorModel, events: Seq<EventModel>)
    requires
        m.enabled,
    ensures
        m.reported_all(events) == (MonitorModel {
            enabled: true,
            events: m.events + foreign(events),
        }),
    decreases events.len(),
{
    reveal(Seq::filter);
    if events.len() > 0 {
        lemma_recording_appends(m, events.drop_last());
        let before = foreign(events.drop_last());
        assert((m.events + before).push(events.last()) =~= m.events + before.push(
            events.last(),
        ));
    }
}

/// A monitor that does not record is not changed by any reports.
pub proof fn lemma_stopped_ignores(m: MonitorModel, events: Seq<EventModel>)
    requires
        !m.enabled,
    ensures
        m.reported_all(events) == m,
    decreases events.len(),
{
    if events.len() > 0 {
        lemma_stopped_ignores(m, events.drop_last());
    }
}

/// A session of the monitor, from a start over any reports to a stop: what
/// can be queried afterwards is exactly the reported events that are none of
/// the monitor's own commands, in the order of the reports, and the next
/// start leaves nothing of them.
pub proof fn lemma_monitor_session(m: MonitorModel, events: Seq<EventModel>)
    ensures
        m.started().reported_all(events).stopped().events == foreign(events),
        m.started().reported_all(events).stopped().self_filtered(),
        m.started().reported_all(events).stopped().started().events.len() == 0,
        forall|e: EventModel|
            is_control(e.command) ==> !m.started().reported_all(events).events.contains(e),
{
    lemma_recording_appends(m.started(), events);
    let recorded = foreign(events);
    assert forall|i: int| 0 <= i < recorded.len() implies !is_control(
        #[trigger] recorded[i].command,
    ) by {
        events.lemma_filter_pred(|e: EventModel| !is_control(e.command), i);
    }
}

/// The views of a sequence of events, one for one.
pub open spec fn event_models(events: Seq<IPCEvent>) -> Seq<EventModel> {
    Seq::new(events.len(), |i: int| events[i]@)
}

/// The monitor: stopped at first, recording between a start and a stop.
pub struct IPCMonitor {
    enabled: bool,
    events: Vec<IPCEvent>,
}

impl View for IPCMonitor {
    type V = MonitorModel;

    closed spec fn view(&self) -> MonitorModel {
        MonitorModel { enabled: self.enabled, events: event_models(self.events@) }
    }
}

impl IPCMonitor {
    /// The monitor holds none of its own commands.
    #[verifier::type_invariant]
    spec fn filtered(self) -> bool {
        self@.self_filtered()
    }

    /// A stopped monitor that has recorded nothing.
    pub fn new() -> (r: IPCMonitor)
        ensures
            r@ == (MonitorModel { enabled: false, events: Seq::empty() }),
    {
        let r = IPCMonitor { enabled: false, events: Vec::new() };
        assert(r@.events =~= Seq::<EventModel>::empty());
        r
    }

    /// Drops what was recorded and starts recording.
    pub fn start(&mut self)
        ensures
            final(self)@ == old(self)@.started(),
    {
        let mut events: Vec<IPCEvent> = Vec::new();
        core::mem::swap(&mut self.events, &mut events);
        self.enabled = true;
        assert(self@.events =~= Seq::<EventModel>::empty());
    }

    /// Stops recording and keeps what was recorded.
    pub fn stop(&mut self)
        ensures
            final(self)@ == old(self)@.stopped(),
    {
        proof {
            use_type_invariant(&*self);
        }
        self.enabled = false;
    }

    /// Whether the monitor records.
    pub fn is_enabled(&self) -> (r: bool)
        ensures
            r == self@.enabled,
    {
        self.enabled
    }

    /// Records `event` where the monitor records and the event is none of
    /// the monitor's own commands; passes it over otherwise. The monitor
    /// never holds one of its own commands.
    pub fn record(&mut self, event: IPCEvent)
        ensures
            final(self)@ == old(self)@.reported(event@),
            old(self)@.self_filtered(),
            final(self)@.self_filtered(),
    {
        proof {
            use_type_invariant(&*self);
        }
        if self.enabled && !is_control_command(event.command.as_str()) {
            let ghost before = self@;
            let ghost e = event@;
            let mut events: Vec<IPCEvent> = Vec::new();
            core::mem::swap(&mut self.events, &mut events);
            events.push(event);
            assert(event_models(events@) =~= before.events.push(e));
            core::mem::swap(&mut self.events, &mut events);
        }
    }

    /// Copies of the recorded events, oldest first, whether or not the
    /// monitor records at present.
    pub fn get_events(&self) -> (r: Vec<IPCEvent>)
        ensures
            event_models(r@) == self@.events,
            self@.self_filtered(),
    {
        proof {
            use_type_invariant(self);
        }
        let mut out: Vec<IPCEvent> = Vec::new();
        let mut i: usize = 0;
        while i < self.events.len()
            invariant
                i <= self.events.len(),
                out.len() == i,
                forall|j: int| 0 <= j < i ==> out[j]@ == self.events[j]@,
            decreases self.events.len() - i,
        {
            out.push(self.events[i].duplicate());
            i += 1;
        }
        out
    }
}

/// What a request is told when shared state cannot be had because the
/// lock that guards it failed with `reason`.
pub open spec fn lock_error_text(reason: Seq<char>) -> Seq<char> {
    "Lock error: "@ + reason
}

/// Says that shared state cannot be had because the lock that guards it
/// failed with `reason`.
pub fn lock_error(reason: &str) -> (r: String)
    ensures
        r@ == lock_error_text(reason@),
{
    join2("Lock error: ", reason)
}

/// Starts the monitor and says so.
pub fn start_ipc_monitor(monitor: &mut IPCMonitor) -> (r: String)
    ensures
        final(monitor)@ == old(monitor)@.started(),
        r@ == "IPC monitoring started"@,
{
    monitor.start();
    "IPC monitoring started".to_owned()
}

/// Stops the monitor and says so.
pub fn stop_ipc_monitor(monitor: &mut IPCMonitor) -> (r: String)
    ensures
        final(monitor)@ == old(monitor)@.stopped(),
        r@ == "IPC monitoring stopped"@,
{
    monitor.stop();
    "IPC monitoring stopped".to_owned()
}

/// Hands out what the monitor has recorded.
pub fn get_ipc_events(monitor: &IPCMonitor) -> (r: Vec<IPCEvent>)
    ensures
        event_models(r@) == monitor@.events,
        monitor@.self_filtered(),
{
    monitor.get_events()
}

/// Reports an invocation that was observed at `timestamp`.
pub fn report_ipc_event(
    monitor: &mut IPCMonitor,
    timestamp: u64,
    command: String,
    args: serde_json::Value,
    result: Option<serde_json::Value>,
    error: Option<String>,
    duration_ms: Option<serde_json::Value>,
)
    ensures
        final(monitor)@.self_filtered(),
        final(monitor)@ == old(monitor)@.reported(
            EventModel {
                timestamp,
                command: command@,
                args: json_model(args),
                result: json_model_opt(result),
                error: error.deep_view(),
                duration_ms: json_model_opt(duration_ms),
            },
        ),
{
    monitor.record(IPCEvent { timestamp, command, args, result, error, duration_ms });
}

/// One event as it goes over the wire.
pub open spec fn event_model_json(event: EventModel) -> Json {
    Json::Object(
        no_members().insert("timestamp"@, Json::Number(JsonNumber::PosInt(event.timestamp))).insert(
            "command"@,
            Json::Str(event.command),
        ).insert("args"@, event.args).insert("result"@, Json::or_null(event.result)).insert(
            "error"@,
            Json::text_or_null(event.error),
        ).insert("duration_ms"@, Json::or_null(event.duration_ms)),
    )
}

/// The events as they go over the wire: an array, oldest first.
pub open spec fn events_model(events: Seq<EventModel>) -> Json {
    Json::Array(Seq::new(events.len(), |i: int| event_model_json(events[i])))
}

/// Writes one event as a JSON object.
pub fn event_json(event: &IPCEvent) -> (r: serde_json::Value)
    ensures
        json_model(r) == event_model_json(event@),
{
    let mut m = json::new_object();
    json::put(&mut m, "timestamp", json::number(event.timestamp));
    json::put(&mut m, "command", json::text(event.command.as_str()));
    json::put(&mut m, "args", event.args.clone());
    json::put(&mut m, "result", json::or_null(copy_opt(&event.result)));
    json::put(&mut m, "error", json::text_or_null(&event.error));
    json::put(&mut m, "duration_ms", json::or_null(copy_opt(&event.duration_ms)));
    json::object(m)
}

/// Writes the events as a JSON array.
pub fn events_json(events: &Vec<IPCEvent>) -> (r: serde_json::Value)
    ensures
        json_model(r) == events_model(event_models(events@)),
{
    let mut items: Vec<serde_json::Value> = Vec::new();
    let mut i: usize = 0;
    while i < events.len()
        invariant
            i <= events.len(),
            items.len() == i,
            forall|j: int| 0 <= j < i ==> json_model(items[j]) == event_model_json(events[j]@),
        decreases events.len() - i,
    {
        items.push(event_json(&events[i]));
        i += 1;
    }
    assert(json::json_models(items@) =~= Seq::new(
        events.len() as nat,
        |i: int| event_model_json(event_models(events@)[i]),
    ));
    json::array(items)
}

} // verus!
