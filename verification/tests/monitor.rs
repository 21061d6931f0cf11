use mcp_bridge::monitor::{
    event_json, events_json, get_ipc_events, is_control_command, lock_error, report_ipc_event,
    start_ipc_monitor, stop_ipc_monitor, IPCEvent, IPCMonitor, START_HOOK, STOP_HOOK,
};
use serde_json::Value;

fn value(text: &str) -> Value {
    serde_json::from_str(text).unwrap()
}

fn event(timestamp: u64, command: &str) -> IPCEvent {
    IPCEvent {
        timestamp,
        command: command.to_string(),
        args: value(r#"{"n":1}"#),
        result: None,
        error: None,
        duration_ms: None,
    }
}

#[test]
fn a_new_monitor_is_stopped_and_empty() {
    let mon = IPCMonitor::new();
    assert!(!mon.is_enabled());
    assert!(mon.get_events().is_empty());
}

#[test]
fn events_survive_a_stop_and_are_cleared_by_the_next_start() {
    let mut mon = IPCMonitor::new();
    mon.start();
    mon.record(event(1, "greet"));
    mon.record(event(2, "add_numbers"));
    mon.record(event(3, "get_config"));
    mon.stop();
    let seen = mon.get_events();
    assert_eq!(seen.len(), 3);
    assert_eq!(seen, vec![event(1, "greet"), event(2, "add_numbers"), event(3, "get_config")]);
    mon.start();
    assert_eq!(mon.get_events().len(), 0);
    assert!(mon.is_enabled());
}

#[test]
fn a_stopped_monitor_records_nothing() {
    let mut mon = IPCMonitor::new();
    mon.record(event(1, "greet"));
    assert!(mon.get_events().is_empty());
    mon.start();
    mon.record(event(2, "greet"));
    mon.stop();
    mon.record(event(3, "greet"));
    assert_eq!(mon.get_events(), vec![event(2, "greet")]);
}

#[test]
fn the_monitor_does_not_record_its_own_commands() {
    let mut mon = IPCMonitor::new();
    mon.start();
    mon.record(event(1, "start_ipc_monitor"));
    mon.record(event(2, "plugin:mcp-bridge|report_ipc_event"));
    mon.record(event(3, "plugin:mcp-bridge|stop_ipc_monitor"));
    mon.record(event(4, "plugin:mcp-bridge|get_ipc_events"));
    mon.record(event(5, "greet"));
    assert_eq!(mon.get_events(), vec![event(5, "greet")]);
}

#[test]
fn control_commands_are_told_by_their_whole_name() {
    for name in ["report_ipc_event", "start_ipc_monitor", "stop_ipc_monitor", "get_ipc_events"] {
        assert!(is_control_command(name), "{name}");
        assert!(is_control_command(&format!("plugin:mcp-bridge|{name}")), "{name}");
        assert!(is_control_command(&format!("|{name}")), "{name}");
        assert!(!is_control_command(&format!("re{name}")), "{name}");
        assert!(!is_control_command(&format!("{name}_job")), "{name}");
        assert!(!is_control_command(&format!("plugin:mcp-bridge|{name}s")), "{name}");
        assert!(!is_control_command(&format!("plugin:mcp-bridge:{name}")), "{name}");
    }
    assert!(!is_control_command("restart_ipc_monitor_job"));
    assert!(!is_control_command("xget_ipc_eventsx"));
    assert!(!is_control_command("greet"));
    assert!(!is_control_command("start_ipc"));
    assert!(!is_control_command(""));
    assert!(!is_control_command("|"));
    assert!(!is_control_command("START_IPC_MONITOR"));
}

#[test]
fn a_foreign_command_that_contains_a_control_name_is_recorded() {
    let mut mon = IPCMonitor::new();
    mon.start();
    mon.record(event(1, "greet"));
    report_ipc_event(
        &mut mon,
        2,
        "restart_ipc_monitor_job".to_string(),
        value("{}"),
        None,
        None,
        None,
    );
    let seen = get_ipc_events(&mon);
    assert_eq!(seen.len(), 2);
    assert_eq!(seen[0], event(1, "greet"));
    assert_eq!(
        seen[1],
        IPCEvent {
            timestamp: 2,
            command: "restart_ipc_monitor_job".to_string(),
            args: value("{}"),
            result: None,
            error: None,
            duration_ms: None,
        }
    );
}

#[test]
fn the_commands_say_what_they_did() {
    let mut mon = IPCMonitor::new();
    assert_eq!(start_ipc_monitor(&mut mon), "IPC monitoring started");
    assert!(mon.is_enabled());
    report_ipc_event(
        &mut mon,
        42,
        "greet".to_string(),
        value(r#"{"name":"x"}"#),
        Some(value(r#""Hello""#)),
        None,
        Some(value("1.5")),
    );
    report_ipc_event(&mut mon, 43, "get_ipc_events".to_string(), Value::Null, None, None, None);
    assert_eq!(stop_ipc_monitor(&mut mon), "IPC monitoring stopped");
    assert!(!mon.is_enabled());
    let events = get_ipc_events(&mon);
    assert_eq!(
        events,
        vec![IPCEvent {
            timestamp: 42,
            command: "greet".to_string(),
            args: value(r#"{"name":"x"}"#),
            result: Some(value(r#""Hello""#)),
            error: None,
            duration_ms: Some(value("1.5")),
        }]
    );
}

#[test]
fn a_copy_of_an_event_equals_it() {
    let e = IPCEvent {
        timestamp: 9,
        command: "c".to_string(),
        args: value("[1,2]"),
        result: Some(value("null")),
        error: Some("boom".to_string()),
        duration_ms: Some(value("3")),
    };
    assert_eq!(e.duplicate(), e);
}

#[test]
fn an_event_goes_over_the_wire_with_all_its_members() {
    let e = IPCEvent {
        timestamp: 9,
        command: "c".to_string(),
        args: value("[1,2]"),
        result: None,
        error: Some("boom".to_string()),
        duration_ms: Some(value("2.5")),
    };
    assert_eq!(
        event_json(&e),
        value(
            r#"{"timestamp":9,"command":"c","args":[1,2],"result":null,"error":"boom","duration_ms":2.5}"#
        )
    );
    assert_eq!(events_json(&vec![]), value("[]"));
    assert_eq!(
        events_json(&vec![event(1, "a"), event(2, "b")]),
        value(
            r#"[{"timestamp":1,"command":"a","args":{"n":1},"result":null,"error":null,"duration_ms":null},
                {"timestamp":2,"command":"b","args":{"n":1},"result":null,"error":null,"duration_ms":null}]"#
        )
    );
}

#[test]
fn the_hooks_call_the_page_functions_when_they_exist() {
    assert_eq!(
        START_HOOK,
        "window.__MCP_START_IPC_MONITOR__ && window.__MCP_START_IPC_MONITOR__();"
    );
    assert_eq!(STOP_HOOK, "window.__MCP_STOP_IPC_MONITOR__ && window.__MCP_STOP_IPC_MONITOR__();");
}

#[test]
fn a_failed_lock_is_reported_as_a_lock_error() {
    assert_eq!(lock_error("poisoned lock"), "Lock error: poisoned lock");
}
