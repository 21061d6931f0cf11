use mcp_bridge::dispatch::{
    classify, complete, dispatch_command, dispatch_without_registry, CommandKind,
};
use mcp_bridge::handlers::{
    handle_capture_screenshot, handle_clear_scripts, handle_execute_js, handle_get_scripts,
    handle_get_window_info, handle_invoke_tauri, handle_list_windows, handle_register_script,
    handle_remove_script, handle_resize_window,
};
use mcp_bridge::host::{HostCall, Pending, Step};
use mcp_bridge::injection::{clear_scripts, inject_script, remove_script};
use mcp_bridge::script_registry::{ScriptEntry, ScriptRegistry, ScriptType};
use mcp_bridge::window::WindowContext;
use serde_json::Value;

fn value(text: &str) -> Value {
    serde_json::from_str(text).unwrap()
}

fn targets(names: &[&str]) -> Vec<String> {
    names.iter().map(|n| n.to_string()).collect()
}

fn plain(id: &str) -> Pending {
    Pending::Plain { id: id.to_string() }
}

fn context(label: &str, total: usize, warning: Option<&str>) -> WindowContext {
    WindowContext {
        window_label: label.to_string(),
        total_windows: total,
        warning: warning.map(|w| w.to_string()),
    }
}

fn reply(text: &str) -> Step {
    Step::Reply(value(text))
}

fn run(command: &str, names: &[&str], registry: &mut ScriptRegistry) -> Step {
    dispatch_command(&value(command), &targets(names), registry)
}

#[test]
fn command_names_are_classified() {
    assert_eq!(classify("invoke_tauri"), CommandKind::InvokeTauri);
    assert_eq!(classify("list_windows"), CommandKind::ListWindows);
    assert_eq!(classify("get_window_info"), CommandKind::GetWindowInfo);
    assert_eq!(classify("execute_js"), CommandKind::ExecuteJs);
    assert_eq!(classify("capture_native_screenshot"), CommandKind::CaptureNativeScreenshot);
    assert_eq!(classify("resize_window"), CommandKind::ResizeWindow);
    assert_eq!(classify("register_script"), CommandKind::RegisterScript);
    assert_eq!(classify("remove_script"), CommandKind::RemoveScript);
    assert_eq!(classify("clear_scripts"), CommandKind::ClearScripts);
    assert_eq!(classify("get_scripts"), CommandKind::GetScripts);
    assert_eq!(classify("Get_Scripts"), CommandKind::Unsupported("Get_Scripts".to_string()));
    assert_eq!(classify(""), CommandKind::Unsupported(String::new()));
}

#[test]
fn an_unknown_command_is_refused_by_name() {
    let mut reg = ScriptRegistry::new();
    assert_eq!(
        run(r#"{"id":"7","command":"fly"}"#, &["main"], &mut reg),
        reply(r#"{"id":"7","success":false,"error":"Unknown command: fly"}"#)
    );
}

#[test]
fn a_request_without_id_or_command_is_answered_with_defaults() {
    let mut reg = ScriptRegistry::new();
    assert_eq!(
        run(r#"{}"#, &["main"], &mut reg),
        reply(r#"{"id":"","success":false,"error":"Unknown command: unknown"}"#)
    );
    assert_eq!(
        run(r#"{"id":5,"command":["x"]}"#, &["main"], &mut reg),
        reply(r#"{"id":"","success":false,"error":"Unknown command: unknown"}"#)
    );
    assert_eq!(
        run(r#"[1,2]"#, &["main"], &mut reg),
        reply(r#"{"id":"","success":false,"error":"Unknown command: unknown"}"#)
    );
}

#[test]
fn commands_that_need_arguments_are_refused_without_them() {
    let mut reg = ScriptRegistry::new();
    let cases = [
        ("invoke_tauri", "Missing args for invoke_tauri"),
        ("execute_js", "Missing args"),
        ("resize_window", "Missing args for resize_window"),
        ("register_script", "Missing args for register_script"),
        ("remove_script", "Missing args for remove_script"),
    ];
    for (name, error) in cases {
        let command = format!(r#"{{"id":"1","command":"{name}"}}"#);
        let expected = format!(r#"{{"id":"1","success":false,"error":"{error}"}}"#);
        assert_eq!(run(&command, &["main"], &mut reg), reply(&expected), "{name}");
    }
}

#[test]
fn list_windows_asks_the_host() {
    let mut reg = ScriptRegistry::new();
    let expected = Step::Ask { call: HostCall::ListWindows, pending: plain("1") };
    assert_eq!(run(r#"{"id":"1","command":"list_windows"}"#, &[], &mut reg), expected);
    assert_eq!(handle_list_windows("1"), expected);
}

#[test]
fn get_window_info_resolves_the_window() {
    let names = targets(&["main", "settings"]);
    let command = value(r#"{"id":"1","command":"get_window_info","args":{"windowId":"settings"}}"#);
    assert_eq!(
        handle_get_window_info("1", &command, &names),
        Step::Ask {
            call: HostCall::GetWindowInfo { window: "settings".to_string() },
            pending: plain("1"),
        }
    );
    let bare = value(r#"{"id":"1","command":"get_window_info"}"#);
    assert_eq!(
        handle_get_window_info("1", &bare, &names),
        Step::Ask {
            call: HostCall::GetWindowInfo { window: "main".to_string() },
            pending: plain("1"),
        }
    );
    let missing = value(r#"{"id":"1","command":"get_window_info","args":{"windowId":"x"}}"#);
    assert_eq!(
        handle_get_window_info("1", &missing, &names),
        reply(r#"{"id":"1","success":false,"error":"target not found: 'x'"}"#)
    );
    assert_eq!(
        handle_get_window_info("1", &bare, &targets(&[])),
        reply(r#"{"id":"1","success":false,"error":"no targets available"}"#)
    );
}

#[test]
fn execute_js_needs_a_script_and_keeps_the_context() {
    let names = targets(&["main", "settings"]);
    assert_eq!(
        handle_execute_js("9", &value(r#"{"windowLabel":"main"}"#), &names),
        reply(r#"{"id":"9","success":false,"error":"Missing script argument"}"#)
    );
    assert_eq!(
        handle_execute_js("9", &value(r#"{"script":42}"#), &names),
        reply(r#"{"id":"9","success":false,"error":"Missing script argument"}"#)
    );
    assert_eq!(
        handle_execute_js("9", &value(r#"{"script":"1+1","windowLabel":"settings"}"#), &names),
        Step::Ask {
            call: HostCall::ExecuteJs {
                window: "settings".to_string(),
                script: "1+1".to_string(),
            },
            pending: Pending::ExecuteJs { id: "9".to_string(), context: context("settings", 2, None) },
        }
    );
    assert_eq!(
        handle_execute_js("9", &value(r#"{"script":"1+1"}"#), &names),
        Step::Ask {
            call: HostCall::ExecuteJs { window: "main".to_string(), script: "1+1".to_string() },
            pending: Pending::ExecuteJs {
                id: "9".to_string(),
                context: context(
                    "main",
                    2,
                    Some("no window label given; chose 'main' among 2 windows"),
                ),
            },
        }
    );
    assert_eq!(
        handle_execute_js("9", &value(r#"{"script":"1+1","windowLabel":"x"}"#), &names),
        reply(r#"{"id":"9","success":false,"error":"target not found: 'x'"}"#)
    );
}

#[test]
fn capture_reads_its_options_where_they_are_given() {
    let names = targets(&["main"]);
    let full = value(
        r#"{"id":"3","command":"capture_native_screenshot",
            "args":{"format":"jpeg","quality":80,"maxWidth":1000,"windowLabel":"main"}}"#,
    );
    assert_eq!(
        handle_capture_screenshot("3", &full, &names),
        Step::Ask {
            call: HostCall::CaptureScreenshot {
                window: "main".to_string(),
                format: Some("jpeg".to_string()),
                quality: Some(80),
                max_width: Some(1000),
            },
            pending: Pending::Screenshot { id: "3".to_string(), context: context("main", 1, None) },
        }
    );
    let bare = value(r#"{"id":"3","command":"capture_native_screenshot"}"#);
    assert_eq!(
        handle_capture_screenshot("3", &bare, &names),
        Step::Ask {
            call: HostCall::CaptureScreenshot {
                window: "main".to_string(),
                format: None,
                quality: None,
                max_width: None,
            },
            pending: Pending::Screenshot { id: "3".to_string(), context: context("main", 1, None) },
        }
    );
    assert_eq!(
        handle_capture_screenshot("3", &bare, &targets(&[])),
        reply(r#"{"id":"3","success":false,"error":"no targets available"}"#)
    );
}

#[test]
fn capture_keeps_the_low_bits_of_numbers_that_are_too_large() {
    let names = targets(&["main"]);
    let command = value(
        r#"{"args":{"quality":356,"maxWidth":4294967297,"format":7}}"#,
    );
    let Step::Ask { call, .. } = handle_capture_screenshot("3", &command, &names) else {
        panic!("the host is asked");
    };
    assert_eq!(
        call,
        HostCall::CaptureScreenshot {
            window: "main".to_string(),
            format: None,
            quality: Some(100),
            max_width: Some(1),
        }
    );
    let odd = value(r#"{"args":{"quality":-1,"maxWidth":2.5}}"#);
    let Step::Ask { call, .. } = handle_capture_screenshot("3", &odd, &names) else {
        panic!("the host is asked");
    };
    assert_eq!(
        call,
        HostCall::CaptureScreenshot {
            window: "main".to_string(),
            format: None,
            quality: None,
            max_width: None,
        }
    );
}

#[test]
fn resize_needs_width_and_height() {
    assert_eq!(
        handle_resize_window("4", &value(r#"{"width":800}"#)),
        reply(r#"{"id":"4","success":false,"error":"Missing width or height argument"}"#)
    );
    assert_eq!(
        handle_resize_window("4", &value(r#"{"height":600}"#)),
        reply(r#"{"id":"4","success":false,"error":"Missing width or height argument"}"#)
    );
    assert_eq!(
        handle_resize_window("4", &value(r#"{"width":"800","height":600}"#)),
        reply(r#"{"id":"4","success":false,"error":"Missing width or height argument"}"#)
    );
    assert_eq!(
        handle_resize_window("4", &value(r#"{"width":800,"height":600}"#)),
        Step::Ask {
            call: HostCall::ResizeWindow {
                width: 800,
                height: 600,
                window_id: None,
                logical: true,
            },
            pending: Pending::Resize { id: "4".to_string() },
        }
    );
    assert_eq!(
        handle_resize_window(
            "4",
            &value(r#"{"width":4294967296,"height":600,"windowId":"main","logical":false}"#)
        ),
        Step::Ask {
            call: HostCall::ResizeWindow {
                width: 0,
                height: 600,
                window_id: Some("main".to_string()),
                logical: false,
            },
            pending: Pending::Resize { id: "4".to_string() },
        }
    );
}

#[test]
fn register_script_stores_the_entry_and_injects_it() {
    let mut reg = ScriptRegistry::new();
    let names = targets(&["main"]);
    let args = value(r#"{"id":"s1","type":"inline","content":"console.log(1)"}"#);
    let entry = ScriptEntry {
        id: "s1".to_string(),
        script_type: ScriptType::Inline,
        content: "console.log(1)".to_string(),
    };
    assert_eq!(
        handle_register_script("5", &args, &names, &mut reg),
        Step::Ask {
            call: HostCall::Eval { window: "main".to_string(), script: inject_script(&entry) },
            pending: Pending::Registered {
                id: "5".to_string(),
                script_id: "s1".to_string(),
                context: context("main", 1, None),
            },
        }
    );
    assert_eq!(reg.get_all(), vec![entry]);
}

#[test]
fn register_script_reads_url_and_takes_anything_else_as_inline() {
    let mut reg = ScriptRegistry::new();
    let names = targets(&["main"]);
    handle_register_script(
        "5",
        &value(r#"{"id":"a","type":"url","content":"https://example.com/a.js"}"#),
        &names,
        &mut reg,
    );
    handle_register_script(
        "5",
        &value(r#"{"id":"b","type":"module","content":"x"}"#),
        &names,
        &mut reg,
    );
    let kinds: Vec<ScriptType> = reg.get_all().iter().map(|e| e.script_type).collect();
    assert_eq!(kinds, vec![ScriptType::Url, ScriptType::Inline]);
}

#[test]
fn register_script_needs_id_type_and_content() {
    let mut reg = ScriptRegistry::new();
    let names = targets(&["main"]);
    for args in [
        r#"{"type":"inline","content":"x"}"#,
        r#"{"id":"s","content":"x"}"#,
        r#"{"id":"s","type":"inline"}"#,
        r#"{"id":1,"type":"inline","content":"x"}"#,
    ] {
        assert_eq!(
            handle_register_script("5", &value(args), &names, &mut reg),
            reply(
                r#"{"id":"5","success":false,"error":"Missing required args: id, type, content"}"#
            ),
            "{args}"
        );
    }
    assert!(reg.is_empty());
}

#[test]
fn register_script_keeps_the_entry_when_no_window_is_found() {
    let mut reg = ScriptRegistry::new();
    let args = value(r#"{"id":"s1","type":"inline","content":"1","windowLabel":"gone"}"#);
    assert_eq!(
        handle_register_script("5", &args, &targets(&["main"]), &mut reg),
        reply(
            r#"{"id":"5","success":true,"data":{"registered":true,"scriptId":"s1"},
                "error":"Script registered but DOM injection failed: target not found: 'gone'"}"#
        )
    );
    assert_eq!(reg.len(), 1);
    assert_eq!(reg.get("s1").map(|e| e.content.as_str()), Some("1"));
}

#[test]
fn registering_twice_through_the_protocol_lists_one_script() {
    let mut reg = ScriptRegistry::new();
    let names = ["main"];
    let mut injections = Vec::new();
    for (id, content) in [("1", "console.log(1)"), ("2", "console.log(2)")] {
        let command = format!(
            r#"{{"id":"{id}","command":"register_script","args":{{"id":"s1","type":"inline","content":"{content}"}}}}"#
        );
        match run(&command, &names, &mut reg) {
            Step::Ask { call: HostCall::Eval { window, script }, .. } => {
                assert_eq!(window, "main");
                injections.push(script);
            }
            other => panic!("{other:?}"),
        }
    }
    assert_eq!(injections.len(), 2);
    for script in &injections {
        assert!(script.contains(r#"document.querySelector('script[data-mcp-script-id="s1"]')"#));
        assert!(script.contains("existing.remove();"));
    }
    assert!(injections[1].contains(r#"script.textContent = "console.log(2)";"#));
    assert_eq!(
        run(r#"{"id":"3","command":"get_scripts"}"#, &names, &mut reg),
        reply(
            r#"{"id":"3","success":true,
                "data":{"scripts":[{"id":"s1","type":"inline","content":"console.log(2)"}]}}"#
        )
    );
}

#[test]
fn remove_script_reports_whether_the_registry_held_the_script() {
    let mut reg = ScriptRegistry::new();
    let names = targets(&["main"]);
    reg.add(ScriptEntry {
        id: "s1".to_string(),
        script_type: ScriptType::Inline,
        content: "1".to_string(),
    });
    let expected = |removed: bool| Step::Ask {
        call: HostCall::Eval { window: "main".to_string(), script: remove_script("s1") },
        pending: Pending::Removed {
            id: "6".to_string(),
            removed,
            script_id: "s1".to_string(),
            context: context("main", 1, None),
        },
    };
    assert_eq!(handle_remove_script("6", &value(r#"{"id":"s1"}"#), &names, &mut reg), expected(true));
    assert!(reg.is_empty());
    assert_eq!(
        handle_remove_script("6", &value(r#"{"id":"s1"}"#), &names, &mut reg),
        expected(false)
    );
    assert_eq!(
        handle_remove_script("6", &value(r#"{}"#), &names, &mut reg),
        reply(r#"{"id":"6","success":false,"error":"Missing script id"}"#)
    );
}

#[test]
fn remove_script_does_not_roll_back_when_no_window_is_found() {
    let mut reg = ScriptRegistry::new();
    reg.add(ScriptEntry {
        id: "s1".to_string(),
        script_type: ScriptType::Inline,
        content: "1".to_string(),
    });
    assert_eq!(
        handle_remove_script("6", &value(r#"{"id":"s1"}"#), &targets(&[]), &mut reg),
        reply(
            r#"{"id":"6","success":true,"data":{"removed":true,"scriptId":"s1"},
                "error":"Script removed from registry but DOM removal failed: no targets available"}"#
        )
    );
    assert!(reg.is_empty());
}

#[test]
fn clear_scripts_counts_what_it_cleared() {
    let mut reg = ScriptRegistry::new();
    for id in ["a", "b", "c"] {
        reg.add(ScriptEntry {
            id: id.to_string(),
            script_type: ScriptType::Inline,
            content: "1".to_string(),
        });
    }
    let command = value(r#"{"id":"8","command":"clear_scripts","args":{"windowLabel":"main"}}"#);
    assert_eq!(
        handle_clear_scripts("8", &command, &targets(&["main"]), &mut reg),
        Step::Ask {
            call: HostCall::Eval { window: "main".to_string(), script: clear_scripts() },
            pending: Pending::Cleared {
                id: "8".to_string(),
                count: 3,
                context: context("main", 1, None),
            },
        }
    );
    assert!(reg.is_empty());
    assert_eq!(
        handle_clear_scripts("8", &command, &targets(&[]), &mut reg),
        reply(
            r#"{"id":"8","success":true,"data":{"cleared":0},
                "error":"Scripts cleared from registry but DOM clear failed: target not found: 'main'"}"#
        )
    );
}

#[test]
fn get_scripts_lists_the_registry_in_order() {
    let mut reg = ScriptRegistry::new();
    assert_eq!(
        handle_get_scripts("2", &reg),
        reply(r#"{"id":"2","success":true,"data":{"scripts":[]}}"#)
    );
    reg.add(ScriptEntry {
        id: "b".to_string(),
        script_type: ScriptType::Url,
        content: "https://example.com/b.js".to_string(),
    });
    reg.add(ScriptEntry {
        id: "a".to_string(),
        script_type: ScriptType::Inline,
        content: "1".to_string(),
    });
    assert_eq!(
        handle_get_scripts("2", &reg),
        reply(
            r#"{"id":"2","success":true,"data":{"scripts":[
                {"id":"b","type":"url","content":"https://example.com/b.js"},
                {"id":"a","type":"inline","content":"1"}]}}"#
        )
    );
}

#[test]
fn invoke_tauri_reaches_the_listed_operations() {
    let names = targets(&["main", "settings"]);
    let ask = |args: &str| handle_invoke_tauri("1", &value(args), &names);
    assert_eq!(
        ask(r#"{"command":"plugin:mcp-bridge|get_backend_state"}"#),
        Step::Ask { call: HostCall::GetBackendState, pending: plain("1") }
    );
    assert_eq!(
        ask(r#"{"command":"plugin:mcp-bridge|get_ipc_events"}"#),
        Step::Ask { call: HostCall::GetIpcEvents, pending: plain("1") }
    );
    assert_eq!(
        ask(r#"{"command":"plugin:mcp-bridge|start_ipc_monitor"}"#),
        Step::Ask {
            call: HostCall::StartIpcMonitor { window: "main".to_string() },
            pending: plain("1"),
        }
    );
    assert_eq!(
        ask(r#"{"command":"plugin:mcp-bridge|stop_ipc_monitor"}"#),
        Step::Ask {
            call: HostCall::StopIpcMonitor { window: "main".to_string() },
            pending: plain("1"),
        }
    );
    assert_eq!(
        ask(r#"{"command":"plugin:mcp-bridge|get_window_info","args":{"windowLabel":"settings"}}"#),
        Step::Ask {
            call: HostCall::GetWindowInfo { window: "settings".to_string() },
            pending: plain("1"),
        }
    );
    assert_eq!(
        ask(r#"{"command":"plugin:mcp-bridge|get_window_info","args":{"windowLabel":"x"}}"#),
        reply(r#"{"id":"1","success":false,"error":"target not found: 'x'"}"#)
    );
    assert_eq!(
        ask(r#"{"command":"plugin:mcp-bridge|emit_event","args":{"eventName":"ping","payload":{"n":1}}}"#),
        Step::Ask {
            call: HostCall::EmitEvent {
                event_name: "ping".to_string(),
                payload: value(r#"{"n":1}"#),
            },
            pending: plain("1"),
        }
    );
    assert_eq!(
        ask(r#"{"command":"plugin:mcp-bridge|emit_event","args":{"eventName":"ping"}}"#),
        Step::Ask {
            call: HostCall::EmitEvent { event_name: "ping".to_string(), payload: Value::Null },
            pending: plain("1"),
        }
    );
}

#[test]
fn invoke_tauri_refuses_what_it_cannot_do() {
    let names = targets(&[]);
    let ask = |args: &str| handle_invoke_tauri("1", &value(args), &names);
    assert_eq!(
        ask(r#"{"args":{}}"#),
        reply(r#"{"id":"1","success":false,"error":"Missing command in args"}"#)
    );
    assert_eq!(
        ask(r#"{"command":"plugin:fs|read"}"#),
        reply(r#"{"id":"1","success":false,"error":"Unsupported Tauri command: plugin:fs|read"}"#)
    );
    assert_eq!(
        ask(r#"{"command":"plugin:mcp-bridge|start_ipc_monitor"}"#),
        reply(r#"{"id":"1","success":false,"error":"No window available"}"#)
    );
    assert_eq!(
        ask(r#"{"command":"plugin:mcp-bridge|stop_ipc_monitor"}"#),
        reply(r#"{"id":"1","success":false,"error":"No window available"}"#)
    );
    assert_eq!(
        ask(r#"{"command":"plugin:mcp-bridge|emit_event","args":{"payload":1}}"#),
        reply(r#"{"id":"1","success":false,"error":"Missing eventName in args"}"#)
    );
    assert_eq!(
        ask(r#"{"command":"plugin:mcp-bridge|emit_event"}"#),
        reply(r#"{"id":"1","success":false,"error":"Missing eventName in args"}"#)
    );
}

#[test]
fn a_plain_request_is_completed_with_data_or_error() {
    assert_eq!(
        complete(plain("1"), Ok(value(r#"[{"label":"main"}]"#))),
        value(r#"{"id":"1","success":true,"data":[{"label":"main"}]}"#)
    );
    assert_eq!(
        complete(plain("1"), Err("boom".to_string())),
        value(r#"{"id":"1","success":false,"error":"boom"}"#)
    );
}

#[test]
fn execute_js_is_completed_from_the_result_of_the_script() {
    let pending = || Pending::ExecuteJs {
        id: "9".to_string(),
        context: context("main", 2, Some("careful")),
    };
    assert_eq!(
        complete(pending(), Ok(value(r#"{"success":true,"data":{"x":1}}"#))),
        value(
            r#"{"id":"9","success":true,"data":{"x":1},"error":null,
                "windowContext":{"windowLabel":"main","totalWindows":2,"warning":"careful"}}"#
        )
    );
    assert_eq!(
        complete(pending(), Ok(value(r#"{"success":false,"error":"ReferenceError"}"#))),
        value(
            r#"{"id":"9","success":false,"data":null,"error":"ReferenceError",
                "windowContext":{"windowLabel":"main","totalWindows":2,"warning":"careful"}}"#
        )
    );
    assert_eq!(
        complete(pending(), Ok(value(r#"{"data":3}"#))),
        value(
            r#"{"id":"9","success":true,"data":3,"error":null,
                "windowContext":{"windowLabel":"main","totalWindows":2,"warning":"careful"}}"#
        )
    );
    assert_eq!(
        complete(pending(), Err("timed out".to_string())),
        value(
            r#"{"id":"9","success":false,"error":"timed out",
                "windowContext":{"windowLabel":"main","totalWindows":2,"warning":"careful"}}"#
        )
    );
}

#[test]
fn a_screenshot_is_completed_with_its_data_url() {
    let pending = || Pending::Screenshot { id: "3".to_string(), context: context("main", 1, None) };
    assert_eq!(
        complete(pending(), Ok(value(r#""data:image/png;base64,AQID""#))),
        value(
            r#"{"id":"3","success":true,"data":"data:image/png;base64,AQID",
                "windowContext":{"windowLabel":"main","totalWindows":1,"warning":null}}"#
        )
    );
    assert_eq!(
        complete(pending(), Err("Resize failed: bad".to_string())),
        value(
            r#"{"id":"3","success":false,"error":"Resize failed: bad",
                "windowContext":{"windowLabel":"main","totalWindows":1,"warning":null}}"#
        )
    );
}

#[test]
fn a_resize_always_reports_success_or_failure() {
    let pending = || Pending::Resize { id: "4".to_string() };
    assert_eq!(
        complete(pending(), Ok(value(r#"{"success":true,"width":800,"height":600}"#))),
        value(
            r#"{"id":"4","success":true,"data":{"success":true,"width":800,"height":600},"error":null}"#
        )
    );
    assert_eq!(
        complete(pending(), Ok(value(r#"{"success":false,"error":"window is fullscreen"}"#))),
        value(
            r#"{"id":"4","success":false,"data":{"success":false,"error":"window is fullscreen"},
                "error":"window is fullscreen"}"#
        )
    );
    assert_eq!(
        complete(pending(), Ok(value(r#"{}"#))),
        value(r#"{"id":"4","success":false,"data":{},"error":null}"#)
    );
    assert_eq!(
        complete(pending(), Err("target not found: 'x'".to_string())),
        value(r#"{"id":"4","success":false,"error":"target not found: 'x'"}"#)
    );
}

#[test]
fn an_injection_is_completed_with_the_registration() {
    let pending = || Pending::Registered {
        id: "5".to_string(),
        script_id: "s1".to_string(),
        context: context("main", 1, None),
    };
    assert_eq!(
        complete(pending(), Ok(Value::Null)),
        value(
            r#"{"id":"5","success":true,"data":{"registered":true,"scriptId":"s1"},
                "windowContext":{"windowLabel":"main","totalWindows":1,"warning":null}}"#
        )
    );
    assert_eq!(
        complete(pending(), Err("page gone".to_string())),
        value(
            r#"{"id":"5","success":true,"data":{"registered":true,"scriptId":"s1"},
                "error":"Script registered but DOM injection failed: Failed to inject script: page gone"}"#
        )
    );
}

#[test]
fn a_failed_removal_from_the_page_still_reports_the_registry() {
    let pending = || Pending::Removed {
        id: "6".to_string(),
        removed: true,
        script_id: "s1".to_string(),
        context: context("main", 1, None),
    };
    assert_eq!(
        complete(pending(), Ok(Value::Null)),
        value(
            r#"{"id":"6","success":true,"data":{"removed":true,"scriptId":"s1"},
                "windowContext":{"windowLabel":"main","totalWindows":1,"warning":null}}"#
        )
    );
    assert_eq!(
        complete(pending(), Err("page gone".to_string())),
        value(
            r#"{"id":"6","success":true,"data":{"removed":true,"scriptId":"s1"},
                "error":"Script removed from registry but DOM removal failed: Failed to remove script: page gone"}"#
        )
    );
}

#[test]
fn a_failed_clearing_of_the_page_still_reports_the_count() {
    let pending = || Pending::Cleared {
        id: "8".to_string(),
        count: 3,
        context: context("main", 2, Some("w")),
    };
    assert_eq!(
        complete(pending(), Ok(Value::Null)),
        value(
            r#"{"id":"8","success":true,"data":{"cleared":3},
                "windowContext":{"windowLabel":"main","totalWindows":2,"warning":"w"}}"#
        )
    );
    assert_eq!(
        complete(pending(), Err("page gone".to_string())),
        value(
            r#"{"id":"8","success":true,"data":{"cleared":3},
                "error":"Scripts cleared from registry but DOM clear failed: Failed to clear scripts: page gone"}"#
        )
    );
}

#[test]
fn a_failed_lock_fails_the_requests_that_need_the_registry() {
    let names = targets(&["main"]);
    for name in ["register_script", "remove_script", "clear_scripts", "get_scripts"] {
        let command = format!(r#"{{"id":"4","command":"{name}","args":{{"id":"s1"}}}}"#);
        assert_eq!(
            dispatch_without_registry(&value(&command), &names, "poisoned lock"),
            reply(r#"{"id":"4","success":false,"error":"Lock error: poisoned lock"}"#),
            "{name}"
        );
    }
}

#[test]
fn a_failed_lock_leaves_the_other_requests_alone() {
    let names = targets(&["main"]);
    let mut reg = ScriptRegistry::new();
    for command in [
        r#"{"id":"1","command":"list_windows"}"#,
        r#"{"id":"2","command":"execute_js","args":{"script":"1"}}"#,
        r#"{"id":"3","command":"fly"}"#,
        r#"{"id":"4","command":"resize_window","args":{"width":1}}"#,
        r#"{"id":"5","command":"invoke_tauri","args":{"command":"plugin:mcp-bridge|get_ipc_events"}}"#,
        r#"{}"#,
    ] {
        assert_eq!(
            dispatch_without_registry(&value(command), &names, "poisoned lock"),
            dispatch_command(&value(command), &names, &mut reg),
            "{command}"
        );
    }
}
