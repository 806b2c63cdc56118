use mcp_manager::error::{Error, ErrorKind};
use mcp_manager::manager::{DiscoveredTool, LaunchOutcome};
use mcp_manager::models::{McpEvent, ServerConfig, ToolExecutionRequest, ToolInfo};
use mcp_manager::workspace::{manager_not_found, McpWorkspace};
use mcp_manager::workspace_wrapper::McpManagerWrapper;

const GONE: u32 = 4_000_000_000;

fn config(id: &str) -> ServerConfig {
    ServerConfig { id: id.to_string(), command: "worker".to_string(), args: Vec::new(), env: None }
}

fn ready(names: &[&str]) -> LaunchOutcome {
    LaunchOutcome::Discovered {
        pid: Some(GONE),
        tools: names
            .iter()
            .map(|n| DiscoveredTool {
                name: n.to_string(),
                description: None,
                input_schema: "{}".to_string(),
            })
            .collect(),
    }
}

fn tool(server: &str, name: &str) -> ToolInfo {
    ToolInfo {
        server_id: server.to_string(),
        tool_name: name.to_string(),
        description: String::new(),
        parameters: "{}".to_string(),
    }
}

fn missing(id: &str) -> Error {
    Error::ManagerNotFound(format!("Manager with ID '{}' not found", id))
}

#[test]
fn a_new_workspace_has_no_managers() {
    let workspace = McpWorkspace::new();
    assert!(workspace.get_manager_ids().is_empty());
    assert!(workspace.get_manager("a").is_none());
}

#[test]
fn get_or_create_registers_the_manager_once() {
    let mut workspace = McpWorkspace::new();
    let first = workspace.get_or_create_manager("a", 1);
    assert_eq!(first.get_manager_id(), "a");
    assert_eq!(workspace.get_manager_ids(), vec!["a".to_string()]);
    let second = workspace.get_or_create_manager("a", 1);
    assert_eq!(second.get_manager_id(), "a");
    assert_eq!(workspace.get_manager_ids(), vec!["a".to_string()]);
}

#[test]
fn asking_again_for_a_manager_yields_the_same_manager() {
    let mut workspace = McpWorkspace::new();
    let first = workspace.get_or_create_manager("a", 1);
    assert!(first.start(&mut workspace, &config("echo"), ready(&["ping"])).result.is_ok());

    let second = workspace.get_or_create_manager("a", 1);
    assert_eq!(second.get_tools(&mut workspace).unwrap(), vec![tool("echo", "ping")]);
    assert_eq!(first.get_tools(&mut workspace).unwrap(), vec![tool("echo", "ping")]);

    assert!(second.start(&mut workspace, &config("more"), ready(&[])).result.is_ok());
    let refused = first.admit_start(&mut workspace, &config("more")).unwrap_err();
    assert_eq!(refused.kind(), ErrorKind::DuplicateServer);
}

#[test]
fn managers_do_not_share_their_servers() {
    let mut workspace = McpWorkspace::new();
    let a = workspace.get_or_create_manager("a", 1);
    let b = workspace.get_or_create_manager("b", 1);
    assert!(a.start(&mut workspace, &config("echo"), ready(&["ping"])).result.is_ok());
    assert!(b.get_tools(&mut workspace).unwrap().is_empty());
    assert!(b.start(&mut workspace, &config("echo"), ready(&["pong"])).result.is_ok());
    assert_eq!(a.get_tools(&mut workspace).unwrap(), vec![tool("echo", "ping")]);
    assert_eq!(b.get_tools(&mut workspace).unwrap(), vec![tool("echo", "pong")]);
    let mut ids = workspace.get_manager_ids();
    ids.sort();
    assert_eq!(ids, vec!["a".to_string(), "b".to_string()]);
}

#[test]
fn get_manager_finds_registered_managers_only() {
    let mut workspace = McpWorkspace::new();
    workspace.get_or_create_manager("a", 1);
    assert_eq!(workspace.get_manager("a").unwrap().get_manager_id(), "a");
    assert!(workspace.get_manager("b").is_none());
    assert_eq!(workspace.get_manager_ids(), vec!["a".to_string()]);
}

#[test]
fn removing_an_unknown_manager_fails() {
    let mut workspace = McpWorkspace::new();
    workspace.get_or_create_manager("a", 1);
    let refused = workspace.remove_manager("b");
    assert_eq!(refused.err(), Some(missing("b")));
    assert_eq!(manager_not_found("b"), missing("b"));
    assert_eq!(workspace.get_manager_ids(), vec!["a".to_string()]);
}

#[test]
fn removing_a_manager_stops_its_servers_and_deletes_its_entry() {
    let mut workspace = McpWorkspace::new();
    let a = workspace.get_or_create_manager("a", 1);
    let b = workspace.get_or_create_manager("b", 1);
    assert!(a.start(&mut workspace, &config("one"), ready(&["x"])).result.is_ok());
    assert!(a.start(&mut workspace, &config("two"), ready(&["y"])).result.is_ok());
    assert!(b.start(&mut workspace, &config("keep"), ready(&["z"])).result.is_ok());

    let mut stops = workspace.remove_manager("a").ok().unwrap();
    assert_eq!(workspace.get_manager_ids(), vec!["b".to_string()]);
    assert!(workspace.get_manager("a").is_none());
    assert_eq!(b.get_tools(&mut workspace).unwrap(), vec![tool("keep", "z")]);

    stops.sort_by(|x, y| x.server_id.cmp(&y.server_id));
    let ids: Vec<&str> = stops.iter().map(|s| s.server_id.as_str()).collect();
    assert_eq!(ids, vec!["one", "two"]);
    for stop in &stops {
        assert_eq!(stop.report.result, Ok(()));
        assert_eq!(stop.report.root.pid, GONE);
        assert_eq!(stop.report.root.outcome, None);
        assert!(stop.report.descendants.is_empty());
        assert_eq!(
            stop.report.events,
            vec![
                McpEvent::info(&format!("Stopping server '{}'...", stop.server_id), Some(&stop.server_id)),
                McpEvent::server_stopped(&stop.server_id),
                McpEvent::info(
                    &format!("Server '{}' stopped successfully", stop.server_id),
                    Some(&stop.server_id)
                ),
            ]
        );
    }

    assert_eq!(workspace.remove_manager("a").err(), Some(missing("a")));
}

#[test]
fn removing_a_manager_without_servers_stops_nothing() {
    let mut workspace = McpWorkspace::new();
    workspace.get_or_create_manager("a", 1);
    let stops = workspace.remove_manager("a").ok().unwrap();
    assert!(stops.is_empty());
    assert!(workspace.get_manager_ids().is_empty());
}

#[test]
fn a_handle_sweeps_its_manager_before_the_removal() {
    let mut workspace = McpWorkspace::new();
    let a = workspace.get_or_create_manager("a", 1);
    assert!(a.start(&mut workspace, &config("one"), ready(&["x"])).result.is_ok());
    assert!(a.start(&mut workspace, &config("two"), ready(&["y"])).result.is_ok());

    let mut sweep = a.stop_all(&mut workspace).unwrap();
    let mut pending = sweep.remaining.clone();
    pending.sort();
    assert_eq!(pending, vec!["one".to_string(), "two".to_string()]);
    assert_eq!(workspace.get_manager_ids(), vec!["a".to_string()]);
    assert_eq!(
        a.admit_start(&mut workspace, &config("three")).unwrap_err().kind(),
        ErrorKind::ManagerShutdown
    );
    let again = workspace.get_or_create_manager("a", 1);
    assert_eq!(
        again.admit_start(&mut workspace, &config("three")).unwrap_err().kind(),
        ErrorKind::ManagerShutdown
    );

    let mut swept = Vec::new();
    while let Some(step) = a.sweep_next(&mut workspace, &mut sweep) {
        let detached = step.detached.unwrap();
        assert!(!a.get_tools(&mut workspace).unwrap().iter().any(|t| t.server_id == step.server_id));
        let report = a.sweep_finish(&mut workspace, detached, Some("closed".to_string()));
        assert_eq!(report.result, Ok(()));
        assert_eq!(
            report.events[0],
            McpEvent::error("Error cancelling MCP service: closed", Some(&step.server_id))
        );
        assert_eq!(report.events[1], McpEvent::server_stopped(&step.server_id));
        swept.push(step.server_id);
    }
    swept.sort();
    assert_eq!(swept, vec!["one".to_string(), "two".to_string()]);
    assert!(a.get_tools(&mut workspace).unwrap().is_empty());

    let stops = workspace.remove_manager("a").ok().unwrap();
    assert!(stops.is_empty());
    assert!(workspace.get_manager_ids().is_empty());
    assert_eq!(a.stop_all(&mut workspace).unwrap_err(), missing("a"));
    assert!(a.sweep_next(&mut workspace, &mut sweep).is_none());
}

#[test]
fn a_removed_id_can_be_used_for_a_brand_new_manager() {
    let mut workspace = McpWorkspace::new();
    let old = workspace.get_or_create_manager("a", 1);
    assert!(old.start(&mut workspace, &config("echo"), ready(&["ping"])).result.is_ok());
    assert!(workspace.remove_manager("a").is_ok());

    let new = workspace.get_or_create_manager("a", 1);
    assert!(new.get_tools(&mut workspace).unwrap().is_empty());
    assert!(new.admit_start(&mut workspace, &config("echo")).is_ok());
    assert_eq!(workspace.get_manager_ids(), vec!["a".to_string()]);
}

#[test]
fn a_cloned_handle_stands_for_the_same_manager() {
    let mut workspace = McpWorkspace::new();
    let handle = workspace.get_or_create_manager("a", 1);
    let copy = handle.clone();
    assert_eq!(copy.get_manager_id(), "a");
    assert!(handle.start(&mut workspace, &config("echo"), ready(&["ping"])).result.is_ok());
    assert_eq!(copy.get_tools(&mut workspace).unwrap(), vec![tool("echo", "ping")]);
}

#[test]
fn a_handle_created_directly_registers_its_manager() {
    let mut workspace = McpWorkspace::new();
    let handle = McpManagerWrapper::new(&mut workspace, "a".to_string(), 1);
    assert_eq!(handle.get_manager_id(), "a");
    assert_eq!(workspace.get_manager_ids(), vec!["a".to_string()]);
    assert!(handle.start(&mut workspace, &config("echo"), ready(&["ping"])).result.is_ok());
    let again = McpManagerWrapper::new(&mut workspace, "a".to_string(), 1);
    assert_eq!(again.get_tools(&mut workspace).unwrap(), vec![tool("echo", "ping")]);
}

#[test]
fn a_handle_drives_the_whole_life_of_a_server() {
    let mut workspace = McpWorkspace::new();
    let handle = workspace.get_or_create_manager("a", 1);
    assert_eq!(
        handle.admit_start(&mut workspace, &config("echo")).unwrap(),
        vec![McpEvent::info("Starting server 'echo'...", Some("echo"))]
    );
    let started = handle.start(&mut workspace, &config("echo"), ready(&["ping"]));
    assert_eq!(started.result, Ok(()));
    assert_eq!(started.events.len(), 3);

    let request = ToolExecutionRequest {
        server_id: "echo".to_string(),
        tool_name: "ping".to_string(),
        inputs: "{\"a\": 1}".to_string(),
    };
    let plan = handle.execute_tool(&mut workspace, &request).result.unwrap();
    assert_eq!(plan.arguments.unwrap()["a"], serde_json::Value::from(1));

    let detached = handle.stop(&mut workspace, "echo").result.unwrap();
    assert_eq!(detached.pid, GONE);
    assert!(handle.get_tools(&mut workspace).unwrap().is_empty());
    let done = handle.finish_stop(&mut workspace, detached, None);
    assert_eq!(done.result, Ok(()));
    assert_eq!(done.events[0], McpEvent::server_stopped("echo"));
    assert_eq!(
        handle.execute_tool(&mut workspace, &request).result.unwrap_err().kind(),
        ErrorKind::ServerNotFound
    );
}

#[test]
fn a_handle_whose_manager_is_gone_fails_with_manager_not_found() {
    let mut workspace = McpWorkspace::new();
    let handle = workspace.get_or_create_manager("a", 1);
    assert!(handle.start(&mut workspace, &config("echo"), ready(&["ping"])).result.is_ok());
    let detached = handle.stop(&mut workspace, "echo").result.unwrap();
    assert!(workspace.remove_manager("a").is_ok());

    assert_eq!(handle.admit_start(&mut workspace, &config("x")).unwrap_err(), missing("a"));
    let started = handle.start(
        &mut workspace,
        &config("x"),
        LaunchOutcome::HandshakeFailed { pid: Some(9), message: "eof".to_string() },
    );
    assert_eq!(started.result, Err(missing("a")));
    assert_eq!(started.orphan, Some(9));
    assert!(started.events.is_empty());
    assert_eq!(handle.stop(&mut workspace, "echo").result.unwrap_err(), missing("a"));
    assert_eq!(handle.get_tools(&mut workspace).unwrap_err(), missing("a"));
    let request = ToolExecutionRequest {
        server_id: "echo".to_string(),
        tool_name: "ping".to_string(),
        inputs: "{}".to_string(),
    };
    assert_eq!(handle.execute_tool(&mut workspace, &request).result.unwrap_err(), missing("a"));
    assert!(workspace.get_manager_ids().is_empty());

    let done = handle.finish_stop(&mut workspace, detached, None);
    assert_eq!(done.result, Ok(()));
    assert_eq!(done.root.pid, GONE);
    assert!(workspace.get_manager_ids().is_empty());
}

#[test]
fn the_sink_that_was_bound_first_stays() {
    let mut workspace = McpWorkspace::new();
    let first = workspace.get_or_create_manager("a", 11);
    assert_eq!(first.sink(&mut workspace), Ok(11));
    let second = workspace.get_or_create_manager("a", 22);
    assert_eq!(second.sink(&mut workspace), Ok(11));
    assert_eq!(first.sink(&mut workspace), Ok(11));
    let third = McpManagerWrapper::new(&mut workspace, "a".to_string(), 33);
    assert_eq!(third.sink(&mut workspace), Ok(11));

    let other = workspace.get_or_create_manager("b", 22);
    assert_eq!(other.sink(&mut workspace), Ok(22));

    assert!(workspace.remove_manager("a").is_ok());
    assert_eq!(first.sink(&mut workspace), Err(missing("a")));
    let again = workspace.get_or_create_manager("a", 44);
    assert_eq!(again.sink(&mut workspace), Ok(44));
}
