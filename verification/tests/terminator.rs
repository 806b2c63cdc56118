use mcp_manager::error::Error;
use mcp_manager::manager::conclude_stop;
use mcp_manager::models::McpEvent;
use mcp_manager::terminator::{conclude_termination, kill_process_tree, KillAttempt};

const GONE: u32 = 4_000_000_000;

fn attempt(pid: u32, outcome: Option<bool>) -> KillAttempt {
    KillAttempt { pid, outcome }
}

#[test]
fn a_tree_that_dies_cleanly_is_no_error() {
    let report = conclude_termination(
        vec![attempt(102, Some(true)), attempt(101, Some(true))],
        attempt(100, Some(true)),
        "echo",
    );
    assert_eq!(report.result, Ok(()));
    assert!(report.events.is_empty());
    assert_eq!(report.descendants, vec![attempt(102, Some(true)), attempt(101, Some(true))]);
    assert_eq!(report.root, attempt(100, Some(true)));
}

#[test]
fn a_grandchild_that_already_exited_is_tolerated() {
    let report = conclude_termination(
        vec![attempt(102, None), attempt(101, Some(true))],
        attempt(100, Some(true)),
        "echo",
    );
    assert_eq!(report.result, Ok(()));
    assert!(report.events.is_empty());
}

#[test]
fn a_descendant_that_cannot_be_killed_is_reported_only() {
    let report = conclude_termination(
        vec![attempt(103, Some(false)), attempt(102, Some(true)), attempt(101, Some(false))],
        attempt(100, Some(true)),
        "echo",
    );
    assert_eq!(report.result, Ok(()));
    assert_eq!(
        report.events,
        vec![
            McpEvent::error("Failed to kill child process: 103", Some("echo")),
            McpEvent::error("Failed to kill child process: 101", Some("echo")),
        ]
    );
}

#[test]
fn a_root_that_cannot_be_killed_is_an_error() {
    let report = conclude_termination(vec![attempt(101, Some(true))], attempt(100, Some(false)), "echo");
    assert_eq!(
        report.result,
        Err(Error::ProcessStopError("Failed to kill process: 100".to_string()))
    );
    assert!(report.events.is_empty());
}

#[test]
fn a_root_that_already_exited_is_no_error() {
    let report = conclude_termination(Vec::new(), attempt(100, None), "echo");
    assert_eq!(report.result, Ok(()));
    assert!(report.events.is_empty());
}

#[test]
fn a_failed_stop_is_not_announced_as_stopped() {
    let report = conclude_stop(
        "echo",
        Some("closed".to_string()),
        vec![attempt(101, Some(false)), attempt(102, None)],
        attempt(100, Some(false)),
    );
    assert_eq!(
        report.result,
        Err(Error::ProcessStopError("Failed to kill process: 100".to_string()))
    );
    assert_eq!(
        report.events,
        vec![
            McpEvent::error("Error cancelling MCP service: closed", Some("echo")),
            McpEvent::error("Failed to kill child process: 101", Some("echo")),
        ]
    );
    assert_eq!(report.root, attempt(100, Some(false)));
    assert_eq!(report.descendants.len(), 2);
}

#[test]
fn a_clean_stop_is_announced() {
    let report = conclude_stop("echo", None, vec![attempt(101, Some(true))], attempt(100, Some(true)));
    assert_eq!(report.result, Ok(()));
    assert_eq!(
        report.events,
        vec![
            McpEvent::server_stopped("echo"),
            McpEvent::info("Server 'echo' stopped successfully", Some("echo")),
        ]
    );
}

#[test]
fn attempts_on_a_process_that_does_not_exist_reach_nothing() {
    let mut system = sysinfo::System::new();
    let attempts = mcp_manager::terminator::attempt_termination(&mut system, GONE);
    assert_eq!(attempts.root, attempt(GONE, None));
    assert!(attempts.descendants.is_empty());
    assert!(!system.processes().is_empty());
}

#[test]
fn killing_a_process_that_does_not_exist_succeeds() {
    let mut system = sysinfo::System::new();
    let report = kill_process_tree(&mut system, GONE, "echo");
    assert_eq!(report.result, Ok(()));
    assert_eq!(report.root, attempt(GONE, None));
    assert!(report.descendants.is_empty());
    assert!(report.events.is_empty());
}
