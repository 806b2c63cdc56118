use mcp_manager::error::{Error, ErrorKind};
use mcp_manager::error_codes;

fn all() -> Vec<(Error, ErrorKind, &'static str, &'static str)> {
    let d = || "detail".to_string();
    vec![
        (Error::McpError(d()), ErrorKind::McpError, "MCP_ERROR", "MCP protocol error: detail"),
        (
            Error::ProcessStartError(d()),
            ErrorKind::ProcessStartError,
            "PROCESS_START_ERROR",
            "Failed to start server process: detail",
        ),
        (
            Error::ProcessStopError(d()),
            ErrorKind::ProcessStopError,
            "PROCESS_STOP_ERROR",
            "Failed to stop server process: detail",
        ),
        (
            Error::CommunicationError(d()),
            ErrorKind::CommunicationError,
            "COMMUNICATION_ERROR",
            "Server communication error: detail",
        ),
        (
            Error::ServerNotFound(d()),
            ErrorKind::ServerNotFound,
            "SERVER_NOT_FOUND",
            "Server not found: detail",
        ),
        (Error::ToolNotFound(d()), ErrorKind::ToolNotFound, "TOOL_NOT_FOUND", "Tool not found: detail"),
        (
            Error::ToolExecutionError(d()),
            ErrorKind::ToolExecutionError,
            "TOOL_EXECUTION_ERROR",
            "Tool execution error: detail",
        ),
        (
            Error::ManagerNotFound(d()),
            ErrorKind::ManagerNotFound,
            "MANAGER_NOT_FOUND",
            "Manager not found: detail",
        ),
        (
            Error::ManagerShutdown(d()),
            ErrorKind::ManagerShutdown,
            "MANAGER_SHUTDOWN",
            "Manager shutdown: detail",
        ),
        (
            Error::DuplicateServer(d()),
            ErrorKind::DuplicateServer,
            "DUPLICATE_SERVER",
            "Duplicate server: detail",
        ),
        (Error::Other(d()), ErrorKind::Other, "UNKNOWN_ERROR", "detail"),
    ]
}

#[test]
fn every_variant_tells_its_kind() {
    for (error, kind, _, _) in all() {
        assert_eq!(error.kind(), kind);
    }
}

#[test]
fn every_variant_has_its_code() {
    for (error, _, code, _) in all() {
        assert_eq!(error.code(), code);
    }
}

#[test]
fn every_variant_renders_prefix_and_detail() {
    for (error, _, _, message) in all() {
        assert_eq!(error.message(), message);
        assert_eq!(error.detail_text(), "detail");
    }
}

#[test]
fn codes_are_distinct() {
    let codes: Vec<&str> = all().iter().map(|(e, _, _, _)| e.code()).collect();
    for (i, a) in codes.iter().enumerate() {
        for b in codes.iter().skip(i + 1) {
            assert_ne!(a, b);
        }
    }
}

#[test]
fn code_constants_spell_their_own_names() {
    assert_eq!(error_codes::SERVER_NOT_FOUND, "SERVER_NOT_FOUND");
    assert_eq!(error_codes::TOOL_NOT_FOUND, "TOOL_NOT_FOUND");
    assert_eq!(error_codes::PROCESS_START_ERROR, "PROCESS_START_ERROR");
    assert_eq!(error_codes::PROCESS_STOP_ERROR, "PROCESS_STOP_ERROR");
    assert_eq!(error_codes::COMMUNICATION_ERROR, "COMMUNICATION_ERROR");
    assert_eq!(error_codes::TOOL_EXECUTION_ERROR, "TOOL_EXECUTION_ERROR");
    assert_eq!(error_codes::MANAGER_NOT_FOUND, "MANAGER_NOT_FOUND");
    assert_eq!(error_codes::MANAGER_SHUTDOWN, "MANAGER_SHUTDOWN");
    assert_eq!(error_codes::DUPLICATE_SERVER, "DUPLICATE_SERVER");
    assert_eq!(error_codes::MCP_ERROR, "MCP_ERROR");
    assert_eq!(error_codes::UNKNOWN_ERROR, "UNKNOWN_ERROR");
}

#[test]
fn an_empty_detail_leaves_the_prefix() {
    assert_eq!(Error::ToolNotFound(String::new()).message(), "Tool not found: ");
    assert_eq!(Error::Other(String::new()).message(), "");
}
