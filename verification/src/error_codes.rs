//! Stable, machine-readable codes for the error taxonomy.

use vstd::prelude::*;

verus! {

pub const SERVER_NOT_FOUND: &'static str = "SERVER_NOT_FOUND";

pub const TOOL_NOT_FOUND: &'static str = "TOOL_NOT_FOUND";

pub const PROCESS_START_ERROR: &'static str = "PROCESS_START_ERROR";

pub const PROCESS_STOP_ERROR: &'static str = "PROCESS_STOP_ERROR";

pub const COMMUNICATION_ERROR: &'static str = "COMMUNICATION_ERROR";

pub const TOOL_EXECUTION_ERROR: &'static str = "TOOL_EXECUTION_ERROR";

pub const MANAGER_NOT_FOUND: &'static str = "MANAGER_NOT_FOUND";

pub const MANAGER_SHUTDOWN: &'static str = "MANAGER_SHUTDOWN";

pub const DUPLICATE_SERVER: &'static str = "DUPLICATE_SERVER";

pub const MCP_ERROR: &'static str = "MCP_ERROR";

pub const UNKNOWN_ERROR: &'static str = "UNKNOWN_ERROR";

} // verus!
