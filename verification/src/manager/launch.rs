//! The launch of a worker, as the caller that launched it reports it, and
//! the catalog that a successful launch yields.

use vstd::prelude::*;
use crate::error::{ErrorKind, ErrorView};
use crate::models::{ToolInfo, ToolInfoView};
use crate::registry::ServerView;

verus! {

/// One tool as a server describes it during discovery.
#[derive(Debug)]
pub struct DiscoveredTool {
    /// Name under which the tool is invoked.
    pub name: String,
    /// Human-readable description, where the server gives one.
    pub description: Option<String>,
    /// JSON schema of the tool's input, as text.
    pub input_schema: String,
}

/// The mathematical content of a [`DiscoveredTool`].
pub struct DiscoveredToolView {
    pub name: Seq<char>,
    pub description: Option<Seq<char>>,
    pub input_schema: Seq<char>,
}

impl View for DiscoveredTool {
    type V = DiscoveredToolView;

    open spec fn view(&self) -> DiscoveredToolView {
        DiscoveredToolView {
            name: self.name@,
            description: match self.description {
                Some(d) => Some(d@),
                None => None,
            },
            input_schema: self.input_schema@,
        }
    }
}

impl DeepView for DiscoveredTool {
    type V = DiscoveredToolView;

    open spec fn deep_view(&self) -> DiscoveredToolView {
        self@
    }
}

/// The catalog entry for a discovered tool of the server `server_id`.
pub open spec fn tagged_tool(server_id: Seq<char>, tool: DiscoveredToolView) -> ToolInfoView {
    ToolInfoView {
        server_id,
        tool_name: tool.name,
        description: match tool.description {
            Some(d) => d,
            None => Seq::empty(),
        },
        parameters: tool.input_schema,
    }
}

/// The catalog of the server `server_id`: its discovered tools, each tagged
/// with the server's id, in the order of discovery.
pub open spec fn tagged(server_id: Seq<char>, tools: Seq<DiscoveredToolView>) -> Seq<ToolInfoView> {
    Seq::new(tools.len(), |i: int| tagged_tool(server_id, tools[i]))
}

/// Tags each discovered tool with the id of the server that offers it.
pub fn tag_tools(server_id: &str, tools: Vec<DiscoveredTool>) -> (catalog: Vec<ToolInfo>)
    ensures
        catalog.deep_view() == tagged(server_id@, tools.deep_view()),
{
    let mut catalog: Vec<ToolInfo> = Vec::new();
    let mut tools = tools;
    let ghost all = tools.deep_view();
    let mut i: usize = 0;
    let n = tools.len();
    while i < n
        invariant
            i <= n,
            n == tools.len(),
            tools.deep_view() == all,
            catalog.len() == i,
            forall|k: int| 0 <= k < i ==> (#[trigger] catalog[k])@ == tagged_tool(server_id@, all[k]),
        decreases n - i,
    {
        let tool = &tools[i];
        let description = match &tool.description {
            Some(d) => d.clone(),
            None => String::new(),
        };
        catalog.push(
            ToolInfo {
                server_id: String::from_str(server_id),
                tool_name: tool.name.clone(),
                description,
                parameters: tool.input_schema.clone(),
            },
        );
        i = i + 1;
    }
    catalog
}

/// How the launch of a worker ended, as the caller that launched it reports
/// it.
#[derive(Debug)]
pub enum LaunchOutcome {
    /// The worker process could not be spawned.
    SpawnFailed { message: String },
    /// The process was spawned, but no transport could be set up over its
    /// standard streams.
    TransportFailed { pid: Option<u32>, message: String },
    /// The protocol handshake with the worker failed.
    HandshakeFailed { pid: Option<u32>, message: String },
    /// The handshake succeeded, but the worker did not list its tools.
    DiscoveryFailed { pid: Option<u32>, message: String },
    /// The worker is connected and has listed its tools.
    Discovered { pid: Option<u32>, tools: Vec<DiscoveredTool> },
}

impl LaunchOutcome {
    /// The process that the launch left running, if it spawned one whose
    /// identifier is known.
    pub open spec fn spawned(self) -> Option<u32> {
        match self {
            LaunchOutcome::SpawnFailed { .. } => None,
            LaunchOutcome::TransportFailed { pid, .. } => pid,
            LaunchOutcome::HandshakeFailed { pid, .. } => pid,
            LaunchOutcome::DiscoveryFailed { pid, .. } => pid,
            LaunchOutcome::Discovered { pid, .. } => pid,
        }
    }

    /// Why the launch does not yield a server, or `None` where it does.
    pub open spec fn failure(self) -> Option<ErrorView> {
        match self {
            LaunchOutcome::SpawnFailed { message } => Some(
                ErrorView {
                    kind: ErrorKind::ProcessStartError,
                    detail: "Failed to start server process: "@ + message@,
                },
            ),
            LaunchOutcome::TransportFailed { message, .. } => Some(
                ErrorView {
                    kind: ErrorKind::ProcessStartError,
                    detail: "Failed to create MCP transport: "@ + message@,
                },
            ),
            LaunchOutcome::HandshakeFailed { message, .. } => Some(
                ErrorView {
                    kind: ErrorKind::CommunicationError,
                    detail: "Failed to initialize MCP service: "@ + message@,
                },
            ),
            LaunchOutcome::DiscoveryFailed { message, .. } => Some(
                ErrorView {
                    kind: ErrorKind::CommunicationError,
                    detail: "Failed to list tools: "@ + message@,
                },
            ),
            LaunchOutcome::Discovered { pid, .. } => if pid is None {
                Some(
                    ErrorView {
                        kind: ErrorKind::ProcessStartError,
                        detail: "Failed to get process ID"@,
                    },
                )
            } else {
                None
            },
        }
    }

    /// The server record that a successful launch of `server_id` yields.
    pub open spec fn server(self, server_id: Seq<char>) -> ServerView {
        ServerView {
            pid: self->Discovered_pid->0,
            tools: tagged(server_id, self->Discovered_tools.deep_view()),
        }
    }
}

/// The process that a launch left running, if its identifier is known.
pub fn spawned_pid(launch: &LaunchOutcome) -> (pid: Option<u32>)
    ensures
        pid == launch.spawned(),
{
    match launch {
        LaunchOutcome::SpawnFailed { .. } => None,
        LaunchOutcome::TransportFailed { pid, .. } => *pid,
        LaunchOutcome::HandshakeFailed { pid, .. } => *pid,
        LaunchOutcome::DiscoveryFailed { pid, .. } => *pid,
        LaunchOutcome::Discovered { pid, .. } => *pid,
    }
}

} // verus!
