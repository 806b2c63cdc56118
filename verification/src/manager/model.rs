//! The mathematical content of a manager, and what each operation makes of
//! it: whether the operation is admitted, the manager it leaves behind, and
//! the events it emits.

use vstd::prelude::*;
use serde_json::Value as JsonValue;
use crate::calls::execution_error;
use crate::error::{Error, ErrorKind, ErrorView};
use crate::manager::launch::LaunchOutcome;
use crate::models::{McpEventView, ToolExecutionRequest, ToolInfoView};
use crate::registry::ServerView;
use crate::terminator::{child_failures, KillAttempt};
use crate::text::decimal_text;

verus! {

/// The failure that a result carries, if any.
pub open spec fn failure_of<T>(result: Result<T, Error>) -> Option<ErrorView> {
    match result {
        Ok(_) => None,
        Err(e) => Some(e@),
    }
}

/// The mathematical content of an [`McpManager`].
pub struct ManagerView {
    /// The manager's own identifier.
    pub manager_id: Seq<char>,
    /// The token of the event sink that the manager was created with.
    pub sink: u64,
    /// The registered servers, by id.
    pub servers: Map<Seq<char>, ServerView>,
    /// Whether the manager has been shut down.
    pub shutdown: bool,
}

impl ManagerView {
    /// The manager as it is created: bound to its sink, no servers, not
    /// shut down.
    pub open spec fn fresh(manager_id: Seq<char>, sink: u64) -> ManagerView {
        ManagerView { manager_id, sink, servers: Map::empty(), shutdown: false }
    }

    /// Every catalog entry names the server under whose id it is kept.
    pub open spec fn wf(self) -> bool {
        forall|id: Seq<char>, i: int|
            self.servers.dom().contains(id) && 0 <= i < self.servers[id].tools.len() ==> (
            #[trigger] self.servers[id].tools[i]).server_id == id
    }

    /// The error with which a manager that was shut down answers.
    pub open spec fn shutdown_error(self) -> ErrorView {
        ErrorView {
            kind: ErrorKind::ManagerShutdown,
            detail: "Manager '"@ + self.manager_id + "' has been shut down"@,
        }
    }

    /// Why the manager refuses to start a server under `id`, or `None`
    /// where it admits the start.
    pub open spec fn start_refusal(self, id: Seq<char>) -> Option<ErrorView> {
        if self.shutdown {
            Some(self.shutdown_error())
        } else if self.servers.dom().contains(id) {
            Some(
                ErrorView {
                    kind: ErrorKind::DuplicateServer,
                    detail: "Server with ID '"@ + id + "' already exists"@,
                },
            )
        } else {
            None
        }
    }

    /// Why a start under `id` fails after the launch ended as `launch`, or
    /// `None` where it succeeds.
    pub open spec fn start_failure(self, id: Seq<char>, launch: LaunchOutcome) -> Option<
        ErrorView,
    > {
        match self.start_refusal(id) {
            Some(e) => Some(e),
            None => launch.failure(),
        }
    }

    /// The manager after a start under `id` whose launch ended as `launch`:
    /// the new server is registered where the start succeeds, and nothing
    /// changes where it fails.
    pub open spec fn started(self, id: Seq<char>, launch: LaunchOutcome) -> ManagerView {
        if self.start_failure(id, launch) is None {
            ManagerView {
                manager_id: self.manager_id,
                sink: self.sink,
                servers: self.servers.insert(id, launch.server(id)),
                shutdown: self.shutdown,
            }
        } else {
            self
        }
    }

    /// The events that a start under `id` emits once the launch has ended.
    pub open spec fn start_events(self, id: Seq<char>, launch: LaunchOutcome) -> Seq<McpEventView> {
        if self.start_failure(id, launch) is None {
            seq![
                McpEventView::server_started(id),
                McpEventView::tools_updated(launch.server(id).tools),
                McpEventView::info("Server '"@ + id + "' started successfully"@, Some(id)),
            ]
        } else {
            Seq::empty()
        }
    }

    /// The process that a failed start leaves behind and that must be
    /// killed.
    pub open spec fn start_orphan(self, id: Seq<char>, launch: LaunchOutcome) -> Option<u32> {
        if self.start_failure(id, launch) is None {
            None
        } else {
            launch.spawned()
        }
    }

    /// The error that names a server that is not registered.
    pub open spec fn server_not_found(id: Seq<char>) -> ErrorView {
        ErrorView {
            kind: ErrorKind::ServerNotFound,
            detail: "Server with ID '"@ + id + "' not found"@,
        }
    }

    /// Why the manager refuses to stop the server `id`, or `None` where it
    /// goes ahead.
    pub open spec fn stop_refusal(self, id: Seq<char>) -> Option<ErrorView> {
        if self.shutdown {
            Some(self.shutdown_error())
        } else if !self.servers.dom().contains(id) {
            Some(Self::server_not_found(id))
        } else {
            None
        }
    }

    /// The manager with the server `id` taken out of the registry.
    pub open spec fn without(self, id: Seq<char>) -> ManagerView {
        ManagerView {
            manager_id: self.manager_id,
            sink: self.sink,
            servers: self.servers.remove(id),
            shutdown: self.shutdown,
        }
    }

    /// The manager after a stop of the server `id`: the server is gone
    /// where the stop goes ahead, and nothing changes where it is refused.
    pub open spec fn stopped(self, id: Seq<char>) -> ManagerView {
        if self.stop_refusal(id) is None {
            self.without(id)
        } else {
            self
        }
    }

    /// The events with which a stop of the server `id` opens.
    pub open spec fn stop_events(self, id: Seq<char>) -> Seq<McpEventView> {
        if self.stop_refusal(id) is None {
            seq![McpEventView::info("Stopping server '"@ + id + "'..."@, Some(id))]
        } else {
            Seq::empty()
        }
    }

    /// The manager with its shutdown flag set.
    pub open spec fn shut_down(self) -> ManagerView {
        ManagerView {
            manager_id: self.manager_id,
            sink: self.sink,
            servers: self.servers,
            shutdown: true,
        }
    }

    /// The manager after a shutdown sweep that was carried to its end: shut
    /// down, and without servers.
    pub open spec fn swept_clean(self) -> ManagerView {
        ManagerView {
            manager_id: self.manager_id,
            sink: self.sink,
            servers: Map::empty(),
            shutdown: true,
        }
    }

    /// The events with which a shutdown sweep turns to the server `id`: the
    /// opening of its stop, or the report that it is no longer there.
    pub open spec fn sweep_events(self, id: Seq<char>) -> Seq<McpEventView> {
        if self.servers.dom().contains(id) {
            seq![McpEventView::info("Stopping server '"@ + id + "'..."@, Some(id))]
        } else {
            seq![sweep_failure(id, Self::server_not_found(id))]
        }
    }

    /// The error that names a tool that a server does not offer.
    pub open spec fn tool_not_found(server_id: Seq<char>, tool_name: Seq<char>) -> ErrorView {
        ErrorView {
            kind: ErrorKind::ToolNotFound,
            detail: "Tool '"@ + tool_name + "' not found on server '"@ + server_id + "'"@,
        }
    }

    /// Why the manager refuses a call of `tool_name` on `server_id` before
    /// looking at its input, or `None` where it does not.
    pub open spec fn call_refusal(self, server_id: Seq<char>, tool_name: Seq<char>) -> Option<
        ErrorView,
    > {
        if self.shutdown {
            Some(self.shutdown_error())
        } else if !self.servers.dom().contains(server_id) {
            Some(Self::server_not_found(server_id))
        } else if !offers(self.servers[server_id].tools, tool_name) {
            Some(Self::tool_not_found(server_id, tool_name))
        } else {
            None
        }
    }

    /// Why the manager does not admit the call, given what reading its
    /// input gave; `None` where the call is admitted.
    pub open spec fn call_failure(
        self,
        request: ToolExecutionRequest,
        parsed: Result<JsonValue, Seq<char>>,
    ) -> Option<ErrorView> {
        match self.call_refusal(request.server_id@, request.tool_name@) {
            Some(e) => Some(e),
            None => match parsed {
                Ok(_) => None,
                Err(reason) => Some(execution_error("Failed to parse tool inputs: "@ + reason)),
            },
        }
    }

    /// The events that open a call: the announcement of the execution,
    /// made once server and tool are found and before the input is read.
    pub open spec fn call_events(self, request: ToolExecutionRequest) -> Seq<McpEventView> {
        if self.call_refusal(request.server_id@, request.tool_name@) is None {
            seq![
                McpEventView::info(
                    "Executing tool '"@ + request.tool_name@ + "' on server '"@
                        + request.server_id@ + "'..."@,
                    Some(request.server_id@),
                ),
            ]
        } else {
            Seq::empty()
        }
    }
}

/// The events that announce an admitted start.
pub open spec fn admission_events(id: Seq<char>) -> Seq<McpEventView> {
    seq![McpEventView::info("Starting server '"@ + id + "'..."@, Some(id))]
}

/// The event that reports a session that could not be cancelled.
pub open spec fn cancel_events(id: Seq<char>, cancel_error: Option<Seq<char>>) -> Seq<McpEventView> {
    match cancel_error {
        Some(message) => seq![
            McpEventView::error("Error cancelling MCP service: "@ + message, Some(id)),
        ],
        None => Seq::empty(),
    }
}

/// The events with which a teardown closes, where the root was not left
/// alive.
pub open spec fn closing_events(id: Seq<char>, root_outcome: Option<bool>) -> Seq<McpEventView> {
    if root_outcome == Some(false) {
        Seq::empty()
    } else {
        seq![
            McpEventView::server_stopped(id),
            McpEventView::info("Server '"@ + id + "' stopped successfully"@, Some(id)),
        ]
    }
}

/// The events of a teardown: the session that could not be cancelled, the
/// descendants that could not be killed, and the closing announcement.
pub open spec fn teardown_events(
    id: Seq<char>,
    cancel_error: Option<Seq<char>>,
    descendants: Seq<KillAttempt>,
    root_outcome: Option<bool>,
) -> Seq<McpEventView> {
    cancel_events(id, cancel_error) + child_failures(descendants, id) + closing_events(
        id,
        root_outcome,
    )
}

/// The failure of a teardown: the root process that could not be killed.
pub open spec fn teardown_failure(root: KillAttempt) -> Option<ErrorView> {
    if root.outcome == Some(false) {
        Some(
            ErrorView {
                kind: ErrorKind::ProcessStopError,
                detail: "Failed to kill process: "@ + decimal_text(root.pid as nat),
            },
        )
    } else {
        None
    }
}

/// The event that reports a server that a shutdown sweep could not stop.
pub open spec fn sweep_failure(id: Seq<char>, e: ErrorView) -> McpEventView {
    McpEventView::error("Failed to stop server '"@ + id + "': "@ + e.message(), Some(id))
}

/// What the failure of a teardown adds to the events of a sweep.
pub open spec fn sweep_failures(id: Seq<char>, failure: Option<ErrorView>) -> Seq<McpEventView> {
    match failure {
        Some(e) => seq![sweep_failure(id, e)],
        None => Seq::empty(),
    }
}

/// The catalogs of the servers named by `order`, one after the other.
pub open spec fn catalogs(servers: Map<Seq<char>, ServerView>, order: Seq<Seq<char>>) -> Seq<
    ToolInfoView,
>
    decreases order.len(),
{
    if order.len() == 0 {
        Seq::empty()
    } else {
        catalogs(servers, order.drop_last()) + servers[order.last()].tools
    }
}

/// The catalog offers a tool of the given name.
pub open spec fn offers(catalog: Seq<ToolInfoView>, tool_name: Seq<char>) -> bool {
    exists|i: int| 0 <= i < catalog.len() && (#[trigger] catalog[i]).tool_name == tool_name
}



} // verus!
