//! What the operations of a manager hand back to the caller, and when such
//! a report is the right one.

use vstd::prelude::*;
use serde_json::Value as JsonValue;
use crate::calls::CallPlan;
use crate::error::Error;
use crate::json::{json_members, json_parse};
use crate::manager::launch::LaunchOutcome;
use crate::manager::model::{
    admission_events, catalogs, failure_of, sweep_failures, teardown_events, teardown_failure,
    ManagerView,
};
use crate::models::{McpEvent, ToolExecutionRequest, ToolInfoView};
use crate::registry::{is_listing, ServerView};
use crate::terminator::{attempted_pids, is_termination_of, KillAttempt};

verus! {

/// The outcome of an operation together with the events it emits.
#[derive(Debug)]
pub struct Report<T> {
    /// What the operation yields.
    pub result: Result<T, Error>,
    /// The events to emit, in order.
    pub events: Vec<McpEvent>,
}

/// What a start leaves for the caller to do.
#[derive(Debug)]
pub struct StartReport {
    /// Whether the server is now registered.
    pub result: Result<(), Error>,
    /// The events to emit, in order.
    pub events: Vec<McpEvent>,
    /// The process that was spawned for a start that failed; the caller
    /// must kill it.
    pub orphan: Option<u32>,
}

impl StartReport {
    /// The report is that of a start under `id`, by a manager that was as
    /// `before` says, after a launch that ended as `launch`.
    pub open spec fn is_start_of(self, before: ManagerView, id: Seq<char>, launch: LaunchOutcome)
        -> bool {
        &&& failure_of(self.result) == before.start_failure(id, launch)
        &&& self.events.deep_view() =~= before.start_events(id, launch)
        &&& self.orphan == before.start_orphan(id, launch)
    }
}

/// `r` is the answer of a manager that is as `before` says to the question
/// whether a server may be started under `id`.
pub open spec fn is_start_admission(
    r: Result<Vec<McpEvent>, Error>,
    before: ManagerView,
    id: Seq<char>,
) -> bool {
    &&& failure_of(r) == before.start_refusal(id)
    &&& r matches Ok(events) ==> events.deep_view() =~= admission_events(id)
}

/// A server that has been taken out of the registry and awaits teardown.
#[derive(Debug)]
pub struct Detached {
    /// The id under which the server was registered.
    pub server_id: String,
    /// The root of the server's process tree.
    pub pid: u32,
}

impl Detached {
    /// The ticket is for the server that `servers` holds under `id`.
    pub open spec fn is_for(self, servers: Map<Seq<char>, ServerView>, id: Seq<char>) -> bool {
        &&& servers.dom().contains(id)
        &&& self.server_id@ == id
        &&& self.pid == servers[id].pid
    }
}

impl Report<Detached> {
    /// The report is that of the opening of a stop of the server `id`, by a
    /// manager that was as `before` says.
    pub open spec fn opens_stop_of(self, before: ManagerView, id: Seq<char>) -> bool {
        &&& failure_of(self.result) == before.stop_refusal(id)
        &&& self.result matches Ok(d) ==> d.is_for(before.servers, id)
        &&& self.events.deep_view() =~= before.stop_events(id)
    }
}

/// What the teardown of one server came to.
#[derive(Debug)]
pub struct StopReport {
    /// The kill attempts on the descendants of the server's process, in the
    /// order they were made.
    pub descendants: Vec<KillAttempt>,
    /// The kill attempt on the server's process itself, made last.
    pub root: KillAttempt,
    /// `Err` exactly where the server's process could not be killed.
    pub result: Result<(), Error>,
    /// The events to emit, in order.
    pub events: Vec<McpEvent>,
}

impl StopReport {
    /// The processes on which a kill was attempted, in order.
    pub open spec fn attempted(self) -> Seq<u32> {
        attempted_pids(self.descendants@, self.root)
    }

    /// The kill attempts are those of taking down the tree rooted at `root`
    /// among `processes`.
    pub open spec fn is_termination_of(self, processes: Map<u32, Option<u32>>, root: u32) -> bool {
        is_termination_of(processes, root, self.descendants@, self.root)
    }

    /// The kill attempts are those of taking down the tree rooted at `root`
    /// among the processes that some handle on the process table held.
    pub open spec fn takes_down(self, root: u32) -> bool {
        exists|processes: Map<u32, Option<u32>>| self.is_termination_of(processes, root)
    }

    /// Result and events are those of a stop of the server `id` whose
    /// session cancellation ended as `cancel_error` says.
    pub open spec fn is_stop_of(self, id: Seq<char>, cancel_error: Option<Seq<char>>) -> bool {
        &&& failure_of(self.result) == teardown_failure(self.root)
        &&& self.events.deep_view() == teardown_events(
            id,
            cancel_error,
            self.descendants@,
            self.root.outcome,
        )
    }

    /// Result and events are those of one teardown within a shutdown sweep:
    /// the result is always `Ok`, and a failed teardown shows as one more
    /// error event.
    pub open spec fn is_sweep_stop_of(self, id: Seq<char>, cancel_error: Option<Seq<char>>) -> bool {
        &&& self.result is Ok
        &&& self.events.deep_view() == teardown_events(
            id,
            cancel_error,
            self.descendants@,
            self.root.outcome,
        ) + sweep_failures(id, teardown_failure(self.root))
    }
}

/// The servers that a shutdown sweep has still to stop.
#[derive(Debug)]
pub struct ShutdownSweep {
    /// The ids still to be handled; the last one is handled next.
    pub remaining: Vec<String>,
}

impl ShutdownSweep {
    /// The ids still to be handled; the last one is handled next.
    pub open spec fn pending(self) -> Seq<Seq<char>> {
        self.remaining.deep_view()
    }
}

/// One step of a shutdown sweep.
#[derive(Debug)]
pub struct SweepStep {
    /// The server that the step is about.
    pub server_id: String,
    /// The server, taken out of the registry; `None` where it was no longer
    /// registered.
    pub detached: Option<Detached>,
    /// The events to emit, in order.
    pub events: Vec<McpEvent>,
}

impl Report<CallPlan> {
    /// The report is the manager's answer to `request`, given what reading
    /// the request's input gave.
    pub open spec fn answers(
        self,
        manager: ManagerView,
        request: ToolExecutionRequest,
        parsed: Result<JsonValue, Seq<char>>,
    ) -> bool {
        &&& failure_of(self.result) == manager.call_failure(request, parsed)
        &&& self.result matches Ok(plan) ==> {
            &&& plan.server_id@ == request.server_id@
            &&& plan.tool_name@ == request.tool_name@
            &&& plan.arguments == json_members(parsed->Ok_0)
        }
        &&& self.events.deep_view() =~= manager.call_events(request)
    }

    /// The report is the manager's answer to `request`, whose input is read
    /// as JSON.
    pub open spec fn decides(self, manager: ManagerView, request: ToolExecutionRequest) -> bool {
        self.answers(manager, request, json_parse(request.inputs@))
    }
}

/// `tools` lists the catalogs of the servers of `manager`, one after the
/// other, in some order of the servers.
pub open spec fn is_tool_listing(tools: Seq<ToolInfoView>, manager: ManagerView) -> bool {
    exists|order: Seq<Seq<char>>|
        is_listing(order, manager.servers) && tools == catalogs(manager.servers, order)
}

/// `step` is the step by which a sweep with `pending` ids still to handle
/// turns to its next server: nothing where no id is pending, else the last
/// pending id, taken out of the registry of `before` where it was there.
/// `after` is the manager and `left` are the pending ids after the step.
pub open spec fn is_sweep_step(
    step: Option<SweepStep>,
    before: ManagerView,
    after: ManagerView,
    pending: Seq<Seq<char>>,
    left: Seq<Seq<char>>,
) -> bool {
    match step {
        None => pending.len() == 0 && after == before && left == pending,
        Some(s) => {
            let id = pending.last();
            &&& pending.len() > 0
            &&& left == pending.drop_last()
            &&& s.server_id@ == id
            &&& after == before.without(id)
            &&& s.detached is Some <==> before.servers.dom().contains(id)
            &&& s.detached matches Some(d) ==> d.is_for(before.servers, id)
            &&& s.events.deep_view() == before.sweep_events(id)
        },
    }
}

/// The teardown of one server within a sweep that is carried out in one
/// go.
#[derive(Debug)]
pub struct ServerStop {
    /// The server that was stopped.
    pub server_id: String,
    /// What its teardown came to. The events begin with the opening of the
    /// stop; the result is always `Ok`.
    pub report: StopReport,
}

impl ServerStop {
    /// The stop is that of a server that was registered in `before`: the
    /// process tree of that server was taken down, no session was
    /// cancelled, and the events are those of a stop within a sweep, from
    /// its opening on.
    pub open spec fn is_stop_within(self, before: ManagerView) -> bool {
        let id = self.server_id@;
        &&& before.servers.dom().contains(id)
        &&& self.report.takes_down(before.servers[id].pid)
        &&& self.report.result is Ok
        &&& self.report.events.deep_view() == before.sweep_events(id) + teardown_events(
            id,
            None,
            self.report.descendants@,
            self.report.root.outcome,
        ) + sweep_failures(id, teardown_failure(self.report.root))
    }
}

/// The ids of the servers that were stopped, in the order of the stops.
pub open spec fn stopped_ids(stops: Seq<ServerStop>) -> Seq<Seq<char>> {
    stops.map_values(|stop: ServerStop| stop.server_id@)
}

/// `stops` is the record of a sweep over every server of `before`: each
/// server was stopped, and each once.
pub open spec fn is_sweep_of(stops: Seq<ServerStop>, before: ManagerView) -> bool {
    &&& is_listing(stopped_ids(stops), before.servers)
    &&& forall|i: int| 0 <= i < stops.len() ==> (#[trigger] stops[i]).is_stop_within(before)
}

} // verus!
