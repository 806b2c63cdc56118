//! One tenant's fleet of servers: which servers are registered, which
//! operations are admitted, and what each operation leaves behind.
//!
//! The manager decides; it performs no I/O of its own beyond reading the
//! process table and sending kill signals. Spawning a worker, the protocol
//! handshake, tool discovery, tool calls and session cancellation are done
//! by the caller, who hands their outcome to the manager and carries out
//! what the manager answers: the events to emit, the process to kill, the
//! call to make.

pub mod launch;
pub mod model;
pub mod reports;

use vstd::prelude::*;
use dashmap::DashMap;
use serde_json::Value as JsonValue;
use sysinfo::System;
use crate::calls::CallPlan;
use crate::error::Error;
use crate::json::{members, parse, reading_of, text_of};
use crate::models::{McpEvent, ServerConfig, ToolExecutionRequest, ToolInfo};
use crate::registry::{
    is_listing, registry_contains, registry_entries, registry_get, registry_ids, registry_insert,
    registry_new, registry_remove, Server,
};
use crate::terminator::{
    attempt_termination, conclude_termination, new_system, process_map, refresh, KillAttempt,
    TerminationReport,
};
use crate::text::{join2, join3, join5};

pub use crate::manager::launch::{
    spawned_pid, tag_tools, tagged, tagged_tool, DiscoveredTool, DiscoveredToolView, LaunchOutcome,
};
pub use crate::manager::model::{
    admission_events, cancel_events, catalogs, closing_events, failure_of, offers, sweep_failure,
    sweep_failures, teardown_events, teardown_failure, ManagerView,
};
pub use crate::manager::reports::{
    is_start_admission, is_sweep_of, is_sweep_step, is_tool_listing, stopped_ids, Detached, Report,
    ServerStop, ShutdownSweep, StartReport, StopReport, SweepStep,
};

verus! {

/// The controller of one tenant's servers.
pub struct McpManager {
    manager_id: String,
    sink: u64,
    servers: DashMap<String, Server>,
    system: System,
    shutdown: bool,
}

impl View for McpManager {
    type V = ManagerView;

    closed spec fn view(&self) -> ManagerView {
        ManagerView {
            manager_id: self.manager_id@,
            sink: self.sink,
            servers: registry_entries(self.servers),
            shutdown: self.shutdown,
        }
    }
}

impl McpManager {
    /// The processes that the manager's handle on the process table holds
    /// since it was last refreshed.
    pub closed spec fn processes(&self) -> Map<u32, Option<u32>> {
        process_map(self.system)
    }

    /// Creates a manager with no servers, bound to an event sink.
    ///
    /// `sink` is a token for the sink: the caller keeps the sink itself and
    /// delivers to it whatever events the manager's operations hand back.
    /// The binding is for the manager's lifetime.
    pub fn new(manager_id: String, sink: u64) -> (manager: Self)
        ensures
            manager@ == ManagerView::fresh(manager_id@, sink),
    {
        let mut system = new_system();
        refresh(&mut system);
        McpManager { manager_id, sink, servers: registry_new(), system, shutdown: false }
    }

    /// The token of the event sink that the manager is bound to.
    pub fn sink(&self) -> (sink: u64)
        ensures
            sink == self@.sink,
    {
        self.sink
    }

    /// The manager's own identifier.
    pub fn manager_id(&self) -> (id: &str)
        ensures
            id@ == self@.manager_id,
    {
        self.manager_id.as_str()
    }

    /// Tells whether the manager has been shut down.
    pub fn is_shutdown(&self) -> (r: bool)
        ensures
            r == self@.shutdown,
    {
        self.shutdown
    }

    fn shutdown_error(&self) -> (e: Error)
        ensures
            e@ == self@.shutdown_error(),
    {
        Error::ManagerShutdown(join3("Manager '", self.manager_id.as_str(), "' has been shut down"))
    }

    /// Decides whether a server may be started under the id of `config`,
    /// before anything is launched.
    ///
    /// A manager that was shut down refuses with `ManagerShutdown`; an id
    /// that is already registered is refused with `DuplicateServer`. Where
    /// the start is admitted, the event that announces it is returned.
    pub fn admit_start(&self, config: &ServerConfig) -> (r: Result<Vec<McpEvent>, Error>)
        ensures
            is_start_admission(r, self@, config.id@),
    {
        let id = config.id.as_str();
        if self.shutdown {
            return Err(self.shutdown_error());
        }
        if registry_contains(&self.servers, id) {
            return Err(Error::DuplicateServer(join3("Server with ID '", id, "' already exists")));
        }
        let mut events: Vec<McpEvent> = Vec::new();
        events.push(McpEvent::info(join3("Starting server '", id, "'...").as_str(), Some(id)));
        Ok(events)
    }

    /// Completes a start: registers the server that `launch` produced, or
    /// reports why there is none.
    ///
    /// The server becomes visible only here, after spawn, handshake and
    /// discovery have all succeeded. On every failure the registry is left
    /// as it was and the process that the launch spawned, if any, is handed
    /// back in `orphan` to be killed.
    pub fn start(&mut self, config: &ServerConfig, launch: LaunchOutcome) -> (report: StartReport)
        ensures
            final(self)@ == old(self)@.started(config.id@, launch),
            report.is_start_of(old(self)@, config.id@, launch),
    {
        let id = config.id.as_str();
        if self.shutdown {
            let orphan = spawned_pid(&launch);
            return StartReport { result: Err(self.shutdown_error()), events: Vec::new(), orphan };
        }
        if registry_contains(&self.servers, id) {
            let orphan = spawned_pid(&launch);
            return StartReport {
                result: Err(
                    Error::DuplicateServer(join3("Server with ID '", id, "' already exists")),
                ),
                events: Vec::new(),
                orphan,
            };
        }
        match launch {
            LaunchOutcome::SpawnFailed { message } => StartReport {
                result: Err(
                    Error::ProcessStartError(
                        join2("Failed to start server process: ", message.as_str()),
                    ),
                ),
                events: Vec::new(),
                orphan: None,
            },
            LaunchOutcome::TransportFailed { pid, message } => StartReport {
                result: Err(
                    Error::ProcessStartError(
                        join2("Failed to create MCP transport: ", message.as_str()),
                    ),
                ),
                events: Vec::new(),
                orphan: pid,
            },
            LaunchOutcome::HandshakeFailed { pid, message } => StartReport {
                result: Err(
                    Error::CommunicationError(
                        join2("Failed to initialize MCP service: ", message.as_str()),
                    ),
                ),
                events: Vec::new(),
                orphan: pid,
            },
            LaunchOutcome::DiscoveryFailed { pid, message } => StartReport {
                result: Err(
                    Error::CommunicationError(join2("Failed to list tools: ", message.as_str())),
                ),
                events: Vec::new(),
                orphan: pid,
            },
            LaunchOutcome::Discovered { pid: None, tools } => StartReport {
                result: Err(Error::ProcessStartError(String::from_str("Failed to get process ID"))),
                events: Vec::new(),
                orphan: None,
            },
            LaunchOutcome::Discovered { pid: Some(pid), tools } => {
                let catalog = tag_tools(id, tools);
                let announced = catalog.clone();
                registry_insert(&mut self.servers, config.id.clone(), Server { pid, tools: catalog });
                let mut events: Vec<McpEvent> = Vec::new();
                events.push(McpEvent::server_started(id));
                events.push(McpEvent::tools_updated(announced));
                events.push(
                    McpEvent::info(join3("Server '", id, "' started successfully").as_str(), Some(id)),
                );
                StartReport { result: Ok(()), events, orphan: None }
            },
        }
    }

    /// Takes the server `server_id` out of the registry, if it is there.
    fn detach(&mut self, server_id: &str) -> (r: Option<Detached>)
        ensures
            final(self)@ == old(self)@.without(server_id@),
            r is Some <==> old(self)@.servers.dom().contains(server_id@),
            r matches Some(d) ==> d.is_for(old(self)@.servers, server_id@),
    {
        match registry_remove(&mut self.servers, server_id) {
            Some(server) => Some(Detached { server_id: String::from_str(server_id), pid: server.pid }),
            None => None,
        }
    }

    /// Begins the stop of a server: takes it out of the registry.
    ///
    /// From here on the server is unknown to every other operation; its
    /// teardown is completed by [`McpManager::finish_stop`] once the caller
    /// has tried to cancel the server's session.
    pub fn stop(&mut self, server_id: &str) -> (report: Report<Detached>)
        ensures
            final(self)@ == old(self)@.stopped(server_id@),
            report.opens_stop_of(old(self)@, server_id@),
    {
        if self.shutdown {
            return Report { result: Err(self.shutdown_error()), events: Vec::new() };
        }
        match self.detach(server_id) {
            Some(detached) => {
                let mut events: Vec<McpEvent> = Vec::new();
                events.push(
                    McpEvent::info(
                        join3("Stopping server '", server_id, "'...").as_str(),
                        Some(server_id),
                    ),
                );
                Report { result: Ok(detached), events }
            },
            None => {
                proof {
                    assert(final(self)@.servers =~= old(self)@.servers);
                }
                Report {
                    result: Err(
                        Error::ServerNotFound(
                            join3("Server with ID '", server_id, "' not found"),
                        ),
                    ),
                    events: Vec::new(),
                }
            },
        }
    }

    /// Completes the stop of a detached server: kills its process tree and
    /// says what to announce.
    ///
    /// `cancel_error` is what came of cancelling the server's session:
    /// `None` where it was cancelled, else the reason why not.
    pub fn finish_stop(&mut self, detached: Detached, cancel_error: Option<String>) -> (report:
        StopReport)
        ensures
            final(self)@ == old(self)@,
            report.is_termination_of(final(self).processes(), detached.pid),
            report.is_stop_of(detached.server_id@, text_of(cancel_error)),
    {
        teardown(&mut self.system, detached, cancel_error)
    }

    /// Shuts the manager down and begins the sweep over its servers.
    ///
    /// The flag is set first, so that no server can be registered any more;
    /// then the ids of the registered servers are listed. The sweep itself
    /// is carried out by calling [`McpManager::sweep_next`] until it yields
    /// nothing more.
    pub fn stop_all(&mut self) -> (sweep: ShutdownSweep)
        ensures
            final(self)@ == old(self)@.shut_down(),
            is_listing(sweep.pending(), old(self)@.servers),
    {
        self.shutdown = true;
        ShutdownSweep { remaining: registry_ids(&self.servers) }
    }

    /// Turns to the next server of a shutdown sweep and takes it out of the
    /// registry.
    ///
    /// Yields nothing once the sweep has handled every id. A server that is
    /// no longer registered is reported by an error event and the sweep
    /// goes on.
    pub fn sweep_next(&mut self, sweep: &mut ShutdownSweep) -> (step: Option<SweepStep>)
        ensures
            is_sweep_step(
                step,
                old(self)@,
                final(self)@,
                old(sweep).pending(),
                final(sweep).pending(),
            ),
    {
        let ghost before = sweep.pending();
        match sweep.remaining.pop() {
            None => None,
            Some(server_id) => {
                proof {
                    assert(sweep.pending() =~= before.drop_last());
                    assert(server_id@ == before.last());
                }
                let id = server_id.as_str();
                let detached = self.detach(id);
                let mut events: Vec<McpEvent> = Vec::new();
                match &detached {
                    Some(_) => {
                        events.push(
                            McpEvent::info(join3("Stopping server '", id, "'...").as_str(), Some(id)),
                        );
                    },
                    None => {
                        let missing = Error::ServerNotFound(
                            join3("Server with ID '", id, "' not found"),
                        );
                        events.push(sweep_failure_event(id, &missing));
                    },
                }
                proof {
                    assert(events.deep_view() =~= old(self)@.sweep_events(server_id@));
                }
                Some(SweepStep { server_id, detached, events })
            },
        }
    }

    /// Completes one teardown of a shutdown sweep.
    ///
    /// Does what [`McpManager::finish_stop`] does, except that a teardown
    /// that fails is reported by an error event instead of an error, so
    /// that the sweep goes on to the remaining servers.
    pub fn sweep_finish(&mut self, detached: Detached, cancel_error: Option<String>) -> (report:
        StopReport)
        ensures
            final(self)@ == old(self)@,
            report.is_termination_of(final(self).processes(), detached.pid),
            report.is_sweep_stop_of(detached.server_id@, text_of(cancel_error)),
    {
        sweep_teardown(&mut self.system, detached, cancel_error)
    }

    /// Shuts the manager down and stops every server, in one go.
    ///
    /// The sweep is the one that [`McpManager::stop_all`] begins, carried
    /// to its end without a session being cancelled in between: each server
    /// is taken out of the registry and its process tree is taken down. A
    /// teardown that fails is reported by its events and the sweep goes on;
    /// the sweep itself never fails.
    pub fn stop_all_servers(&mut self) -> (stops: Vec<ServerStop>)
        ensures
            final(self)@ == old(self)@.swept_clean(),
            is_sweep_of(stops@, old(self)@),
    {
        let mut sweep = self.stop_all();
        let ghost before = old(self)@;
        let ghost listed = sweep.pending();
        let ghost n = listed.len() as int;
        let mut stops: Vec<ServerStop> = Vec::new();
        while sweep.remaining.len() > 0
            invariant
                is_listing(listed, before.servers),
                n == listed.len(),
                sweep.remaining.len() == n - stops.len(),
                sweep.pending() == listed.take(n - stops.len()),
                self@.manager_id == before.manager_id,
                self@.sink == before.sink,
                self@.shutdown,
                forall|id: Seq<char>|
                    self@.servers.dom().contains(id) <==> sweep.pending().contains(id),
                forall|id: Seq<char>| #[trigger]
                    self@.servers.dom().contains(id) ==> self@.servers[id] == before.servers[id],
                forall|i: int|
                    0 <= i < stops.len() ==> (#[trigger] stops[i]).server_id@ == listed[n - 1 - i],
                forall|i: int| 0 <= i < stops.len() ==> (#[trigger] stops[i]).is_stop_within(before),
            decreases sweep.remaining.len(),
        {
            let ghost pending = sweep.pending();
            let ghost during = self@;
            let ghost done = stops@;
            proof {
                assert(pending.last() == listed[n - 1 - stops.len()]);
                assert(pending.contains(pending.last()));
                assert(listed.contains(listed[n - 1 - stops.len()]));
            }
            let step = self.sweep_next(&mut sweep);
            let SweepStep { server_id, detached, events: opening } = match step {
                Some(step) => step,
                None => {
                    proof {
                        assert(false);
                    }
                    return stops;
                },
            };
            let detached = match detached {
                Some(detached) => detached,
                None => {
                    proof {
                        assert(false);
                    }
                    return stops;
                },
            };
            let ghost pid = detached.pid;
            let finished = self.sweep_finish(detached, None);
            let ghost processes = self.processes();
            let StopReport { descendants, root, result, events: mut closing } = finished;
            let ghost teardown = closing.deep_view();
            let mut events = opening;
            let ghost opened = events.deep_view();
            events.append(&mut closing);
            let stop = ServerStop { server_id, report: StopReport { descendants, root, result, events } };
            proof {
                let id = pending.last();
                assert(stop.server_id@ == id);
                assert(during.servers.dom().contains(id));
                assert(during.servers[id] == before.servers[id]);
                assert(before.servers.dom().contains(id));
                assert(pid == before.servers[id].pid);
                assert(stop.report.is_termination_of(processes, pid));
                assert(during.sweep_events(id) == before.sweep_events(id));
                let torn = teardown_events(id, None, stop.report.descendants@, stop.report.root.outcome);
                let failed = sweep_failures(id, teardown_failure(stop.report.root));
                assert(teardown == torn + failed);
                assert(stop.report.events.deep_view() =~= opened + teardown);
                assert(opened + (torn + failed) =~= (opened + torn) + failed);
                assert(stop.is_stop_within(before));
                assert(sweep.pending() =~= listed.take(n - stops.len() - 1));
                assert forall|other: Seq<char>|
                    self@.servers.dom().contains(other) <==> sweep.pending().contains(other) by {
                    if pending.contains(other) && other != id {
                        let k = choose|k: int| 0 <= k < pending.len() && pending[k] == other;
                        assert(sweep.pending()[k] == other);
                    }
                    if sweep.pending().contains(other) {
                        let k = choose|k: int|
                            0 <= k < sweep.pending().len() && sweep.pending()[k] == other;
                        assert(pending[k] == other);
                        assert(listed[k] == other);
                    }
                }
            }
            stops.push(stop);
            proof {
                assert forall|i: int| 0 <= i < stops.len() implies (#[trigger] stops[i]).server_id@
                    == listed[n - 1 - i] && stops[i].is_stop_within(before) by {
                    if i < done.len() {
                        assert(stops[i] == done[i]);
                    }
                }
            }
        }
        proof {
            assert(sweep.pending().len() == sweep.remaining@.len());
            assert forall|id: Seq<char>| !self@.servers.dom().contains(id) by {
                assert(!sweep.pending().contains(id));
            }
            assert(self@.servers =~= Map::empty());
            assert(stops.len() == n);
            let ids = stopped_ids(stops@);
            assert forall|id: Seq<char>| ids.contains(id) <==> before.servers.dom().contains(id) by {
                if ids.contains(id) {
                    let i = choose|i: int| 0 <= i < ids.len() && ids[i] == id;
                    assert(stops[i].is_stop_within(before));
                }
                if before.servers.dom().contains(id) {
                    assert(listed.contains(id));
                    let k = choose|k: int| 0 <= k < listed.len() && listed[k] == id;
                    assert(ids[n - 1 - k] == id);
                }
            }
            assert forall|i: int, j: int| 0 <= i < ids.len() && 0 <= j < ids.len() && i
                != j implies ids[i] != ids[j] by {
                assert(ids[i] == listed[n - 1 - i]);
                assert(ids[j] == listed[n - 1 - j]);
            }
        }
        stops
    }

    /// Lists the tools of every registered server, from the cached
    /// catalogs.
    ///
    /// The catalogs come one after the other, each in the order of its
    /// discovery; the order among the servers is not fixed.
    pub fn get_tools(&self) -> (tools: Vec<ToolInfo>)
        ensures
            is_tool_listing(tools.deep_view(), self@),
    {
        let ids = registry_ids(&self.servers);
        let ghost servers = self@.servers;
        let ghost order = ids.deep_view();
        let mut tools: Vec<ToolInfo> = Vec::new();
        let mut i: usize = 0;
        while i < ids.len()
            invariant
                i <= ids.len(),
                order == ids.deep_view(),
                servers == registry_entries(self.servers),
                is_listing(order, servers),
                tools.deep_view() == catalogs(servers, order.take(i as int)),
            decreases ids.len() - i,
        {
            proof {
                assert(order.take(i + 1).drop_last() =~= order.take(i as int));
                assert(order.contains(order[i as int]));
            }
            match registry_get(&self.servers, ids[i].as_str()) {
                Some(server) => {
                    let mut catalog = server.tools;
                    tools.append(&mut catalog);
                },
                None => {
                    proof {
                        assert(false);
                    }
                },
            }
            i = i + 1;
        }
        proof {
            assert(order.take(i as int) =~= order);
        }
        tools
    }

    /// Decides on a tool call, given what reading the request's input as
    /// JSON gave.
    ///
    /// A manager that was shut down, an unknown server and a tool that the
    /// server's catalog does not hold are refused in this order, without a
    /// look at the input. Input that is not JSON is refused after the
    /// execution has been announced. An admitted call comes back as the
    /// plan of what to ask of the worker.
    pub fn admit_call(&self, request: &ToolExecutionRequest, parsed: Result<JsonValue, String>)
        -> (report: Report<CallPlan>)
        ensures
            report.answers(self@, *request, reading_of(parsed)),
    {
        let server_id = request.server_id.as_str();
        let tool_name = request.tool_name.as_str();
        if self.shutdown {
            return Report { result: Err(self.shutdown_error()), events: Vec::new() };
        }
        let server = match registry_get(&self.servers, server_id) {
            Some(server) => server,
            None => {
                return Report {
                    result: Err(
                        Error::ServerNotFound(join3("Server with ID '", server_id, "' not found")),
                    ),
                    events: Vec::new(),
                };
            },
        };
        if !find_tool(&server.tools, &request.tool_name) {
            return Report {
                result: Err(
                    Error::ToolNotFound(
                        join5("Tool '", tool_name, "' not found on server '", server_id, "'"),
                    ),
                ),
                events: Vec::new(),
            };
        }
        let mut events: Vec<McpEvent> = Vec::new();
        events.push(
            McpEvent::info(
                join5("Executing tool '", tool_name, "' on server '", server_id, "'...").as_str(),
                Some(server_id),
            ),
        );
        let result = match parsed {
            Ok(document) => Ok(
                CallPlan {
                    server_id: request.server_id.clone(),
                    tool_name: request.tool_name.clone(),
                    arguments: members(&document),
                },
            ),
            Err(reason) => Err(
                Error::ToolExecutionError(join2("Failed to parse tool inputs: ", reason.as_str())),
            ),
        };
        Report { result, events }
    }

    /// Decides on a tool call: reads the request's input as JSON and
    /// answers as [`McpManager::admit_call`] does.
    ///
    /// No worker is contacted here. Where the call is admitted, the caller
    /// makes it and hands its outcome to
    /// [`conclude_call`](crate::calls::conclude_call).
    pub fn execute_tool(&self, request: &ToolExecutionRequest) -> (report: Report<CallPlan>)
        ensures
            report.decides(self@, *request),
    {
        self.admit_call(request, parse(request.inputs.as_str()))
    }
}

/// Draws the conclusion of a stop from the outcome of the session
/// cancellation and of the termination of the process tree.
///
/// A session that could not be cancelled and descendants that could not be
/// killed are reported as events only. A root that could not be killed
/// makes the stop fail, and then no closing announcement is made.
pub fn conclude_stop(
    server_id: &str,
    cancel_error: Option<String>,
    descendants: Vec<KillAttempt>,
    root: KillAttempt,
) -> (report: StopReport)
    ensures
        report.descendants == descendants,
        report.root == root,
        report.is_stop_of(server_id@, text_of(cancel_error)),
{
    let termination = conclude_termination(descendants, root, server_id);
    let TerminationReport { descendants, root, result, events: mut failures } = termination;
    let ghost failed = failures.deep_view();
    let mut events: Vec<McpEvent> = Vec::new();
    if let Some(message) = &cancel_error {
        events.push(
            McpEvent::error(
                join2("Error cancelling MCP service: ", message.as_str()).as_str(),
                Some(server_id),
            ),
        );
    }
    proof {
        assert(events.deep_view() =~= cancel_events(server_id@, text_of(cancel_error)));
    }
    let ghost opening = events.deep_view();
    events.append(&mut failures);
    proof {
        assert(events.deep_view() =~= opening + failed);
    }
    let ghost middle = events.deep_view();
    if result.is_ok() {
        events.push(McpEvent::server_stopped(server_id));
        events.push(
            McpEvent::info(
                join3("Server '", server_id, "' stopped successfully").as_str(),
                Some(server_id),
            ),
        );
    }
    proof {
        assert(events.deep_view() =~= middle + closing_events(server_id@, root.outcome));
    }
    StopReport { descendants, root, result, events }
}

/// Completes the stop of a detached server: kills its process tree, as the
/// given handle on the process table shows it, and says what to announce.
pub fn teardown(system: &mut System, detached: Detached, cancel_error: Option<String>) -> (report:
    StopReport)
    ensures
        report.is_termination_of(process_map(*final(system)), detached.pid),
        report.is_stop_of(detached.server_id@, text_of(cancel_error)),
{
    let server_id = detached.server_id.as_str();
    let attempts = attempt_termination(system, detached.pid);
    conclude_stop(server_id, cancel_error, attempts.descendants, attempts.root)
}

/// Completes one teardown of a shutdown sweep, with the given handle on
/// the process table: the teardown of [`teardown`], its failure turned
/// into an error event.
pub fn sweep_teardown(system: &mut System, detached: Detached, cancel_error: Option<String>) -> (report:
    StopReport)
    ensures
        report.is_termination_of(process_map(*final(system)), detached.pid),
        report.is_sweep_stop_of(detached.server_id@, text_of(cancel_error)),
{
    let server_id = detached.server_id.clone();
    let id = server_id.as_str();
    let StopReport { descendants, root, result, mut events } = teardown(
        system,
        detached,
        cancel_error,
    );
    let ghost torn = events.deep_view();
    if let Err(e) = &result {
        events.push(sweep_failure_event(id, e));
    }
    proof {
        assert(events.deep_view() =~= torn + sweep_failures(id@, teardown_failure(root)));
    }
    StopReport { descendants, root, result: Ok(()), events }
}

/// Creates the event that reports a server that a shutdown sweep could not
/// stop.
pub fn sweep_failure_event(server_id: &str, e: &Error) -> (event: McpEvent)
    ensures
        event@ == sweep_failure(server_id@, e@),
{
    let message = join2(
        join3("Failed to stop server '", server_id, "': ").as_str(),
        e.message().as_str(),
    );
    McpEvent::error(message.as_str(), Some(server_id))
}

/// Tells whether the catalog offers a tool of the given name.
fn find_tool(catalog: &Vec<ToolInfo>, tool_name: &String) -> (r: bool)
    ensures
        r == offers(catalog.deep_view(), tool_name@),
{
    let mut i: usize = 0;
    while i < catalog.len()
        invariant
            i <= catalog.len(),
            forall|k: int| 0 <= k < i ==> (#[trigger] catalog.deep_view()[k]).tool_name != tool_name@,
        decreases catalog.len() - i,
    {
        if catalog[i].tool_name == *tool_name {
            assert(catalog.deep_view()[i as int].tool_name == tool_name@);
            return true;
        }
        i = i + 1;
    }
    false
}

} // verus!
