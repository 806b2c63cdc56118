//! Handles: the operations of a manager, reached through the workspace by
//! the manager's id.

use vstd::prelude::*;
use crate::calls::CallPlan;
use crate::error::Error;
use crate::json::text_of;
use crate::manager::{
    failure_of, is_start_admission, is_sweep_step, is_tool_listing, spawned_pid, sweep_teardown,
    teardown, Detached, LaunchOutcome, Report, ShutdownSweep, StartReport, StopReport, SweepStep,
};
use crate::registry::is_listing;
use crate::models::{McpEvent, ServerConfig, ToolExecutionRequest, ToolInfo};
use crate::terminator::new_system;
use crate::workspace::{manager_not_found, McpWorkspace, WorkspaceView};

verus! {

/// The handle of one manager: its id, by which every operation finds the
/// manager in the workspace.
#[derive(Debug)]
pub struct McpManagerWrapper {
    manager_id: String,
}

impl View for McpManagerWrapper {
    type V = Seq<char>;

    closed spec fn view(&self) -> Seq<char> {
        self.manager_id@
    }
}

impl Clone for McpManagerWrapper {
    fn clone(&self) -> (handle: Self)
        ensures
            handle@ == self@,
    {
        McpManagerWrapper { manager_id: self.manager_id.clone() }
    }
}

impl McpManagerWrapper {
    /// Makes the handle for the id, whether or not a manager is kept under
    /// it.
    pub(crate) fn attach(manager_id: &str) -> (handle: Self)
        ensures
            handle@ == manager_id@,
    {
        McpManagerWrapper { manager_id: String::from_str(manager_id) }
    }

    /// Returns the handle of the manager kept under `manager_id`, creating
    /// the manager first, bound to `sink`, where there is none.
    pub fn new(workspace: &mut McpWorkspace, manager_id: String, sink: u64) -> (handle: Self)
        ensures
            final(workspace)@ == old(workspace)@.with_manager(manager_id@, sink),
            handle@ == manager_id@,
    {
        workspace.get_or_create_manager(manager_id.as_str(), sink)
    }

    /// The token of the event sink that the manager is bound to. Fails with
    /// `ManagerNotFound` where the manager is gone.
    pub fn sink(&self, workspace: &mut McpWorkspace) -> (r: Result<u64, Error>)
        ensures
            final(workspace)@ == old(workspace)@,
            !old(workspace)@.has(self@) ==> failure_of(r) == Some(
                WorkspaceView::manager_not_found(self@),
            ),
            old(workspace)@.has(self@) ==> r == Ok::<u64, Error>(
                old(workspace)@.managers[self@].sink,
            ),
    {
        let id = self.manager_id.as_str();
        match workspace.take(id) {
            Some(manager) => {
                let sink = manager.sink();
                workspace.put(id, manager);
                proof {
                    assert(final(workspace)@.managers =~= old(workspace)@.managers);
                }
                Ok(sink)
            },
            None => {
                proof {
                    assert(final(workspace)@.managers =~= old(workspace)@.managers);
                }
                Err(manager_not_found(id))
            },
        }
    }

    /// The id of the manager that the handle stands for.
    pub fn get_manager_id(&self) -> (id: String)
        ensures
            id@ == self@,
    {
        self.manager_id.clone()
    }
}

impl McpManagerWrapper {
    /// Asks the manager whether a server may be started under the id of
    /// `config`. Fails with `ManagerNotFound` where the manager is gone.
    pub fn admit_start(&self, workspace: &mut McpWorkspace, config: &ServerConfig) -> (r: Result<
        Vec<McpEvent>,
        Error,
    >)
        ensures
            final(workspace)@ == old(workspace)@,
            !old(workspace)@.has(self@) ==> failure_of(r) == Some(
                WorkspaceView::manager_not_found(self@),
            ),
            old(workspace)@.has(self@) ==> is_start_admission(
                r,
                old(workspace)@.managers[self@],
                config.id@,
            ),
    {
        let id = self.manager_id.as_str();
        match workspace.take(id) {
            Some(manager) => {
                let r = manager.admit_start(config);
                workspace.put(id, manager);
                proof {
                    assert(final(workspace)@.managers =~= old(workspace)@.managers);
                }
                r
            },
            None => {
                proof {
                    assert(final(workspace)@.managers =~= old(workspace)@.managers);
                }
                Err(manager_not_found(id))
            },
        }
    }

    /// Completes a start on the manager. Where the manager is gone, the
    /// start fails with `ManagerNotFound` and the process that the launch
    /// spawned is handed back to be killed.
    pub fn start(&self, workspace: &mut McpWorkspace, config: &ServerConfig, launch: LaunchOutcome)
        -> (report: StartReport)
        ensures
            !old(workspace)@.has(self@) ==> {
                &&& final(workspace)@ == old(workspace)@
                &&& failure_of(report.result) == Some(WorkspaceView::manager_not_found(self@))
                &&& report.events.deep_view() =~= Seq::empty()
                &&& report.orphan == launch.spawned()
            },
            old(workspace)@.has(self@) ==> {
                let before = old(workspace)@.managers[self@];
                &&& final(workspace)@ == old(workspace)@.with(
                    self@,
                    before.started(config.id@, launch),
                )
                &&& report.is_start_of(before, config.id@, launch)
            },
    {
        let id = self.manager_id.as_str();
        match workspace.take(id) {
            Some(manager) => {
                let mut manager = manager;
                let report = manager.start(config, launch);
                workspace.put(id, manager);
                proof {
                    assert(final(workspace)@.managers =~= old(workspace)@.with(
                        self@,
                        old(workspace)@.managers[self@].started(config.id@, launch),
                    ).managers);
                }
                report
            },
            None => {
                proof {
                    assert(final(workspace)@.managers =~= old(workspace)@.managers);
                }
                StartReport {
                    result: Err(manager_not_found(id)),
                    events: Vec::new(),
                    orphan: spawned_pid(&launch),
                }
            },
        }
    }

    /// Begins the stop of a server of the manager. Fails with
    /// `ManagerNotFound` where the manager is gone.
    pub fn stop(&self, workspace: &mut McpWorkspace, server_id: &str) -> (report: Report<Detached>)
        ensures
            !old(workspace)@.has(self@) ==> {
                &&& final(workspace)@ == old(workspace)@
                &&& failure_of(report.result) == Some(WorkspaceView::manager_not_found(self@))
                &&& report.events.deep_view() =~= Seq::empty()
            },
            old(workspace)@.has(self@) ==> {
                let before = old(workspace)@.managers[self@];
                &&& final(workspace)@ == old(workspace)@.with(self@, before.stopped(server_id@))
                &&& report.opens_stop_of(before, server_id@)
            },
    {
        let id = self.manager_id.as_str();
        match workspace.take(id) {
            Some(manager) => {
                let mut manager = manager;
                let report = manager.stop(server_id);
                workspace.put(id, manager);
                proof {
                    assert(final(workspace)@.managers =~= old(workspace)@.with(
                        self@,
                        old(workspace)@.managers[self@].stopped(server_id@),
                    ).managers);
                }
                report
            },
            None => {
                proof {
                    assert(final(workspace)@.managers =~= old(workspace)@.managers);
                }
                Report { result: Err(manager_not_found(id)), events: Vec::new() }
            },
        }
    }

    /// Completes the stop of a detached server. The process tree is taken
    /// down whether or not the manager is still there.
    pub fn finish_stop(
        &self,
        workspace: &mut McpWorkspace,
        detached: Detached,
        cancel_error: Option<String>,
    ) -> (report: StopReport)
        ensures
            final(workspace)@ == old(workspace)@,
            report.takes_down(detached.pid),
            report.is_stop_of(detached.server_id@, text_of(cancel_error)),
    {
        let id = self.manager_id.as_str();
        match workspace.take(id) {
            Some(manager) => {
                let mut manager = manager;
                let report = manager.finish_stop(detached, cancel_error);
                workspace.put(id, manager);
                proof {
                    assert(final(workspace)@.managers =~= old(workspace)@.managers);
                }
                report
            },
            None => {
                proof {
                    assert(final(workspace)@.managers =~= old(workspace)@.managers);
                }
                let mut system = new_system();
                teardown(&mut system, detached, cancel_error)
            },
        }
    }

    /// Lists the tools of the manager's servers. Fails with
    /// `ManagerNotFound` where the manager is gone.
    pub fn get_tools(&self, workspace: &mut McpWorkspace) -> (r: Result<Vec<ToolInfo>, Error>)
        ensures
            final(workspace)@ == old(workspace)@,
            !old(workspace)@.has(self@) ==> failure_of(r) == Some(
                WorkspaceView::manager_not_found(self@),
            ),
            old(workspace)@.has(self@) ==> (r matches Ok(tools) && is_tool_listing(
                tools.deep_view(),
                old(workspace)@.managers[self@],
            )),
    {
        let id = self.manager_id.as_str();
        match workspace.take(id) {
            Some(manager) => {
                let tools = manager.get_tools();
                workspace.put(id, manager);
                proof {
                    assert(final(workspace)@.managers =~= old(workspace)@.managers);
                }
                Ok(tools)
            },
            None => {
                proof {
                    assert(final(workspace)@.managers =~= old(workspace)@.managers);
                }
                Err(manager_not_found(id))
            },
        }
    }

    /// Asks the manager to decide on a tool call. Fails with
    /// `ManagerNotFound` where the manager is gone.
    pub fn execute_tool(&self, workspace: &mut McpWorkspace, request: &ToolExecutionRequest) -> (report:
        Report<CallPlan>)
        ensures
            final(workspace)@ == old(workspace)@,
            !old(workspace)@.has(self@) ==> {
                &&& failure_of(report.result) == Some(WorkspaceView::manager_not_found(self@))
                &&& report.events.deep_view() =~= Seq::empty()
            },
            old(workspace)@.has(self@) ==> report.decides(
                old(workspace)@.managers[self@],
                *request,
            ),
    {
        let id = self.manager_id.as_str();
        match workspace.take(id) {
            Some(manager) => {
                let report = manager.execute_tool(request);
                workspace.put(id, manager);
                proof {
                    assert(final(workspace)@.managers =~= old(workspace)@.managers);
                }
                report
            },
            None => {
                proof {
                    assert(final(workspace)@.managers =~= old(workspace)@.managers);
                }
                Report { result: Err(manager_not_found(id)), events: Vec::new() }
            },
        }
    }
}

impl McpManagerWrapper {
    /// Shuts the manager down and begins the sweep over its servers. Fails
    /// with `ManagerNotFound` where the manager is gone.
    pub fn stop_all(&self, workspace: &mut McpWorkspace) -> (r: Result<ShutdownSweep, Error>)
        ensures
            !old(workspace)@.has(self@) ==> {
                &&& final(workspace)@ == old(workspace)@
                &&& failure_of(r) == Some(WorkspaceView::manager_not_found(self@))
            },
            old(workspace)@.has(self@) ==> {
                let before = old(workspace)@.managers[self@];
                &&& final(workspace)@ == old(workspace)@.with(self@, before.shut_down())
                &&& r matches Ok(sweep) && is_listing(sweep.pending(), before.servers)
            },
    {
        let id = self.manager_id.as_str();
        match workspace.take(id) {
            Some(manager) => {
                let mut manager = manager;
                let sweep = manager.stop_all();
                workspace.put(id, manager);
                proof {
                    assert(final(workspace)@.managers =~= old(workspace)@.with(
                        self@,
                        old(workspace)@.managers[self@].shut_down(),
                    ).managers);
                }
                Ok(sweep)
            },
            None => {
                proof {
                    assert(final(workspace)@.managers =~= old(workspace)@.managers);
                }
                Err(manager_not_found(id))
            },
        }
    }

    /// Turns to the next server of a shutdown sweep. Where the manager is
    /// gone there is nothing left to sweep.
    pub fn sweep_next(&self, workspace: &mut McpWorkspace, sweep: &mut ShutdownSweep) -> (step:
        Option<SweepStep>)
        ensures
            !old(workspace)@.has(self@) ==> {
                &&& step is None
                &&& final(workspace)@ == old(workspace)@
                &&& final(sweep).pending() == old(sweep).pending()
            },
            old(workspace)@.has(self@) ==> {
                &&& final(workspace)@.has(self@)
                &&& forall|other: Seq<char>|
                    other != self@ ==> final(workspace)@.has(other) == old(workspace)@.has(other)
                        && final(workspace)@.managers[other] == old(workspace)@.managers[other]
                &&& is_sweep_step(
                    step,
                    old(workspace)@.managers[self@],
                    final(workspace)@.managers[self@],
                    old(sweep).pending(),
                    final(sweep).pending(),
                )
            },
    {
        let id = self.manager_id.as_str();
        match workspace.take(id) {
            Some(manager) => {
                let mut manager = manager;
                let step = manager.sweep_next(sweep);
                workspace.put(id, manager);
                step
            },
            None => {
                proof {
                    assert(final(workspace)@.managers =~= old(workspace)@.managers);
                }
                None
            },
        }
    }

    /// Completes one teardown of a shutdown sweep. The process tree is
    /// taken down whether or not the manager is still there.
    pub fn sweep_finish(
        &self,
        workspace: &mut McpWorkspace,
        detached: Detached,
        cancel_error: Option<String>,
    ) -> (report: StopReport)
        ensures
            final(workspace)@ == old(workspace)@,
            report.takes_down(detached.pid),
            report.is_sweep_stop_of(detached.server_id@, text_of(cancel_error)),
    {
        let id = self.manager_id.as_str();
        match workspace.take(id) {
            Some(manager) => {
                let mut manager = manager;
                let report = manager.sweep_finish(detached, cancel_error);
                workspace.put(id, manager);
                proof {
                    assert(final(workspace)@.managers =~= old(workspace)@.managers);
                }
                report
            },
            None => {
                proof {
                    assert(final(workspace)@.managers =~= old(workspace)@.managers);
                }
                let mut system = new_system();
                sweep_teardown(&mut system, detached, cancel_error)
            },
        }
    }
}

} // verus!
