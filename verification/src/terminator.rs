//! Termination of a whole process tree: one snapshot of the process table,
//! the descendants deepest first, the root last.

use vstd::prelude::*;
use sysinfo::{Pid, System};
use crate::error::Error;
use crate::models::{McpEvent, McpEventView};
use crate::process_tree::{
    is_listed, is_termination_order, lemma_descendant_listed, termination_order, ProcessEntry,
};
use crate::text::{decimal, decimal_text, join2};

verus! {

/// `sysinfo::System`, a handle on the operating system's process table.
/// Opaque: nothing is claimed of what it holds.
#[verifier::external_type_specification]
#[verifier::external_body]
pub struct ExSystem(sysinfo::System);

/// The processes that the handle holds since it was last refreshed: for
/// each process identifier, the identifier of the parent that the process
/// reports, if any.
pub uninterp spec fn process_map(system: System) -> Map<u32, Option<u32>>;

/// `table` lists `processes`: every row is a process of the map with its
/// parent, every process of the map has a row, and no process has two.
pub open spec fn is_snapshot_of(table: Seq<ProcessEntry>, processes: Map<u32, Option<u32>>) -> bool {
    &&& forall|j: int|
        0 <= j < table.len() ==> processes.dom().contains((#[trigger] table[j]).pid)
            && processes[table[j].pid] == table[j].parent
    &&& forall|i: int, j: int|
        0 <= i < table.len() && 0 <= j < table.len() && i != j ==> (#[trigger] table[i]).pid != (
        #[trigger] table[j]).pid
    &&& forall|pid: u32| processes.dom().contains(pid) ==> #[trigger] is_listed(table, pid)
}

/// `sysinfo::System::new`. Trusted; nothing is claimed of the handle, which
/// starts with no process loaded.
#[verifier::external_body]
pub(crate) fn new_system() -> System {
    System::new()
}

/// `sysinfo::System::refresh_all`. Trusted; nothing is claimed of what the
/// operating system reports.
#[verifier::external_body]
pub(crate) fn refresh(system: &mut System) {
    system.refresh_all();
}

/// `sysinfo::System::processes`, each entry reduced to the identifier it
/// is kept under and that of its parent (`Process::parent`). Trusted: the
/// rows list the handle's process map, each process once, in whatever
/// order the map is walked.
#[verifier::external_body]
pub(crate) fn process_table(system: &System) -> (table: Vec<ProcessEntry>)
    ensures
        is_snapshot_of(table@, process_map(*system)),
{
    system.processes().iter().map(
        |(pid, p)| ProcessEntry { pid: pid.as_u32(), parent: p.parent().map(|q| q.as_u32()) },
    ).collect()
}

/// `sysinfo::System::process` followed by `Process::kill`. Trusted: the
/// outcome is `None` exactly for a process that the handle's process map
/// does not hold; for one that it holds, the outcome is `Some(sent)`, of
/// which nothing is claimed: whether the kill signal could be sent.
#[verifier::external_body]
pub(crate) fn send_kill(system: &System, pid: u32) -> (outcome: Option<bool>)
    ensures
        outcome is Some <==> process_map(*system).dom().contains(pid),
{
    system.process(Pid::from_u32(pid)).map(|p| p.kill())
}

/// What came of asking the operating system to kill one process.
#[derive(Clone, Copy, Debug, PartialEq, Eq)]
pub struct KillAttempt {
    /// The process that was to be killed.
    pub pid: u32,
    /// `None` where the process table did not hold the process, else
    /// whether the signal could be sent.
    pub outcome: Option<bool>,
}

/// The event that reports a descendant that could not be killed.
pub open spec fn child_failure(pid: u32, server_id: Seq<char>) -> McpEventView {
    McpEventView::error(
        "Failed to kill child process: "@ + decimal_text(pid as nat),
        Some(server_id),
    )
}

/// The events owed for the attempts on descendants: one for each that
/// could not be killed, in the order of the attempts.
pub open spec fn child_failures(attempts: Seq<KillAttempt>, server_id: Seq<char>) -> Seq<
    McpEventView,
>
    decreases attempts.len(),
{
    if attempts.len() == 0 {
        Seq::empty()
    } else {
        let earlier = child_failures(attempts.drop_last(), server_id);
        if attempts.last().outcome == Some(false) {
            earlier.push(child_failure(attempts.last().pid, server_id))
        } else {
            earlier
        }
    }
}

/// The outcome of taking a process tree down.
#[derive(Debug)]
pub struct TerminationReport {
    /// The attempts on the descendants, in the order they were made.
    pub descendants: Vec<KillAttempt>,
    /// The attempt on the root, made last.
    pub root: KillAttempt,
    /// `Err` exactly where the root could not be killed.
    pub result: Result<(), Error>,
    /// One error event for each descendant that could not be killed.
    pub events: Vec<McpEvent>,
}

/// The processes on which a kill was attempted, in order.
pub open spec fn attempted_pids(descendants: Seq<KillAttempt>, root: KillAttempt) -> Seq<u32> {
    descendants.map_values(|a: KillAttempt| a.pid).push(root.pid)
}

/// The attempts are those of taking down the tree rooted at `root` among
/// `processes`: the kills went, in a termination order of the tree, to the
/// descendants that the process map holds and then to `root`; every
/// descendant was there to be signalled, and `root` was if the map holds it.
pub open spec fn is_termination_of(
    processes: Map<u32, Option<u32>>,
    root: u32,
    descendants: Seq<KillAttempt>,
    last: KillAttempt,
) -> bool {
    &&& last.pid == root
    &&& last.outcome is Some <==> processes.dom().contains(root)
    &&& forall|i: int| 0 <= i < descendants.len() ==> (#[trigger] descendants[i]).outcome is Some
    &&& exists|table: Seq<ProcessEntry>|
        is_snapshot_of(table, processes) && is_termination_order(
            table,
            root,
            attempted_pids(descendants, last),
        )
}

/// The kill attempts made on one process tree.
#[derive(Debug)]
pub struct KillAttempts {
    /// The attempts on the descendants, in the order they were made.
    pub descendants: Vec<KillAttempt>,
    /// The attempt on the root, made last.
    pub root: KillAttempt,
}

impl KillAttempts {
    /// The processes on which a kill was attempted, in order.
    pub open spec fn attempted(self) -> Seq<u32> {
        attempted_pids(self.descendants@, self.root)
    }
}

impl TerminationReport {
    /// The processes on which a kill was attempted, in order.
    pub open spec fn attempted(self) -> Seq<u32> {
        attempted_pids(self.descendants@, self.root)
    }

    /// Result and events say what the attempts call for: a root that could
    /// not be killed is a hard error, a descendant that could not be killed
    /// is an error event, and a process that the table did not hold is
    /// neither.
    pub open spec fn follows_attempts(self, server_id: Seq<char>) -> bool {
        &&& self.result is Err <==> self.root.outcome == Some(false)
        &&& self.result matches Err(e) ==> e is ProcessStopError && e.detail()
            == "Failed to kill process: "@ + decimal_text(self.root.pid as nat)
        &&& self.events.deep_view() == child_failures(self.descendants@, server_id)
    }
}

/// Draws the conclusion from the kill attempts on a process tree.
pub fn conclude_termination(descendants: Vec<KillAttempt>, root: KillAttempt, server_id: &str) -> (report:
    TerminationReport)
    ensures
        report.descendants == descendants,
        report.root == root,
        report.follows_attempts(server_id@),
{
    let mut events: Vec<McpEvent> = Vec::new();
    let mut i: usize = 0;
    while i < descendants.len()
        invariant
            i <= descendants.len(),
            events.deep_view() == child_failures(descendants@.take(i as int), server_id@),
        decreases descendants.len() - i,
    {
        let attempt = descendants[i];
        proof {
            assert(descendants@.take(i + 1).drop_last() =~= descendants@.take(i as int));
        }
        if let Some(false) = attempt.outcome {
            let message = join2("Failed to kill child process: ", decimal(attempt.pid).as_str());
            events.push(McpEvent::error(message.as_str(), Some(server_id)));
        }
        i = i + 1;
    }
    proof {
        assert(descendants@.take(i as int) =~= descendants@);
    }
    let result = if let Some(false) = root.outcome {
        Err(
            Error::ProcessStopError(
                join2("Failed to kill process: ", decimal(root.pid).as_str()),
            ),
        )
    } else {
        Ok(())
    };
    TerminationReport { descendants, root, result, events }
}

/// Sends the kill signals for the tree rooted at `pid` and records what
/// came of each.
///
/// The process table is read once, afresh. Every descendant found there is
/// sent a kill signal before its parent is, and `pid` itself last.
pub fn attempt_termination(system: &mut System, pid: u32) -> (attempts: KillAttempts)
    ensures
        is_termination_of(process_map(*final(system)), pid, attempts.descendants@, attempts.root),
{
    refresh(system);
    let table = process_table(system);
    let order = termination_order(&table, pid);
    let ghost processes = process_map(*system);
    let n = order.len() - 1;
    let mut descendants: Vec<KillAttempt> = Vec::new();
    let mut i: usize = 0;
    while i < n
        invariant
            i <= n,
            n == order.len() - 1,
            processes == process_map(*system),
            is_snapshot_of(table@, processes),
            is_termination_order(table@, pid, order@),
            descendants.len() == i,
            forall|k: int| 0 <= k < i ==> (#[trigger] descendants[k]).pid == order[k],
            forall|k: int| 0 <= k < i ==> (#[trigger] descendants[k]).outcome is Some,
        decreases n - i,
    {
        let target = order[i];
        proof {
            assert(order@.drop_last()[i as int] == target);
            assert(order@.drop_last().contains(target));
            lemma_descendant_listed(table@, pid, target);
        }
        descendants.push(KillAttempt { pid: target, outcome: send_kill(system, target) });
        i = i + 1;
    }
    let root = KillAttempt { pid, outcome: send_kill(system, pid) };
    proof {
        assert(attempted_pids(descendants@, root) =~= order@);
    }
    KillAttempts { descendants, root }
}

/// Kills the process `pid` and every process that descends from it.
///
/// A descendant that cannot be killed is reported as an event; only a root
/// that cannot be killed makes the operation fail.
pub fn kill_process_tree(system: &mut System, pid: u32, server_id: &str) -> (report:
    TerminationReport)
    ensures
        is_termination_of(process_map(*final(system)), pid, report.descendants@, report.root),
        report.follows_attempts(server_id@),
{
    let attempts = attempt_termination(system, pid);
    conclude_termination(attempts.descendants, attempts.root, server_id)
}

} // verus!
