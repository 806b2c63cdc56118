//! What holds of the library as a whole: the invariants of managers and
//! workspaces, and the laws that relate one operation to another.
//!
//! Every statement is about the mathematical content of a manager or a
//! workspace, and about the functions by which the operations describe
//! their effect on it.

use vstd::prelude::*;
use serde_json::Value as JsonValue;
use crate::calls::{
    call_closing_events, call_result, degraded_answer, execution_error, CallFailure,
    CallFailureKind, CallOutcome, CallPlan,
};
use crate::error::{ErrorKind, ErrorView};
use crate::json::json_document;
use crate::manager::{
    catalogs, failure_of, is_tool_listing, tagged, LaunchOutcome, ManagerView, Report,
};
use crate::models::{McpEventView, ToolExecutionRequest, ToolInfoView};
use crate::registry::{is_listing, ServerView};
use crate::workspace::WorkspaceView;

verus! {

/// The tools that name `id` as their server.
pub open spec fn serves(id: Seq<char>) -> spec_fn(ToolInfoView) -> bool {
    |tool: ToolInfoView| tool.server_id == id
}

/// A manager is created well formed.
pub proof fn lemma_fresh_is_wf(manager_id: Seq<char>, sink: u64)
    ensures
        ManagerView::fresh(manager_id, sink).wf(),
{
}

/// A start leaves a well-formed manager well formed, whether it succeeds
/// or fails.
pub proof fn lemma_start_keeps_wf(m: ManagerView, id: Seq<char>, launch: LaunchOutcome)
    requires
        m.wf(),
    ensures
        m.started(id, launch).wf(),
{
    let after = m.started(id, launch);
    assert forall|k: Seq<char>, i: int|
        after.servers.dom().contains(k) && 0 <= i < after.servers[k].tools.len() implies (
    #[trigger] after.servers[k].tools[i]).server_id == k by {
        if k != id {
            assert(m.servers[k].tools[i].server_id == k);
        }
    }
}

/// Taking a server out of the registry, by a stop or by a shutdown sweep,
/// leaves a well-formed manager well formed.
pub proof fn lemma_stop_keeps_wf(m: ManagerView, id: Seq<char>)
    requires
        m.wf(),
    ensures
        m.without(id).wf(),
        m.stopped(id).wf(),
{
    let after = m.without(id);
    assert forall|k: Seq<char>, i: int|
        after.servers.dom().contains(k) && 0 <= i < after.servers[k].tools.len() implies (
    #[trigger] after.servers[k].tools[i]).server_id == k by {
        assert(m.servers[k].tools[i].server_id == k);
    }
}

/// Shutting down leaves a well-formed manager well formed.
pub proof fn lemma_shutdown_keeps_wf(m: ManagerView)
    requires
        m.wf(),
    ensures
        m.shut_down().wf(),
{
    let after = m.shut_down();
    assert forall|k: Seq<char>, i: int|
        after.servers.dom().contains(k) && 0 <= i < after.servers[k].tools.len() implies (
    #[trigger] after.servers[k].tools[i]).server_id == k by {
        assert(m.servers[k].tools[i].server_id == k);
    }
}

/// Creating, replacing and removing managers leaves a well-formed
/// workspace well formed, as long as each manager is kept under its own
/// id.
pub proof fn lemma_workspace_keeps_wf(
    ws: WorkspaceView,
    id: Seq<char>,
    sink: u64,
    manager: ManagerView,
)
    requires
        ws.wf(),
        manager.wf(),
        manager.manager_id == id,
    ensures
        ws.with_manager(id, sink).wf(),
        ws.with(id, manager).wf(),
        ws.without_manager(id).wf(),
{
    lemma_fresh_is_wf(id, sink);
}

/// Asking twice for the manager of one id yields the same manager: the
/// manager is there after the first request, the second request changes
/// nothing whatever sink it names, and a manager that was there before is
/// left exactly as it was. The sink that was bound first stays.
pub proof fn law_manager_is_created_once(ws: WorkspaceView, id: Seq<char>, first: u64, second: u64)
    ensures
        ws.with_manager(id, first).has(id),
        ws.with_manager(id, first).with_manager(id, second) == ws.with_manager(id, first),
        ws.has(id) ==> ws.with_manager(id, second) == ws,
        !ws.has(id) ==> ws.with_manager(id, first).managers[id] == ManagerView::fresh(id, first),
        !ws.has(id) ==> ws.with_manager(id, first).with_manager(id, second).managers[id].sink
            == first,
{
}

/// A manager stays bound to the sink it was created with, and keeps its
/// id, through every operation.
pub proof fn law_sink_is_fixed(m: ManagerView, id: Seq<char>, launch: LaunchOutcome)
    ensures
        m.started(id, launch).sink == m.sink && m.started(id, launch).manager_id == m.manager_id,
        m.stopped(id).sink == m.sink && m.stopped(id).manager_id == m.manager_id,
        m.without(id).sink == m.sink && m.without(id).manager_id == m.manager_id,
        m.shut_down().sink == m.sink && m.shut_down().manager_id == m.manager_id,
        m.swept_clean().sink == m.sink && m.swept_clean().manager_id == m.manager_id,
{
}

/// A server becomes visible only through a launch that went all the way:
/// the process was spawned and its identifier is known, the handshake
/// succeeded, and the tools were discovered. The record that becomes
/// visible is that of this launch.
pub proof fn law_only_complete_launches_register(
    m: ManagerView,
    id: Seq<char>,
    launch: LaunchOutcome,
    other: Seq<char>,
)
    ensures
        m.started(id, launch) != m ==> {
            &&& launch is Discovered
            &&& launch->Discovered_pid is Some
            &&& !m.shutdown
            &&& !m.servers.dom().contains(id)
            &&& m.started(id, launch).servers[id] == launch.server(id)
        },
        other != id && m.servers.dom().contains(other) ==> m.started(id, launch).servers.dom().contains(
            other,
        ) && m.started(id, launch).servers[other] == m.servers[other],
        m.started(id, launch).servers.dom().contains(other) ==> other == id
            || m.servers.dom().contains(other),
{
}

/// A start under an id that is already registered fails with
/// `DuplicateServer`, before and after the launch, and leaves the manager,
/// the registered server included, exactly as it was. The manager must not
/// have been shut down.
pub proof fn law_duplicate_start_is_refused(m: ManagerView, id: Seq<char>, launch: LaunchOutcome)
    requires
        !m.shutdown,
        m.servers.dom().contains(id),
    ensures
        m.start_refusal(id) is Some,
        m.start_refusal(id)->0.kind == ErrorKind::DuplicateServer,
        m.start_failure(id, launch) == m.start_refusal(id),
        m.started(id, launch) == m,
        m.start_events(id, launch) == Seq::<McpEventView>::empty(),
        m.start_orphan(id, launch) == launch.spawned(),
{
}

/// Among the tools of a well-formed registry, listed in an order that
/// names no server twice, those of the server `id` are its catalog, or
/// none where the order does not name the server.
pub proof fn lemma_catalog_of_server(
    servers: Map<Seq<char>, ServerView>,
    order: Seq<Seq<char>>,
    id: Seq<char>,
)
    requires
        order.no_duplicates(),
        forall|k: int| 0 <= k < order.len() ==> servers.dom().contains(#[trigger] order[k]),
        forall|k: Seq<char>, i: int|
            servers.dom().contains(k) && 0 <= i < servers[k].tools.len() ==> #[trigger]
            servers[k].tools[i].server_id == k,
    ensures
        catalogs(servers, order).filter(serves(id)) == if order.contains(id) {
            servers[id].tools
        } else {
            Seq::empty()
        },
    decreases order.len(),
{
    reveal(Seq::filter);
    if order.len() > 0 {
        let earlier = order.drop_last();
        let last = order.last();
        let catalog = servers[last].tools;
        assert(servers.dom().contains(order[order.len() - 1]));
        assert forall|k: int| 0 <= k < earlier.len() implies servers.dom().contains(
            #[trigger] earlier[k],
        ) by {
            assert(earlier[k] == order[k]);
        }
        lemma_catalog_of_server(servers, earlier, id);
        Seq::filter_distributes_over_add(catalogs(servers, earlier), catalog, serves(id));
        if last == id {
            assert(!earlier.contains(id)) by {
                if earlier.contains(id) {
                    let k = choose|k: int| 0 <= k < earlier.len() && earlier[k] == id;
                    assert(order[k] == order[order.len() - 1]);
                }
            }
            lemma_filter_keeps_all(catalog, serves(id));
            assert(order.contains(id)) by {
                assert(order[order.len() - 1] == id);
            }
            assert(Seq::<ToolInfoView>::empty() + catalog =~= catalog);
        } else {
            catalog.lemma_all_neg_filter_empty(serves(id));
            assert(order.contains(id) == earlier.contains(id)) by {
                if order.contains(id) {
                    let k = choose|k: int| 0 <= k < order.len() && order[k] == id;
                    assert(earlier[k] == id);
                }
                if earlier.contains(id) {
                    let k = choose|k: int| 0 <= k < earlier.len() && earlier[k] == id;
                    assert(order[k] == id);
                }
            }
            assert(catalogs(servers, earlier).filter(serves(id)) + Seq::<ToolInfoView>::empty()
                =~= catalogs(servers, earlier).filter(serves(id)));
        }
    } else {
        assert(!order.contains(id));
    }
}

/// A filter keeps a sequence whole where every element passes.
pub proof fn lemma_filter_keeps_all<A>(s: Seq<A>, pred: spec_fn(A) -> bool)
    requires
        forall|i: int| 0 <= i < s.len() ==> pred(#[trigger] s[i]),
    ensures
        s.filter(pred) == s,
    decreases s.len(),
{
    reveal(Seq::filter);
    if s.len() > 0 {
        assert forall|i: int| 0 <= i < s.drop_last().len() implies pred(
            #[trigger] s.drop_last()[i],
        ) by {
            assert(s.drop_last()[i] == s[i]);
        }
        lemma_filter_keeps_all(s.drop_last(), pred);
        assert(s.drop_last().push(s.last()) =~= s);
    }
}

/// After a successful start, the tools that a listing shows for the new
/// server are exactly the discovered tools, each tagged with the server's
/// id, in the order of discovery.
pub proof fn law_started_server_lists_its_tools(
    m: ManagerView,
    id: Seq<char>,
    launch: LaunchOutcome,
    tools: Seq<ToolInfoView>,
)
    requires
        m.wf(),
        m.start_failure(id, launch) is None,
        is_tool_listing(tools, m.started(id, launch)),
    ensures
        tools.filter(serves(id)) == tagged(id, launch->Discovered_tools.deep_view()),
{
    let after = m.started(id, launch);
    lemma_start_keeps_wf(m, id, launch);
    let order = choose|order: Seq<Seq<char>>|
        is_listing(order, after.servers) && tools == catalogs(after.servers, order);
    lemma_listing_names_servers(order, after.servers);
    lemma_catalog_of_server(after.servers, order, id);
    assert(after.servers.dom().contains(id));
    assert(order.contains(id));
    assert(after.servers[id] == launch.server(id));
}

/// A successful start is announced by the event `serverStarted`, then
/// `toolsUpdated` with the new server's catalog, then a log entry; a
/// failed start is not announced at all.
pub proof fn law_start_is_announced_in_order(m: ManagerView, id: Seq<char>, launch: LaunchOutcome)
    ensures
        m.start_failure(id, launch) is None ==> {
            &&& m.start_events(id, launch).len() == 3
            &&& m.start_events(id, launch)[0] == McpEventView::server_started(id)
            &&& m.start_events(id, launch)[1] == McpEventView::tools_updated(
                tagged(id, launch->Discovered_tools.deep_view()),
            )
            &&& m.start_events(id, launch)[2].event_type == "log"@
        },
        m.start_failure(id, launch) is Some ==> m.start_events(id, launch).len() == 0,
{
}

/// A listing names registered servers only.
pub proof fn lemma_listing_names_servers<V>(order: Seq<Seq<char>>, entries: Map<Seq<char>, V>)
    requires
        is_listing(order, entries),
    ensures
        forall|k: int| 0 <= k < order.len() ==> entries.dom().contains(#[trigger] order[k]),
{
    assert forall|k: int| 0 <= k < order.len() implies entries.dom().contains(
        #[trigger] order[k],
    ) by {
        assert(order.contains(order[k]));
    }
}

/// A stop of a server that is not registered fails with `ServerNotFound`
/// and changes nothing. The manager must not have been shut down.
pub proof fn law_unknown_server_cannot_be_stopped(m: ManagerView, id: Seq<char>)
    requires
        !m.shutdown,
        !m.servers.dom().contains(id),
    ensures
        m.stop_refusal(id) == Some(ManagerView::server_not_found(id)),
        m.stop_refusal(id)->0.kind == ErrorKind::ServerNotFound,
        m.stopped(id) == m,
        m.stop_events(id) == Seq::<McpEventView>::empty(),
{
}

/// Once a stop has been admitted, the server is gone: it is not
/// registered, and no listing shows a tool of it, from the moment the stop
/// is begun and before any of its teardown is done.
pub proof fn law_stopped_server_is_gone(m: ManagerView, id: Seq<char>, tools: Seq<ToolInfoView>)
    requires
        m.wf(),
        m.stop_refusal(id) is None,
        is_tool_listing(tools, m.stopped(id)),
    ensures
        !m.stopped(id).servers.dom().contains(id),
        tools.filter(serves(id)) == Seq::<ToolInfoView>::empty(),
        forall|i: int| 0 <= i < tools.len() ==> (#[trigger] tools[i]).server_id != id,
{
    let after = m.stopped(id);
    lemma_stop_keeps_wf(m, id);
    let order = choose|order: Seq<Seq<char>>|
        is_listing(order, after.servers) && tools == catalogs(after.servers, order);
    lemma_listing_names_servers(order, after.servers);
    lemma_catalog_of_server(after.servers, order, id);
    assert(!order.contains(id));
    assert forall|i: int| 0 <= i < tools.len() implies (#[trigger] tools[i]).server_id != id by {
        if tools[i].server_id == id {
            assert(serves(id)(tools[i]));
            tools.lemma_filter_contains_rev(serves(id), tools[i]);
            assert(tools.filter(serves(id)).contains(tools[i]));
        }
    }
}

/// A call whose input could not be read as JSON is refused, and no plan
/// for a call comes back. Where manager, server and tool are in order, the
/// refusal is a `ToolExecutionError` that carries the reason.
pub proof fn law_malformed_input_is_refused(
    m: ManagerView,
    request: ToolExecutionRequest,
    parsed: Result<JsonValue, Seq<char>>,
    report: Report<CallPlan>,
)
    requires
        parsed is Err,
        report.answers(m, request, parsed),
    ensures
        report.result is Err,
        m.call_refusal(request.server_id@, request.tool_name@) is None ==> failure_of(
            report.result,
        ) == Some(execution_error("Failed to parse tool inputs: "@ + parsed->Err_0)),
{
}

/// Input that the JSON codec rejects never leads to a call: whatever the
/// manager decides on such a request, it is a refusal, and where manager,
/// server and tool are in order, a `ToolExecutionError`.
pub proof fn law_rejected_input_is_never_called(
    m: ManagerView,
    request: ToolExecutionRequest,
    report: Report<CallPlan>,
)
    requires
        report.decides(m, request),
    ensures
        json_document(request.inputs@) is None ==> report.result is Err,
        json_document(request.inputs@) is None && m.call_refusal(
            request.server_id@,
            request.tool_name@,
        ) is None ==> failure_of(report.result)->0.kind == ErrorKind::ToolExecutionError,
{
}

/// A call of a tool that the server's catalog does not hold is refused
/// with `ToolNotFound`, whatever its input, without an event and without a
/// plan for a call. The manager must not have been shut down.
pub proof fn law_unknown_tool_is_refused(
    m: ManagerView,
    request: ToolExecutionRequest,
    parsed: Result<JsonValue, Seq<char>>,
    report: Report<CallPlan>,
)
    requires
        !m.shutdown,
        m.servers.dom().contains(request.server_id@),
        !crate::manager::offers(m.servers[request.server_id@].tools, request.tool_name@),
        report.answers(m, request, parsed),
    ensures
        report.result is Err,
        failure_of(report.result) == Some(
            ManagerView::tool_not_found(request.server_id@, request.tool_name@),
        ),
        failure_of(report.result)->0.kind == ErrorKind::ToolNotFound,
        report.events.deep_view() == Seq::<McpEventView>::empty(),
{
}

/// Shutdown is final. A manager that has been shut down refuses every
/// start and every call with `ManagerShutdown`, registers nothing, and
/// stays shut down through every operation.
pub proof fn law_shutdown_is_final(
    m: ManagerView,
    id: Seq<char>,
    launch: LaunchOutcome,
    request: ToolExecutionRequest,
    parsed: Result<JsonValue, Seq<char>>,
)
    requires
        m.shutdown,
    ensures
        m.start_refusal(id) == Some(m.shutdown_error()),
        m.start_failure(id, launch) == Some(m.shutdown_error()),
        m.call_failure(request, parsed) == Some(m.shutdown_error()),
        m.shutdown_error().kind == ErrorKind::ManagerShutdown,
        m.started(id, launch) == m,
        m.stopped(id) == m,
        m.without(id).shutdown,
        m.shut_down() == m,
{
}

/// The sweep that a shutdown begins runs on a manager that is shut down:
/// from the moment `stop_all` returns, every start and every call is
/// refused with `ManagerShutdown`.
pub proof fn law_stop_all_shuts_down(
    m: ManagerView,
    id: Seq<char>,
    launch: LaunchOutcome,
    request: ToolExecutionRequest,
    parsed: Result<JsonValue, Seq<char>>,
)
    ensures
        m.shut_down().shutdown,
        m.shut_down().servers == m.servers,
        m.shut_down().start_failure(id, launch) is Some,
        m.shut_down().start_failure(id, launch)->0.kind == ErrorKind::ManagerShutdown,
        m.shut_down().call_failure(request, parsed) is Some,
        m.shut_down().call_failure(request, parsed)->0.kind == ErrorKind::ManagerShutdown,
{
}

/// A manager that has been removed from the workspace is listed no longer,
/// and every other manager still is.
pub proof fn law_removed_manager_is_not_listed(
    ws: WorkspaceView,
    id: Seq<char>,
    ids: Seq<Seq<char>>,
)
    requires
        is_listing(ids, ws.without_manager(id).managers),
    ensures
        !ws.without_manager(id).has(id),
        !ids.contains(id),
        forall|other: Seq<char>| other != id && ws.has(other) ==> ids.contains(other),
{
}

/// The manager after a sweep has taken the servers named by `pending` out
/// of the registry, the last one first.
pub open spec fn swept(m: ManagerView, pending: Seq<Seq<char>>) -> ManagerView
    decreases pending.len(),
{
    if pending.len() == 0 {
        m
    } else {
        swept(m.without(pending.last()), pending.drop_last())
    }
}

/// A sweep takes out the servers it names and no others, and leaves the
/// shutdown flag as it is.
pub proof fn lemma_sweep_takes_out_what_it_names(m: ManagerView, pending: Seq<Seq<char>>)
    ensures
        swept(m, pending).shutdown == m.shutdown,
        swept(m, pending).manager_id == m.manager_id,
        swept(m, pending).sink == m.sink,
        forall|id: Seq<char>| #[trigger]
            swept(m, pending).servers.dom().contains(id) <==> m.servers.dom().contains(id)
                && !pending.contains(id),
        forall|id: Seq<char>| #[trigger]
            swept(m, pending).servers.dom().contains(id) ==> swept(m, pending).servers[id]
                == m.servers[id],
    decreases pending.len(),
{
    if pending.len() > 0 {
        let last = pending.last();
        let earlier = pending.drop_last();
        let mid = m.without(last);
        let after = swept(m, pending);
        assert(after == swept(mid, earlier));
        lemma_sweep_takes_out_what_it_names(mid, earlier);
        assert forall|id: Seq<char>| #[trigger]
            after.servers.dom().contains(id) <==> m.servers.dom().contains(id)
                && !pending.contains(id) by {
            assert(pending[pending.len() - 1] == last);
            if pending.contains(id) && id != last {
                let k = choose|k: int| 0 <= k < pending.len() && pending[k] == id;
                assert(earlier[k] == id);
            }
            if earlier.contains(id) {
                let k = choose|k: int| 0 <= k < earlier.len() && earlier[k] == id;
                assert(pending[k] == id);
            }
            assert(mid.servers.dom().contains(id) <==> m.servers.dom().contains(id) && id != last);
        }
        assert forall|id: Seq<char>| #[trigger]
            after.servers.dom().contains(id) implies after.servers[id] == m.servers[id] by {
            assert(mid.servers.dom().contains(id));
        }
    }
}

/// A shutdown sweep that is carried to its end stops every server: once
/// each id that `stop_all` listed has been handled, step by step, the
/// manager is what the sweep in one go leaves behind: shut down, and with
/// an empty registry.
pub proof fn law_sweep_stops_every_server(m: ManagerView, pending: Seq<Seq<char>>)
    requires
        is_listing(pending, m.servers),
    ensures
        swept(m.shut_down(), pending) == m.swept_clean(),
{
    lemma_sweep_takes_out_what_it_names(m.shut_down(), pending);
    let after = swept(m.shut_down(), pending);
    assert forall|id: Seq<char>| !after.servers.dom().contains(id) by {
        if after.servers.dom().contains(id) {
            assert(m.shut_down().servers.dom().contains(id));
            assert(pending.contains(id));
        }
    }
    assert(after.servers =~= Map::<Seq<char>, ServerView>::empty());
}

/// A response of unexpected shape is never an error: the call yields the
/// degraded answer and is announced as done. Every other failure of a call
/// is a `ToolExecutionError` and is not announced.
pub proof fn law_unexpected_response_is_a_degraded_success(
    server_id: Seq<char>,
    tool_name: Seq<char>,
    failure: CallFailure,
)
    ensures
        failure.kind == CallFailureKind::UnexpectedResponse ==> {
            &&& call_result(server_id, tool_name, CallOutcome::Failed(failure)) == Ok::<
                Seq<char>,
                ErrorView,
            >(degraded_answer(server_id, tool_name, failure.message@))
            &&& call_closing_events(server_id, tool_name, CallOutcome::Failed(failure)).len() == 1
        },
        failure.kind != CallFailureKind::UnexpectedResponse ==> {
            &&& call_result(server_id, tool_name, CallOutcome::Failed(failure)) is Err
            &&& call_result(server_id, tool_name, CallOutcome::Failed(failure))->Err_0.kind
                == ErrorKind::ToolExecutionError
            &&& call_closing_events(server_id, tool_name, CallOutcome::Failed(failure)).len() == 0
        },
{
}

} // verus!
