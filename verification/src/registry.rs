//! The concurrent map in which a manager keeps its servers, and the
//! contracts under which the manager uses it.
//!
//! The map is only ever changed through an exclusive borrow, so each
//! contract describes the map as a mathematical map from server id to
//! server record, before and after the call.

use vstd::prelude::*;
use dashmap::DashMap;
use crate::models::{ToolInfo, ToolInfoView};

verus! {

/// `dashmap::DashMap`, a concurrent hash map. Opaque: what it holds is
/// spoken of through [`registry_entries`] and its like.
#[verifier::external_type_specification]
#[verifier::external_body]
#[verifier::reject_recursive_types(K)]
#[verifier::reject_recursive_types(V)]
#[verifier::reject_recursive_types(S)]
pub struct ExDashMap<K, V, S>(dashmap::DashMap<K, V, S>);

/// What a manager remembers of one running server.
#[derive(Debug)]
pub struct Server {
    /// Identifier of the worker process, the root of its process tree.
    pub pid: u32,
    /// The tools that the server advertised when it was started.
    pub tools: Vec<ToolInfo>,
}

/// The mathematical content of a [`Server`].
pub struct ServerView {
    pub pid: u32,
    pub tools: Seq<ToolInfoView>,
}

impl View for Server {
    type V = ServerView;

    open spec fn view(&self) -> ServerView {
        ServerView { pid: self.pid, tools: self.tools.deep_view() }
    }
}

impl Clone for Server {
    fn clone(&self) -> (r: Self)
        ensures
            r@ == self@,
    {
        let tools = self.tools.clone();
        Server { pid: self.pid, tools }
    }
}

/// The servers that the map holds, by id.
pub uninterp spec fn registry_entries(servers: DashMap<String, Server>) -> Map<
    Seq<char>,
    ServerView,
>;

/// `found` is what `entries` holds under `id`: the record, or nothing.
pub open spec fn is_lookup(found: Option<Server>, entries: Map<Seq<char>, ServerView>, id: Seq<char>)
    -> bool {
    match found {
        Some(server) => entries.dom().contains(id) && entries[id] == server@,
        None => !entries.dom().contains(id),
    }
}

/// `ids` lists the keys of `entries`, each once, in some order.
pub open spec fn is_listing<V>(ids: Seq<Seq<char>>, entries: Map<Seq<char>, V>) -> bool {
    &&& ids.no_duplicates()
    &&& forall|id: Seq<char>| ids.contains(id) <==> entries.dom().contains(id)
}

/// `DashMap::new`. Trusted: the new map holds nothing.
#[verifier::external_body]
pub(crate) fn registry_new() -> (servers: DashMap<String, Server>)
    ensures
        registry_entries(servers) =~= Map::empty(),
{
    DashMap::new()
}

/// `DashMap::contains_key`. Trusted: tells whether the id is a key.
#[verifier::external_body]
pub(crate) fn registry_contains(servers: &DashMap<String, Server>, id: &str) -> (r: bool)
    ensures
        r == registry_entries(*servers).dom().contains(id@),
{
    servers.contains_key(id)
}

/// `DashMap::insert`, the displaced record dropped. Trusted: afterwards the
/// id maps to the new record and every other entry is as before.
#[verifier::external_body]
pub(crate) fn registry_insert(servers: &mut DashMap<String, Server>, id: String, server: Server)
    ensures
        registry_entries(*final(servers)) == registry_entries(*old(servers)).insert(id@, server@),
{
    servers.insert(id, server);
}

/// `DashMap::remove`, the key dropped. Trusted: the entry under the id is
/// gone, every other entry is as before, and the record that was there is
/// returned.
#[verifier::external_body]
pub(crate) fn registry_remove(servers: &mut DashMap<String, Server>, id: &str) -> (r: Option<Server>)
    ensures
        registry_entries(*final(servers)) == registry_entries(*old(servers)).remove(id@),
        is_lookup(r, registry_entries(*old(servers)), id@),
{
    servers.remove(id).map(|(_, server)| server)
}

/// `DashMap::get`, the record cloned out of the guard. Trusted: returns the
/// record under the id, or nothing.
#[verifier::external_body]
pub(crate) fn registry_get(servers: &DashMap<String, Server>, id: &str) -> (r: Option<Server>)
    ensures
        is_lookup(r, registry_entries(*servers), id@),
{
    servers.get(id).map(|entry| entry.value().clone())
}

/// `DashMap::iter`, each entry reduced to a clone of its key. Trusted: every
/// key comes out exactly once; the order is whatever the map's hashing
/// gives.
#[verifier::external_body]
pub(crate) fn registry_ids(servers: &DashMap<String, Server>) -> (ids: Vec<String>)
    ensures
        is_listing(ids.deep_view(), registry_entries(*servers)),
{
    servers.iter().map(|entry| entry.key().clone()).collect()
}

} // verus!
