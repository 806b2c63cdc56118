//! The directory of tenants: which manager answers to which id.

use vstd::prelude::*;
use dashmap::DashMap;
use crate::error::{Error, ErrorKind, ErrorView};
use crate::manager::{failure_of, is_sweep_of, ManagerView, McpManager, ServerStop};
use crate::registry::is_listing;
use crate::text::join3;
use crate::workspace_wrapper::McpManagerWrapper;

verus! {

/// The managers that the map holds, by id.
pub uninterp spec fn directory_entries(managers: DashMap<String, McpManager>) -> Map<
    Seq<char>,
    ManagerView,
>;

/// `found` is what `entries` holds under `id`: the manager, or nothing.
pub open spec fn is_held(found: Option<McpManager>, entries: Map<Seq<char>, ManagerView>, id: Seq<char>)
    -> bool {
    match found {
        Some(manager) => entries.dom().contains(id) && entries[id] == manager@,
        None => !entries.dom().contains(id),
    }
}

/// `DashMap::new`. Trusted: the new map holds nothing.
#[verifier::external_body]
fn directory_new() -> (managers: DashMap<String, McpManager>)
    ensures
        directory_entries(managers) =~= Map::empty(),
{
    DashMap::new()
}

/// `DashMap::contains_key`. Trusted: tells whether the id is a key.
#[verifier::external_body]
fn directory_contains(managers: &DashMap<String, McpManager>, id: &str) -> (r: bool)
    ensures
        r == directory_entries(*managers).dom().contains(id@),
{
    managers.contains_key(id)
}

/// `DashMap::insert`, the displaced manager dropped. Trusted: afterwards
/// the id maps to the new manager and every other entry is as before.
#[verifier::external_body]
fn directory_insert(managers: &mut DashMap<String, McpManager>, id: String, manager: McpManager)
    ensures
        directory_entries(*final(managers)) == directory_entries(*old(managers)).insert(
            id@,
            manager@,
        ),
{
    managers.insert(id, manager);
}

/// `DashMap::remove`, the key dropped. Trusted: the entry under the id is
/// gone, every other entry is as before, and the manager that was there is
/// returned.
#[verifier::external_body]
fn directory_remove(managers: &mut DashMap<String, McpManager>, id: &str) -> (r: Option<McpManager>)
    ensures
        directory_entries(*final(managers)) == directory_entries(*old(managers)).remove(id@),
        is_held(r, directory_entries(*old(managers)), id@),
{
    managers.remove(id).map(|(_, manager)| manager)
}

/// `DashMap::iter`, each entry reduced to a clone of its key. Trusted: every
/// key comes out exactly once; the order is whatever the map's hashing
/// gives.
#[verifier::external_body]
fn directory_ids(managers: &DashMap<String, McpManager>) -> (ids: Vec<String>)
    ensures
        is_listing(ids.deep_view(), directory_entries(*managers)),
{
    managers.iter().map(|entry| entry.key().clone()).collect()
}

/// The mathematical content of an [`McpWorkspace`].
pub struct WorkspaceView {
    /// The registered managers, by id.
    pub managers: Map<Seq<char>, ManagerView>,
}

impl WorkspaceView {
    /// Every manager answers to the id under which it is kept, and each is
    /// well formed.
    pub open spec fn wf(self) -> bool {
        forall|id: Seq<char>| #[trigger]
            self.managers.dom().contains(id) ==> self.managers[id].manager_id == id
                && self.managers[id].wf()
    }

    /// The workspace holds a manager under `id`.
    pub open spec fn has(self, id: Seq<char>) -> bool {
        self.managers.dom().contains(id)
    }

    /// The workspace with `manager` kept under `id`.
    pub open spec fn with(self, id: Seq<char>, manager: ManagerView) -> WorkspaceView {
        WorkspaceView { managers: self.managers.insert(id, manager) }
    }

    /// The workspace after a manager was asked for under `id`: the manager
    /// that was there stays as it is, the sink it was created with
    /// included, and a fresh one, bound to `sink`, is created where there
    /// was none.
    pub open spec fn with_manager(self, id: Seq<char>, sink: u64) -> WorkspaceView {
        if self.has(id) {
            self
        } else {
            self.with(id, ManagerView::fresh(id, sink))
        }
    }

    /// The workspace with the entry under `id` deleted.
    pub open spec fn without_manager(self, id: Seq<char>) -> WorkspaceView {
        WorkspaceView { managers: self.managers.remove(id) }
    }

    /// The error that names a manager that is not registered.
    pub open spec fn manager_not_found(id: Seq<char>) -> ErrorView {
        ErrorView {
            kind: ErrorKind::ManagerNotFound,
            detail: "Manager with ID '"@ + id + "' not found"@,
        }
    }

    /// Why the workspace refuses to remove the manager `id`, or `None`
    /// where it goes ahead.
    pub open spec fn removal_refusal(self, id: Seq<char>) -> Option<ErrorView> {
        if self.has(id) {
            None
        } else {
            Some(Self::manager_not_found(id))
        }
    }
}

/// The directory of managers, one for each tenant.
pub struct McpWorkspace {
    managers: DashMap<String, McpManager>,
}

impl View for McpWorkspace {
    type V = WorkspaceView;

    closed spec fn view(&self) -> WorkspaceView {
        WorkspaceView { managers: directory_entries(self.managers) }
    }
}

/// Creates the error that names a manager that is not registered.
pub fn manager_not_found(manager_id: &str) -> (e: Error)
    ensures
        e@ == WorkspaceView::manager_not_found(manager_id@),
{
    Error::ManagerNotFound(join3("Manager with ID '", manager_id, "' not found"))
}

impl McpWorkspace {
    /// Creates a workspace without managers.
    pub fn new() -> (workspace: Self)
        ensures
            workspace@.managers =~= Map::empty(),
    {
        McpWorkspace { managers: directory_new() }
    }

    /// Returns the handle of the manager kept under `manager_id`, creating
    /// the manager first, bound to `sink`, where there is none.
    ///
    /// A manager that is already there is left exactly as it is: it keeps
    /// the sink it was created with, and `sink` is not used.
    pub fn get_or_create_manager(&mut self, manager_id: &str, sink: u64) -> (handle:
        McpManagerWrapper)
        ensures
            final(self)@ == old(self)@.with_manager(manager_id@, sink),
            handle@ == manager_id@,
    {
        if !directory_contains(&self.managers, manager_id) {
            let manager = McpManager::new(String::from_str(manager_id), sink);
            directory_insert(&mut self.managers, String::from_str(manager_id), manager);
        }
        McpManagerWrapper::attach(manager_id)
    }

    /// Looks the manager `manager_id` up, without creating it.
    pub fn get_manager(&self, manager_id: &str) -> (handle: Option<McpManagerWrapper>)
        ensures
            handle is Some <==> self@.has(manager_id@),
            handle matches Some(h) ==> h@ == manager_id@,
    {
        if directory_contains(&self.managers, manager_id) {
            Some(McpManagerWrapper::attach(manager_id))
        } else {
            None
        }
    }

    /// Removes the manager `manager_id`: stops every server that it still
    /// holds, then deletes its entry.
    ///
    /// The sweep over the servers is that of
    /// [`McpManager::stop_all_servers`]: a server that cannot be stopped is
    /// reported by its events and never keeps the removal from going
    /// through. Afterwards the id is free for a new manager.
    pub fn remove_manager(&mut self, manager_id: &str) -> (r: Result<Vec<ServerStop>, Error>)
        ensures
            final(self)@ == old(self)@.without_manager(manager_id@),
            failure_of(r) == old(self)@.removal_refusal(manager_id@),
            r matches Ok(stops) ==> is_sweep_of(stops@, old(self)@.managers[manager_id@]),
    {
        match directory_remove(&mut self.managers, manager_id) {
            Some(manager) => {
                let mut manager = manager;
                Ok(manager.stop_all_servers())
            },
            None => Err(manager_not_found(manager_id)),
        }
    }

    /// Lists the ids of the managers, each once, in no particular order.
    pub fn get_manager_ids(&self) -> (ids: Vec<String>)
        ensures
            is_listing(ids.deep_view(), self@.managers),
    {
        directory_ids(&self.managers)
    }

    /// Takes the manager `manager_id` out of the directory for the length
    /// of one operation.
    pub(crate) fn take(&mut self, manager_id: &str) -> (r: Option<McpManager>)
        ensures
            final(self)@ == old(self)@.without_manager(manager_id@),
            r is Some <==> old(self)@.has(manager_id@),
            r matches Some(manager) ==> manager@ == old(self)@.managers[manager_id@],
    {
        directory_remove(&mut self.managers, manager_id)
    }

    /// Puts a manager back under its id.
    pub(crate) fn put(&mut self, manager_id: &str, manager: McpManager)
        ensures
            final(self)@ == old(self)@.with(manager_id@, manager@),
    {
        directory_insert(&mut self.managers, String::from_str(manager_id), manager);
    }
}

} // verus!
