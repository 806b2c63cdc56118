//! Process trees: which processes descend from a root in a snapshot of the
//! process table, and in which order a tree is to be taken down.

use vstd::prelude::*;

verus! {

/// One row of a process-table snapshot.
#[derive(Clone, Copy, Debug, PartialEq, Eq)]
pub struct ProcessEntry {
    /// Identifier of the process.
    pub pid: u32,
    /// Identifier of the process that spawned it, where the system reports one.
    pub parent: Option<u32>,
}

/// The table has a row for `pid`.
pub open spec fn is_listed(table: Seq<ProcessEntry>, pid: u32) -> bool {
    exists|j: int| 0 <= j < table.len() && (#[trigger] table[j]).pid == pid
}

/// The table lists `pid` with `parent` as its parent.
pub open spec fn is_child_of(table: Seq<ProcessEntry>, parent: u32, pid: u32) -> bool {
    exists|j: int|
        0 <= j < table.len() && (#[trigger] table[j]).pid == pid && table[j].parent == Some(
            parent,
        )
}

/// `pid` is reached from `root` by following at most `depth + 1` links from
/// parent to child.
pub open spec fn descends_within(table: Seq<ProcessEntry>, root: u32, pid: u32, depth: nat) -> bool
    decreases depth,
{
    is_child_of(table, root, pid) || (depth > 0 && exists|mid: u32|
        descends_within(table, root, mid, (depth - 1) as nat) && #[trigger] is_child_of(
            table,
            mid,
            pid,
        ))
}

/// `pid` is a child of `root`, or a child of one of its descendants.
pub open spec fn is_descendant(table: Seq<ProcessEntry>, root: u32, pid: u32) -> bool {
    exists|depth: nat| descends_within(table, root, pid, depth)
}

/// Every process of `order` comes after the process it was found through:
/// its parent is `root` itself or stands earlier in `order`.
pub open spec fn discovery_ordered(table: Seq<ProcessEntry>, root: u32, order: Seq<u32>) -> bool {
    forall|k: int|
        0 <= k < order.len() ==> is_child_of(table, root, #[trigger] order[k]) || exists|m: int|
            0 <= m < k && is_child_of(table, #[trigger] order[m], order[k])
}

/// `found` holds every child of `root` and every child of its own members,
/// `root` itself left aside.
pub open spec fn closed_under_children(table: Seq<ProcessEntry>, root: u32, found: Seq<u32>)
    -> bool {
    &&& forall|pid: u32| #[trigger]
        is_child_of(table, root, pid) ==> pid == root || found.contains(pid)
    &&& forall|i: int, pid: u32|
        0 <= i < found.len() && #[trigger] is_child_of(table, found[i], pid) ==> pid == root
            || found.contains(pid)
}

/// A child of the root, or of one of its descendants, is a descendant.
pub proof fn lemma_child_descends(table: Seq<ProcessEntry>, root: u32, mid: u32, pid: u32)
    requires
        is_child_of(table, mid, pid),
        mid == root || is_descendant(table, root, mid),
    ensures
        is_descendant(table, root, pid),
{
    if mid == root {
        assert(descends_within(table, root, pid, 0));
    } else {
        let depth = choose|depth: nat| descends_within(table, root, mid, depth);
        assert(descends_within(table, root, pid, depth + 1));
    }
}

/// Every descendant has a row in the table.
pub proof fn lemma_descendant_listed(table: Seq<ProcessEntry>, root: u32, pid: u32)
    requires
        is_descendant(table, root, pid),
    ensures
        is_listed(table, pid),
{
    let depth = choose|depth: nat| descends_within(table, root, pid, depth);
    if !is_child_of(table, root, pid) {
        let mid = choose|mid: u32|
            descends_within(table, root, mid, (depth - 1) as nat) && #[trigger] is_child_of(
                table,
                mid,
                pid,
            );
        assert(is_child_of(table, mid, pid));
    }
}

/// A set of processes that is closed under children holds every descendant.
pub proof fn lemma_closed_holds_descendants(
    table: Seq<ProcessEntry>,
    root: u32,
    found: Seq<u32>,
    pid: u32,
    depth: nat,
)
    requires
        closed_under_children(table, root, found),
        descends_within(table, root, pid, depth),
    ensures
        pid == root || found.contains(pid),
    decreases depth,
{
    if !is_child_of(table, root, pid) {
        let mid = choose|mid: u32|
            descends_within(table, root, mid, (depth - 1) as nat) && #[trigger] is_child_of(
                table,
                mid,
                pid,
            );
        lemma_closed_holds_descendants(table, root, found, mid, (depth - 1) as nat);
        if mid != root {
            let i = choose|i: int| 0 <= i < found.len() && found[i] == mid;
            assert(is_child_of(table, found[i], pid));
        }
    }
}

/// A sequence without repetition, drawn from the process identifiers of a
/// table, is no longer than the table.
pub proof fn lemma_distinct_pids_bounded(table: Seq<ProcessEntry>, found: Seq<u32>)
    requires
        found.no_duplicates(),
        forall|k: int| 0 <= k < found.len() ==> is_listed(table, #[trigger] found[k]),
    ensures
        found.len() <= table.len(),
{
    let pids = table.map_values(|e: ProcessEntry| e.pid);
    assert forall|pid: u32| found.to_set().contains(pid) implies pids.to_set().contains(pid) by {
        let k = choose|k: int| 0 <= k < found.len() && found[k] == pid;
        assert(is_listed(table, found[k]));
        let j = choose|j: int| 0 <= j < table.len() && (#[trigger] table[j]).pid == pid;
        assert(pids[j] == pid);
    }
    found.unique_seq_to_set();
    pids.lemma_cardinality_of_set();
    vstd::set_lib::lemma_len_subset(found.to_set(), pids.to_set());
}

/// Tells whether `pid` occurs in `pids`.
fn holds(pids: &Vec<u32>, pid: u32) -> (r: bool)
    ensures
        r == pids@.contains(pid),
{
    let mut i: usize = 0;
    while i < pids.len()
        invariant
            i <= pids.len(),
            forall|k: int| 0 <= k < i ==> pids[k] != pid,
        decreases pids.len() - i,
    {
        if pids[i] == pid {
            return true;
        }
        i = i + 1;
    }
    false
}

/// Appends to `found` the children of `parent` that are neither `root` nor
/// already there.
fn adopt_children(table: &Vec<ProcessEntry>, root: u32, parent: u32, found: &mut Vec<u32>)
    requires
        old(found)@.no_duplicates(),
        !old(found)@.contains(root),
    ensures
        final(found)@.no_duplicates(),
        !final(found)@.contains(root),
        old(found)@.len() <= final(found)@.len(),
        final(found)@.subrange(0, old(found)@.len() as int) == old(found)@,
        forall|k: int|
            old(found)@.len() <= k < final(found)@.len() ==> is_child_of(
                table@,
                parent,
                #[trigger] final(found)@[k],
            ),
        forall|pid: u32| #[trigger]
            is_child_of(table@, parent, pid) ==> pid == root || final(found)@.contains(pid),
{
    let ghost before = found@;
    let mut j: usize = 0;
    while j < table.len()
        invariant
            j <= table.len(),
            found@.no_duplicates(),
            !found@.contains(root),
            before.len() <= found@.len(),
            found@.subrange(0, before.len() as int) == before,
            forall|k: int|
                before.len() <= k < found@.len() ==> is_child_of(table@, parent, #[trigger] found@[k]),
            forall|i: int|
                0 <= i < j && (#[trigger] table@[i]).parent == Some(parent) ==> table@[i].pid == root
                    || found@.contains(table@[i].pid),
        decreases table.len() - j,
    {
        let entry = table[j];
        let ghost so_far = found@;
        let is_child = match entry.parent {
            Some(p) => p == parent,
            None => false,
        };
        if is_child && entry.pid != root && !holds(found, entry.pid) {
            found.push(entry.pid);
            proof {
                assert(found@.subrange(0, before.len() as int) =~= so_far.subrange(
                    0,
                    before.len() as int,
                ));
                assert(found@[so_far.len() as int] == entry.pid);
                assert(is_child_of(table@, parent, entry.pid));
            }
        }
        proof {
            assert forall|pid: u32| so_far.contains(pid) implies found@.contains(pid) by {
                let k = choose|k: int| 0 <= k < so_far.len() && so_far[k] == pid;
                assert(found@[k] == pid);
            }
        }
        j = j + 1;
    }
}

/// Finds every process that descends from `parent_pid` in the snapshot.
///
/// The result lists each descendant once, `parent_pid` itself never, and
/// every process after the one through which it was found.
pub fn find_child_processes(table: &Vec<ProcessEntry>, parent_pid: u32) -> (children: Vec<u32>)
    ensures
        children@.no_duplicates(),
        forall|pid: u32|
            children@.contains(pid) <==> pid != parent_pid && is_descendant(
                table@,
                parent_pid,
                pid,
            ),
        discovery_ordered(table@, parent_pid, children@),
{
    let root = parent_pid;
    let mut found: Vec<u32> = Vec::new();
    adopt_children(table, root, root, &mut found);
    proof {
        assert forall|k: int| 0 <= k < found@.len() implies is_descendant(
            table@,
            root,
            #[trigger] found@[k],
        ) by {
            lemma_child_descends(table@, root, root, found@[k]);
        }
    }
    let mut cursor: usize = 0;
    while cursor < found.len()
        invariant
            cursor <= found.len(),
            found@.no_duplicates(),
            !found@.contains(root),
            forall|k: int| 0 <= k < found@.len() ==> is_descendant(table@, root, #[trigger] found@[k]),
            discovery_ordered(table@, root, found@),
            forall|pid: u32| #[trigger]
                is_child_of(table@, root, pid) ==> pid == root || found@.contains(pid),
            forall|i: int, pid: u32|
                0 <= i < cursor && #[trigger] is_child_of(table@, found@[i], pid) ==> pid == root
                    || found@.contains(pid),
        decreases table.len() - cursor,
    {
        proof {
            assert forall|k: int| 0 <= k < found@.len() implies is_listed(
                table@,
                #[trigger] found@[k],
            ) by {
                lemma_descendant_listed(table@, root, found@[k]);
            }
            lemma_distinct_pids_bounded(table@, found@);
        }
        let parent = found[cursor];
        let ghost before = found@;
        adopt_children(table, root, parent, &mut found);
        proof {
            assert forall|k: int| 0 <= k < before.len() implies found@[k] == before[k] by {
                assert(found@.subrange(0, before.len() as int)[k] == before[k]);
            }
            assert forall|pid: u32| before.contains(pid) implies found@.contains(pid) by {
                let k = choose|k: int| 0 <= k < before.len() && before[k] == pid;
                assert(found@[k] == pid);
            }
            assert forall|k: int| 0 <= k < found@.len() implies is_descendant(
                table@,
                root,
                #[trigger] found@[k],
            ) by {
                if k >= before.len() {
                    lemma_child_descends(table@, root, parent, found@[k]);
                } else {
                    assert(found@[k] == before[k]);
                    assert(is_descendant(table@, root, before[k]));
                }
            }
            assert forall|k: int| 0 <= k < found@.len() implies is_child_of(
                table@,
                root,
                #[trigger] found@[k],
            ) || exists|m: int|
                0 <= m < k && is_child_of(table@, #[trigger] found@[m], found@[k]) by {
                if k >= before.len() {
                    assert(is_child_of(table@, found@[cursor as int], found@[k]));
                } else if !is_child_of(table@, root, before[k]) {
                    let m = choose|m: int|
                        0 <= m < k && is_child_of(table@, #[trigger] before[m], before[k]);
                    assert(is_child_of(table@, found@[m], found@[k]));
                }
            }
            assert forall|i: int, pid: u32|
                0 <= i < cursor + 1 && #[trigger] is_child_of(
                    table@,
                    found@[i],
                    pid,
                ) implies pid == root || found@.contains(pid) by {
                if i < cursor {
                    assert(is_child_of(table@, before[i], pid));
                }
            }
        }
        cursor = cursor + 1;
    }
    proof {
        assert(closed_under_children(table@, root, found@));
        assert forall|pid: u32| pid != root && is_descendant(
            table@,
            root,
            pid,
        ) implies found@.contains(pid) by {
            let depth = choose|depth: nat| descends_within(table@, root, pid, depth);
            lemma_closed_holds_descendants(table@, root, found@, pid, depth);
        }
        assert forall|pid: u32| found@.contains(pid) implies pid != root && is_descendant(
            table@,
            root,
            pid,
        ) by {
            let k = choose|k: int| 0 <= k < found@.len() && found@[k] == pid;
            assert(is_descendant(table@, root, found@[k]));
        }
    }
    found
}

/// The process at `k` is taken down before a process that the table lists
/// as its parent.
pub open spec fn parent_follows(table: Seq<ProcessEntry>, order: Seq<u32>, k: int) -> bool {
    exists|m: int| k < m < order.len() && is_child_of(table, #[trigger] order[m], order[k])
}

/// `order` takes down the tree rooted at `root`: every descendant exactly
/// once and before its parent, and `root` itself last.
pub open spec fn is_termination_order(table: Seq<ProcessEntry>, root: u32, order: Seq<u32>)
    -> bool {
    &&& order.len() > 0
    &&& order.last() == root
    &&& order.no_duplicates()
    &&& forall|pid: u32|
        order.drop_last().contains(pid) <==> pid != root && is_descendant(table, root, pid)
    &&& forall|k: int| 0 <= k < order.len() - 1 ==> #[trigger] parent_follows(table, order, k)
}

/// Lays out the order in which the tree rooted at `root` is taken down:
/// the descendants in reverse order of discovery, then `root`.
pub fn termination_order(table: &Vec<ProcessEntry>, root: u32) -> (order: Vec<u32>)
    ensures
        is_termination_order(table@, root, order@),
{
    let found = find_child_processes(table, root);
    let n = found.len();
    let mut order: Vec<u32> = Vec::new();
    let mut i: usize = n;
    while i > 0
        invariant
            i <= n,
            n == found.len(),
            order.len() == n - i,
            forall|k: int| 0 <= k < order.len() ==> #[trigger] order[k] == found[n - 1 - k],
        decreases i,
    {
        i = i - 1;
        order.push(found[i]);
    }
    order.push(root);
    proof {
        let order = order@;
        let found = found@;
        assert forall|pid: u32| order.drop_last().contains(pid) implies found.contains(pid) by {
            let k = choose|k: int| 0 <= k < n && order.drop_last()[k] == pid;
            assert(found[n - 1 - k] == pid);
        }
        assert forall|pid: u32| found.contains(pid) implies order.drop_last().contains(pid) by {
            let j = choose|j: int| 0 <= j < n && found[j] == pid;
            assert(order.drop_last()[n - 1 - j] == pid);
        }
        assert forall|a: int, b: int| 0 <= a < order.len() && 0 <= b < order.len() && a
            != b implies order[a] != order[b] by {
            if a < n && b < n {
                assert(found[n - 1 - a] != found[n - 1 - b]);
            } else if a < n {
                assert(found.contains(found[n - 1 - a]));
            } else {
                assert(found.contains(found[n - 1 - b]));
            }
        }
        assert forall|k: int| 0 <= k < order.len() - 1 implies #[trigger] parent_follows(
            table@,
            order,
            k,
        ) by {
            let j = n - 1 - k;
            assert(order[k] == found[j]);
            if is_child_of(table@, root, found[j]) {
                assert(is_child_of(table@, order[n as int], order[k]));
            } else {
                let m = choose|m: int|
                    0 <= m < j && is_child_of(table@, #[trigger] found[m], found[j]);
                assert(order[n - 1 - m] == found[m]);
                assert(is_child_of(table@, order[n - 1 - m], order[k]));
            }
        }
        assert forall|pid: u32|
            order.drop_last().contains(pid) <==> pid != root && is_descendant(
                table@,
                root,
                pid,
            ) by {
            assert(order.drop_last().contains(pid) <==> found.contains(pid));
        }
    }
    order
}

} // verus!
