use mcp_manager::process_tree::{find_child_processes, termination_order, ProcessEntry};

fn entry(pid: u32, parent: Option<u32>) -> ProcessEntry {
    ProcessEntry { pid, parent }
}

fn position(order: &[u32], pid: u32) -> usize {
    order.iter().position(|p| *p == pid).unwrap()
}

#[test]
fn worker_with_child_and_grandchild_is_taken_down_leaves_first() {
    let table = vec![
        entry(1, None),
        entry(100, Some(1)),
        entry(101, Some(100)),
        entry(102, Some(101)),
        entry(200, Some(1)),
    ];
    assert_eq!(find_child_processes(&table, 100), vec![101, 102]);
    assert_eq!(termination_order(&table, 100), vec![102, 101, 100]);
}

#[test]
fn worker_with_two_children_terminates_all_three() {
    let table = vec![
        entry(1, None),
        entry(50, Some(1)),
        entry(51, Some(50)),
        entry(52, Some(50)),
        entry(60, Some(1)),
    ];
    assert_eq!(find_child_processes(&table, 50), vec![51, 52]);
    assert_eq!(termination_order(&table, 50), vec![52, 51, 50]);
}

#[test]
fn descendants_are_found_whatever_the_order_of_the_rows() {
    let table = vec![
        entry(9, Some(8)),
        entry(7, Some(5)),
        entry(8, Some(7)),
        entry(6, Some(5)),
        entry(5, Some(1)),
        entry(1, None),
    ];
    let mut found = find_child_processes(&table, 5);
    found.sort();
    assert_eq!(found, vec![6, 7, 8, 9]);
    let order = termination_order(&table, 5);
    assert_eq!(order.len(), 5);
    assert_eq!(order[4], 5);
    assert!(position(&order, 9) < position(&order, 8));
    assert!(position(&order, 8) < position(&order, 7));
    assert!(position(&order, 7) < position(&order, 5));
    assert!(position(&order, 6) < position(&order, 5));
}

#[test]
fn a_process_without_children_is_taken_down_alone() {
    let table = vec![entry(1, None), entry(2, Some(1)), entry(3, Some(1))];
    assert_eq!(find_child_processes(&table, 3), Vec::<u32>::new());
    assert_eq!(termination_order(&table, 3), vec![3]);
}

#[test]
fn a_root_that_the_table_does_not_list_is_still_taken_down() {
    let table = vec![entry(1, None), entry(2, Some(1))];
    assert_eq!(find_child_processes(&table, 77), Vec::<u32>::new());
    assert_eq!(termination_order(&table, 77), vec![77]);
}

#[test]
fn an_empty_table_yields_the_root_alone() {
    let table: Vec<ProcessEntry> = Vec::new();
    assert_eq!(find_child_processes(&table, 4), Vec::<u32>::new());
    assert_eq!(termination_order(&table, 4), vec![4]);
}

#[test]
fn a_process_that_is_its_own_parent_is_listed_once() {
    let table = vec![entry(10, Some(1)), entry(11, Some(10)), entry(11, Some(11))];
    assert_eq!(find_child_processes(&table, 10), vec![11]);
    assert_eq!(termination_order(&table, 10), vec![11, 10]);
}

#[test]
fn a_cycle_of_parents_does_not_trap_the_search() {
    let table = vec![entry(20, Some(22)), entry(21, Some(20)), entry(22, Some(21))];
    assert_eq!(find_child_processes(&table, 20), vec![21, 22]);
    assert_eq!(termination_order(&table, 20), vec![22, 21, 20]);
}

#[test]
fn a_root_that_is_its_own_parent_is_not_its_own_descendant() {
    let table = vec![entry(0, Some(0)), entry(1, Some(0)), entry(2, Some(1))];
    assert_eq!(find_child_processes(&table, 0), vec![1, 2]);
    assert_eq!(termination_order(&table, 0), vec![2, 1, 0]);
}

#[test]
fn repeated_rows_do_not_repeat_a_descendant() {
    let table = vec![entry(31, Some(30)), entry(31, Some(30)), entry(32, Some(31)), entry(32, Some(30))];
    assert_eq!(find_child_processes(&table, 30), vec![31, 32]);
    assert_eq!(termination_order(&table, 30), vec![32, 31, 30]);
}

#[test]
fn processes_of_other_trees_are_left_alone() {
    let table = vec![
        entry(1, None),
        entry(2, Some(1)),
        entry(3, Some(2)),
        entry(4, Some(1)),
        entry(5, Some(4)),
    ];
    assert_eq!(find_child_processes(&table, 2), vec![3]);
    assert_eq!(find_child_processes(&table, 4), vec![5]);
    let mut all = find_child_processes(&table, 1);
    all.sort();
    assert_eq!(all, vec![2, 3, 4, 5]);
}
