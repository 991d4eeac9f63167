use creep_core::cleanup::{cleanup_due, orphans, CLEANUP_INTERVAL};

fn names(list: &[&str]) -> Vec<String> {
    list.iter().map(|name| String::from(*name)).collect()
}

#[test]
fn cleanup_runs_every_thousand_cycles() {
    assert_eq!(CLEANUP_INTERVAL, 1000);
    assert!(cleanup_due(0));
    assert!(cleanup_due(1000));
    assert!(cleanup_due(52_000));
    assert!(!cleanup_due(1));
    assert!(!cleanup_due(999));
    assert!(!cleanup_due(1001));
    assert!(!cleanup_due(u32::MAX));
}

#[test]
fn dead_agent_is_the_only_orphan() {
    let stored = names(&["A", "B", "C"]);
    let alive = names(&["A", "C"]);
    assert_eq!(orphans(&stored, &alive), names(&["B"]));
}

#[test]
fn nothing_is_deleted_while_all_are_alive() {
    let stored = names(&["A", "B"]);
    let alive = names(&["B", "A", "D"]);
    assert_eq!(orphans(&stored, &alive), Vec::<String>::new());
}

#[test]
fn everything_is_deleted_when_nobody_lives() {
    let stored = names(&["A", "B"]);
    assert_eq!(orphans(&stored, &Vec::new()), names(&["A", "B"]));
}

#[test]
fn orphans_keep_stored_order() {
    let stored = names(&["z", "a", "m", "b"]);
    let alive = names(&["a"]);
    assert_eq!(orphans(&stored, &alive), names(&["z", "m", "b"]));
}

#[test]
fn empty_store_has_no_orphans() {
    assert_eq!(orphans(&Vec::new(), &names(&["A"])), Vec::<String>::new());
}

#[test]
fn names_are_compared_exactly() {
    let stored = names(&["a", "A", "a ", ""]);
    let alive = names(&["a"]);
    assert_eq!(orphans(&stored, &alive), names(&["A", "a ", ""]));
}
