use rideboard::roster::{names_only_in, rider_diff};
use rideboard::worker::roster_targets;
use rideboard::pings::PingKind;

fn names(list: &[&str]) -> Vec<String> {
    list.iter().map(|n| n.to_string()).collect()
}

#[test]
fn the_same_roster_changes_nobody() {
    let riders = names(&["u2", "u3", "u4"]);
    let diff = rider_diff(&riders, &riders);
    assert!(diff.removed.is_empty());
    assert!(diff.added.is_empty());
}

#[test]
fn the_same_riders_in_another_order_change_nobody() {
    let diff = rider_diff(&names(&["u2", "u3", "u2"]), &names(&["u3", "u2"]));
    assert!(diff.removed.is_empty());
    assert!(diff.added.is_empty());
}

#[test]
fn two_empty_rosters_change_nobody() {
    let diff = rider_diff(&names(&[]), &names(&[]));
    assert!(diff.removed.is_empty());
    assert!(diff.added.is_empty());
}

#[test]
fn one_more_rider_is_added() {
    let diff = rider_diff(&names(&["u2"]), &names(&["u2", "u5"]));
    assert_eq!(diff.added, names(&["u5"]));
    assert!(diff.removed.is_empty());
}

#[test]
fn a_first_roster_adds_everybody() {
    let diff = rider_diff(&names(&[]), &names(&["u2", "u5"]));
    assert_eq!(diff.added, names(&["u2", "u5"]));
    assert!(diff.removed.is_empty());
}

#[test]
fn riders_leave_and_come() {
    let diff = rider_diff(&names(&["a", "b", "c", "d"]), &names(&["d", "e", "b", "f"]));
    assert_eq!(diff.removed, names(&["a", "c"]));
    assert_eq!(diff.added, names(&["e", "f"]));
}

#[test]
fn a_rider_named_twice_counts_once() {
    assert_eq!(names_only_in(&names(&["a", "b", "a", "c", "b"]), &names(&["c"])), names(&["a", "b"]));
    assert_eq!(names_only_in(&names(&["a", "a"]), &names(&["a"])), names(&[]));
}

#[test]
fn targets_are_the_removed_then_the_added() {
    let targets = roster_targets(&names(&["a", "b", "c"]), &names(&["c", "d", "e"]));
    let seen: Vec<(PingKind, String)> = targets.into_iter().map(|t| (t.kind, t.id)).collect();
    assert_eq!(
        seen,
        vec![
            (PingKind::Remove, "a".to_string()),
            (PingKind::Remove, "b".to_string()),
            (PingKind::Add, "d".to_string()),
            (PingKind::Add, "e".to_string()),
        ]
    );
    assert!(roster_targets(&names(&["a"]), &names(&["a"])).is_empty());
}
