use tfr_alert::history::merge_matches;
use tfr_alert::records::ParsedTFREvent;

fn record(id: &str, reason: &str) -> ParsedTFREvent {
    ParsedTFREvent { notam_id: id.to_string(), reason: reason.to_string(), ..Default::default() }
}

fn ids_of(events: &[ParsedTFREvent]) -> Vec<String> {
    events.iter().map(|e| e.notam_id.clone()).collect()
}

#[test]
fn new_in_front_and_known_left_out() {
    let history = vec![record("X", "")];
    let new_matches = vec![record("X", ""), record("Y", "")];
    assert_eq!(merge_matches(history, &new_matches), vec![record("Y", ""), record("X", "")]);
}

#[test]
fn the_batch_stands_in_front_in_its_own_order() {
    let history = vec![record("H1", ""), record("H2", "")];
    let batch = vec![record("A", ""), record("B", ""), record("C", "")];
    assert_eq!(ids_of(&merge_matches(history, &batch)), vec!["A", "B", "C", "H1", "H2"]);
}

#[test]
fn a_known_record_is_not_overwritten() {
    let history = vec![record("X", "first seen")];
    let merged = merge_matches(history, &[record("X", "seen again")]);
    assert_eq!(merged, vec![record("X", "first seen")]);
}

#[test]
fn of_a_repeated_match_the_last_one_stays() {
    let batch = vec![record("A", "one"), record("B", ""), record("A", "two")];
    let merged = merge_matches(Vec::new(), &batch);
    assert_eq!(merged, vec![record("B", ""), record("A", "two")]);
}

#[test]
fn an_empty_batch_changes_nothing() {
    let history = vec![record("X", ""), record("Y", "")];
    assert_eq!(merge_matches(history.clone(), &[]), history);
    assert_eq!(merge_matches(Vec::new(), &[]).len(), 0);
}

#[test]
fn merging_a_batch_twice_is_merging_it_once() {
    let history = vec![record("X", ""), record("Y", "")];
    let batch = vec![record("A", ""), record("Y", "again"), record("B", ""), record("A", "late")];
    let once = merge_matches(history, &batch);
    let twice = merge_matches(once.clone(), &batch);
    assert_eq!(twice, once);
    assert_eq!(ids_of(&once), vec!["B", "A", "X", "Y"]);
}

#[test]
fn every_identifier_of_the_history_appears_once_after_a_merge() {
    let history = vec![record("X", ""), record("Y", ""), record("Z", "")];
    let batch = vec![record("Z", ""), record("N", ""), record("X", ""), record("N", "")];
    let merged = merge_matches(history.clone(), &batch);
    for old in &history {
        assert_eq!(merged.iter().filter(|e| e.notam_id == old.notam_id).count(), 1);
    }
    assert_eq!(merged.iter().filter(|e| e.notam_id == "N").count(), 1);
    assert_eq!(merged.len(), 4);
}

#[test]
fn the_newest_poll_precedes_the_older_ones() {
    let first = merge_matches(Vec::new(), &[record("A", ""), record("B", "")]);
    let second = merge_matches(first, &[record("C", ""), record("A", ""), record("D", "")]);
    assert_eq!(ids_of(&second), vec!["C", "D", "A", "B"]);
}
