use tfr_alert::diff::get_filtered_events;
use tfr_alert::diff::get_new_events;
use tfr_alert::records::has_id;
use tfr_alert::records::ParsedTFREvent;
use tfr_alert::records::RawTFREvent;
use tfr_alert::records::TFREvent;

fn raw(id: &str, category: Option<&str>) -> RawTFREvent {
    RawTFREvent {
        notam_id: id.to_string(),
        description: format!("advisory {}", id),
        location: None,
        category: category.map(|c| c.to_string()),
        parsed: None,
    }
}

fn ids_of(events: &[RawTFREvent]) -> Vec<String> {
    events.iter().map(|e| e.notam_id.clone()).collect()
}

#[test]
fn one_new_item_beside_a_known_one() {
    let current = vec![raw("A", None), raw("B", None)];
    let previous = vec![raw("A", None)];
    assert_eq!(get_new_events(&current, &previous), vec![raw("B", None)]);
}

#[test]
fn new_events_keep_the_order_of_the_current_snapshot() {
    let current = vec![raw("D", None), raw("A", None), raw("C", None), raw("B", None)];
    let previous = vec![raw("B", None), raw("A", None)];
    assert_eq!(ids_of(&get_new_events(&current, &previous)), vec!["D", "C"]);
}

#[test]
fn a_snapshot_has_nothing_new_against_itself() {
    let snapshot = vec![raw("A", None), raw("B", Some("SECURITY")), raw("A", None)];
    assert_eq!(get_new_events(&snapshot, &snapshot).len(), 0);
}

#[test]
fn everything_is_new_against_an_empty_snapshot() {
    let current = vec![raw("A", None), raw("B", None)];
    assert_eq!(get_new_events(&current, &[]), current);
    assert_eq!(get_new_events(&[], &current).len(), 0);
}

#[test]
fn a_repeated_new_identifier_stays_repeated() {
    let current = vec![raw("A", None), raw("B", None), raw("B", Some("x"))];
    let previous = vec![raw("A", None)];
    assert_eq!(get_new_events(&current, &previous), vec![raw("B", None), raw("B", Some("x"))]);
}

#[test]
fn identity_goes_by_the_identifier_alone() {
    let current = vec![raw("A", Some("SECURITY"))];
    let previous = vec![raw("A", Some("HAZARDS"))];
    assert_eq!(get_new_events(&current, &previous).len(), 0);
    let other_case = vec![raw("a", Some("SECURITY"))];
    assert_eq!(get_new_events(&other_case, &previous), other_case);
}

#[test]
fn new_events_are_copies_with_every_field() {
    let mut event = raw("A", Some("SECURITY"));
    event.location = Some("Denver".to_string());
    event.parsed = Some(ParsedTFREvent { notam_id: "A".to_string(), ..Default::default() });
    let fresh = get_new_events(&[event.clone()], &[]);
    assert_eq!(fresh, vec![event]);
}

#[test]
fn the_filter_keeps_the_class_of_interest() {
    let data = vec![
        raw("1", Some("SECURITY")),
        raw("2", Some("HAZARDS")),
        raw("3", Some("security")),
        raw("4", None),
        raw("5", Some("Security")),
        raw("6", Some("SECURITY ")),
        raw("7", Some("")),
        raw("8", Some("SECURİTY")),
    ];
    assert_eq!(ids_of(&get_filtered_events(&data)), vec!["1", "3", "5"]);
}

#[test]
fn the_filter_of_nothing_is_nothing() {
    assert_eq!(get_filtered_events(&[]).len(), 0);
}

#[test]
fn both_kinds_of_record_go_by_their_identifier() {
    let event = raw("4/1234", None);
    let record = ParsedTFREvent { notam_id: "4/1234".to_string(), ..Default::default() };
    assert_eq!(event.notam_id(), "4/1234");
    assert_eq!(TFREvent::notam_id(&record), "4/1234");
    assert!(has_id(&[event], &"4/1234".to_string()));
    assert!(!has_id(&[record], &"4/123".to_string()));
}
