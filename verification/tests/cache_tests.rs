use tfr_alert::cache::clone_parsed_events;
use tfr_alert::cache::clone_raw_events;
use tfr_alert::cache::load_matched_cache;
use tfr_alert::cache::load_matched_cache_sorted;
use tfr_alert::cache::load_raw_cache;
use tfr_alert::cache::save_matched_cache;
use tfr_alert::cache::save_raw_cache;
use tfr_alert::cache::CacheStore;
use tfr_alert::records::ParsedTFREvent;
use tfr_alert::records::RawTFREvent;

fn raw(id: &str) -> RawTFREvent {
    RawTFREvent {
        notam_id: id.to_string(),
        description: String::new(),
        location: Some("Denver".to_string()),
        category: Some("SECURITY".to_string()),
        parsed: None,
    }
}

fn record(id: &str) -> ParsedTFREvent {
    ParsedTFREvent { notam_id: id.to_string(), ..Default::default() }
}

#[test]
fn a_first_run_reads_two_empty_collections() {
    let store = CacheStore::new();
    assert_eq!(load_raw_cache(&store).len(), 0);
    assert_eq!(load_matched_cache(&store).len(), 0);
    assert_eq!(load_matched_cache_sorted(&store).len(), 0);
}

#[test]
fn a_collection_that_cannot_be_read_counts_as_empty() {
    let store = CacheStore::restore(None, Some(vec![record("X")]));
    assert_eq!(load_raw_cache(&store).len(), 0);
    assert_eq!(load_matched_cache(&store), vec![record("X")]);
    let store = CacheStore::restore(Some(vec![raw("A")]), None);
    assert_eq!(load_raw_cache(&store), vec![raw("A")]);
    assert_eq!(load_matched_cache(&store).len(), 0);
    let store = CacheStore::restore(None, None);
    assert_eq!(load_raw_cache(&store).len(), 0);
    assert_eq!(load_matched_cache(&store).len(), 0);
}

#[test]
fn a_restored_store_reads_what_was_left() {
    let store = CacheStore::restore(Some(vec![raw("A"), raw("B")]), Some(vec![record("X")]));
    assert_eq!(load_raw_cache(&store), vec![raw("A"), raw("B")]);
    assert_eq!(load_matched_cache(&store), vec![record("X")]);
}

#[test]
fn a_write_replaces_the_whole_collection() {
    let mut store = CacheStore::restore(Some(vec![raw("A"), raw("B")]), Some(vec![record("X")]));
    save_raw_cache(&mut store, &[raw("C")]);
    assert_eq!(load_raw_cache(&store), vec![raw("C")]);
    save_matched_cache(&mut store, &[record("Y"), record("Z")]);
    assert_eq!(load_matched_cache(&store), vec![record("Y"), record("Z")]);
    save_raw_cache(&mut store, &[]);
    assert_eq!(load_raw_cache(&store).len(), 0);
}

#[test]
fn the_two_collections_do_not_touch_each_other() {
    let mut store = CacheStore::new();
    save_raw_cache(&mut store, &[raw("A")]);
    assert_eq!(load_matched_cache(&store).len(), 0);
    save_matched_cache(&mut store, &[record("X")]);
    assert_eq!(load_raw_cache(&store), vec![raw("A")]);
    save_raw_cache(&mut store, &[raw("B")]);
    assert_eq!(load_matched_cache(&store), vec![record("X")]);
}

#[test]
fn the_shown_history_is_the_stored_history() {
    let mut store = CacheStore::new();
    save_matched_cache(&mut store, &[record("Y"), record("X"), record("Z")]);
    assert_eq!(load_matched_cache_sorted(&store), load_matched_cache(&store));
    assert_eq!(load_matched_cache_sorted(&store), vec![record("Y"), record("X"), record("Z")]);
}

#[test]
fn a_read_hands_out_a_copy() {
    let mut store = CacheStore::new();
    save_raw_cache(&mut store, &[raw("A")]);
    let mut events = load_raw_cache(&store);
    events.push(raw("B"));
    assert_eq!(load_raw_cache(&store), vec![raw("A")]);
}

#[test]
fn copies_keep_every_field() {
    let mut event = raw("A");
    event.parsed = Some(ParsedTFREvent {
        notam_id: "A".to_string(),
        reason: "VIP".to_string(),
        ..Default::default()
    });
    let events = vec![event, raw("B")];
    assert_eq!(clone_raw_events(&events), events);
    let mut full = record("X");
    full.airspace.effective = vec!["one".to_string(), "two".to_string()];
    full.airspace.center = "DEN".to_string();
    let records = vec![full, record("Y")];
    assert_eq!(clone_parsed_events(&records), records);
    assert_eq!(records[0].clone(), records[0]);
}
