//! The two stored collections: the snapshot of the last poll and the matched
//! history. Each is read whole and written whole; there is no partial write.
//! The store holds them in memory, and its owner sees to the files.

use crate::diff::raw_views;
use crate::history::parsed_views;
use crate::records::ParsedTFREvent;
use crate::records::ParsedTFREventView;
use crate::records::RawTFREvent;
use crate::records::RawTFREventView;
use vstd::prelude::*;

verus! {

/// A copy of `events`, record by record.
pub fn clone_raw_events(events: &[RawTFREvent]) -> (copy: Vec<RawTFREvent>)
    ensures
        raw_views(copy@) == raw_views(events@),
{
    let mut copy: Vec<RawTFREvent> = Vec::new();
    let mut i: usize = 0;
    while i < events.len()
        invariant
            i <= events.len(),
            copy@.len() == i,
            forall|j: int| 0 <= j < i ==> (#[trigger] copy@[j])@ == events@[j]@,
        decreases events.len() - i,
    {
        copy.push(events[i].clone());
        i = i + 1;
    }
    assert(raw_views(copy@) =~= raw_views(events@));
    copy
}

/// A copy of `events`, record by record.
pub fn clone_parsed_events(events: &[ParsedTFREvent]) -> (copy: Vec<ParsedTFREvent>)
    ensures
        parsed_views(copy@) == parsed_views(events@),
{
    let mut copy: Vec<ParsedTFREvent> = Vec::new();
    let mut i: usize = 0;
    while i < events.len()
        invariant
            i <= events.len(),
            copy@.len() == i,
            forall|j: int| 0 <= j < i ==> (#[trigger] copy@[j])@ == events@[j]@,
        decreases events.len() - i,
    {
        copy.push(events[i].clone());
        i = i + 1;
    }
    assert(parsed_views(copy@) =~= parsed_views(events@));
    copy
}

/// The stored state: the filtered snapshot of the last poll, and the matched
/// history.
pub struct CacheStore {
    raw: Vec<RawTFREvent>,
    matched: Vec<ParsedTFREvent>,
}

/// What a `CacheStore` holds.
pub struct CacheStoreView {
    pub raw: Seq<RawTFREventView>,
    pub matched: Seq<ParsedTFREventView>,
}

impl CacheStoreView {
    /// The store of a first run: nothing has been stored yet.
    pub open spec fn empty() -> CacheStoreView {
        CacheStoreView { raw: Seq::empty(), matched: Seq::empty() }
    }
}

impl View for CacheStore {
    type V = CacheStoreView;

    closed spec fn view(&self) -> CacheStoreView {
        CacheStoreView { raw: raw_views(self.raw@), matched: parsed_views(self.matched@) }
    }
}

impl CacheStore {
    /// The store of a first run: both collections are empty.
    pub fn new() -> (store: CacheStore)
        ensures
            store@ == CacheStoreView::empty(),
    {
        let store = CacheStore { raw: Vec::new(), matched: Vec::new() };
        assert(store@.raw =~= Seq::empty());
        assert(store@.matched =~= Seq::empty());
        store
    }

    /// The store as it was left. `None` stands for a collection that is not
    /// there or cannot be read or decoded: it counts as empty.
    pub fn restore(raw: Option<Vec<RawTFREvent>>, matched: Option<Vec<ParsedTFREvent>>) -> (store:
        CacheStore)
        ensures
            store@.raw == match raw {
                Some(events) => raw_views(events@),
                None => Seq::empty(),
            },
            store@.matched == match matched {
                Some(events) => parsed_views(events@),
                None => Seq::empty(),
            },
    {
        let raw = match raw {
            Some(events) => events,
            None => {
                let events: Vec<RawTFREvent> = Vec::new();
                assert(raw_views(events@) =~= Seq::empty());
                events
            },
        };
        let matched = match matched {
            Some(events) => events,
            None => {
                let events: Vec<ParsedTFREvent> = Vec::new();
                assert(parsed_views(events@) =~= Seq::empty());
                events
            },
        };
        CacheStore { raw, matched }
    }
}

/// The stored snapshot.
pub fn load_raw_cache(store: &CacheStore) -> (events: Vec<RawTFREvent>)
    ensures
        raw_views(events@) == store@.raw,
{
    clone_raw_events(store.raw.as_slice())
}

/// Puts `data` in the place of the stored snapshot. The history stays as it
/// is.
pub fn save_raw_cache(store: &mut CacheStore, data: &[RawTFREvent])
    ensures
        final(store)@.raw == raw_views(data@),
        final(store)@.matched == old(store)@.matched,
{
    store.raw = clone_raw_events(data);
}

/// The stored history.
pub fn load_matched_cache(store: &CacheStore) -> (events: Vec<ParsedTFREvent>)
    ensures
        parsed_views(events@) == store@.matched,
{
    clone_parsed_events(store.matched.as_slice())
}

/// Puts `data` in the place of the stored history. The snapshot stays as it
/// is.
pub fn save_matched_cache(store: &mut CacheStore, data: &[ParsedTFREvent])
    ensures
        final(store)@.matched == parsed_views(data@),
        final(store)@.raw == old(store)@.raw,
{
    store.matched = clone_parsed_events(data);
}

/// The stored history in the order in which it is shown: the order in which
/// it is stored, the newest poll in front.
pub fn load_matched_cache_sorted(store: &CacheStore) -> (events: Vec<ParsedTFREvent>)
    ensures
        parsed_views(events@) == store@.matched,
{
    load_matched_cache(store)
}

} // verus!
