//! One polling cycle, from the fetched snapshot to the stored collections.
//! The cycle decides; its owner fetches. Between the two stand the
//! identifier of the advisory whose detail page is wanted next, and the
//! markup that came back for it, or the news that none came.

use crate::cache::load_matched_cache;
use crate::cache::load_raw_cache;
use crate::cache::save_matched_cache;
use crate::cache::save_raw_cache;
use crate::cache::CacheStore;
use crate::diff::filtered_events;
use crate::diff::get_filtered_events;
use crate::diff::get_new_events;
use crate::diff::new_events;
use crate::diff::raw_views;
use crate::history::merge_matches;
use crate::history::merged_history;
use crate::history::parsed_views;
use crate::matcher::event_matches_criteria;
use crate::matcher::matches_criteria;
use crate::parser::parse_notam_html;
use crate::parser::parsed_markup;
use crate::records::ParsedTFREvent;
use crate::records::ParsedTFREventView;
use crate::records::RawTFREvent;
use crate::records::RawTFREventView;
use crate::text::string_views;
use vstd::prelude::*;

verus! {

/// The address of an advisory's detail page, up to the identifier.
pub const NOTAM_DETAIL_URL: &'static str = "https://tfr.faa.gov/tfrapi/getWebText?notamId=";

/// The address of the detail page of the advisory `notam_id`.
pub fn detail_page_url(notam_id: &str) -> (url: String)
    ensures
        url@ == NOTAM_DETAIL_URL@ + notam_id@,
{
    let mut url = NOTAM_DETAIL_URL.to_owned();
    url.append(notam_id);
    url
}

/// A polling cycle under way.
pub struct FeedCycle {
    current: Vec<RawTFREvent>,
    fresh: Vec<RawTFREvent>,
    handled: usize,
    keywords: Vec<String>,
    new_matches: Vec<ParsedTFREvent>,
}

/// What a `FeedCycle` holds.
pub struct FeedCycleView {
    /// The advisories of interest in the fetched snapshot: what will be
    /// stored as the snapshot of this poll.
    pub current: Seq<RawTFREventView>,
    /// The advisories among them that the stored snapshot did not have.
    /// One whose detail page was read has its record attached.
    pub fresh: Seq<RawTFREventView>,
    /// The number of new advisories dealt with, from the front.
    pub handled: nat,
    /// The keywords of this run.
    pub keywords: Seq<Seq<char>>,
    /// The records that satisfied the keywords, in the order found.
    pub new_matches: Seq<ParsedTFREventView>,
}

impl FeedCycleView {
    /// The cycle at its start, for a fetched snapshot and the stored one.
    pub open spec fn begun(
        snapshot: Seq<RawTFREventView>,
        stored: Seq<RawTFREventView>,
        keywords: Seq<Seq<char>>,
    ) -> FeedCycleView {
        FeedCycleView {
            current: filtered_events(snapshot),
            fresh: new_events(filtered_events(snapshot), filtered_events(stored)),
            handled: 0,
            keywords,
            new_matches: Seq::empty(),
        }
    }

    /// The identifier of the advisory whose detail page is wanted next.
    pub open spec fn pending(self) -> Option<Seq<char>> {
        if self.handled < self.fresh.len() {
            Some(self.fresh[self.handled as int].notam_id)
        } else {
            None
        }
    }

    /// The cycle after `markup` came for the pending advisory: the record
    /// read from it is attached to the advisory, and joins the matches where
    /// it satisfies the keywords. Without a pending advisory nothing changes.
    pub open spec fn after_detail(self, markup: Seq<char>) -> FeedCycleView {
        if self.handled < self.fresh.len() {
            let record = parsed_markup(markup);
            let at = self.handled as int;
            FeedCycleView {
                fresh: self.fresh.update(
                    at,
                    RawTFREventView { parsed: Some(record), ..self.fresh[at] },
                ),
                handled: self.handled + 1,
                new_matches: if matches_criteria(record, self.keywords) {
                    self.new_matches.push(record)
                } else {
                    self.new_matches
                },
                ..self
            }
        } else {
            self
        }
    }

    /// The cycle after no detail page came for the pending advisory: the
    /// advisory is passed over. Without a pending advisory nothing changes.
    pub open spec fn after_failure(self) -> FeedCycleView {
        if self.handled < self.fresh.len() {
            FeedCycleView { handled: self.handled + 1, ..self }
        } else {
            self
        }
    }
}

impl View for FeedCycle {
    type V = FeedCycleView;

    closed spec fn view(&self) -> FeedCycleView {
        FeedCycleView {
            current: raw_views(self.current@),
            fresh: raw_views(self.fresh@),
            handled: self.handled as nat,
            keywords: string_views(self.keywords@),
            new_matches: parsed_views(self.new_matches@),
        }
    }
}

impl FeedCycle {
    /// Starts a cycle on the fetched `snapshot`. Both it and the stored
    /// snapshot are narrowed to the advisories of interest before they are
    /// compared.
    pub fn begin(snapshot: &[RawTFREvent], store: &CacheStore, keywords: Vec<String>) -> (cycle:
        FeedCycle)
        ensures
            cycle@ == FeedCycleView::begun(raw_views(snapshot@), store@.raw, string_views(keywords@)),
    {
        let stored = load_raw_cache(store);
        let current = get_filtered_events(snapshot);
        let cached = get_filtered_events(stored.as_slice());
        let fresh = get_new_events(current.as_slice(), cached.as_slice());
        let cycle = FeedCycle { current, fresh, handled: 0, keywords, new_matches: Vec::new() };
        assert(cycle@.new_matches =~= Seq::empty());
        cycle
    }

    /// The identifier of the advisory whose detail page is wanted next, or
    /// `None` when every new advisory has been dealt with.
    pub fn pending(&self) -> (id: Option<&String>)
        ensures
            match id {
                Some(text) => self@.pending() == Some(text@),
                None => self@.pending() is None,
            },
    {
        if self.handled < self.fresh.len() {
            Some(&self.fresh[self.handled].notam_id)
        } else {
            None
        }
    }

    /// Takes the markup of the pending advisory's detail page.
    pub fn detail_fetched(&mut self, markup: &str)
        ensures
            final(self)@ == old(self)@.after_detail(markup@),
    {
        if self.handled < self.fresh.len() {
            let at = self.handled;
            let record = parse_notam_html(markup);
            if event_matches_criteria(&record, self.keywords.as_slice()) {
                let ghost listed = parsed_views(self.new_matches@);
                self.new_matches.push(record.clone());
                assert(parsed_views(self.new_matches@) =~= listed.push(record@));
            }
            let ghost before = raw_views(self.fresh@);
            let event = &self.fresh[at];
            let enriched = RawTFREvent {
                notam_id: event.notam_id.clone(),
                description: event.description.clone(),
                location: match &event.location {
                    Some(location) => Some(location.clone()),
                    None => None,
                },
                category: match &event.category {
                    Some(category) => Some(category.clone()),
                    None => None,
                },
                parsed: Some(record),
            };
            self.fresh.set(at, enriched);
            assert(raw_views(self.fresh@) =~= before.update(at as int, enriched@));
            self.handled = at + 1;
        }
    }

    /// Takes the news that the pending advisory's detail page could not be
    /// fetched.
    pub fn detail_failed(&mut self)
        ensures
            final(self)@ == old(self)@.after_failure(),
    {
        if self.handled < self.fresh.len() {
            self.handled = self.handled + 1;
        }
    }

    /// The new advisories of this cycle, those dealt with first.
    pub fn new_events(&self) -> (events: &Vec<RawTFREvent>)
        ensures
            raw_views(events@) == self@.fresh,
    {
        &self.fresh
    }

    /// Ends the cycle: the advisories of interest of this poll take the
    /// place of the stored snapshot, the matches are merged into the stored
    /// history, and the matches are handed out.
    pub fn finish(self, store: &mut CacheStore) -> (new_matches: Vec<ParsedTFREvent>)
        ensures
            final(store)@.raw == self@.current,
            final(store)@.matched == merged_history(old(store)@.matched, self@.new_matches),
            parsed_views(new_matches@) == self@.new_matches,
    {
        save_raw_cache(store, self.current.as_slice());
        let history = load_matched_cache(store);
        let merged = merge_matches(history, self.new_matches.as_slice());
        save_matched_cache(store, merged.as_slice());
        self.new_matches
    }
}

} // verus!
