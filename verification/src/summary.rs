//! Figures on the matched history: how many records were issued today, and
//! in how many places.

use crate::history::parsed_views;
use crate::records::ParsedTFREvent;
use crate::records::ParsedTFREventView;
use crate::text::not_empty;
use crate::text::string_views;
use chrono::Datelike;
use vstd::prelude::*;

verus! {

/// The format in which the feed writes an issue date: month, day and year,
/// with slashes between them.
pub const ISSUE_DATE_FORMAT: &'static str = "%m/%d/%Y";

/// A day of the calendar.
#[derive(Clone, Copy, Debug, PartialEq, Eq, Structural)]
pub struct CalendarDate {
    pub year: i32,
    pub month: u32,
    pub day: u32,
}

/// The day that `chrono::NaiveDate::parse_from_str` reads from `text` under
/// `format`, if it accepts `text`.
pub uninterp spec fn parsed_date(text: Seq<char>, format: Seq<char>) -> Option<CalendarDate>;

/// `chrono::NaiveDate::parse_from_str`, the date handed out as year, month
/// and day. The outcome depends on the text and the format alone.
#[verifier::external_body]
fn parse_date(text: &str, format: &str) -> (date: Option<CalendarDate>)
    ensures
        date == parsed_date(text@, format@),
{
    match chrono::NaiveDate::parse_from_str(text, format) {
        Ok(date) => Some(CalendarDate { year: date.year(), month: date.month(), day: date.day() }),
        Err(_) => None,
    }
}

/// `chrono::Utc::now`, of which the calendar date is handed out as year,
/// month and day. Nothing is known of the clock.
#[verifier::external_body]
fn today_utc() -> (today: CalendarDate) {
    let date = chrono::Utc::now().date_naive();
    CalendarDate { year: date.year(), month: date.month(), day: date.day() }
}

/// The day on which `event` was issued, where its issue date can be read.
pub open spec fn issue_day(event: ParsedTFREventView) -> Option<CalendarDate> {
    parsed_date(event.issue_date, ISSUE_DATE_FORMAT@)
}

/// The predicate that holds of the records issued on `day`.
pub open spec fn issued_on(day: CalendarDate) -> spec_fn(ParsedTFREventView) -> bool {
    |event: ParsedTFREventView| issue_day(event) == Some(day)
}

/// The records of `events` issued on `day`.
pub open spec fn events_on(events: Seq<ParsedTFREventView>, day: CalendarDate) -> Seq<
    ParsedTFREventView,
> {
    events.filter(issued_on(day))
}

/// The function from a record to its location.
pub open spec fn location_of() -> spec_fn(ParsedTFREventView) -> Seq<char> {
    |event: ParsedTFREventView| event.location
}

/// The locations of the records of `events` issued on `day`, without the
/// empty ones.
pub open spec fn locations_on(events: Seq<ParsedTFREventView>, day: CalendarDate) -> Seq<
    Seq<char>,
> {
    events_on(events, day).map_values(location_of()).filter(not_empty())
}

/// The places in which a record of `events` was issued on `day`.
pub open spec fn cities_on(events: Seq<ParsedTFREventView>, day: CalendarDate) -> Set<Seq<char>> {
    locations_on(events, day).to_set()
}

/// The day on which `event` was issued, where its issue date can be read in
/// the feed's format.
pub fn issue_date_of(event: &ParsedTFREvent) -> (day: Option<CalendarDate>)
    ensures
        day == issue_day(event@),
{
    parse_date(event.issue_date.as_str(), ISSUE_DATE_FORMAT)
}

/// Whether `list` holds `text`.
fn holds_string(list: &Vec<String>, text: &String) -> (found: bool)
    ensures
        found == string_views(list@).contains(text@),
{
    let mut i: usize = 0;
    while i < list.len()
        invariant
            i <= list.len(),
            forall|j: int| 0 <= j < i ==> string_views(list@)[j] != text@,
        decreases list.len() - i,
    {
        let same = list[i] == *text;
        if same {
            assert(string_views(list@)[i as int] == text@);
            return true;
        }
        i = i + 1;
    }
    false
}

/// One more record adds itself to those of the day where it was issued on
/// that day, and its location to theirs where that is not empty.
proof fn lemma_locations_push(
    events: Seq<ParsedTFREventView>,
    event: ParsedTFREventView,
    day: CalendarDate,
)
    ensures
        events_on(events.push(event), day) == if issue_day(event) == Some(day) {
            events_on(events, day).push(event)
        } else {
            events_on(events, day)
        },
        locations_on(events.push(event), day) == if issue_day(event) == Some(day)
            && event.location.len() > 0 {
            locations_on(events, day).push(event.location)
        } else {
            locations_on(events, day)
        },
{
    events.lemma_filter_push(event, issued_on(day));
    if issue_day(event) == Some(day) {
        let located = events_on(events, day).map_values(location_of());
        assert(events_on(events, day).push(event).map_values(location_of()) =~= located.push(
            event.location,
        ));
        located.lemma_filter_push(event.location, not_empty());
    }
}

/// The figures for `today`: the number of records of `events` issued on that
/// day, and the number of different places, the empty one set aside, in
/// which they were issued. A record whose issue date cannot be read counts
/// for no day.
pub fn summarize_for_date(events: &[ParsedTFREvent], today: CalendarDate) -> (counts: (
    usize,
    usize,
))
    ensures
        counts.0 == events_on(parsed_views(events@), today).len(),
        counts.1 == cities_on(parsed_views(events@), today).len(),
{
    let ghost all = parsed_views(events@);
    let mut cities: Vec<String> = Vec::new();
    let mut today_count: usize = 0;
    proof {
        reveal(Seq::filter);
        assert(all.take(0) =~= Seq::empty());
        assert(events_on(all.take(0), today) =~= Seq::empty());
        assert(events_on(all.take(0), today).map_values(location_of()) =~= Seq::empty());
        assert(locations_on(all.take(0), today) =~= Seq::empty());
        assert(string_views(cities@).to_set() =~= cities_on(all.take(0), today));
    }
    let mut i: usize = 0;
    while i < events.len()
        invariant
            i <= events.len(),
            all == parsed_views(events@),
            today_count == events_on(all.take(i as int), today).len(),
            today_count <= i,
            string_views(cities@).no_duplicates(),
            string_views(cities@).to_set() == cities_on(all.take(i as int), today),
        decreases events.len() - i,
    {
        let event = &events[i];
        proof {
            assert(all[i as int] == event@);
            assert(all.take(i + 1) =~= all.take(i as int).push(event@));
            lemma_locations_push(all.take(i as int), event@, today);
        }
        let issued = issue_date_of(event);
        let is_today = match issued {
            Some(day) => day == today,
            None => false,
        };
        if is_today {
            today_count = today_count + 1;
            if !event.location.as_str().is_empty() {
                proof {
                    locations_on(all.take(i as int), today).lemma_push_to_set_commute(
                        event@.location,
                    );
                }
                if !holds_string(&cities, &event.location) {
                    let ghost listed = string_views(cities@);
                    cities.push(event.location.clone());
                    proof {
                        assert(string_views(cities@) =~= listed.push(event@.location));
                        listed.lemma_push_to_set_commute(event@.location);
                    }
                } else {
                    assert(string_views(cities@).to_set().insert(event@.location)
                        =~= string_views(cities@).to_set());
                }
            }
        }
        i = i + 1;
    }
    proof {
        assert(all.take(events.len() as int) =~= all);
        string_views(cities@).unique_seq_to_set();
    }
    (today_count, cities.len())
}

/// The figures for the current day of the UTC calendar. The day is read from
/// the clock; the figures are those of `summarize_for_date` for that day.
pub fn summarize_matched_events(events: &[ParsedTFREvent]) -> (counts: (usize, usize))
    ensures
        exists|today: CalendarDate|
            counts.0 == (#[trigger] events_on(parsed_views(events@), today)).len() && counts.1
                == cities_on(parsed_views(events@), today).len(),
{
    let today = today_utc();
    let counts = summarize_for_date(events, today);
    assert(counts.0 == events_on(parsed_views(events@), today).len());
    counts
}

/// The date filter: one more record raises the count for a day by one where
/// its issue date reads as that day, and leaves it as it is where the date
/// reads as another day or cannot be read.
pub proof fn lemma_counted_where_issued_on_day(
    events: Seq<ParsedTFREventView>,
    event: ParsedTFREventView,
    day: CalendarDate,
)
    ensures
        issue_day(event) == Some(day) ==> events_on(events.push(event), day).len() == events_on(
            events,
            day,
        ).len() + 1,
        issue_day(event) != Some(day) ==> events_on(events.push(event), day) == events_on(
            events,
            day,
        ),
{
    lemma_locations_push(events, event, day);
}

} // verus!
