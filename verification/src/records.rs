//! The advisory records and their mathematical views.

use crate::text::optional_view;
use crate::text::string_views;
use vstd::prelude::*;

verus! {

/// A copy of `strings`, item by item.
pub fn clone_strings(strings: &Vec<String>) -> (copy: Vec<String>)
    ensures
        string_views(copy@) == string_views(strings@),
{
    let mut copy: Vec<String> = Vec::new();
    let mut i: usize = 0;
    while i < strings.len()
        invariant
            i <= strings.len(),
            copy@.len() == i,
            forall|j: int| 0 <= j < i ==> (#[trigger] copy@[j])@ == strings@[j]@,
        decreases strings.len() - i,
    {
        copy.push(strings[i].clone());
        i = i + 1;
    }
    assert(string_views(copy@) =~= string_views(strings@));
    copy
}

/// The airspace that an advisory restricts.
#[derive(Debug, PartialEq, Eq)]
pub struct Airspace {
    pub center: String,
    pub radius: String,
    pub altitude: String,
    pub effective: Vec<String>,
}

/// What an `Airspace` holds.
pub struct AirspaceView {
    pub center: Seq<char>,
    pub radius: Seq<char>,
    pub altitude: Seq<char>,
    pub effective: Seq<Seq<char>>,
}

impl AirspaceView {
    /// The airspace of which nothing is known.
    pub open spec fn empty() -> AirspaceView {
        AirspaceView {
            center: Seq::empty(),
            radius: Seq::empty(),
            altitude: Seq::empty(),
            effective: Seq::empty(),
        }
    }
}

impl View for Airspace {
    type V = AirspaceView;

    open spec fn view(&self) -> AirspaceView {
        AirspaceView {
            center: self.center@,
            radius: self.radius@,
            altitude: self.altitude@,
            effective: string_views(self.effective@),
        }
    }
}

impl Clone for Airspace {
    fn clone(&self) -> (copy: Self)
        ensures
            copy@ == self@,
    {
        Airspace {
            center: self.center.clone(),
            radius: self.radius.clone(),
            altitude: self.altitude.clone(),
            effective: clone_strings(&self.effective),
        }
    }
}

impl Default for Airspace {
    fn default() -> (airspace: Self)
        ensures
            airspace@ == AirspaceView::empty(),
    {
        let airspace = Airspace {
            center: String::new(),
            radius: String::new(),
            altitude: String::new(),
            effective: Vec::new(),
        };
        assert(airspace@.effective =~= Seq::empty());
        airspace
    }
}

/// The fields read from one advisory's detail markup. A field that the
/// markup does not give is empty.
#[derive(Debug, PartialEq, Eq)]
pub struct ParsedTFREvent {
    pub notam_id: String,
    pub issue_date: String,
    pub location: String,
    pub begin: String,
    pub end: String,
    pub reason: String,
    pub category: String,
    pub replaced: String,
    pub airspace: Airspace,
    pub restrictions: String,
    pub other_info: String,
    pub description: String,
}

/// What a `ParsedTFREvent` holds.
pub struct ParsedTFREventView {
    pub notam_id: Seq<char>,
    pub issue_date: Seq<char>,
    pub location: Seq<char>,
    pub begin: Seq<char>,
    pub end: Seq<char>,
    pub reason: Seq<char>,
    pub category: Seq<char>,
    pub replaced: Seq<char>,
    pub airspace: AirspaceView,
    pub restrictions: Seq<char>,
    pub other_info: Seq<char>,
    pub description: Seq<char>,
}

impl ParsedTFREventView {
    /// The record in which every field is empty.
    pub open spec fn empty() -> ParsedTFREventView {
        ParsedTFREventView {
            notam_id: Seq::empty(),
            issue_date: Seq::empty(),
            location: Seq::empty(),
            begin: Seq::empty(),
            end: Seq::empty(),
            reason: Seq::empty(),
            category: Seq::empty(),
            replaced: Seq::empty(),
            airspace: AirspaceView::empty(),
            restrictions: Seq::empty(),
            other_info: Seq::empty(),
            description: Seq::empty(),
        }
    }
}

impl View for ParsedTFREvent {
    type V = ParsedTFREventView;

    open spec fn view(&self) -> ParsedTFREventView {
        ParsedTFREventView {
            notam_id: self.notam_id@,
            issue_date: self.issue_date@,
            location: self.location@,
            begin: self.begin@,
            end: self.end@,
            reason: self.reason@,
            category: self.category@,
            replaced: self.replaced@,
            airspace: self.airspace@,
            restrictions: self.restrictions@,
            other_info: self.other_info@,
            description: self.description@,
        }
    }
}

impl Clone for ParsedTFREvent {
    fn clone(&self) -> (copy: Self)
        ensures
            copy@ == self@,
    {
        ParsedTFREvent {
            notam_id: self.notam_id.clone(),
            issue_date: self.issue_date.clone(),
            location: self.location.clone(),
            begin: self.begin.clone(),
            end: self.end.clone(),
            reason: self.reason.clone(),
            category: self.category.clone(),
            replaced: self.replaced.clone(),
            airspace: self.airspace.clone(),
            restrictions: self.restrictions.clone(),
            other_info: self.other_info.clone(),
            description: self.description.clone(),
        }
    }
}

impl Default for ParsedTFREvent {
    fn default() -> (event: Self)
        ensures
            event@ == ParsedTFREventView::empty(),
    {
        ParsedTFREvent {
            notam_id: String::new(),
            issue_date: String::new(),
            location: String::new(),
            begin: String::new(),
            end: String::new(),
            reason: String::new(),
            category: String::new(),
            replaced: String::new(),
            airspace: Airspace::default(),
            restrictions: String::new(),
            other_info: String::new(),
            description: String::new(),
        }
    }
}

/// One entry of the snapshot feed, as published. `parsed` is present once
/// the advisory's detail markup has been read.
#[derive(Debug, PartialEq, Eq)]
pub struct RawTFREvent {
    pub notam_id: String,
    pub description: String,
    pub location: Option<String>,
    pub category: Option<String>,
    pub parsed: Option<ParsedTFREvent>,
}

/// What a `RawTFREvent` holds.
pub struct RawTFREventView {
    pub notam_id: Seq<char>,
    pub description: Seq<char>,
    pub location: Option<Seq<char>>,
    pub category: Option<Seq<char>>,
    pub parsed: Option<ParsedTFREventView>,
}

impl View for RawTFREvent {
    type V = RawTFREventView;

    open spec fn view(&self) -> RawTFREventView {
        RawTFREventView {
            notam_id: self.notam_id@,
            description: self.description@,
            location: optional_view(self.location),
            category: optional_view(self.category),
            parsed: match self.parsed {
                Some(parsed) => Some(parsed@),
                None => None,
            },
        }
    }
}

impl Clone for RawTFREvent {
    fn clone(&self) -> (copy: Self)
        ensures
            copy@ == self@,
    {
        RawTFREvent {
            notam_id: self.notam_id.clone(),
            description: self.description.clone(),
            location: match &self.location {
                Some(location) => Some(location.clone()),
                None => None,
            },
            category: match &self.category {
                Some(category) => Some(category.clone()),
                None => None,
            },
            parsed: match &self.parsed {
                Some(parsed) => Some(parsed.clone()),
                None => None,
            },
        }
    }
}

/// An advisory record, named by the identifier that the feed gave it.
pub trait TFREvent: Sized {
    /// The identifier of this record.
    spec fn id(&self) -> Seq<char>;

    /// The identifier of this record.
    fn notam_id(&self) -> (id: &String)
        ensures
            id@ == self.id(),
    ;
}

impl TFREvent for ParsedTFREvent {
    open spec fn id(&self) -> Seq<char> {
        self.notam_id@
    }

    fn notam_id(&self) -> (id: &String) {
        &self.notam_id
    }
}

impl TFREvent for RawTFREvent {
    open spec fn id(&self) -> Seq<char> {
        self.notam_id@
    }

    fn notam_id(&self) -> (id: &String) {
        &self.notam_id
    }
}

/// The identifiers of `events`, in order.
pub open spec fn ids<T: TFREvent>(events: Seq<T>) -> Seq<Seq<char>> {
    events.map_values(|e: T| e.id())
}

/// Whether one of `events` has the identifier `id`.
pub fn has_id<T: TFREvent>(events: &[T], id: &String) -> (found: bool)
    ensures
        found == ids(events@).contains(id@),
{
    let mut i: usize = 0;
    while i < events.len()
        invariant
            i <= events.len(),
            forall|j: int| 0 <= j < i ==> (#[trigger] events@[j]).id() != id@,
        decreases events.len() - i,
    {
        let same = *events[i].notam_id() == *id;
        if same {
            assert(ids(events@)[i as int] == id@);
            return true;
        }
        i = i + 1;
    }
    assert(!ids(events@).contains(id@)) by {
        assert forall|j: int| 0 <= j < ids(events@).len() implies ids(events@)[j] != id@ by {
            assert(ids(events@)[j] == events@[j].id());
        }
    }
    false
}

} // verus!
