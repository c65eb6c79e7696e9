//! What to tell the user of the matches of a poll, and what to post of one
//! of them. The text is made here; to show it is the owner's part.

use crate::history::parsed_views;
use crate::pipeline::detail_page_url;
use crate::pipeline::NOTAM_DETAIL_URL;
use crate::records::ParsedTFREvent;
use crate::records::ParsedTFREventView;
use crate::text::decimal;
use crate::text::decimal_string;
use crate::text::trim;
use crate::text::trimmed;
use vstd::prelude::*;

verus! {

/// A notification: a title, and a body of lines.
#[derive(Debug, PartialEq, Eq)]
pub struct NotificationText {
    title: String,
    body: String,
}

/// What a `NotificationText` holds.
pub struct NotificationTextView {
    pub title: Seq<char>,
    pub body: Seq<char>,
}

impl View for NotificationText {
    type V = NotificationTextView;

    closed spec fn view(&self) -> NotificationTextView {
        NotificationTextView { title: self.title@, body: self.body@ }
    }
}

impl NotificationText {
    /// The title.
    pub fn title(&self) -> (title: &String)
        ensures
            title@ == self@.title,
    {
        &self.title
    }

    /// The body.
    pub fn body(&self) -> (body: &String)
        ensures
            body@ == self@.body,
    {
        &self.body
    }
}

/// `line` where `value` is not empty, else nothing.
pub open spec fn line_if_given(value: Seq<char>, line: Seq<char>) -> Seq<char> {
    if value.len() > 0 {
        line
    } else {
        Seq::empty()
    }
}

/// The notification for one match: the identifier in the title, with the
/// location where there is one; the reason and the restrictions in the body,
/// each on a line of its own where it is given.
pub open spec fn single_notification(event: ParsedTFREventView) -> NotificationTextView {
    NotificationTextView {
        title: "New TFR: "@ + event.notam_id + line_if_given(
            event.location,
            " ("@ + event.location + ")"@,
        ),
        body: line_if_given(event.reason, "Reason: "@ + event.reason + "\n"@) + line_if_given(
            event.restrictions,
            "Restrictions: "@ + event.restrictions + "\n"@,
        ),
    }
}

/// The place named in a batch line: the location, or a stand-in where the
/// location is blank.
pub open spec fn place_named(event: ParsedTFREventView) -> Seq<char> {
    if trimmed(event.location).len() == 0 {
        "(Unknown)"@
    } else {
        event.location
    }
}

/// The line of `event` in the body of a batch notification.
pub open spec fn batch_line(event: ParsedTFREventView) -> Seq<char> {
    "* "@ + place_named(event) + ": "@ + event.reason + "\n"@
}

/// The body of a batch notification: the lines of `events`, in order.
pub open spec fn batch_body(events: Seq<ParsedTFREventView>) -> Seq<char>
    decreases events.len(),
{
    if events.len() == 0 {
        Seq::empty()
    } else {
        batch_body(events.drop_last()) + batch_line(events.last())
    }
}

/// The notification for several matches: their number in the title, a line
/// for each in the body. There is none for no match.
pub open spec fn batch_notification(events: Seq<ParsedTFREventView>) -> Option<
    NotificationTextView,
> {
    if events.len() == 0 {
        None
    } else {
        Some(
            NotificationTextView {
                title: decimal(events.len()) + " TFRs"@,
                body: batch_body(events),
            },
        )
    }
}

/// The notification for the matches of a poll: none for no match, that of
/// the match for one, that of the batch for more.
pub open spec fn notification_text(events: Seq<ParsedTFREventView>) -> Option<
    NotificationTextView,
> {
    if events.len() == 0 {
        None
    } else if events.len() == 1 {
        Some(single_notification(events[0]))
    } else {
        batch_notification(events)
    }
}

/// The view of a notification that may be absent.
pub open spec fn optional_notification(text: Option<NotificationText>) -> Option<
    NotificationTextView,
> {
    match text {
        Some(text) => Some(text@),
        None => None,
    }
}

/// The notification for one match.
pub fn build_single_notification(event: &ParsedTFREvent) -> (text: Option<NotificationText>)
    ensures
        optional_notification(text) == Some(single_notification(event@)),
{
    let mut title = "New TFR: ".to_owned();
    title.append(event.notam_id.as_str());
    let mut body = String::new();
    if !event.location.as_str().is_empty() {
        title.append(" (");
        title.append(event.location.as_str());
        title.append(")");
    }
    if !event.reason.as_str().is_empty() {
        body.append("Reason: ");
        body.append(event.reason.as_str());
        body.append("\n");
    }
    if !event.restrictions.as_str().is_empty() {
        body.append("Restrictions: ");
        body.append(event.restrictions.as_str());
        body.append("\n");
    }
    let text = NotificationText { title, body };
    assert(text@.title =~= single_notification(event@).title);
    assert(text@.body =~= single_notification(event@).body);
    Some(text)
}

/// The notification for several matches.
pub fn build_batch_notification(events: &[ParsedTFREvent]) -> (text: Option<NotificationText>)
    ensures
        optional_notification(text) == batch_notification(parsed_views(events@)),
{
    if events.len() == 0 {
        return None;
    }
    let ghost all = parsed_views(events@);
    let mut body = String::new();
    assert(all.take(0) =~= Seq::empty());
    let mut i: usize = 0;
    while i < events.len()
        invariant
            i <= events.len(),
            all == parsed_views(events@),
            body@ == batch_body(all.take(i as int)),
        decreases events.len() - i,
    {
        let event = &events[i];
        proof {
            assert(all[i as int] == event@);
            assert(all.take(i + 1).last() == event@);
            assert(all.take(i + 1).drop_last() =~= all.take(i as int));
        }
        let ghost before = body@;
        body.append("* ");
        if trim(event.location.as_str()).is_empty() {
            body.append("(Unknown)");
        } else {
            body.append(event.location.as_str());
        }
        body.append(": ");
        body.append(event.reason.as_str());
        body.append("\n");
        assert(body@ =~= before + batch_line(event@));
        i = i + 1;
    }
    assert(all.take(events.len() as int) =~= all);
    let mut title = decimal_string(events.len());
    title.append(" TFRs");
    Some(NotificationText { title, body })
}

/// The notification for the matches of a poll.
pub fn get_notification_text(events: &[ParsedTFREvent]) -> (text: Option<NotificationText>)
    ensures
        optional_notification(text) == notification_text(parsed_views(events@)),
{
    if events.len() == 0 {
        None
    } else if events.len() == 1 {
        build_single_notification(&events[0])
    } else {
        build_batch_notification(events)
    }
}

/// What to show the user of the matches of a poll; `None` where there is
/// nothing to show.
pub fn notify(events: &Vec<ParsedTFREvent>) -> (text: Option<NotificationText>)
    ensures
        optional_notification(text) == notification_text(parsed_views(events@)),
{
    get_notification_text(events.as_slice())
}

/// The text of a post on `event`: where and when it was issued, and the
/// address of its detail page.
pub open spec fn post_text(event: ParsedTFREventView) -> Seq<char> {
    event.location + " "@ + event.issue_date + ": New TFR: "@ + NOTAM_DETAIL_URL@ + event.notam_id
}

/// The text of a post on `event`.
pub fn get_text(event: &ParsedTFREvent) -> (text: String)
    ensures
        text@ == post_text(event@),
{
    let mut text = event.location.clone();
    text.append(" ");
    text.append(event.issue_date.as_str());
    text.append(": New TFR: ");
    let url = detail_page_url(event.notam_id.as_str());
    text.append(url.as_str());
    text
}

} // verus!
