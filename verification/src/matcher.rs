//! The user's keyword criteria: which records match, and how the keyword
//! list is read.

use crate::records::ParsedTFREvent;
use crate::records::ParsedTFREventView;
use crate::text::contains;
use crate::text::lines;
use crate::text::lines_of;
use crate::text::lowercased;
use crate::text::not_empty;
use crate::text::str_contains;
use crate::text::string_views;
use crate::text::to_lowercase;
use crate::text::trim;
use crate::text::trimmed;
use vstd::prelude::*;

verus! {

/// The text of `event` that keywords are looked for in, before it is
/// lowercased: ten of its fields in a fixed order, a space between
/// neighbours.
pub open spec fn search_fields(event: ParsedTFREventView) -> Seq<char> {
    event.notam_id + seq![' '] + event.location + seq![' '] + event.reason + seq![' ']
        + event.begin + seq![' '] + event.end + seq![' '] + event.restrictions + seq![' ']
        + event.other_info + seq![' '] + event.airspace.center + seq![' ']
        + event.airspace.altitude + seq![' '] + event.description
}

/// The lowercase search string of `event`.
pub open spec fn search_text(event: ParsedTFREventView) -> Seq<char> {
    lowercased(search_fields(event))
}

/// Whether `keyword` is a substring of the search string of `event`, the
/// case of letters set aside.
pub open spec fn keyword_found(event: ParsedTFREventView, keyword: Seq<char>) -> bool {
    contains(search_text(event), lowercased(keyword))
}

/// Whether `event` satisfies `keywords`: there is no keyword, or one of them
/// is found in the event.
pub open spec fn matches_criteria(event: ParsedTFREventView, keywords: Seq<Seq<char>>) -> bool {
    keywords.len() == 0 || exists|k: int|
        0 <= k < keywords.len() && keyword_found(event, #[trigger] keywords[k])
}

/// The lowercase search string of `event`.
pub fn searchable_text(event: &ParsedTFREvent) -> (text: String)
    ensures
        text@ == search_text(event@),
{
    let mut fields = event.notam_id.clone();
    proof {
        reveal_strlit(" ");
        assert(" "@ =~= seq![' ']);
    }
    fields.append(" ");
    fields.append(event.location.as_str());
    fields.append(" ");
    fields.append(event.reason.as_str());
    fields.append(" ");
    fields.append(event.begin.as_str());
    fields.append(" ");
    fields.append(event.end.as_str());
    fields.append(" ");
    fields.append(event.restrictions.as_str());
    fields.append(" ");
    fields.append(event.other_info.as_str());
    fields.append(" ");
    fields.append(event.airspace.center.as_str());
    fields.append(" ");
    fields.append(event.airspace.altitude.as_str());
    fields.append(" ");
    fields.append(event.description.as_str());
    to_lowercase(fields.as_str())
}

/// Whether `event` satisfies the keyword criteria. An empty keyword list
/// lets every record through.
pub fn event_matches_criteria(event: &ParsedTFREvent, keywords: &[String]) -> (matched: bool)
    ensures
        matched == matches_criteria(event@, string_views(keywords@)),
        keywords@.len() == 0 ==> matched,
{
    if keywords.len() == 0 {
        return true;
    }
    let text = searchable_text(event);
    let ghost all = string_views(keywords@);
    let mut k: usize = 0;
    while k < keywords.len()
        invariant
            k <= keywords.len(),
            all == string_views(keywords@),
            text@ == search_text(event@),
            forall|j: int| 0 <= j < k ==> !keyword_found(event@, #[trigger] all[j]),
        decreases keywords.len() - k,
    {
        let keyword = to_lowercase(keywords[k].as_str());
        if str_contains(text.as_str(), keyword.as_str()) {
            assert(keyword_found(event@, all[k as int]));
            return true;
        }
        k = k + 1;
    }
    false
}

/// The function from a line of the keyword list to its keyword.
pub open spec fn keyword_of_line() -> spec_fn(Seq<char>) -> Seq<char> {
    |line: Seq<char>| lowercased(trimmed(line))
}

/// The keywords that a keyword list holds: its lines, each trimmed and
/// lowercased, without those that are then empty.
pub open spec fn keywords_of(content: Seq<char>) -> Seq<Seq<char>> {
    lines_of(content).map_values(keyword_of_line()).filter(not_empty())
}

/// Reads the keyword list. `None` stands for a list that is not there: it
/// gives no keyword, as an empty list does.
pub fn load_keywords(content: Option<&str>) -> (keywords: Vec<String>)
    ensures
        string_views(keywords@) == match content {
            Some(text) => keywords_of(text@),
            None => Seq::empty(),
        },
{
    let mut keywords: Vec<String> = Vec::new();
    match content {
        None => {
            assert(string_views(keywords@) =~= Seq::empty());
        },
        Some(text) => {
            let found = lines(text);
            let ghost all = lines_of(text@);
            let ghost mapped = all.map_values(keyword_of_line());
            assert(mapped.take(0) =~= Seq::empty());
            assert(string_views(keywords@) =~= mapped.take(0).filter(not_empty())) by {
                reveal(Seq::filter);
            }
            let mut i: usize = 0;
            while i < found.len()
                invariant
                    i <= found.len(),
                    all == lines_of(text@),
                    all == string_views(found@),
                    mapped == all.map_values(keyword_of_line()),
                    string_views(keywords@) == mapped.take(i as int).filter(not_empty()),
                decreases found.len() - i,
            {
                let keyword = to_lowercase(trim(found[i].as_str()));
                proof {
                    assert(all[i as int] == found@[i as int]@);
                    assert(mapped[i as int] == keyword@);
                    assert(mapped.take(i + 1) =~= mapped.take(i as int).push(keyword@));
                    mapped.take(i as int).lemma_filter_push(keyword@, not_empty());
                }
                if !keyword.as_str().is_empty() {
                    let ghost listed = string_views(keywords@);
                    keywords.push(keyword);
                    assert(string_views(keywords@) =~= listed.push(keyword@));
                }
                i = i + 1;
            }
            assert(mapped.take(found.len() as int) =~= mapped);
        },
    }
    keywords
}

} // verus!
