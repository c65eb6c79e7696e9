//! The advisories of interest in a snapshot, and those among them that the
//! previous snapshot did not have.

use crate::records::has_id;
use crate::records::ids;
use crate::records::RawTFREvent;
use crate::records::RawTFREventView;
use crate::text::eq_ignoring_ascii_case;
use crate::text::str_eq_ignore_ascii_case;
use vstd::prelude::*;

verus! {

/// The views of `events`, in order.
pub open spec fn raw_views(events: Seq<RawTFREvent>) -> Seq<RawTFREventView> {
    events.map_values(|e: RawTFREvent| e@)
}

/// The identifiers of `events`, in order.
pub open spec fn raw_ids(events: Seq<RawTFREventView>) -> Seq<Seq<char>> {
    events.map_values(|e: RawTFREventView| e.notam_id)
}

/// Whether `event` is of the class of interest: its category reads
/// `SECURITY`, the case of ASCII letters set aside. An advisory without a
/// category is not.
pub open spec fn is_of_interest(event: RawTFREventView) -> bool {
    eq_ignoring_ascii_case(
        match event.category {
            Some(category) => category,
            None => ""@,
        },
        "SECURITY"@,
    )
}

/// The predicate that holds of the advisories of interest.
pub open spec fn of_interest() -> spec_fn(RawTFREventView) -> bool {
    |event: RawTFREventView| is_of_interest(event)
}

/// The advisories of interest among `events`, in their order.
pub open spec fn filtered_events(events: Seq<RawTFREventView>) -> Seq<RawTFREventView> {
    events.filter(of_interest())
}

/// The predicate that holds of the advisories whose identifier none of
/// `known` has.
pub open spec fn unknown_to(known: Seq<RawTFREventView>) -> spec_fn(RawTFREventView) -> bool {
    |event: RawTFREventView| !raw_ids(known).contains(event.notam_id)
}

/// The advisories of `current` whose identifier none of `previous` has, in
/// the order of `current`.
pub open spec fn new_events(
    current: Seq<RawTFREventView>,
    previous: Seq<RawTFREventView>,
) -> Seq<RawTFREventView> {
    current.filter(unknown_to(previous))
}

/// The advisories of interest among `data`, in their order.
pub fn get_filtered_events(data: &[RawTFREvent]) -> (kept: Vec<RawTFREvent>)
    ensures
        raw_views(kept@) == filtered_events(raw_views(data@)),
{
    let ghost all = raw_views(data@);
    let mut kept: Vec<RawTFREvent> = Vec::new();
    assert(all.take(0) =~= Seq::empty());
    assert(raw_views(kept@) =~= all.take(0).filter(of_interest())) by {
        reveal(Seq::filter);
    }
    let mut i: usize = 0;
    while i < data.len()
        invariant
            i <= data.len(),
            all == raw_views(data@),
            raw_views(kept@) == all.take(i as int).filter(of_interest()),
        decreases data.len() - i,
    {
        let event = &data[i];
        let wanted = match &event.category {
            Some(category) => str_eq_ignore_ascii_case(category.as_str(), "SECURITY"),
            None => str_eq_ignore_ascii_case("", "SECURITY"),
        };
        proof {
            assert(all[i as int] == event@);
            assert(wanted == is_of_interest(event@));
            assert(all.take(i + 1) =~= all.take(i as int).push(event@));
            all.take(i as int).lemma_filter_push(event@, of_interest());
        }
        if wanted {
            let ghost listed = raw_views(kept@);
            kept.push(event.clone());
            assert(raw_views(kept@) =~= listed.push(event@));
        }
        i = i + 1;
    }
    assert(all.take(data.len() as int) =~= all);
    kept
}

/// The identifiers of records are those of their views.
proof fn lemma_ids_of_views(events: Seq<RawTFREvent>)
    ensures
        ids(events) == raw_ids(raw_views(events)),
{
    assert(ids(events) =~= raw_ids(raw_views(events)));
}

/// The advisories of `current` that are new since `cached` was taken: those
/// whose identifier none of `cached` has, in the order of `current`.
pub fn get_new_events(current: &[RawTFREvent], cached: &[RawTFREvent]) -> (fresh: Vec<RawTFREvent>)
    ensures
        raw_views(fresh@) == new_events(raw_views(current@), raw_views(cached@)),
{
    let ghost all = raw_views(current@);
    let ghost known = raw_views(cached@);
    let mut fresh: Vec<RawTFREvent> = Vec::new();
    assert(all.take(0) =~= Seq::empty());
    assert(raw_views(fresh@) =~= all.take(0).filter(unknown_to(known))) by {
        reveal(Seq::filter);
    }
    proof {
        lemma_ids_of_views(cached@);
    }
    let mut i: usize = 0;
    while i < current.len()
        invariant
            i <= current.len(),
            all == raw_views(current@),
            known == raw_views(cached@),
            ids(cached@) == raw_ids(known),
            raw_views(fresh@) == all.take(i as int).filter(unknown_to(known)),
        decreases current.len() - i,
    {
        let event = &current[i];
        let seen = has_id(cached, &event.notam_id);
        proof {
            assert(all[i as int] == event@);
            assert(all.take(i + 1) =~= all.take(i as int).push(event@));
            all.take(i as int).lemma_filter_push(event@, unknown_to(known));
        }
        if !seen {
            let ghost listed = raw_views(fresh@);
            fresh.push(event.clone());
            assert(raw_views(fresh@) =~= listed.push(event@));
        }
        i = i + 1;
    }
    assert(all.take(current.len() as int) =~= all);
    fresh
}

/// The new advisories are exactly the advisories of `current` whose
/// identifier does not occur in `previous`.
pub proof fn lemma_new_events_exact(
    current: Seq<RawTFREventView>,
    previous: Seq<RawTFREventView>,
    event: RawTFREventView,
)
    ensures
        new_events(current, previous).contains(event) <==> current.contains(event) && !raw_ids(
            previous,
        ).contains(event.notam_id),
{
    let fresh = new_events(current, previous);
    if fresh.contains(event) {
        let i = choose|i: int| 0 <= i < fresh.len() && fresh[i] == event;
        current.lemma_filter_pred(unknown_to(previous), i);
        current.lemma_filter_contains_rev(unknown_to(previous), event);
    }
    if current.contains(event) && !raw_ids(previous).contains(event.notam_id) {
        let i = choose|i: int| 0 <= i < current.len() && current[i] == event;
        current.lemma_filter_contains(unknown_to(previous), i);
    }
}

/// The new advisories stand in the order in which `current` has them: of two
/// new advisories, the one that comes first is found first in `current`.
pub proof fn lemma_new_events_keep_order(
    current: Seq<RawTFREventView>,
    previous: Seq<RawTFREventView>,
) -> (at: Seq<int>)
    ensures
        at.len() == new_events(current, previous).len(),
        forall|k: int|
            0 <= k < at.len() ==> 0 <= #[trigger] at[k] < current.len() && new_events(
                current,
                previous,
            )[k] == current[at[k]],
        forall|j: int, k: int| 0 <= j < k < at.len() ==> at[j] < at[k],
    decreases current.len(),
{
    reveal(Seq::filter);
    if current.len() == 0 {
        Seq::empty()
    } else {
        let before = lemma_new_events_keep_order(current.drop_last(), previous);
        if unknown_to(previous)(current.last()) {
            before.push(current.len() - 1)
        } else {
            before
        }
    }
}

/// Against itself a snapshot has no new advisory.
pub proof fn lemma_no_new_events_against_self(snapshot: Seq<RawTFREventView>)
    ensures
        new_events(snapshot, snapshot) == Seq::<RawTFREventView>::empty(),
{
    let known = unknown_to(snapshot);
    assert forall|i: int| 0 <= i < snapshot.len() implies !known(#[trigger] snapshot[i]) by {
        assert(raw_ids(snapshot)[i] == snapshot[i].notam_id);
    }
    assert(snapshot.all(|event: RawTFREventView| !known(event)));
    snapshot.lemma_all_neg_filter_empty(known);
    assert(new_events(snapshot, snapshot) =~= Seq::empty());
}

} // verus!
