//! The matched history: every record that ever satisfied the criteria, each
//! identifier once, the newest poll in front.

use crate::records::has_id;
use crate::records::ids;
use crate::records::ParsedTFREvent;
use crate::records::ParsedTFREventView;
use vstd::prelude::*;

verus! {

/// The views of `events`, in order.
pub open spec fn parsed_views(events: Seq<ParsedTFREvent>) -> Seq<ParsedTFREventView> {
    events.map_values(|e: ParsedTFREvent| e@)
}

/// The identifiers of `events`, in order.
pub open spec fn parsed_ids(events: Seq<ParsedTFREventView>) -> Seq<Seq<char>> {
    events.map_values(|e: ParsedTFREventView| e.notam_id)
}

/// Whether no identifier occurs twice in `events`.
pub open spec fn distinct_ids(events: Seq<ParsedTFREventView>) -> bool {
    parsed_ids(events).no_duplicates()
}

/// Whether `id` stands at exactly one place of `list`.
pub open spec fn appears_once(list: Seq<Seq<char>>, id: Seq<char>) -> bool {
    exists|i: int|
        0 <= i < list.len() && #[trigger] list[i] == id && forall|j: int|
            0 <= j < list.len() && #[trigger] list[j] == id ==> j == i
}

/// `history` after the matches of one poll. A match whose identifier the
/// history has, or that a later match of the batch has too, is left out; the
/// others stand in front of the history, in the order of the batch.
pub open spec fn merged_history(
    history: Seq<ParsedTFREventView>,
    batch: Seq<ParsedTFREventView>,
) -> Seq<ParsedTFREventView>
    decreases batch.len(),
{
    if batch.len() == 0 {
        history
    } else {
        let later = merged_history(history, batch.drop_first());
        if parsed_ids(later).contains(batch.first().notam_id) {
            later
        } else {
            seq![batch.first()] + later
        }
    }
}

/// Merges the matches of one poll into the history: taken from the last to
/// the first, each match whose identifier the history does not have yet goes
/// to its front.
pub fn merge_matches(history: Vec<ParsedTFREvent>, new_matches: &[ParsedTFREvent]) -> (merged: Vec<
    ParsedTFREvent,
>)
    ensures
        parsed_views(merged@) == merged_history(parsed_views(history@), parsed_views(new_matches@)),
{
    let ghost before = parsed_views(history@);
    let ghost batch = parsed_views(new_matches@);
    let mut merged = history;
    let mut i: usize = new_matches.len();
    assert(batch.skip(i as int) =~= Seq::empty());
    while i > 0
        invariant
            i <= new_matches.len(),
            batch == parsed_views(new_matches@),
            parsed_views(merged@) == merged_history(before, batch.skip(i as int)),
        decreases i,
    {
        i = i - 1;
        let event = &new_matches[i];
        proof {
            assert(batch[i as int] == event@);
            assert(batch.skip(i as int).first() == event@);
            assert(batch.skip(i as int).drop_first() =~= batch.skip(i + 1));
            assert(ids(merged@) =~= parsed_ids(parsed_views(merged@)));
        }
        if !has_id(merged.as_slice(), &event.notam_id) {
            let ghost later = parsed_views(merged@);
            merged.insert(0, event.clone());
            assert(parsed_views(merged@) =~= seq![event@] + later);
        }
    }
    assert(batch.skip(0) =~= batch);
    merged
}

/// A merge adds in front and leaves the history as it was behind.
pub proof fn lemma_merge_keeps_history(
    history: Seq<ParsedTFREventView>,
    batch: Seq<ParsedTFREventView>,
)
    ensures
        merged_history(history, batch).len() >= history.len(),
        merged_history(history, batch).skip(
            merged_history(history, batch).len() - history.len(),
        ) == history,
    decreases batch.len(),
{
    let merged = merged_history(history, batch);
    if batch.len() == 0 {
        assert(merged.skip(0) =~= history);
    } else {
        lemma_merge_keeps_history(history, batch.drop_first());
        let later = merged_history(history, batch.drop_first());
        if !parsed_ids(later).contains(batch.first().notam_id) {
            assert(merged.skip(merged.len() - history.len()) =~= later.skip(
                later.len() - history.len(),
            ));
        }
    }
}

/// After a merge the history has the identifier of every match of the batch.
pub proof fn lemma_merge_holds_batch(
    history: Seq<ParsedTFREventView>,
    batch: Seq<ParsedTFREventView>,
    k: int,
)
    requires
        0 <= k < batch.len(),
    ensures
        parsed_ids(merged_history(history, batch)).contains(batch[k].notam_id),
    decreases batch.len(),
{
    let merged = merged_history(history, batch);
    let later = merged_history(history, batch.drop_first());
    let id = batch[k].notam_id;
    if k > 0 {
        lemma_merge_holds_batch(history, batch.drop_first(), k - 1);
    }
    if parsed_ids(later).contains(id) {
        let at = choose|at: int| 0 <= at < later.len() && parsed_ids(later)[at] == id;
        if merged.len() > later.len() {
            assert(parsed_ids(merged)[at + 1] == id);
        }
    } else {
        assert(k == 0);
        assert(parsed_ids(merged)[0] == id);
    }
}

/// A merge keeps every identifier that the history had.
pub proof fn lemma_merge_holds_history(
    history: Seq<ParsedTFREventView>,
    batch: Seq<ParsedTFREventView>,
    id: Seq<char>,
)
    requires
        parsed_ids(history).contains(id),
    ensures
        parsed_ids(merged_history(history, batch)).contains(id),
{
    let merged = merged_history(history, batch);
    lemma_merge_keeps_history(history, batch);
    let at = choose|at: int| 0 <= at < history.len() && parsed_ids(history)[at] == id;
    let shift = merged.len() - history.len();
    assert(merged.skip(shift)[at] == history[at]);
    assert(parsed_ids(merged)[shift + at] == id);
}

/// A merge into a history without a repeated identifier gives a history
/// without a repeated identifier.
pub proof fn lemma_merge_keeps_ids_distinct(
    history: Seq<ParsedTFREventView>,
    batch: Seq<ParsedTFREventView>,
)
    requires
        distinct_ids(history),
    ensures
        distinct_ids(merged_history(history, batch)),
    decreases batch.len(),
{
    if batch.len() > 0 {
        lemma_merge_keeps_ids_distinct(history, batch.drop_first());
        let later = merged_history(history, batch.drop_first());
        let merged = merged_history(history, batch);
        if !parsed_ids(later).contains(batch.first().notam_id) {
            assert forall|i: int, j: int|
                0 <= i < merged.len() && 0 <= j < merged.len() && i != j implies parsed_ids(
                merged,
            )[i] != parsed_ids(merged)[j] by {
                if i > 0 {
                    assert(parsed_ids(merged)[i] == parsed_ids(later)[i - 1]);
                }
                if j > 0 {
                    assert(parsed_ids(merged)[j] == parsed_ids(later)[j - 1]);
                }
            }
        }
    }
}

/// Every identifier that a history without a repeated identifier had before
/// a merge appears exactly once after it.
pub proof fn lemma_merge_dedup(
    history: Seq<ParsedTFREventView>,
    batch: Seq<ParsedTFREventView>,
    id: Seq<char>,
)
    requires
        distinct_ids(history),
        parsed_ids(history).contains(id),
    ensures
        appears_once(parsed_ids(merged_history(history, batch)), id),
{
    let list = parsed_ids(merged_history(history, batch));
    lemma_merge_holds_history(history, batch, id);
    lemma_merge_keeps_ids_distinct(history, batch);
    let i = choose|i: int| 0 <= i < list.len() && list[i] == id;
    assert(0 <= i < list.len() && list[i] == id && forall|j: int|
        0 <= j < list.len() && #[trigger] list[j] == id ==> j == i);
}

/// A batch whose identifiers the history has all leaves the history as it
/// is.
pub proof fn lemma_merge_of_known(
    history: Seq<ParsedTFREventView>,
    batch: Seq<ParsedTFREventView>,
)
    requires
        forall|k: int|
            0 <= k < batch.len() ==> parsed_ids(history).contains(#[trigger] batch[k].notam_id),
    ensures
        merged_history(history, batch) == history,
    decreases batch.len(),
{
    if batch.len() > 0 {
        let rest = batch.drop_first();
        assert forall|k: int| 0 <= k < rest.len() implies parsed_ids(history).contains(
            #[trigger] rest[k].notam_id,
        ) by {
            assert(rest[k] == batch[k + 1]);
        }
        lemma_merge_of_known(history, rest);
        assert(parsed_ids(history).contains(batch[0].notam_id));
    }
}

/// To merge a batch a second time changes nothing.
pub proof fn lemma_merge_idempotent(
    history: Seq<ParsedTFREventView>,
    batch: Seq<ParsedTFREventView>,
)
    ensures
        merged_history(merged_history(history, batch), batch) == merged_history(history, batch),
{
    let merged = merged_history(history, batch);
    assert forall|k: int| 0 <= k < batch.len() implies parsed_ids(merged).contains(
        #[trigger] batch[k].notam_id,
    ) by {
        lemma_merge_holds_batch(history, batch, k);
    }
    lemma_merge_of_known(merged, batch);
}

} // verus!
