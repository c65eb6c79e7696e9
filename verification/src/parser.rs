//! From the tables of an advisory's detail markup to its record. The markup
//! carries no schema, only English labels inside tables: a table is told by
//! the markers in its text, and a field by the label in the text of a row.

use crate::markup::markup_tables;
use crate::markup::row_views;
use crate::markup::scan_markup;
use crate::markup::table_views;
use crate::markup::Row;
use crate::markup::RowView;
use crate::markup::Table;
use crate::markup::TableView;
use crate::text::string_views;
use crate::records::Airspace;
use crate::records::AirspaceView;
use crate::records::ParsedTFREvent;
use crate::records::ParsedTFREventView;
use crate::text::contains;
use crate::text::joined;
use crate::text::not_empty;
use crate::text::replaced;
use crate::text::str_contains;
use crate::text::str_replace;
use crate::text::trim;
use crate::text::trim_ascii;
use crate::text::trimmed;
use crate::text::trimmed_ascii;
use vstd::prelude::*;

verus! {

/// The function that trims a string.
pub open spec fn trimming() -> spec_fn(Seq<char>) -> Seq<char> {
    |fragment: Seq<char>| trimmed(fragment)
}

/// The fragments trimmed, without those that trimming leaves empty.
pub open spec fn visible_pieces(fragments: Seq<Seq<char>>) -> Seq<Seq<char>> {
    fragments.map_values(trimming()).filter(not_empty())
}

/// The flattened text of a block: its visible pieces, joined by single
/// spaces.
pub open spec fn flattened(fragments: Seq<Seq<char>>) -> Seq<char> {
    joined(visible_pieces(fragments), seq![' '])
}

/// One more fragment adds its trimmed form to the visible pieces, unless
/// that is empty.
proof fn lemma_visible_pieces_push(fragments: Seq<Seq<char>>, fragment: Seq<char>)
    ensures
        visible_pieces(fragments.push(fragment)) == if trimmed(fragment).len() > 0 {
            visible_pieces(fragments).push(trimmed(fragment))
        } else {
            visible_pieces(fragments)
        },
{
    assert(fragments.push(fragment).map_values(trimming()) =~= fragments.map_values(
        trimming(),
    ).push(trimmed(fragment)));
    fragments.map_values(trimming()).lemma_filter_push(trimmed(fragment), not_empty());
}

/// Every visible piece has a character.
proof fn lemma_visible_pieces_not_empty(fragments: Seq<Seq<char>>)
    ensures
        forall|i: int|
            0 <= i < visible_pieces(fragments).len() ==> (#[trigger] visible_pieces(
                fragments,
            )[i]).len() > 0,
{
    let mapped = fragments.map_values(trimming());
    assert forall|i: int| 0 <= i < visible_pieces(fragments).len() implies (
    #[trigger] visible_pieces(fragments)[i]).len() > 0 by {
        mapped.lemma_filter_pred(not_empty(), i);
    }
}

/// The flattened text of a block: every text fragment trimmed, the empty
/// ones dropped, the others joined by single spaces.
pub fn extract_text(fragments: &Vec<String>) -> (text: String)
    ensures
        text@ == flattened(string_views(fragments@)),
{
    let mut text = String::new();
    let ghost all = string_views(fragments@);
    let mut i: usize = 0;
    assert(all.take(0) =~= Seq::empty());
    assert(visible_pieces(Seq::empty()) =~= Seq::empty()) by {
        reveal(Seq::filter);
    }
    while i < fragments.len()
        invariant
            i <= fragments.len(),
            all == string_views(fragments@),
            text@ == flattened(all.take(i as int)),
            text@.len() == 0 <==> visible_pieces(all.take(i as int)).len() == 0,
        decreases fragments.len() - i,
    {
        let piece = trim(fragments[i].as_str());
        let ghost before = all.take(i as int);
        let ghost pieces = visible_pieces(before);
        let ghost old_text = text@;
        proof {
            reveal_strlit(" ");
            assert(" "@ =~= seq![' ']);
            assert(all[i as int] == fragments@[i as int]@);
            assert(all.take(i + 1) =~= before.push(all[i as int]));
            lemma_visible_pieces_push(before, all[i as int]);
            lemma_visible_pieces_not_empty(before);
            assert(pieces.push(piece@).drop_last() =~= pieces);
        }
        if !piece.is_empty() {
            if !text.as_str().is_empty() {
                text.append(" ");
            }
            text.append(piece);
            assert(text@ == joined(pieces.push(piece@), seq![' ']));
        }
        i = i + 1;
    }
    assert(all.take(fragments.len() as int) =~= all);
    text
}

/// Whether `row` gives a value under `label`: it has a cell, and its
/// flattened text holds the label.
pub open spec fn row_carries(row: RowView, label: Seq<char>) -> bool {
    row.cells.len() > 0 && contains(flattened(row.fragments), label)
}

/// The value that a row gives: the flattened text of its last cell.
pub open spec fn row_value(row: RowView) -> Seq<char>
    recommends
        row.cells.len() > 0,
{
    flattened(row.cells.last().fragments)
}

/// The value under `label` in `rows`: that of the last row that carries the
/// label, or `otherwise` where no row does.
pub open spec fn labelled_value(rows: Seq<RowView>, label: Seq<char>, otherwise: Seq<char>) -> Seq<
    char,
>
    decreases rows.len(),
{
    if rows.len() == 0 {
        otherwise
    } else if row_carries(rows.last(), label) {
        row_value(rows.last())
    } else {
        labelled_value(rows.drop_last(), label, otherwise)
    }
}

/// The values of all rows of `rows` that carry `label`, in order.
pub open spec fn labelled_values(rows: Seq<RowView>, label: Seq<char>) -> Seq<Seq<char>>
    decreases rows.len(),
{
    if rows.len() == 0 {
        Seq::empty()
    } else if row_carries(rows.last(), label) {
        labelled_values(rows.drop_last(), label).push(row_value(rows.last()))
    } else {
        labelled_values(rows.drop_last(), label)
    }
}

/// The identifier that a metadata table gives: the text of the last cell of
/// its first row, without the marker `FDC` and without ASCII whitespace
/// around it. `None` where the table has no row or its first row no cell.
pub open spec fn table_identifier(rows: Seq<RowView>) -> Option<Seq<char>> {
    if rows.len() > 0 && rows[0].cells.len() > 0 {
        Some(trimmed_ascii(replaced(row_value(rows[0]), "FDC"@, ""@)))
    } else {
        None
    }
}

/// `detail` after a metadata table with the flattened text `text` and the
/// rows `rows`.
pub open spec fn with_metadata(
    detail: ParsedTFREventView,
    text: Seq<char>,
    rows: Seq<RowView>,
) -> ParsedTFREventView {
    ParsedTFREventView {
        notam_id: if contains(text, "NOTAM Number"@) && table_identifier(rows) is Some {
            table_identifier(rows)->0
        } else {
            detail.notam_id
        },
        issue_date: labelled_value(rows, "Issue Date"@, detail.issue_date),
        location: labelled_value(rows, "Location"@, detail.location),
        begin: labelled_value(rows, "Beginning Date"@, detail.begin),
        end: labelled_value(rows, "Ending Date"@, detail.end),
        reason: labelled_value(rows, "Reason"@, detail.reason),
        category: labelled_value(rows, "Type"@, detail.category),
        replaced: labelled_value(rows, "Replaced NOTAM"@, detail.replaced),
        ..detail
    }
}

/// `airspace` after the rows of an airspace table: every row that carries
/// the effective-date label adds its value, the other fields take the value
/// of the last row that carries their label.
pub open spec fn with_airspace(airspace: AirspaceView, rows: Seq<RowView>) -> AirspaceView {
    AirspaceView {
        center: labelled_value(rows, "Center:"@, airspace.center),
        radius: labelled_value(rows, "Radius:"@, airspace.radius),
        altitude: labelled_value(rows, "Altitude:"@, airspace.altitude),
        effective: airspace.effective + labelled_values(rows, "Effective Date"@),
    }
}

/// `detail` after `table`. Each marker is looked for on its own: a table may
/// be of several kinds at once, or of none.
pub open spec fn with_table(detail: ParsedTFREventView, table: TableView) -> ParsedTFREventView {
    let text = flattened(table.fragments);
    let first = if contains(text, "Issue Date"@) {
        with_metadata(detail, text, table.rows)
    } else {
        detail
    };
    let second = if contains(text, "Airspace Definition"@) {
        ParsedTFREventView { airspace: with_airspace(first.airspace, table.rows), ..first }
    } else {
        first
    };
    let third = if contains(text, "Operating Restrictions and Requirements"@) {
        ParsedTFREventView { restrictions: text, ..second }
    } else {
        second
    };
    if contains(text, "Other Information"@) {
        ParsedTFREventView { other_info: text, ..third }
    } else {
        third
    }
}

/// The record that `tables` give: the empty record, taken through the
/// tables in order.
pub open spec fn parsed_tables(tables: Seq<TableView>) -> ParsedTFREventView
    decreases tables.len(),
{
    if tables.len() == 0 {
        ParsedTFREventView::empty()
    } else {
        with_table(parsed_tables(tables.drop_last()), tables.last())
    }
}

/// The record that the markup of a detail page gives.
pub open spec fn parsed_markup(markup: Seq<char>) -> ParsedTFREventView {
    parsed_tables(markup_tables(markup))
}

/// Puts `value` into `field` where `text` holds `label`.
fn take_labelled(field: &mut String, text: &str, label: &str, value: &String)
    ensures
        final(field)@ == (if contains(text@, label@) {
            value@
        } else {
            old(field)@
        }),
{
    if str_contains(text, label) {
        *field = value.clone();
    }
}

/// The flattened text of the last cell of `row`.
fn value_of_row(row: &Row) -> (value: String)
    requires
        row.cells@.len() > 0,
    ensures
        value@ == row_value(row@),
{
    let last = &row.cells[row.cells.len() - 1];
    assert(row@.cells.last() == last@);
    extract_text(&last.fragments)
}

fn read_metadata(detail: ParsedTFREvent, text: &str, rows: &Vec<Row>) -> (after: ParsedTFREvent)
    ensures
        after@ == with_metadata(detail@, text@, row_views(rows@)),
{
    let ghost before = detail@;
    let ghost all = row_views(rows@);
    let ParsedTFREvent {
        notam_id,
        issue_date,
        location,
        begin,
        end,
        reason,
        category,
        replaced,
        airspace,
        restrictions,
        other_info,
        description,
    } = detail;
    let mut notam_id = notam_id;
    let mut issue_date = issue_date;
    let mut location = location;
    let mut begin = begin;
    let mut end = end;
    let mut reason = reason;
    let mut category = category;
    let mut replaced = replaced;
    if str_contains(text, "NOTAM Number") && rows.len() > 0 && rows[0].cells.len() > 0 {
        assert(all[0] == rows@[0]@);
        let written = value_of_row(&rows[0]);
        proof {
            reveal_strlit("FDC");
        }
        let bare = str_replace(written.as_str(), "FDC", "");
        notam_id = trim_ascii(bare.as_str()).to_owned();
    }
    assert(all.take(0) =~= Seq::empty());
    let mut i: usize = 0;
    while i < rows.len()
        invariant
            i <= rows.len(),
            all == row_views(rows@),
            issue_date@ == labelled_value(all.take(i as int), "Issue Date"@, before.issue_date),
            location@ == labelled_value(all.take(i as int), "Location"@, before.location),
            begin@ == labelled_value(all.take(i as int), "Beginning Date"@, before.begin),
            end@ == labelled_value(all.take(i as int), "Ending Date"@, before.end),
            reason@ == labelled_value(all.take(i as int), "Reason"@, before.reason),
            category@ == labelled_value(all.take(i as int), "Type"@, before.category),
            replaced@ == labelled_value(all.take(i as int), "Replaced NOTAM"@, before.replaced),
        decreases rows.len() - i,
    {
        let row = &rows[i];
        proof {
            assert(all[i as int] == row@);
            assert(all.take(i + 1).last() == row@);
            assert(all.take(i + 1).drop_last() =~= all.take(i as int));
        }
        if row.cells.len() > 0 {
            let row_text = extract_text(&row.fragments);
            let value = value_of_row(row);
            take_labelled(&mut issue_date, row_text.as_str(), "Issue Date", &value);
            take_labelled(&mut location, row_text.as_str(), "Location", &value);
            take_labelled(&mut begin, row_text.as_str(), "Beginning Date", &value);
            take_labelled(&mut end, row_text.as_str(), "Ending Date", &value);
            take_labelled(&mut reason, row_text.as_str(), "Reason", &value);
            take_labelled(&mut category, row_text.as_str(), "Type", &value);
            take_labelled(&mut replaced, row_text.as_str(), "Replaced NOTAM", &value);
        }
        i = i + 1;
    }
    assert(all.take(rows.len() as int) =~= all);
    ParsedTFREvent {
        notam_id,
        issue_date,
        location,
        begin,
        end,
        reason,
        category,
        replaced,
        airspace,
        restrictions,
        other_info,
        description,
    }
}

fn read_airspace(airspace: Airspace, rows: &Vec<Row>) -> (after: Airspace)
    ensures
        after@ == with_airspace(airspace@, row_views(rows@)),
{
    let ghost before = airspace@;
    let ghost all = row_views(rows@);
    let Airspace { center, radius, altitude, effective } = airspace;
    let mut center = center;
    let mut radius = radius;
    let mut altitude = altitude;
    let mut effective = effective;
    assert(all.take(0) =~= Seq::empty());
    assert(string_views(effective@) =~= before.effective + labelled_values(
        all.take(0),
        "Effective Date"@,
    ));
    let mut i: usize = 0;
    while i < rows.len()
        invariant
            i <= rows.len(),
            all == row_views(rows@),
            center@ == labelled_value(all.take(i as int), "Center:"@, before.center),
            radius@ == labelled_value(all.take(i as int), "Radius:"@, before.radius),
            altitude@ == labelled_value(all.take(i as int), "Altitude:"@, before.altitude),
            string_views(effective@) == before.effective + labelled_values(
                all.take(i as int),
                "Effective Date"@,
            ),
        decreases rows.len() - i,
    {
        let row = &rows[i];
        proof {
            assert(all[i as int] == row@);
            assert(all.take(i + 1).last() == row@);
            assert(all.take(i + 1).drop_last() =~= all.take(i as int));
        }
        if row.cells.len() > 0 {
            let row_text = extract_text(&row.fragments);
            let value = value_of_row(row);
            take_labelled(&mut center, row_text.as_str(), "Center:", &value);
            take_labelled(&mut radius, row_text.as_str(), "Radius:", &value);
            take_labelled(&mut altitude, row_text.as_str(), "Altitude:", &value);
            if str_contains(row_text.as_str(), "Effective Date") {
                let ghost listed = string_views(effective@);
                effective.push(value);
                assert(string_views(effective@) =~= listed.push(row_value(row@)));
            }
        }
        assert(string_views(effective@) =~= before.effective + labelled_values(
            all.take(i + 1),
            "Effective Date"@,
        ));
        i = i + 1;
    }
    assert(all.take(rows.len() as int) =~= all);
    Airspace { center, radius, altitude, effective }
}

fn read_table(detail: ParsedTFREvent, table: &Table) -> (after: ParsedTFREvent)
    ensures
        after@ == with_table(detail@, table@),
{
    let text = extract_text(&table.fragments);
    let mut detail = detail;
    if str_contains(text.as_str(), "Issue Date") {
        detail = read_metadata(detail, text.as_str(), &table.rows);
    }
    if str_contains(text.as_str(), "Airspace Definition") {
        let ParsedTFREvent {
            notam_id,
            issue_date,
            location,
            begin,
            end,
            reason,
            category,
            replaced,
            airspace,
            restrictions,
            other_info,
            description,
        } = detail;
        detail = ParsedTFREvent {
            notam_id,
            issue_date,
            location,
            begin,
            end,
            reason,
            category,
            replaced,
            airspace: read_airspace(airspace, &table.rows),
            restrictions,
            other_info,
            description,
        };
    }
    if str_contains(text.as_str(), "Operating Restrictions and Requirements") {
        detail.restrictions = text.clone();
    }
    if str_contains(text.as_str(), "Other Information") {
        detail.other_info = text.clone();
    }
    detail
}

/// The record that the tables of a detail page give. Nothing is refused: a
/// field that no table gives stays empty.
pub fn parse_tables(tables: &Vec<Table>) -> (detail: ParsedTFREvent)
    ensures
        detail@ == parsed_tables(table_views(tables@)),
{
    let ghost all = table_views(tables@);
    let mut detail = ParsedTFREvent::default();
    assert(all.take(0) =~= Seq::empty());
    let mut i: usize = 0;
    while i < tables.len()
        invariant
            i <= tables.len(),
            all == table_views(tables@),
            detail@ == parsed_tables(all.take(i as int)),
        decreases tables.len() - i,
    {
        proof {
            assert(all[i as int] == tables@[i as int]@);
            assert(all.take(i + 1).last() == tables@[i as int]@);
            assert(all.take(i + 1).drop_last() =~= all.take(i as int));
        }
        detail = read_table(detail, &tables[i]);
        i = i + 1;
    }
    assert(all.take(tables.len() as int) =~= all);
    detail
}

/// Reads the markup of an advisory's detail page into a record. The result
/// is a function of the markup alone.
pub fn parse_notam_html(html_text: &str) -> (detail: ParsedTFREvent)
    ensures
        detail@ == parsed_markup(html_text@),
{
    let tables = scan_markup(html_text);
    parse_tables(&tables)
}

} // verus!
