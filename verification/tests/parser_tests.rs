use tfr_alert::markup::scan_markup;
use tfr_alert::markup::Cell;
use tfr_alert::markup::Row;
use tfr_alert::markup::Table;
use tfr_alert::parser::extract_text;
use tfr_alert::parser::parse_notam_html;
use tfr_alert::parser::parse_tables;
use tfr_alert::records::ParsedTFREvent;

fn strings(items: &[&str]) -> Vec<String> {
    items.iter().map(|s| s.to_string()).collect()
}

fn cell(text: &str) -> Cell {
    Cell { fragments: strings(&[text]) }
}

// A row of a label cell and a value cell, as the reader hands it out.
fn pair(label: &str, value: &str) -> Row {
    Row { fragments: strings(&[label, value]), cells: vec![cell(label), cell(value)] }
}

fn table_of(rows: Vec<Row>) -> Table {
    let mut fragments = Vec::new();
    for row in &rows {
        fragments.extend(row.fragments.iter().cloned());
    }
    Table { fragments, rows }
}

const DETAIL_PAGE: &str = r#"<html><body>
<table>
  <tr><td>NOTAM Number :</td><td><font>FDC 1/2345</font></td></tr>
  <tr><td>Issue Date :</td><td>03/16/2025</td></tr>
  <tr><td>Location :</td><td>Denver, CO</td></tr>
  <tr><td>Beginning Date and Time :</td><td>March 17, 2025 at 1300 UTC</td></tr>
  <tr><td>Ending Date and Time :</td><td>March 17, 2025 at 2100 UTC</td></tr>
  <tr><td>Reason for NOTAM :</td><td>Security exercise</td></tr>
  <tr><td>Type :</td><td>Security</td></tr>
  <tr><td>Replaced NOTAM(s) :</td><td>N/A</td></tr>
</table>
<table>
  <tr><th>Airspace Definition</th></tr>
  <tr><td>Center:</td><td>On the DEN VOR</td></tr>
  <tr><td>Radius:</td><td>3 nautical miles</td></tr>
  <tr><td>Altitude:</td><td>From the surface up to and including 400 feet AGL</td></tr>
  <tr><td>Effective Date(s):</td><td>From March 17 1300 UTC</td></tr>
  <tr><td>Effective Date(s):</td><td>To March 17 2100 UTC</td></tr>
</table>
<table><tr><td>Operating Restrictions and Requirements</td></tr><tr><td>No pilots may operate an aircraft in the area.</td></tr></table>
<table><tr><td>Other Information</td></tr><tr><td>Contact the   <b>FSS</b>
 for details.</td></tr></table>
</body></html>"#;

#[test]
fn flatten_trims_drops_and_joins() {
    let fragments = strings(&["  Issue Date ", "\n\t ", "", "03/16/2025\n", "x"]);
    assert_eq!(extract_text(&fragments), "Issue Date 03/16/2025 x");
}

#[test]
fn flatten_of_nothing_is_empty() {
    assert_eq!(extract_text(&Vec::new()), "");
    assert_eq!(extract_text(&strings(&["   ", "\n"])), "");
}

#[test]
fn flatten_keeps_inner_whitespace() {
    assert_eq!(extract_text(&strings(&[" a  b ", "c"])), "a  b c");
}

#[test]
fn flatten_trims_unicode_whitespace() {
    assert_eq!(extract_text(&strings(&["\u{a0}Denver\u{2003}", "\u{3000}"])), "Denver");
}

#[test]
fn scan_finds_tables_rows_and_cells() {
    let tables = scan_markup(DETAIL_PAGE);
    assert_eq!(tables.len(), 4);
    assert_eq!(tables[0].rows.len(), 8);
    assert_eq!(tables[0].rows[0].cells.len(), 2);
    assert_eq!(extract_text(&tables[0].rows[0].cells[1].fragments), "FDC 1/2345");
    assert_eq!(extract_text(&tables[0].rows[2].fragments), "Location : Denver, CO");
    assert_eq!(tables[1].rows.len(), 6);
    assert_eq!(tables[1].rows[0].cells.len(), 0);
    assert_eq!(tables[3].rows[1].cells[0].fragments.len(), 3);
}

#[test]
fn scan_of_markup_without_tables_finds_none() {
    assert_eq!(scan_markup("<p>nothing here</p>").len(), 0);
    assert_eq!(scan_markup("").len(), 0);
}

#[test]
fn scan_counts_a_nested_table_and_its_rows_twice() {
    let markup = "<table><tr><td>outer<table><tr><td>inner</td></tr></table></td></tr></table>";
    let tables = scan_markup(markup);
    assert_eq!(tables.len(), 2);
    assert_eq!(tables[0].rows.len(), 2);
    assert_eq!(tables[0].rows[0].cells.len(), 2);
    assert_eq!(tables[1].rows.len(), 1);
    assert_eq!(extract_text(&tables[0].fragments), "outer inner");
    assert_eq!(extract_text(&tables[1].fragments), "inner");
}

#[test]
fn identifier_and_location_of_a_small_page() {
    let markup = "<table><tr><td>NOTAM Number</td><td>FDC 1/2345</td></tr>\
                  <tr><td>Issue Date</td><td>03/16/2025</td></tr>\
                  <tr><td>Location</td><td>Denver, CO</td></tr></table>";
    let detail = parse_notam_html(markup);
    assert_eq!(detail.notam_id, "1/2345");
    assert_eq!(detail.location, "Denver, CO");
}

#[test]
fn parse_reads_every_field_of_a_detail_page() {
    let detail = parse_notam_html(DETAIL_PAGE);
    assert_eq!(detail.notam_id, "1/2345");
    assert_eq!(detail.issue_date, "03/16/2025");
    assert_eq!(detail.location, "Denver, CO");
    assert_eq!(detail.begin, "March 17, 2025 at 1300 UTC");
    assert_eq!(detail.end, "March 17, 2025 at 2100 UTC");
    assert_eq!(detail.reason, "Security exercise");
    assert_eq!(detail.category, "Security");
    assert_eq!(detail.replaced, "N/A");
    assert_eq!(detail.airspace.center, "On the DEN VOR");
    assert_eq!(detail.airspace.radius, "3 nautical miles");
    assert_eq!(detail.airspace.altitude, "From the surface up to and including 400 feet AGL");
    assert_eq!(
        detail.airspace.effective,
        strings(&["From March 17 1300 UTC", "To March 17 2100 UTC"])
    );
    assert_eq!(
        detail.restrictions,
        "Operating Restrictions and Requirements No pilots may operate an aircraft in the area."
    );
    assert_eq!(detail.other_info, "Other Information Contact the FSS for details.");
    assert_eq!(detail.description, "");
}

#[test]
fn parse_is_a_function_of_the_markup() {
    assert_eq!(parse_notam_html(DETAIL_PAGE), parse_notam_html(DETAIL_PAGE));
    let tables = scan_markup(DETAIL_PAGE);
    assert_eq!(parse_tables(&tables), parse_notam_html(DETAIL_PAGE));
}

#[test]
fn parse_of_markup_without_tables_is_the_empty_record() {
    assert_eq!(parse_notam_html("<p>Issue Date 03/16/2025</p>"), ParsedTFREvent::default());
    assert_eq!(parse_notam_html(""), ParsedTFREvent::default());
    assert_eq!(parse_tables(&Vec::new()), ParsedTFREvent::default());
}

#[test]
fn a_missing_field_does_not_block_the_others() {
    let tables = vec![table_of(vec![pair("Issue Date", "03/16/2025"), pair("Reason", "VIP")])];
    let detail = parse_tables(&tables);
    assert_eq!(detail.issue_date, "03/16/2025");
    assert_eq!(detail.reason, "VIP");
    assert_eq!(detail.location, "");
    assert_eq!(detail.notam_id, "");
    assert_eq!(detail.airspace.effective.len(), 0);
}

#[test]
fn row_order_does_not_matter() {
    let forward = vec![table_of(vec![pair("Issue Date", "03/16/2025"), pair("Location", "Denver")])];
    let backward = vec![table_of(vec![pair("Location", "Denver"), pair("Issue Date", "03/16/2025")])];
    assert_eq!(parse_tables(&forward).location, "Denver");
    assert_eq!(parse_tables(&backward).location, "Denver");
    assert_eq!(parse_tables(&backward).issue_date, "03/16/2025");
}

#[test]
fn the_last_row_with_a_label_wins() {
    let tables = vec![table_of(vec![
        pair("Issue Date", "03/16/2025"),
        pair("Location", "Denver"),
        pair("Location", "Boulder"),
    ])];
    assert_eq!(parse_tables(&tables).location, "Boulder");
}

#[test]
fn a_later_metadata_table_overwrites_an_earlier_one() {
    let tables = vec![
        table_of(vec![pair("Issue Date", "03/16/2025"), pair("Location", "Denver")]),
        table_of(vec![pair("Issue Date", "03/17/2025")]),
    ];
    let detail = parse_tables(&tables);
    assert_eq!(detail.issue_date, "03/17/2025");
    assert_eq!(detail.location, "Denver");
}

#[test]
fn labels_are_read_only_in_a_metadata_table() {
    let tables = vec![table_of(vec![pair("Location", "Denver"), pair("Reason", "VIP")])];
    assert_eq!(parse_tables(&tables), ParsedTFREvent::default());
}

#[test]
fn markers_and_labels_are_case_sensitive() {
    let lower = vec![table_of(vec![pair("issue date", "03/16/2025")])];
    assert_eq!(parse_tables(&lower), ParsedTFREvent::default());
    let mixed = vec![table_of(vec![pair("Issue Date", "03/16/2025"), pair("location", "Denver")])];
    assert_eq!(parse_tables(&mixed).location, "");
}

#[test]
fn a_row_can_carry_several_labels() {
    let tables = vec![table_of(vec![pair("Issue Date", "x"), pair("Type of Reason", "both")])];
    let detail = parse_tables(&tables);
    assert_eq!(detail.category, "both");
    assert_eq!(detail.reason, "both");
}

#[test]
fn a_row_without_cells_is_passed_over() {
    let header = Row { fragments: strings(&["Issue Date", "Location"]), cells: Vec::new() };
    let detail = parse_tables(&vec![table_of(vec![header])]);
    assert_eq!(detail, ParsedTFREvent::default());
}

#[test]
fn the_value_is_the_text_of_the_last_cell() {
    let row = Row {
        fragments: strings(&["Location", "first", " Denver,", "CO "]),
        cells: vec![cell("Location"), cell("first"), Cell { fragments: strings(&[" Denver,", "CO "]) }],
    };
    let detail = parse_tables(&vec![table_of(vec![pair("Issue Date", "d"), row])]);
    assert_eq!(detail.location, "Denver, CO");
}

#[test]
fn the_identifier_needs_the_number_marker() {
    let tables = vec![table_of(vec![pair("Number", "FDC 1/2345"), pair("Issue Date", "d")])];
    assert_eq!(parse_tables(&tables).notam_id, "");
}

#[test]
fn the_identifier_comes_from_the_first_row() {
    let tables = vec![table_of(vec![
        pair("Issue Date", " FDC 9/9999 "),
        pair("NOTAM Number", "FDC 1/2345"),
    ])];
    let detail = parse_tables(&tables);
    assert_eq!(detail.notam_id, "9/9999");
    assert_eq!(detail.issue_date, "FDC 9/9999");
}

#[test]
fn every_marker_is_taken_out_of_the_identifier() {
    let tables = vec![table_of(vec![pair("NOTAM Number Issue Date", "FDCFDC 5/0001 FDC")])];
    assert_eq!(parse_tables(&tables).notam_id, "5/0001");
    let inner = vec![table_of(vec![pair("NOTAM Number Issue Date", "FFDCDC 5/FDC0001")])];
    assert_eq!(parse_tables(&inner).notam_id, "FDC 5/0001");
}

#[test]
fn the_identifier_keeps_whitespace_that_is_not_ascii() {
    let row = Row {
        fragments: strings(&["NOTAM Number Issue Date"]),
        cells: vec![Cell { fragments: strings(&["FDC\u{a0}1/2345\u{c}FDC"]) }],
    };
    assert_eq!(parse_tables(&vec![table_of(vec![row])]).notam_id, "\u{a0}1/2345");
}

#[test]
fn without_a_first_cell_the_identifier_stays() {
    let header = Row { fragments: strings(&["NOTAM Number", "Issue Date"]), cells: Vec::new() };
    let tables = vec![
        table_of(vec![pair("NOTAM Number Issue Date", "FDC 1/2345")]),
        table_of(vec![header, pair("NOTAM Number", "FDC 7/7777")]),
    ];
    assert_eq!(parse_tables(&tables).notam_id, "1/2345");
}

#[test]
fn effective_dates_accumulate_over_rows_and_tables() {
    let first = table_of(vec![
        pair("Airspace Definition", ""),
        pair("Effective Date(s):", "one"),
        pair("Center:", "a"),
        pair("Effective Date(s):", "two"),
    ]);
    let second = table_of(vec![
        pair("Airspace Definition", ""),
        pair("Center:", "b"),
        pair("Effective Date(s):", "three"),
    ]);
    let detail = parse_tables(&vec![first, second]);
    assert_eq!(detail.airspace.effective, strings(&["one", "two", "three"]));
    assert_eq!(detail.airspace.center, "b");
    assert_eq!(detail.airspace.radius, "");
}

#[test]
fn a_table_can_be_of_several_kinds() {
    let table = table_of(vec![
        pair("Issue Date", "03/16/2025"),
        pair("Airspace Definition", "x"),
        pair("Altitude:", "400 feet"),
        pair("Other Information", "y"),
        pair("Operating Restrictions and Requirements", "z"),
    ]);
    let detail = parse_tables(&vec![table]);
    let text = "Issue Date 03/16/2025 Airspace Definition x Altitude: 400 feet \
                Other Information y Operating Restrictions and Requirements z";
    assert_eq!(detail.issue_date, "03/16/2025");
    assert_eq!(detail.airspace.altitude, "400 feet");
    assert_eq!(detail.restrictions, text);
    assert_eq!(detail.other_info, text);
}

#[test]
fn the_last_restrictions_table_wins() {
    let first = table_of(vec![pair("Operating Restrictions and Requirements", "old")]);
    let second = table_of(vec![pair("Operating Restrictions and Requirements", "new")]);
    let detail = parse_tables(&vec![first, second]);
    assert_eq!(detail.restrictions, "Operating Restrictions and Requirements new");
    assert_eq!(detail.other_info, "");
}
