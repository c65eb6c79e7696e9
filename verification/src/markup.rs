//! Detail markup as the parser reads it: the tables of a document, their
//! rows and cells, each with its text fragments. The document itself is read
//! by the `scraper` crate.

use crate::text::string_views;
use scraper::ElementRef;
use scraper::Html;
use scraper::Selector;
use vstd::prelude::*;

verus! {

/// One cell of a table row.
#[derive(Debug, PartialEq, Eq)]
pub struct Cell {
    /// The text nodes below the cell, in document order, as they stand.
    pub fragments: Vec<String>,
}

/// What a `Cell` holds.
pub struct CellView {
    pub fragments: Seq<Seq<char>>,
}

impl View for Cell {
    type V = CellView;

    open spec fn view(&self) -> CellView {
        CellView { fragments: string_views(self.fragments@) }
    }
}

/// The views of `cells`, in order.
pub open spec fn cell_views(cells: Seq<Cell>) -> Seq<CellView> {
    cells.map_values(|c: Cell| c@)
}

/// One row of a table.
#[derive(Debug, PartialEq, Eq)]
pub struct Row {
    /// The text nodes below the row, in document order, as they stand.
    pub fragments: Vec<String>,
    /// The cells below the row, in document order.
    pub cells: Vec<Cell>,
}

/// What a `Row` holds.
pub struct RowView {
    pub fragments: Seq<Seq<char>>,
    pub cells: Seq<CellView>,
}

impl View for Row {
    type V = RowView;

    open spec fn view(&self) -> RowView {
        RowView { fragments: string_views(self.fragments@), cells: cell_views(self.cells@) }
    }
}

/// The views of `rows`, in order.
pub open spec fn row_views(rows: Seq<Row>) -> Seq<RowView> {
    rows.map_values(|r: Row| r@)
}

/// One table of a document.
#[derive(Debug, PartialEq, Eq)]
pub struct Table {
    /// The text nodes below the table, in document order, as they stand.
    pub fragments: Vec<String>,
    /// The rows below the table, in document order.
    pub rows: Vec<Row>,
}

/// What a `Table` holds.
pub struct TableView {
    pub fragments: Seq<Seq<char>>,
    pub rows: Seq<RowView>,
}

impl View for Table {
    type V = TableView;

    open spec fn view(&self) -> TableView {
        TableView { fragments: string_views(self.fragments@), rows: row_views(self.rows@) }
    }
}

/// The views of `tables`, in order.
pub open spec fn table_views(tables: Seq<Table>) -> Seq<TableView> {
    tables.map_values(|t: Table| t@)
}

/// A parsed document of the `scraper` crate: a tree of nodes.
#[verifier::external_type_specification]
#[verifier::external_body]
pub struct ExHtml(scraper::Html);

/// A parsed group of CSS selectors of the `scraper` crate.
#[verifier::external_type_specification]
#[verifier::external_body]
pub struct ExSelector(scraper::Selector);

/// A reference to one element node of a parsed document.
#[verifier::external_type_specification]
#[verifier::external_body]
pub struct ExElementRef<'a>(scraper::ElementRef<'a>);

/// The document that `scraper::Html::parse_document` builds from `markup`.
pub uninterp spec fn document_of(markup: Seq<char>) -> Html;

/// The selector that `scraper::Selector::parse` builds from `text`, if it
/// accepts `text`.
pub uninterp spec fn selector_of(text: Seq<char>) -> Option<Selector>;

/// The elements of `document` that match `selector`, in the order in which
/// `scraper::Html::select` yields them.
pub uninterp spec fn document_matches(document: Html, selector: Selector) -> Seq<
    ElementRef<'static>,
>;

/// The elements below `element` that match `selector`, in the order in
/// which `scraper::ElementRef::select` yields them.
pub uninterp spec fn element_matches(element: ElementRef<'_>, selector: Selector) -> Seq<
    ElementRef<'_>,
>;

/// The text nodes below `element`, in the order in which
/// `scraper::ElementRef::text` yields them.
pub uninterp spec fn element_text(element: ElementRef<'_>) -> Seq<Seq<char>>;

/// `scraper::Html::parse_document`: parses `markup` as an HTML document.
/// Parsing does not fail; the document depends on `markup` alone.
#[verifier::external_body]
fn parse_document(markup: &str) -> (document: Html)
    ensures
        document == document_of(markup@),
{
    Html::parse_document(markup)
}

/// `scraper::Selector::parse`: parses `text` as a group of CSS selectors, or
/// refuses it. The outcome depends on `text` alone.
#[verifier::external_body]
fn parse_selector(text: &str) -> (selector: Option<Selector>)
    ensures
        selector == selector_of(text@),
{
    Selector::parse(text).ok()
}

/// `scraper::Html::select`: the elements of the document that match the
/// selector, collected from the iterator.
#[verifier::external_body]
fn select_in_document<'a>(document: &'a Html, selector: &Selector) -> (found: Vec<ElementRef<'a>>)
    ensures
        found@ == document_matches(*document, *selector),
{
    document.select(selector).collect()
}

/// `scraper::ElementRef::select`: the elements below `element` that match
/// the selector, collected from the iterator.
#[verifier::external_body]
fn select_in_element<'a>(element: &ElementRef<'a>, selector: &Selector) -> (found: Vec<
    ElementRef<'a>,
>)
    ensures
        found@ == element_matches(*element, *selector),
{
    element.select(selector).collect()
}

/// `scraper::ElementRef::text`: the text nodes below `element`, each copied
/// into a string, collected from the iterator.
#[verifier::external_body]
fn text_of_element(element: &ElementRef) -> (fragments: Vec<String>)
    ensures
        string_views(fragments@) == element_text(*element),
{
    element.text().map(|fragment| fragment.to_string()).collect()
}

/// The cell that `element` stands for.
pub open spec fn cell_of(element: ElementRef<'_>) -> CellView {
    CellView { fragments: element_text(element) }
}

/// The row that `element` stands for, its cells found by `cell`.
pub open spec fn row_of(element: ElementRef<'_>, cell: Selector) -> RowView {
    RowView {
        fragments: element_text(element),
        cells: element_matches(element, cell).map_values(|c: ElementRef| cell_of(c)),
    }
}

/// The table that `element` stands for, its rows found by `row` and their
/// cells by `cell`.
pub open spec fn table_of(element: ElementRef<'_>, row: Selector, cell: Selector) -> TableView {
    TableView {
        fragments: element_text(element),
        rows: element_matches(element, row).map_values(|r: ElementRef| row_of(r, cell)),
    }
}

/// The tables of the document that `markup` parses to: every `table`
/// element, with every `tr` element below it as a row and every `td` element
/// below a row as a cell. No table is found where one of the three selectors
/// cannot be built.
pub open spec fn markup_tables(markup: Seq<char>) -> Seq<TableView> {
    match (selector_of("table"@), selector_of("tr"@), selector_of("td"@)) {
        (Some(table), Some(row), Some(cell)) => document_matches(
            document_of(markup),
            table,
        ).map_values(|t: ElementRef| table_of(t, row, cell)),
        _ => Seq::empty(),
    }
}

fn scan_row(element: &ElementRef, cell: &Selector) -> (row: Row)
    ensures
        row@ == row_of(*element, *cell),
{
    let found = select_in_element(element, cell);
    let mut cells: Vec<Cell> = Vec::new();
    let mut i: usize = 0;
    while i < found.len()
        invariant
            i <= found.len(),
            cells@.len() == i,
            forall|j: int| 0 <= j < i ==> (#[trigger] cells@[j])@ == cell_of(found@[j]),
        decreases found.len() - i,
    {
        cells.push(Cell { fragments: text_of_element(&found[i]) });
        i = i + 1;
    }
    let row = Row { fragments: text_of_element(element), cells };
    assert(row@.cells =~= row_of(*element, *cell).cells);
    row
}

fn scan_table(element: &ElementRef, row: &Selector, cell: &Selector) -> (table: Table)
    ensures
        table@ == table_of(*element, *row, *cell),
{
    let found = select_in_element(element, row);
    let mut rows: Vec<Row> = Vec::new();
    let mut i: usize = 0;
    while i < found.len()
        invariant
            i <= found.len(),
            rows@.len() == i,
            forall|j: int| 0 <= j < i ==> (#[trigger] rows@[j])@ == row_of(found@[j], *cell),
        decreases found.len() - i,
    {
        rows.push(scan_row(&found[i], cell));
        i = i + 1;
    }
    let table = Table { fragments: text_of_element(element), rows };
    assert(table@.rows =~= table_of(*element, *row, *cell).rows);
    table
}

/// Reads `markup` as an HTML document and hands out its tables.
pub fn scan_markup(markup: &str) -> (tables: Vec<Table>)
    ensures
        table_views(tables@) == markup_tables(markup@),
{
    let mut tables: Vec<Table> = Vec::new();
    let table = parse_selector("table");
    let row = parse_selector("tr");
    let cell = parse_selector("td");
    match (table, row, cell) {
        (Some(table), Some(row), Some(cell)) => {
            let document = parse_document(markup);
            let found = select_in_document(&document, &table);
            let mut i: usize = 0;
            while i < found.len()
                invariant
                    i <= found.len(),
                    tables@.len() == i,
                    forall|j: int|
                        0 <= j < i ==> (#[trigger] tables@[j])@ == table_of(found@[j], row, cell),
                decreases found.len() - i,
            {
                tables.push(scan_table(&found[i], &row, &cell));
                i = i + 1;
            }
            assert(table_views(tables@) =~= markup_tables(markup@));
        },
        _ => {
            assert(table_views(tables@) =~= markup_tables(markup@));
        },
    }
    tables
}

} // verus!
