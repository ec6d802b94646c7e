//! Reads the detail table out of the HTML of a song's page.

use crate::dom::children_of;
use crate::dom::compile_selector;
use crate::dom::compiled_selector;
use crate::dom::document_matches;
use crate::dom::document_tree;
use crate::dom::element_children;
use crate::dom::element_markup;
use crate::dom::element_matches;
use crate::dom::element_name;
use crate::dom::element_text;
use crate::dom::markup_of;
use crate::dom::name_of;
use crate::dom::parse_document;
use crate::dom::select_in_document;
use crate::dom::select_in_element;
use crate::dom::text_of;
use crate::dom::ChildNode;
use crate::dom::ChildShape;
use crate::error::StructureError;
use crate::song_details::live_table::extract_performances;
use crate::song_details::live_table::performances_of;
use crate::song_details::live_table::performances_view;
use crate::song_details::live_table::DetailCell;
use crate::song_details::live_table::DetailCellModel;
use crate::song_details::live_table::DetailRow;
use crate::song_details::live_table::DetailRowModel;
use crate::song_details::live_table::Inline;
use crate::song_details::live_table::InlineModel;
use crate::song_details::performance::Performance;
use crate::song_list::SongTitle;
use crate::text::same_text;
use scraper::ElementRef;
use scraper::Html;
use scraper::Selector;
use vstd::prelude::*;

verus! {

/// The selector of the rows of the detail table.
pub open spec fn detail_row_css() -> Seq<char> {
    "table.InfoboxLive3 tr"@
}

/// The selector of the data cells of a row.
pub open spec fn detail_cell_css() -> Seq<char> {
    "td"@
}

/// The tag name of a line break.
pub open spec fn line_break_tag() -> Seq<char> {
    "br"@
}

/// What a child of a cell adds to the cell's content: a `br` element is a
/// line break, any other element stands for all the text below it, a text
/// node for its text, and anything else for nothing.
pub open spec fn inline_of(child: ChildShape) -> Option<InlineModel> {
    match child {
        ChildShape::Element(e) => Some(
            if element_name(e) == line_break_tag() {
                InlineModel::Break
            } else {
                InlineModel::Text(element_text(e))
            },
        ),
        ChildShape::Text(t) => Some(InlineModel::Text(t)),
        ChildShape::Other => None,
    }
}

/// The content that `children` make, child by child in order.
pub open spec fn inlines_of(children: Seq<ChildShape>) -> Seq<InlineModel>
    decreases children.len(),
{
    if children.len() == 0 {
        Seq::empty()
    } else {
        let earlier = inlines_of(children.drop_last());
        match inline_of(children.last()) {
            Some(part) => earlier.push(part),
            None => earlier,
        }
    }
}

/// The cell that the element `td` is.
pub open spec fn detail_cell_of(td: ElementRef) -> DetailCellModel {
    DetailCellModel { parts: inlines_of(element_children(td)), markup: element_markup(td) }
}

/// The row that the element `tr` is, its cells found by `cells`.
pub open spec fn detail_row_of(tr: ElementRef, cells: Selector) -> DetailRowModel {
    DetailRowModel {
        cells: element_matches(tr, cells).map_values(|td: ElementRef| detail_cell_of(td)),
        text: element_text(tr),
        markup: element_markup(tr),
    }
}

/// The rows of the detail table of `document`, in document order.
pub open spec fn detail_rows_of(document: Html) -> Seq<DetailRowModel> {
    document_matches(document, compiled_selector(detail_row_css()).unwrap()).map_values(
        |tr: ElementRef| detail_row_of(tr, compiled_selector(detail_cell_css()).unwrap()),
    )
}

/// Reads performance histories. It holds its selectors compiled, so one
/// extractor serves any number of pages.
pub struct PerformanceTableExtractor {
    rows: Selector,
    cells: Selector,
}

impl PerformanceTableExtractor {
    #[verifier::type_invariant]
    spec fn holds_compiled_selectors(&self) -> bool {
        &&& compiled_selector(detail_row_css()) == Some(self.rows)
        &&& compiled_selector(detail_cell_css()) == Some(self.cells)
    }

    /// Compiles the two selectors. `None` where one of them does not
    /// compile.
    pub fn new() -> (r: Option<Self>)
        ensures
            r.is_some() == (compiled_selector(detail_row_css()).is_some() && compiled_selector(
                detail_cell_css(),
            ).is_some()),
    {
        let rows = compile_selector("table.InfoboxLive3 tr");
        let cells = compile_selector("td");
        match (rows, cells) {
            (Some(rows), Some(cells)) => Some(PerformanceTableExtractor { rows, cells }),
            _ => None,
        }
    }

    /// The rows of the detail table of `document`.
    fn rows_in(&self, document: &Html) -> (r: Vec<DetailRow>)
        ensures
            r.deep_view() == detail_rows_of(*document),
    {
        proof {
            use_type_invariant(self);
        }
        let found = select_in_document(document, &self.rows);
        let mut out: Vec<DetailRow> = Vec::new();
        let mut i: usize = 0;
        while i < found.len()
            invariant
                i <= found.len(),
                found@ == document_matches(*document, self.rows),
                compiled_selector(detail_row_css()) == Some(self.rows),
                compiled_selector(detail_cell_css()) == Some(self.cells),
                out.len() == i,
                forall|j: int| 0 <= j < i ==> (#[trigger] out[j])@ == detail_row_of(
                    found[j],
                    self.cells,
                ),
            decreases found.len() - i,
        {
            let row = read_detail_row(found[i], &self.cells);
            out.push(row);
            i = i + 1;
        }
        assert(out.deep_view() =~= detail_rows_of(*document));
        out
    }

    /// The rows of the detail table in the HTML of a song's page, in
    /// document order, each with what the extraction reads of it.
    pub fn read_rows(&self, html: &str) -> (r: Vec<DetailRow>)
        ensures
            r.deep_view() == detail_rows_of(document_tree(html@)),
    {
        let document = parse_document(html);
        self.rows_in(&document)
    }

    /// Reads the performances of the song `title` from the HTML of its page.
    /// The rows of the detail table pair off in document order; the first
    /// error ends the reading.
    pub fn extract(&self, html: &str, title: &SongTitle) -> (r: Result<
        Vec<Performance>,
        StructureError,
    >)
        ensures
            performances_view(r) == performances_of(
                detail_rows_of(document_tree(html@)),
                title@,
            ),
    {
        let rows = self.read_rows(html);
        extract_performances(&rows, title)
    }
}

/// Reads one data cell.
fn read_detail_cell(td: ElementRef) -> (r: DetailCell)
    ensures
        r@ == detail_cell_of(td),
{
    let children = children_of(td);
    let ghost shapes = element_children(td);
    let mut parts: Vec<Inline> = Vec::new();
    let mut i: usize = 0;
    assert(shapes.take(0) =~= Seq::<ChildShape>::empty());
    assert(parts.deep_view() =~= Seq::<InlineModel>::empty());
    while i < children.len()
        invariant
            i <= children.len(),
            shapes == element_children(td),
            children@.len() == shapes.len(),
            forall|j: int| 0 <= j < children@.len() ==> (#[trigger] children@[j])@ == shapes[j],
            parts.deep_view() == inlines_of(shapes.take(i as int)),
        decreases children.len() - i,
    {
        let ghost before = parts.deep_view();
        proof {
            assert(shapes.take(i + 1).drop_last() =~= shapes.take(i as int));
            assert(shapes.take(i + 1).last() == children@[i as int]@);
        }
        match &children[i] {
            ChildNode::Element(e) => {
                let name = name_of(*e);
                if same_text(name.as_str(), "br") {
                    parts.push(Inline::Break);
                    assert(parts.deep_view() =~= before.push(InlineModel::Break));
                } else {
                    let text = text_of(*e);
                    parts.push(Inline::Text(text));
                    assert(parts.deep_view() =~= before.push(InlineModel::Text(text@)));
                }
            },
            ChildNode::Text(t) => {
                let text = t.clone();
                parts.push(Inline::Text(text));
                assert(parts.deep_view() =~= before.push(InlineModel::Text(text@)));
            },
            ChildNode::Other => {},
        }
        i = i + 1;
    }
    assert(shapes.take(i as int) =~= shapes);
    DetailCell { parts, markup: markup_of(td) }
}

/// Reads one row, its cells found by `cells`.
fn read_detail_row(tr: ElementRef, cells: &Selector) -> (r: DetailRow)
    ensures
        r@ == detail_row_of(tr, *cells),
{
    let found = select_in_element(tr, cells);
    let mut out: Vec<DetailCell> = Vec::new();
    let mut i: usize = 0;
    while i < found.len()
        invariant
            i <= found.len(),
            found@ == element_matches(tr, *cells),
            out.len() == i,
            forall|j: int| 0 <= j < i ==> (#[trigger] out[j])@ == detail_cell_of(found[j]),
        decreases found.len() - i,
    {
        let cell = read_detail_cell(found[i]);
        out.push(cell);
        i = i + 1;
    }
    assert(out.deep_view() =~= element_matches(tr, *cells).map_values(
        |td: ElementRef| detail_cell_of(td),
    ));
    DetailRow { cells: out, text: text_of(tr), markup: markup_of(tr) }
}

} // verus!
