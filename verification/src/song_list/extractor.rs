//! Reads the master table out of the HTML of the song-list page.

use crate::dom::attr_of;
use crate::dom::compile_selector;
use crate::dom::compiled_selector;
use crate::dom::document_matches;
use crate::dom::document_tree;
use crate::dom::element_attr;
use crate::dom::element_markup;
use crate::dom::element_matches;
use crate::dom::element_text;
use crate::dom::markup_of;
use crate::dom::parse_document;
use crate::dom::select_in_document;
use crate::dom::select_in_element;
use crate::dom::text_of;
use crate::error::StructureError;
use crate::song_list::master_table::extract_songs;
use crate::song_list::master_table::songs_of;
use crate::song_list::master_table::Link;
use crate::song_list::master_table::LinkModel;
use crate::song_list::master_table::ListCell;
use crate::song_list::master_table::ListCellModel;
use crate::song_list::master_table::ListRow;
use crate::song_list::master_table::ListRowModel;
use crate::song_list::List;
use crate::song_list::SongModel;
use crate::error::StructureErrorModel;
use scraper::ElementRef;
use scraper::Html;
use scraper::Selector;
use vstd::prelude::*;

verus! {

/// The selector of the rows of the master table.
pub open spec fn list_row_css() -> Seq<char> {
    "div.content tbody > tr"@
}

/// The selector of the header cells of a row.
pub open spec fn header_cell_css() -> Seq<char> {
    "th"@
}

/// The selector of the data cells of a row.
pub open spec fn data_cell_css() -> Seq<char> {
    "td"@
}

/// The selector of the hyperlinks of a cell.
pub open spec fn link_css() -> Seq<char> {
    "a"@
}

/// The name of the attribute that holds a link's target.
pub open spec fn href_name() -> Seq<char> {
    "href"@
}

/// The four selectors, compiled.
pub ghost struct ListSelectors {
    pub rows: Selector,
    pub headers: Selector,
    pub cells: Selector,
    pub links: Selector,
}

/// The selectors that the master table is read with.
pub open spec fn list_selectors() -> ListSelectors {
    ListSelectors {
        rows: compiled_selector(list_row_css()).unwrap(),
        headers: compiled_selector(header_cell_css()).unwrap(),
        cells: compiled_selector(data_cell_css()).unwrap(),
        links: compiled_selector(link_css()).unwrap(),
    }
}

/// The hyperlink that the element `a` is.
pub open spec fn link_of(a: ElementRef) -> LinkModel {
    LinkModel {
        text: element_text(a),
        href: element_attr(a, href_name()),
        markup: element_markup(a),
    }
}

/// The cell that the element `td` is; its link is the first element below
/// it that `links` matches.
pub open spec fn list_cell_of(td: ElementRef, links: Selector) -> ListCellModel {
    let found = element_matches(td, links);
    ListCellModel {
        text: element_text(td),
        markup: element_markup(td),
        link: if found.len() > 0 {
            Some(link_of(found[0]))
        } else {
            None
        },
    }
}

/// The row that the element `tr` is.
pub open spec fn list_row_of(tr: ElementRef, with: ListSelectors) -> ListRowModel {
    ListRowModel {
        has_header: element_matches(tr, with.headers).len() > 0,
        cells: element_matches(tr, with.cells).map_values(
            |td: ElementRef| list_cell_of(td, with.links),
        ),
        markup: element_markup(tr),
    }
}

/// The rows of the master table of `document`, in document order.
pub open spec fn list_rows_of(document: Html) -> Seq<ListRowModel> {
    document_matches(document, list_selectors().rows).map_values(
        |tr: ElementRef| list_row_of(tr, list_selectors()),
    )
}

/// The list or the error as the contract of `extract` speaks of them.
pub open spec fn list_view(r: Result<List, StructureError>) -> Result<
    Seq<SongModel>,
    StructureErrorModel,
> {
    match r {
        Ok(list) => Ok(list@),
        Err(e) => Err(e@),
    }
}

/// Reads song lists. It holds its selectors compiled, so one extractor
/// serves any number of pages.
pub struct SongListExtractor {
    rows: Selector,
    headers: Selector,
    cells: Selector,
    links: Selector,
}

impl SongListExtractor {
    #[verifier::type_invariant]
    spec fn holds_compiled_selectors(&self) -> bool {
        &&& compiled_selector(list_row_css()) == Some(self.rows)
        &&& compiled_selector(header_cell_css()) == Some(self.headers)
        &&& compiled_selector(data_cell_css()) == Some(self.cells)
        &&& compiled_selector(link_css()) == Some(self.links)
    }

    /// Compiles the four selectors. `None` where one of them does not
    /// compile.
    pub fn new() -> (r: Option<Self>)
        ensures
            r.is_some() == (compiled_selector(list_row_css()).is_some() && compiled_selector(
                header_cell_css(),
            ).is_some() && compiled_selector(data_cell_css()).is_some() && compiled_selector(
                link_css(),
            ).is_some()),
    {
        let rows = compile_selector("div.content tbody > tr");
        let headers = compile_selector("th");
        let cells = compile_selector("td");
        let links = compile_selector("a");
        match (rows, headers, cells, links) {
            (Some(rows), Some(headers), Some(cells), Some(links)) => Some(
                SongListExtractor { rows, headers, cells, links },
            ),
            _ => None,
        }
    }

    /// Reads one hyperlink.
    fn read_link(a: ElementRef) -> (r: Link)
        ensures
            r@ == link_of(a),
    {
        Link { text: text_of(a), href: attr_of(a, "href"), markup: markup_of(a) }
    }

    /// Reads one data cell.
    fn read_cell(&self, td: ElementRef) -> (r: ListCell)
        ensures
            r@ == list_cell_of(td, list_selectors().links),
    {
        proof {
            use_type_invariant(self);
        }
        let found = select_in_element(td, &self.links);
        let link = if found.len() > 0 {
            Some(Self::read_link(found[0]))
        } else {
            None
        };
        ListCell { text: text_of(td), markup: markup_of(td), link }
    }

    /// Reads one row.
    fn read_row(&self, tr: ElementRef) -> (r: ListRow)
        ensures
            r@ == list_row_of(tr, list_selectors()),
    {
        proof {
            use_type_invariant(self);
        }
        let headers = select_in_element(tr, &self.headers);
        let found = select_in_element(tr, &self.cells);
        let mut cells: Vec<ListCell> = Vec::new();
        let mut i: usize = 0;
        while i < found.len()
            invariant
                i <= found.len(),
                found@ == element_matches(tr, list_selectors().cells),
                cells.len() == i,
                forall|j: int| 0 <= j < i ==> (#[trigger] cells[j])@ == list_cell_of(
                    found[j],
                    list_selectors().links,
                ),
            decreases found.len() - i,
        {
            let cell = self.read_cell(found[i]);
            cells.push(cell);
            i = i + 1;
        }
        assert(cells.deep_view() =~= element_matches(tr, list_selectors().cells).map_values(
            |td: ElementRef| list_cell_of(td, list_selectors().links),
        ));
        ListRow { has_header: headers.len() > 0, cells, markup: markup_of(tr) }
    }

    /// The rows of the master table of `document`.
    fn rows_in(&self, document: &Html) -> (r: Vec<ListRow>)
        ensures
            r.deep_view() == list_rows_of(*document),
    {
        proof {
            use_type_invariant(self);
        }
        let found = select_in_document(document, &self.rows);
        let mut out: Vec<ListRow> = Vec::new();
        let mut i: usize = 0;
        while i < found.len()
            invariant
                i <= found.len(),
                found@ == document_matches(*document, list_selectors().rows),
                out.len() == i,
                forall|j: int| 0 <= j < i ==> (#[trigger] out[j])@ == list_row_of(
                    found[j],
                    list_selectors(),
                ),
            decreases found.len() - i,
        {
            let row = self.read_row(found[i]);
            out.push(row);
            i = i + 1;
        }
        assert(out.deep_view() =~= list_rows_of(*document));
        out
    }

    /// The rows of the master table in the HTML of the song-list page, in
    /// document order, each with what the extraction reads of it.
    pub fn read_rows(&self, html: &str) -> (r: Vec<ListRow>)
        ensures
            r.deep_view() == list_rows_of(document_tree(html@)),
    {
        let document = parse_document(html);
        self.rows_in(&document)
    }

    /// Reads the song list from the HTML of its page. The songs come in
    /// the order of the rows; the first error ends the reading.
    pub fn extract(&self, html: &str) -> (r: Result<List, StructureError>)
        ensures
            list_view(r) == songs_of(list_rows_of(document_tree(html@))),
    {
        let rows = self.read_rows(html);
        match extract_songs(&rows) {
            Ok(songs) => Ok(List { songs }),
            Err(e) => Err(e),
        }
    }
}

} // verus!
