//! The song list, read from the rows of the master table.

use crate::date::chrono_date;
use crate::date::first_reading;
use crate::date::hyphen_format;
use crate::date::parse_date_permissive;
use crate::date::slash_format;
use crate::date::CalendarDate;
use crate::error::Problem;
use crate::error::ProblemModel;
use crate::error::StructureError;
use crate::error::StructureErrorModel;
use crate::song_list::Artist;
use crate::song_list::FirstAppearanceDate;
use crate::song_list::FirstAppearanceMaterial;
use crate::song_list::GenreCode;
use crate::song_list::Song;
use crate::song_list::SongModel;
use crate::song_list::SongTitle;
use crate::text::same_text;
use crate::text::starts_with_char;
use crate::text::strip_prefix_char;
use crate::text::trim;
use crate::text::trimmed;
use crate::title::PageTitle;
use vstd::prelude::*;
use vstd::string::*;

verus! {

/// A hyperlink: its visible text, its `href` where it has one, its markup.
#[derive(Debug)]
pub struct Link {
    pub text: String,
    pub href: Option<String>,
    pub markup: String,
}

/// A `Link` with its texts as sequences of characters.
pub ghost struct LinkModel {
    pub text: Seq<char>,
    pub href: Option<Seq<char>>,
    pub markup: Seq<char>,
}

impl View for Link {
    type V = LinkModel;

    open spec fn view(&self) -> LinkModel {
        LinkModel {
            text: self.text@,
            href: match self.href {
                Some(href) => Some(href@),
                None => None,
            },
            markup: self.markup@,
        }
    }
}

/// A data cell of the master table: its text, its markup, and the first
/// hyperlink in it.
#[derive(Debug)]
pub struct ListCell {
    pub text: String,
    pub markup: String,
    pub link: Option<Link>,
}

/// A `ListCell` with its texts as sequences of characters.
pub ghost struct ListCellModel {
    pub text: Seq<char>,
    pub markup: Seq<char>,
    pub link: Option<LinkModel>,
}

impl View for ListCell {
    type V = ListCellModel;

    open spec fn view(&self) -> ListCellModel {
        ListCellModel {
            text: self.text@,
            markup: self.markup@,
            link: match self.link {
                Some(link) => Some(link@),
                None => None,
            },
        }
    }
}

impl DeepView for ListCell {
    type V = ListCellModel;

    open spec fn deep_view(&self) -> ListCellModel {
        self.view()
    }
}

/// A row of the master table: whether it holds a header cell, its data
/// cells, and its markup.
#[derive(Debug)]
pub struct ListRow {
    pub has_header: bool,
    pub cells: Vec<ListCell>,
    pub markup: String,
}

/// A `ListRow` with its texts as sequences of characters.
pub ghost struct ListRowModel {
    pub has_header: bool,
    pub cells: Seq<ListCellModel>,
    pub markup: Seq<char>,
}

impl View for ListRow {
    type V = ListRowModel;

    open spec fn view(&self) -> ListRowModel {
        ListRowModel {
            has_header: self.has_header,
            cells: self.cells.deep_view(),
            markup: self.markup@,
        }
    }
}

impl DeepView for ListRow {
    type V = ListRowModel;

    open spec fn deep_view(&self) -> ListRowModel {
        self.view()
    }
}

/// What a row of the master table is.
#[derive(Clone, Copy, Debug, PartialEq, Eq, Structural)]
pub enum RowKind {
    /// It holds a header cell: no song.
    Header,
    /// It holds one data cell, the heading of a section: no song.
    Section,
    /// It holds five data cells: one song.
    Entry,
    /// It holds another number of data cells: an error.
    Malformed,
}

/// The kind of `row`. A header cell decides before the data cells are
/// counted.
pub open spec fn row_kind(row: ListRowModel) -> RowKind {
    if row.has_header {
        RowKind::Header
    } else if row.cells.len() == 1 {
        RowKind::Section
    } else if row.cells.len() == 5 {
        RowKind::Entry
    } else {
        RowKind::Malformed
    }
}

/// Tells what `row` is.
pub fn classify_row(row: &ListRow) -> (r: RowKind)
    ensures
        r == row_kind(row@),
{
    if row.has_header {
        RowKind::Header
    } else if row.cells.len() == 1 {
        RowKind::Section
    } else if row.cells.len() == 5 {
        RowKind::Entry
    } else {
        RowKind::Malformed
    }
}

/// The text that stands for an unknown date.
pub open spec fn unknown_date_text() -> Seq<char> {
    "0000/00/00"@
}

/// The title and the link target that the title cell gives: the text of its
/// link, and the link's `href` without the `/` it starts with. Without a
/// link, without an `href`, or with an `href` that starts otherwise, the
/// cell gives an error that carries the markup at fault.
pub open spec fn title_and_link(cell: ListCellModel) -> Result<
    (Seq<char>, Seq<char>),
    StructureErrorModel,
> {
    match cell.link {
        None => Err(
            StructureErrorModel {
                problem: ProblemModel::LinkMissing,
                markup: cell.markup,
                song: None,
            },
        ),
        Some(link) => match link.href {
            None => Err(
                StructureErrorModel {
                    problem: ProblemModel::HrefMissing,
                    markup: link.markup,
                    song: None,
                },
            ),
            Some(href) => if starts_with_char(href, '/') {
                Ok((link.text, href.drop_first()))
            } else {
                Err(
                    StructureErrorModel {
                        problem: ProblemModel::HrefNotRelative { href },
                        markup: link.markup,
                        song: None,
                    },
                )
            },
        },
    }
}

/// The date that the date cell gives: unknown for the text that stands for
/// it, whatever a date parser would make of that text; else what the
/// permissive parser reads, or the error that names the text.
pub open spec fn first_appearance(cell: ListCellModel) -> Result<
    Option<CalendarDate>,
    StructureErrorModel,
> {
    if cell.text == unknown_date_text() {
        Ok(None)
    } else {
        match first_reading(
            chrono_date(cell.text, slash_format()),
            chrono_date(cell.text, hyphen_format()),
            cell.text,
        ) {
            Ok(date) => Ok(Some(date)),
            Err(text) => Err(
                StructureErrorModel {
                    problem: ProblemModel::InvalidDate { text },
                    markup: cell.markup,
                    song: None,
                },
            ),
        }
    }
}

/// The song that a row of five cells describes: genre, title with link,
/// artist, date and material, in that order. The first cell that is amiss,
/// in that order, gives the error. A row of another number of cells
/// describes no song.
pub open spec fn song_of(row: ListRowModel) -> Result<SongModel, StructureErrorModel> {
    if row.cells.len() != 5 {
        Err(cell_count_error(row))
    } else {
        match title_and_link(row.cells[1]) {
            Err(e) => Err(e),
            Ok((title, link)) => match first_appearance(row.cells[3]) {
                Err(e) => Err(e),
                Ok(date) => Ok(
                    SongModel {
                        genre: row.cells[0].text,
                        title,
                        artist: row.cells[2].text,
                        link,
                        date,
                        material: trimmed(row.cells[4].text),
                    },
                ),
            },
        }
    }
}

/// The error for a row with a wrong number of data cells: it tells the
/// number, the markup of each cell, and the markup of the row.
pub open spec fn cell_count_error(row: ListRowModel) -> StructureErrorModel {
    StructureErrorModel {
        problem: ProblemModel::CellCount {
            found: row.cells.len() as usize,
            cells: row.cells.map_values(|c: ListCellModel| c.markup),
        },
        markup: row.markup,
        song: None,
    }
}

/// The songs of the master table, in the order of its rows, or the error of
/// the first row that has one. Header rows and section rows give no song.
pub open spec fn songs_of(rows: Seq<ListRowModel>) -> Result<Seq<SongModel>, StructureErrorModel>
    decreases rows.len(),
{
    if rows.len() == 0 {
        Ok(Seq::empty())
    } else {
        match songs_of(rows.drop_last()) {
            Err(e) => Err(e),
            Ok(earlier) => match row_kind(rows.last()) {
                RowKind::Header => Ok(earlier),
                RowKind::Section => Ok(earlier),
                RowKind::Entry => match song_of(rows.last()) {
                    Ok(song) => Ok(earlier.push(song)),
                    Err(e) => Err(e),
                },
                RowKind::Malformed => Err(cell_count_error(rows.last())),
            },
        }
    }
}

/// The song or the error as the contracts of this module speak of them.
pub open spec fn song_view(r: Result<Song, StructureError>) -> Result<
    SongModel,
    StructureErrorModel,
> {
    match r {
        Ok(song) => Ok(song@),
        Err(e) => Err(e@),
    }
}

/// The songs or the error as the contracts of this module speak of them.
pub open spec fn songs_view(r: Result<Vec<Song>, StructureError>) -> Result<
    Seq<SongModel>,
    StructureErrorModel,
> {
    match r {
        Ok(songs) => Ok(songs.deep_view()),
        Err(e) => Err(e@),
    }
}

/// Reads the title and the link target from the title cell.
pub fn read_title_and_link(cell: &ListCell) -> (r: Result<(SongTitle, PageTitle), StructureError>)
    ensures
        match r {
            Ok((title, link)) => title_and_link(cell@) == Ok::<
                (Seq<char>, Seq<char>),
                StructureErrorModel,
            >((title@, link@)),
            Err(e) => title_and_link(cell@) == Err::<(Seq<char>, Seq<char>), StructureErrorModel>(
                e@,
            ),
        },
{
    let link = match &cell.link {
        Some(link) => link,
        None => {
            return Err(
                StructureError {
                    problem: Problem::LinkMissing,
                    markup: cell.markup.clone(),
                    song: None,
                },
            );
        },
    };
    let href = match &link.href {
        Some(href) => href,
        None => {
            return Err(
                StructureError {
                    problem: Problem::HrefMissing,
                    markup: link.markup.clone(),
                    song: None,
                },
            );
        },
    };
    match strip_prefix_char(href.as_str(), '/') {
        Some(target) => Ok(
            (SongTitle::new(link.text.clone()), PageTitle::new(String::from_str(target))),
        ),
        None => Err(
            StructureError {
                problem: Problem::HrefNotRelative { href: href.clone() },
                markup: link.markup.clone(),
                song: None,
            },
        ),
    }
}

/// Reads the date of first appearance from the date cell. The text that
/// stands for an unknown date is never handed to the date parser.
pub fn read_first_appearance(cell: &ListCell) -> (r: Result<FirstAppearanceDate, StructureError>)
    ensures
        match r {
            Ok(date) => first_appearance(cell@) == Ok::<Option<CalendarDate>, StructureErrorModel>(
                date@,
            ),
            Err(e) => first_appearance(cell@) == Err::<Option<CalendarDate>, StructureErrorModel>(
                e@,
            ),
        },
        cell@.text == unknown_date_text() ==> (r matches Ok(date) && date@.is_none()),
{
    if same_text(cell.text.as_str(), "0000/00/00") {
        return Ok(FirstAppearanceDate::new(None));
    }
    match parse_date_permissive(cell.text.as_str()) {
        Ok(date) => Ok(FirstAppearanceDate::new(Some(date))),
        Err(e) => Err(
            StructureError {
                problem: Problem::InvalidDate { text: e.text },
                markup: cell.markup.clone(),
                song: None,
            },
        ),
    }
}

/// Reads the song that a row of five cells describes.
pub fn read_song(row: &ListRow) -> (r: Result<Song, StructureError>)
    ensures
        song_view(r) == song_of(row@),
{
    if row.cells.len() != 5 {
        return Err(report_cell_count(row));
    }
    assert(row@.cells[0] == row.cells[0]@);
    assert(row@.cells[1] == row.cells[1]@);
    assert(row@.cells[2] == row.cells[2]@);
    assert(row@.cells[3] == row.cells[3]@);
    assert(row@.cells[4] == row.cells[4]@);
    let genre = GenreCode::new(row.cells[0].text.clone());
    let (title, link) = match read_title_and_link(&row.cells[1]) {
        Ok(found) => found,
        Err(e) => {
            return Err(e);
        },
    };
    let artist = Artist::new(row.cells[2].text.clone());
    let date = match read_first_appearance(&row.cells[3]) {
        Ok(date) => date,
        Err(e) => {
            return Err(e);
        },
    };
    let material = FirstAppearanceMaterial::new(
        String::from_str(trim(row.cells[4].text.as_str())),
    );
    Ok(Song { genre, title, artist, link, date, material })
}

/// The error for a row with a wrong number of data cells.
fn report_cell_count(row: &ListRow) -> (r: StructureError)
    ensures
        r@ == cell_count_error(row@),
{
    let mut cells: Vec<String> = Vec::new();
    let mut i: usize = 0;
    while i < row.cells.len()
        invariant
            i <= row.cells.len(),
            cells.len() == i,
            forall|j: int| 0 <= j < i ==> (#[trigger] cells[j])@ == row.cells[j].markup@,
        decreases row.cells.len() - i,
    {
        cells.push(row.cells[i].markup.clone());
        i = i + 1;
    }
    assert(cells.deep_view() =~= row@.cells.map_values(|c: ListCellModel| c.markup));
    StructureError {
        problem: Problem::CellCount { found: row.cells.len(), cells },
        markup: row.markup.clone(),
        song: None,
    }
}

/// Reads the song list from the rows of the master table, in their order.
/// The first error ends the reading; no song is returned beside it.
pub fn extract_songs(rows: &Vec<ListRow>) -> (r: Result<Vec<Song>, StructureError>)
    ensures
        songs_view(r) == songs_of(rows.deep_view()),
{
    let ghost all = rows.deep_view();
    let mut out: Vec<Song> = Vec::new();
    let mut i: usize = 0;
    assert(all.take(0) =~= Seq::<ListRowModel>::empty());
    assert(out.deep_view() =~= Seq::<SongModel>::empty());
    while i < rows.len()
        invariant
            all == rows.deep_view(),
            i <= rows.len(),
            songs_of(all.take(i as int)) == Ok::<Seq<SongModel>, StructureErrorModel>(
                out.deep_view(),
            ),
        decreases rows.len() - i,
    {
        let ghost before = out.deep_view();
        proof {
            assert(all.take(i + 1).drop_last() =~= all.take(i as int));
            assert(all.take(i + 1).last() == rows[i as int]@);
        }
        match classify_row(&rows[i]) {
            RowKind::Header => {},
            RowKind::Section => {},
            RowKind::Entry => match read_song(&rows[i]) {
                Ok(song) => {
                    out.push(song);
                    assert(out.deep_view() =~= before.push(song@));
                },
                Err(e) => {
                    proof {
                        lemma_list_error_stays(all, i + 1);
                    }
                    return Err(e);
                },
            },
            RowKind::Malformed => {
                proof {
                    lemma_list_error_stays(all, i + 1);
                }
                return Err(report_cell_count(&rows[i]));
            },
        }
        i = i + 1;
    }
    assert(all.take(i as int) =~= all);
    Ok(out)
}

/// Once a row has failed, the rows that follow change nothing: the error of
/// the first `n` rows is the error of all of them.
pub proof fn lemma_list_error_stays(rows: Seq<ListRowModel>, n: int)
    requires
        0 <= n <= rows.len(),
        songs_of(rows.take(n)) is Err,
    ensures
        songs_of(rows) == songs_of(rows.take(n)),
    decreases rows.len() - n,
{
    if n < rows.len() {
        let shorter = rows.drop_last();
        assert(shorter.take(n) =~= rows.take(n));
        lemma_list_error_stays(shorter, n);
    } else {
        assert(rows.take(n) =~= rows);
    }
}

/// The text that stands for an unknown date gives no date, whatever a date
/// parser would make of it.
pub proof fn lemma_unknown_date_is_not_parsed(cell: ListCellModel)
    requires
        cell.text == unknown_date_text(),
    ensures
        first_appearance(cell) == Ok::<Option<CalendarDate>, StructureErrorModel>(None),
{
}

/// A song whose date cell holds the text for an unknown date has no date.
pub proof fn lemma_song_of_unknown_date(row: ListRowModel)
    requires
        row.cells.len() == 5,
        row.cells[3].text == unknown_date_text(),
    ensures
        song_of(row) matches Ok(song) ==> song.date.is_none(),
{
}

/// A header row and a section row add no song and no error to what the rows
/// before them gave.
pub proof fn lemma_heading_rows_add_nothing(rows: Seq<ListRowModel>, row: ListRowModel)
    requires
        row_kind(row) == RowKind::Header || row_kind(row) == RowKind::Section,
    ensures
        songs_of(rows.push(row)) == songs_of(rows),
{
    assert(rows.push(row).drop_last() =~= rows);
}

/// A row without header cell whose data cells number neither one nor five
/// fails the whole table, wherever it stands.
pub proof fn lemma_malformed_row_fails(rows: Seq<ListRowModel>, i: int)
    requires
        0 <= i < rows.len(),
        row_kind(rows[i]) == RowKind::Malformed,
    ensures
        songs_of(rows) is Err,
{
    assert(rows.take(i + 1).drop_last() =~= rows.take(i));
    assert(rows.take(i + 1).last() == rows[i]);
    lemma_list_error_stays(rows, i + 1);
}

/// A table that is read without error gives at most one song for each row.
pub proof fn lemma_song_count(rows: Seq<ListRowModel>)
    ensures
        songs_of(rows) matches Ok(songs) ==> songs.len() <= rows.len(),
    decreases rows.len(),
{
    if rows.len() > 0 {
        lemma_song_count(rows.drop_last());
    }
}

} // verus!
