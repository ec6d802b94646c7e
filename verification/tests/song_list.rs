use shiny_live_history_diagram::date::CalendarDate;
use shiny_live_history_diagram::error::Problem;
use shiny_live_history_diagram::song_list::extractor::SongListExtractor;
use shiny_live_history_diagram::song_list::master_table::classify_row;
use shiny_live_history_diagram::song_list::master_table::extract_songs;
use shiny_live_history_diagram::song_list::master_table::read_first_appearance;
use shiny_live_history_diagram::song_list::master_table::read_song;
use shiny_live_history_diagram::song_list::master_table::read_title_and_link;
use shiny_live_history_diagram::song_list::master_table::Link;
use shiny_live_history_diagram::song_list::master_table::ListCell;
use shiny_live_history_diagram::song_list::master_table::ListRow;
use shiny_live_history_diagram::song_list::master_table::RowKind;
use shiny_live_history_diagram::song_list::Artist;
use shiny_live_history_diagram::song_list::FirstAppearanceDate;
use shiny_live_history_diagram::song_list::FirstAppearanceMaterial;
use shiny_live_history_diagram::song_list::GenreCode;
use shiny_live_history_diagram::song_list::List;
use shiny_live_history_diagram::song_list::Song;
use shiny_live_history_diagram::song_list::SongTitle;
use shiny_live_history_diagram::PageTitle;

fn page(rows: &str) -> String {
    format!(
        "<html><body><div class=\"content\"><table><tbody>{}</tbody></table></div></body></html>",
        rows
    )
}

fn extract(rows: &str) -> Result<List, shiny_live_history_diagram::error::StructureError> {
    SongListExtractor::new().unwrap().extract(&page(rows))
}

fn cell(text: &str) -> ListCell {
    ListCell {
        text: text.to_string(),
        markup: format!("<td>{}</td>", text),
        link: None,
    }
}

fn link_cell(text: &str, href: Option<&str>) -> ListCell {
    let markup = match href {
        Some(href) => format!("<a href=\"{}\">{}</a>", href, text),
        None => format!("<a>{}</a>", text),
    };
    ListCell {
        text: text.to_string(),
        markup: format!("<td>{}</td>", markup),
        link: Some(Link {
            text: text.to_string(),
            href: href.map(|h| h.to_string()),
            markup,
        }),
    }
}

fn row(cells: Vec<ListCell>) -> ListRow {
    let markup: String = cells.iter().map(|c| c.markup.as_str()).collect();
    ListRow {
        has_header: false,
        cells,
        markup: format!("<tr>{}</tr>", markup),
    }
}

fn entry(genre: &str, title: &str, date: &str) -> ListRow {
    row(vec![
        cell(genre),
        link_cell(title, Some(&format!("/{}", title))),
        cell("Artist"),
        cell(date),
        cell(" Material "),
    ])
}

#[test]
fn row_of_five_cells_gives_a_song() {
    let list = extract(
        "<tr><td>JPOP</td><td><a href='/Foo'>Foo</a></td><td>Bar</td><td>2020/01/01</td><td>  Album X  </td></tr>",
    )
    .unwrap();
    assert_eq!(list.songs.len(), 1);
    let song = &list.songs[0];
    assert_eq!(song.genre.as_str(), "JPOP");
    assert_eq!(song.title.as_str(), "Foo");
    assert_eq!(song.link.as_str(), "Foo");
    assert_eq!(song.artist.as_str(), "Bar");
    assert_eq!(
        song.date.get(),
        Some(CalendarDate {
            year: 2020,
            month: 1,
            day: 1
        })
    );
    assert_eq!(song.material.as_str(), "Album X");
}

#[test]
fn link_and_title_may_differ() {
    let list = extract(
        "<tr><td>G</td><td>see <a href=\"/%E5%85%A8/x\"><b>Shown</b> title</a> and <a href=\"/Other\">other</a></td><td> A </td><td>2019-12-31</td><td>M</td></tr>",
    )
    .unwrap();
    let song = &list.songs[0];
    assert_eq!(song.title.as_str(), "Shown title");
    assert_eq!(song.link.as_str(), "%E5%85%A8/x");
    assert_eq!(song.artist.as_str(), " A ");
    assert_eq!(
        song.date.get(),
        Some(CalendarDate {
            year: 2019,
            month: 12,
            day: 31
        })
    );
}

#[test]
fn unknown_date_gives_no_date() {
    let list = extract(
        "<tr><td>G</td><td><a href='/T'>T</a></td><td>A</td><td>0000/00/00</td><td>M</td></tr>",
    )
    .unwrap();
    assert_eq!(list.songs[0].date.get(), None);
}

#[test]
fn unknown_date_is_not_read_as_a_date() {
    let date = read_first_appearance(&cell("0000/00/00")).unwrap();
    assert_eq!(date, FirstAppearanceDate::new(None));
    let err = read_first_appearance(&cell(" 0000/00/00")).unwrap_err();
    assert!(matches!(err.problem, Problem::InvalidDate { text } if text == " 0000/00/00"));
}

#[test]
fn header_and_section_rows_give_no_song() {
    let list = extract(
        "<tr><th>Genre</th><th>Title</th></tr>\
         <tr><td>Section one</td></tr>\
         <tr><td>G1</td><td><a href='/A'>A</a></td><td>x</td><td>2001/02/03</td><td>m</td></tr>\
         <tr><th>again</th><td>a</td><td>b</td></tr>\
         <tr><td colspan=\"5\">Section two</td></tr>\
         <tr><td>G2</td><td><a href='/B'>B</a></td><td>y</td><td>0000/00/00</td><td>n</td></tr>",
    )
    .unwrap();
    assert_eq!(list.songs.len(), 2);
    assert_eq!(list.songs[0].title.as_str(), "A");
    assert_eq!(list.songs[0].genre.as_str(), "G1");
    assert_eq!(list.songs[1].title.as_str(), "B");
    assert_eq!(list.songs[1].genre.as_str(), "G2");
}

#[test]
fn row_of_one_cell_alone_is_no_error() {
    let list = extract("<tr><td>Only a heading</td></tr>").unwrap();
    assert!(list.songs.is_empty());
}

#[test]
fn empty_table_gives_an_empty_list() {
    assert!(extract("").unwrap().songs.is_empty());
    let extractor = SongListExtractor::new().unwrap();
    assert!(extractor.extract("").unwrap().songs.is_empty());
    assert!(extractor
        .extract("<table><tbody><tr><td>a</td><td>b</td></tr></tbody></table>")
        .unwrap()
        .songs
        .is_empty());
}

#[test]
fn row_of_three_cells_is_an_error() {
    let err = extract(
        "<tr><td>G</td><td><a href='/A'>A</a></td><td>x</td><td>2001/02/03</td><td>m</td></tr>\
         <tr><td>a</td><td>b</td><td>c</td></tr>",
    )
    .unwrap_err();
    assert_eq!(err.markup, "<tr><td>a</td><td>b</td><td>c</td></tr>");
    assert!(err.song.is_none());
    match err.problem {
        Problem::CellCount { found, cells } => {
            assert_eq!(found, 3);
            assert_eq!(cells, vec!["<td>a</td>", "<td>b</td>", "<td>c</td>"]);
        }
        other => panic!("unexpected {:?}", other),
    }
}

#[test]
fn other_cell_counts_are_errors_too() {
    for n in [0usize, 2, 3, 4, 6, 7] {
        let cells: String = (0..n).map(|i| format!("<td>{}</td>", i)).collect();
        let err = extract(&format!("<tr>{}</tr>", cells)).unwrap_err();
        assert!(matches!(err.problem, Problem::CellCount { found, .. } if found == n));
    }
}

#[test]
fn title_cell_without_link_is_an_error() {
    let err = extract(
        "<tr><td>G</td><td>No link</td><td>x</td><td>2001/02/03</td><td>m</td></tr>",
    )
    .unwrap_err();
    assert!(matches!(err.problem, Problem::LinkMissing));
    assert_eq!(err.markup, "<td>No link</td>");
}

#[test]
fn link_without_href_is_an_error() {
    let err = extract(
        "<tr><td>G</td><td><a name=\"x\">T</a></td><td>x</td><td>2001/02/03</td><td>m</td></tr>",
    )
    .unwrap_err();
    assert!(matches!(err.problem, Problem::HrefMissing));
    assert_eq!(err.markup, "<a name=\"x\">T</a>");
}

#[test]
fn href_that_is_not_relative_is_an_error() {
    let err = extract(
        "<tr><td>G</td><td><a href=\"https://example.org/T\">T</a></td><td>x</td><td>2001/02/03</td><td>m</td></tr>",
    )
    .unwrap_err();
    assert!(
        matches!(err.problem, Problem::HrefNotRelative { href } if href == "https://example.org/T")
    );
    assert_eq!(err.markup, "<a href=\"https://example.org/T\">T</a>");
}

#[test]
fn date_that_does_not_parse_is_an_error() {
    let err = extract(
        "<tr><td>G</td><td><a href='/T'>T</a></td><td>x</td><td>2001/13/40</td><td>m</td></tr>",
    )
    .unwrap_err();
    assert!(matches!(err.problem, Problem::InvalidDate { text } if text == "2001/13/40"));
    assert_eq!(err.markup, "<td>2001/13/40</td>");
}

#[test]
fn link_is_checked_before_the_date() {
    let err = extract(
        "<tr><td>G</td><td>none</td><td>x</td><td>not a date</td><td>m</td></tr>",
    )
    .unwrap_err();
    assert!(matches!(err.problem, Problem::LinkMissing));
}

#[test]
fn first_error_wins_and_nothing_else_is_returned() {
    let err = extract(
        "<tr><td>G</td><td><a href='/A'>A</a></td><td>x</td><td>2001/02/03</td><td>m</td></tr>\
         <tr><td>G</td><td><a href='/B'>B</a></td><td>x</td><td>bad</td><td>m</td></tr>\
         <tr><td>1</td><td>2</td></tr>",
    )
    .unwrap_err();
    assert!(matches!(err.problem, Problem::InvalidDate { text } if text == "bad"));
}

#[test]
fn rows_are_read_in_document_order() {
    let extractor = SongListExtractor::new().unwrap();
    let rows = extractor.read_rows(&page(
        "<tr><th>h</th></tr><tr><td>one</td></tr><tr><td>a</td><td>b <a href=\"/x\">c</a></td></tr>",
    ));
    assert_eq!(rows.len(), 3);
    assert!(rows[0].has_header);
    assert_eq!(rows[0].cells.len(), 0);
    assert_eq!(rows[0].markup, "<tr><th>h</th></tr>");
    assert!(!rows[1].has_header);
    assert_eq!(rows[1].cells.len(), 1);
    assert_eq!(rows[1].cells[0].text, "one");
    assert_eq!(rows[1].cells[0].markup, "<td>one</td>");
    assert!(rows[1].cells[0].link.is_none());
    assert_eq!(rows[2].cells.len(), 2);
    assert_eq!(rows[2].cells[1].text, "b c");
    let link = rows[2].cells[1].link.as_ref().unwrap();
    assert_eq!(link.text, "c");
    assert_eq!(link.href.as_deref(), Some("/x"));
    assert_eq!(link.markup, "<a href=\"/x\">c</a>");
}

#[test]
fn rows_outside_the_content_block_are_not_read() {
    let extractor = SongListExtractor::new().unwrap();
    let list = extractor
        .extract(
            "<div class=\"other\"><table><tbody><tr><td>1</td><td>2</td></tr></tbody></table></div>\
             <div class=\"content\"><table><tr><td>G</td><td><a href='/A'>A</a></td><td>x</td><td>2001/02/03</td><td>m</td></tr></table></div>",
        )
        .unwrap();
    assert_eq!(list.songs.len(), 1);
    assert_eq!(list.songs[0].link.as_str(), "A");
}

#[test]
fn rows_are_classified_by_their_cells() {
    let mut header = row(vec![cell("a"), cell("b"), cell("c"), cell("d"), cell("e")]);
    header.has_header = true;
    assert_eq!(classify_row(&header), RowKind::Header);
    assert_eq!(classify_row(&row(vec![cell("a")])), RowKind::Section);
    assert_eq!(classify_row(&entry("G", "T", "2000/01/01")), RowKind::Entry);
    assert_eq!(classify_row(&row(vec![])), RowKind::Malformed);
    assert_eq!(
        classify_row(&row(vec![cell("a"), cell("b"), cell("c")])),
        RowKind::Malformed
    );
}

#[test]
fn songs_from_rows_without_a_page() {
    let rows = vec![
        row(vec![cell("Section")]),
        entry("G1", "One", "2000/01/02"),
        entry("G2", "Two", "0000/00/00"),
    ];
    let songs = extract_songs(&rows).unwrap();
    assert_eq!(songs.len(), 2);
    assert_eq!(songs[0].title.as_str(), "One");
    assert_eq!(songs[0].link.as_str(), "One");
    assert_eq!(songs[0].material.as_str(), "Material");
    assert_eq!(
        songs[0].date.get(),
        Some(CalendarDate {
            year: 2000,
            month: 1,
            day: 2
        })
    );
    assert_eq!(songs[1].date.get(), None);
    let rows = vec![entry("G1", "One", "2000/01/02"), row(vec![cell("a"), cell("b")])];
    let err = extract_songs(&rows).unwrap_err();
    assert!(matches!(err.problem, Problem::CellCount { found: 2, .. }));
    assert_eq!(err.markup, "<tr><td>a</td><td>b</td></tr>");
}

#[test]
fn read_song_wants_five_cells() {
    let err = read_song(&row(vec![cell("a"), cell("b")])).unwrap_err();
    assert!(matches!(err.problem, Problem::CellCount { found: 2, .. }));
    let song = read_song(&entry("G", "T", "2010-10-10")).unwrap();
    assert_eq!(song.genre.as_str(), "G");
}

#[test]
fn title_and_link_come_from_the_link() {
    let (title, link) = read_title_and_link(&link_cell("Shown", Some("/Target"))).unwrap();
    assert_eq!(title.as_str(), "Shown");
    assert_eq!(link.as_str(), "Target");
    let (_, link) = read_title_and_link(&link_cell("Shown", Some("/"))).unwrap();
    assert_eq!(link.as_str(), "");
    let err = read_title_and_link(&link_cell("Shown", Some(""))).unwrap_err();
    assert!(matches!(err.problem, Problem::HrefNotRelative { href } if href.is_empty()));
    let err = read_title_and_link(&link_cell("Shown", None)).unwrap_err();
    assert!(matches!(err.problem, Problem::HrefMissing));
    assert_eq!(err.markup, "<a>Shown</a>");
    let err = read_title_and_link(&cell("Shown")).unwrap_err();
    assert!(matches!(err.problem, Problem::LinkMissing));
    assert_eq!(err.markup, "<td>Shown</td>");
}

fn song(genre: &str, title: &str) -> Song {
    Song {
        genre: GenreCode::new(genre.to_string()),
        title: SongTitle::new(title.to_string()),
        artist: Artist::new(String::new()),
        link: PageTitle::new(title.to_string()),
        date: FirstAppearanceDate::new(None),
        material: FirstAppearanceMaterial::new(String::new()),
    }
}

#[test]
fn songs_are_chosen_by_genre() {
    let list = List {
        songs: vec![
            song("A", "1"),
            song("B", "2"),
            song("C", "3"),
            song("A", "4"),
        ],
    };
    let filter = vec![
        GenreCode::new("A".to_string()),
        GenreCode::new("C".to_string()),
    ];
    assert_eq!(list.chosen(&filter), vec![0, 2, 3]);
    assert_eq!(list.chosen(&vec![]), Vec::<usize>::new());
    assert_eq!(
        list.chosen(&vec![GenreCode::new("Z".to_string())]),
        Vec::<usize>::new()
    );
    assert!(GenreCode::new("A".to_string()).is_in(&filter));
    assert!(!GenreCode::new("a".to_string()).is_in(&filter));
}

#[test]
fn genre_codes_compare_by_their_text() {
    let a = GenreCode::from("A".to_string());
    let b = GenreCode::new("B".to_string());
    assert!(a.same(&a.clone()));
    assert!(!a.same(&b));
    assert_eq!(a, GenreCode::new("A".to_string()));
    assert!(a < b);
    assert_eq!(a.to_string(), "A");
}
